use cess_ffi::buffer::Buf;
use cess_ffi::heap::Heap;
use cess_ffi::post::cess_GenerateWindowPoStResponse;
use cess_ffi::proofs::cess_PoStProof;
use cess_ffi::registry::cess_RegisteredPoStProof;
use cess_ffi::responses::{
    cess_AggregateProof, cess_StringResponse, cess_VerifySealResponse, failed_aggregate_proof,
};
use cess_ffi::status::FCPResponseStatus;

#[test]
fn error_envelope_on_verify_seal() {
    let mut h = Heap::new();
    let mut r = cess_VerifySealResponse::default();
    r.set_error(&mut h, FCPResponseStatus::FCPCallerError, &b"invalid input size".to_vec());
    assert_eq!(r.status_code, FCPResponseStatus::FCPCallerError);
    assert_ne!(r.error_msg.ptr, 0);
    assert_eq!(h.read(r.error_msg.ptr).as_slice(), b"invalid input size\0");
    // payload fields stay at their zero defaults
    assert!(!r.is_valid);
    r.destroy(&mut h);
    assert_eq!(h.live_allocations(), 0);
}

#[test]
fn error_envelope_on_string_response() {
    let mut h = Heap::new();
    let mut r = cess_StringResponse::default();
    r.set_error(&mut h, FCPResponseStatus::FCPReceiverError, &b"internal fault".to_vec());
    assert_eq!(r.status_code, FCPResponseStatus::FCPReceiverError);
    assert_ne!(r.error_msg.ptr, 0);
    assert_eq!(h.read(r.error_msg.ptr).as_slice(), b"internal fault\0");
    // the payload string stays null
    assert_eq!(r.string_val.ptr, 0);
    assert_eq!(r.string_val.len, 0);
    r.destroy(&mut h);
    assert_eq!(h.live_allocations(), 0);
}

#[test]
fn error_envelope_on_window_post() {
    let mut h = Heap::new();
    let mut r = cess_GenerateWindowPoStResponse::default();
    r.set_error(&mut h, FCPResponseStatus::FCPUnclassifiedError, &b"engine failure".to_vec());
    assert_eq!(r.status_code, FCPResponseStatus::FCPUnclassifiedError);
    assert_ne!(r.error_msg.ptr, 0);
    assert_eq!(h.read(r.error_msg.ptr).as_slice(), b"engine failure\0");
    assert_eq!(r.proofs.len(), 0);
    assert_eq!(r.faulty_sectors.len(), 0);
    r.destroy(&mut h);
    assert_eq!(h.live_allocations(), 0);
}

#[test]
fn failed_aggregate_proof_construction() {
    let mut h = Heap::new();
    let r = failed_aggregate_proof(&mut h, FCPResponseStatus::FCPCallerError, &b"boom".to_vec());
    assert_eq!(r.status_code, FCPResponseStatus::FCPCallerError);
    assert_ne!(r.error_msg.ptr, 0);
    assert_eq!(h.read(r.error_msg.ptr).as_slice(), b"boom\0");
    assert_eq!(r.proof.ptr, 0);
    assert_eq!(r.proof.len, 0);
    assert_eq!(h.live_allocations(), 1);
    r.destroy(&mut h);
    assert_eq!(h.live_allocations(), 0);
}

#[test]
fn success_aggregate_proof_lifecycle() {
    let mut h = Heap::new();
    let mut r = cess_AggregateProof::default();
    r.proof = Buf::wrap(&mut h, vec![0xaa, 0xbb, 0xcc]);
    assert_eq!(r.status_code, FCPResponseStatus::FCPNoError);
    assert_eq!(r.error_msg.ptr, 0);
    assert_eq!(h.read(r.proof.ptr).as_slice(), &[0xaa, 0xbb, 0xcc]);
    r.destroy(&mut h);
    assert_eq!(h.live_allocations(), 0);
}

#[test]
fn window_post_destroy_releases_every_proof() {
    let mut h = Heap::new();
    let mut r = cess_GenerateWindowPoStResponse::default();
    let b1 = Buf::wrap(&mut h, vec![1u8]);
    let b2 = Buf::wrap(&mut h, vec![2u8, 2]);
    let b3 = Buf::wrap(&mut h, vec![3u8, 3, 3]);
    r.proofs.push(cess_PoStProof {
        registered_proof: cess_RegisteredPoStProof::StackedDrgWindow2KiBV1,
        proof: b1,
    });
    r.proofs.push(cess_PoStProof {
        registered_proof: cess_RegisteredPoStProof::StackedDrgWindow8MiBV1,
        proof: b2,
    });
    r.proofs.push(cess_PoStProof {
        registered_proof: cess_RegisteredPoStProof::StackedDrgWindow32MiBV1,
        proof: b3,
    });
    r.faulty_sectors.push(11);
    r.faulty_sectors.push(12);
    assert_eq!(h.live_allocations(), 3);
    r.destroy(&mut h);
    assert!(!h.is_live(b1.ptr));
    assert!(!h.is_live(b2.ptr));
    assert!(!h.is_live(b3.ptr));
    assert_eq!(h.live_allocations(), 0);
}

#[test]
fn destroy_leaves_unrelated_allocations_alone() {
    let mut h = Heap::new();
    let unrelated = Buf::wrap(&mut h, vec![42u8]);
    let mut r = cess_VerifySealResponse::default();
    r.set_error(&mut h, FCPResponseStatus::FCPCallerError, &b"no".to_vec());
    assert_eq!(h.live_allocations(), 2);
    r.destroy(&mut h);
    assert_eq!(h.live_allocations(), 1);
    assert!(h.is_live(unrelated.ptr));
    assert_eq!(h.read(unrelated.ptr).as_slice(), &[42u8]);
    Buf::release(&mut h, unrelated);
    assert_eq!(h.live_allocations(), 0);
}
