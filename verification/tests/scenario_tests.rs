use cess_ffi::buffer::Buf;
use cess_ffi::heap::Heap;
use cess_ffi::post::{cess_GenerateWinningPoStResponse, cess_SealCommitPhase2Response};
use cess_ffi::proofs::{
    cess_32ByteArray, cess_AggregationInputs, cess_PartitionSnarkProof, cess_PoStProof,
    cess_PublicPieceInfo, cess_VanillaProof, PieceInfo,
};
use cess_ffi::registry::cess_RegisteredPoStProof;
use cess_ffi::status::FCPResponseStatus;

#[test]
fn winning_post_success_record_lifecycle() {
    let mut h = Heap::new();
    let mut r = cess_GenerateWinningPoStResponse::default();
    let b0 = Buf::wrap(&mut h, vec![0x01, 0x02]);
    let b1 = Buf::wrap(&mut h, vec![0x03]);
    r.proofs.push(cess_PoStProof {
        registered_proof: cess_RegisteredPoStProof::StackedDrgWindow32GiBV1,
        proof: b0,
    });
    r.proofs.push(cess_PoStProof {
        registered_proof: cess_RegisteredPoStProof::StackedDrgWindow32GiBV1,
        proof: b1,
    });
    assert_eq!(r.status_code, FCPResponseStatus::FCPNoError);
    assert_eq!(r.proofs.len(), 2);
    assert_eq!(h.read(r.proofs[0].proof.ptr).as_slice(), &[0x01, 0x02]);
    assert_eq!(h.read(r.proofs[1].proof.ptr).as_slice(), &[0x03]);
    r.destroy(&mut h);
    assert_eq!(h.live_allocations(), 0);
}

fn inputs(id: u64, fill: u8) -> cess_AggregationInputs {
    cess_AggregationInputs {
        comm_r: cess_32ByteArray { inner: [fill; 32] },
        comm_d: cess_32ByteArray { inner: [fill.wrapping_add(1); 32] },
        sector_id: id,
        ticket: cess_32ByteArray { inner: [fill.wrapping_add(2); 32] },
        seed: cess_32ByteArray { inner: [fill.wrapping_add(3); 32] },
    }
}

#[test]
fn seal_commit_phase2_duplicate_fidelity() {
    let mut h = Heap::new();
    let mut r = cess_SealCommitPhase2Response::default();
    r.proof = Buf::wrap(&mut h, vec![9u8, 9]);
    r.commit_inputs.push(inputs(1, 0x10));
    r.commit_inputs.push(inputs(2, 0x20));
    r.commit_inputs.push(inputs(3, 0x30));
    let d = r.duplicate(&mut h);
    // field-wise equal ...
    assert_eq!(d.status_code, r.status_code);
    assert_eq!(d.commit_inputs.len(), 3);
    for i in 0..3 {
        assert_eq!(d.commit_inputs[i].sector_id, r.commit_inputs[i].sector_id);
        assert_eq!(d.commit_inputs[i].comm_r.inner, r.commit_inputs[i].comm_r.inner);
        assert_eq!(d.commit_inputs[i].comm_d.inner, r.commit_inputs[i].comm_d.inner);
        assert_eq!(d.commit_inputs[i].ticket.inner, r.commit_inputs[i].ticket.inner);
        assert_eq!(d.commit_inputs[i].seed.inner, r.commit_inputs[i].seed.inner);
    }
    assert_eq!(h.read(d.proof.ptr).as_slice(), &[9u8, 9]);
    // ... but independently owned
    assert_ne!(d.proof.ptr, r.proof.ptr);
    r.destroy(&mut h);
    assert!(h.is_live(d.proof.ptr));
    assert_eq!(h.read(d.proof.ptr).as_slice(), &[9u8, 9]);
    d.destroy(&mut h);
    assert_eq!(h.live_allocations(), 0);
}

#[test]
fn vanilla_proof_duplicate_and_destroy() {
    let mut h = Heap::new();
    let v = cess_VanillaProof { proof: Buf::wrap(&mut h, vec![5u8, 6, 7]) };
    let d = v.duplicate(&mut h);
    assert_ne!(d.proof.ptr, v.proof.ptr);
    assert_eq!(d.proof.len, 3);
    v.destroy(&mut h);
    assert_eq!(h.read(d.proof.ptr).as_slice(), &[5u8, 6, 7]);
    d.destroy(&mut h);
    assert_eq!(h.live_allocations(), 0);
}

#[test]
fn post_proof_into_internal_copies_and_releases() {
    let mut h = Heap::new();
    let p = cess_PoStProof {
        registered_proof: cess_RegisteredPoStProof::StackedDrgWinning512MiBV1,
        proof: Buf::wrap(&mut h, vec![0xde, 0xad]),
    };
    let internal = p.into_internal(&mut h);
    assert_eq!(internal.proof, vec![0xde, 0xad]);
    assert_eq!(
        cess_RegisteredPoStProof::from(internal.registered_proof),
        cess_RegisteredPoStProof::StackedDrgWinning512MiBV1
    );
    // the boundary allocation was released by the conversion
    assert_eq!(h.live_allocations(), 0);
}

#[test]
fn partition_snark_proof_duplicate_and_convert() {
    let mut h = Heap::new();
    let p = cess_PartitionSnarkProof {
        registered_proof: cess_RegisteredPoStProof::StackedDrgWindow64GiBV1,
        proof: Buf::wrap(&mut h, vec![0x0f]),
    };
    let d = p.duplicate(&mut h);
    assert_ne!(d.proof.ptr, p.proof.ptr);
    let internal = p.into_internal(&mut h);
    assert_eq!(internal.proof, vec![0x0f]);
    assert_eq!(h.read(d.proof.ptr).as_slice(), &[0x0f]);
    d.destroy(&mut h);
    assert_eq!(h.live_allocations(), 0);
}

#[test]
fn seal_commit_phase2_to_internal_output() {
    let mut h = Heap::new();
    let mut r = cess_SealCommitPhase2Response::default();
    r.proof = Buf::wrap(&mut h, vec![1u8, 2, 3]);
    let out = r.to_internal(&h);
    assert_eq!(out.proof, vec![1u8, 2, 3]);
    // the record still owns its allocation
    assert!(h.is_live(r.proof.ptr));
    r.destroy(&mut h);
    assert_eq!(h.live_allocations(), 0);
}

#[test]
fn piece_info_from_boundary_layout() {
    let p = cess_PublicPieceInfo { num_bytes: 2048, comm_p: [7u8; 32] };
    let info = PieceInfo::from(p);
    assert_eq!(info.commitment, [7u8; 32]);
    assert_eq!(info.size.0, 2048);
}
