use cess_ffi::heap::Heap;
use cess_ffi::registry::{cess_RegisteredPoStProof, cess_RegisteredSealProof};
use cess_ffi::status::FCPResponseStatus;
use cess_ffi::post::cess_GenerateSingleVanillaProofResponse;
use cess_ffi::post::cess_GenerateSingleWindowPoStWithVanillaResponse;
use cess_ffi::post::cess_GenerateWindowPoStResponse;
use cess_ffi::post::cess_GenerateWinningPoStResponse;
use cess_ffi::post::cess_MergeWindowPoStPartitionProofsResponse;
use cess_ffi::post::cess_SealCommitPhase2Response;
use cess_ffi::responses::cess_AggregateProof;
use cess_ffi::responses::cess_ClearCacheResponse;
use cess_ffi::responses::cess_FauxRepResponse;
use cess_ffi::responses::cess_FinalizeTicketResponse;
use cess_ffi::responses::cess_GenerateDataCommitmentResponse;
use cess_ffi::responses::cess_GenerateFallbackSectorChallengesResponse;
use cess_ffi::responses::cess_GeneratePieceCommitmentResponse;
use cess_ffi::responses::cess_GenerateWinningPoStSectorChallenge;
use cess_ffi::responses::cess_GetNumPartitionForFallbackPoStResponse;
use cess_ffi::responses::cess_SealCommitPhase1Response;
use cess_ffi::responses::cess_SealPreCommitPhase1Response;
use cess_ffi::responses::cess_SealPreCommitPhase2Response;
use cess_ffi::responses::cess_StringResponse;
use cess_ffi::responses::cess_UnsealRangeResponse;
use cess_ffi::responses::cess_VerifyAggregateSealProofResponse;
use cess_ffi::responses::cess_VerifySealResponse;
use cess_ffi::responses::cess_VerifyWindowPoStResponse;
use cess_ffi::responses::cess_VerifyWinningPoStResponse;
use cess_ffi::responses::cess_WriteWithAlignmentResponse;
use cess_ffi::responses::cess_WriteWithoutAlignmentResponse;

#[test]
fn default_unseal_range_response() {
    let r = cess_UnsealRangeResponse::default();
    assert_eq!(r.status_code, FCPResponseStatus::FCPNoError);
    assert_eq!(r.error_msg.ptr, 0);
    assert_eq!(r.error_msg.len, 0);
    let mut h = Heap::new();
    r.destroy(&mut h);
    assert_eq!(h.live_allocations(), 0);
}

#[test]
fn default_clear_cache_response() {
    let r = cess_ClearCacheResponse::default();
    assert_eq!(r.status_code, FCPResponseStatus::FCPNoError);
    assert_eq!(r.error_msg.ptr, 0);
    assert_eq!(r.error_msg.len, 0);
    let mut h = Heap::new();
    r.destroy(&mut h);
    assert_eq!(h.live_allocations(), 0);
}

#[test]
fn default_verify_seal_response() {
    let r = cess_VerifySealResponse::default();
    assert_eq!(r.status_code, FCPResponseStatus::FCPNoError);
    assert_eq!(r.error_msg.ptr, 0);
    assert_eq!(r.error_msg.len, 0);
    assert!(!r.is_valid);
    let mut h = Heap::new();
    r.destroy(&mut h);
    assert_eq!(h.live_allocations(), 0);
}

#[test]
fn default_verify_aggregate_seal_proof_response() {
    let r = cess_VerifyAggregateSealProofResponse::default();
    assert_eq!(r.status_code, FCPResponseStatus::FCPNoError);
    assert_eq!(r.error_msg.ptr, 0);
    assert_eq!(r.error_msg.len, 0);
    assert!(!r.is_valid);
    let mut h = Heap::new();
    r.destroy(&mut h);
    assert_eq!(h.live_allocations(), 0);
}

#[test]
fn default_verify_winning_post_response() {
    let r = cess_VerifyWinningPoStResponse::default();
    assert_eq!(r.status_code, FCPResponseStatus::FCPNoError);
    assert_eq!(r.error_msg.ptr, 0);
    assert_eq!(r.error_msg.len, 0);
    assert!(!r.is_valid);
    let mut h = Heap::new();
    r.destroy(&mut h);
    assert_eq!(h.live_allocations(), 0);
}

#[test]
fn default_verify_window_post_response() {
    let r = cess_VerifyWindowPoStResponse::default();
    assert_eq!(r.status_code, FCPResponseStatus::FCPNoError);
    assert_eq!(r.error_msg.ptr, 0);
    assert_eq!(r.error_msg.len, 0);
    assert!(!r.is_valid);
    let mut h = Heap::new();
    r.destroy(&mut h);
    assert_eq!(h.live_allocations(), 0);
}

#[test]
fn default_faux_rep_response() {
    let r = cess_FauxRepResponse::default();
    assert_eq!(r.status_code, FCPResponseStatus::FCPNoError);
    assert_eq!(r.error_msg.ptr, 0);
    assert_eq!(r.error_msg.len, 0);
    assert_eq!(r.commitment, [0u8; 32]);
    let mut h = Heap::new();
    r.destroy(&mut h);
    assert_eq!(h.live_allocations(), 0);
}

#[test]
fn default_finalize_ticket_response() {
    let r = cess_FinalizeTicketResponse::default();
    assert_eq!(r.status_code, FCPResponseStatus::FCPNoError);
    assert_eq!(r.error_msg.ptr, 0);
    assert_eq!(r.error_msg.len, 0);
    assert_eq!(r.ticket, [0u8; 32]);
    let mut h = Heap::new();
    r.destroy(&mut h);
    assert_eq!(h.live_allocations(), 0);
}

#[test]
fn default_generate_data_commitment_response() {
    let r = cess_GenerateDataCommitmentResponse::default();
    assert_eq!(r.status_code, FCPResponseStatus::FCPNoError);
    assert_eq!(r.error_msg.ptr, 0);
    assert_eq!(r.error_msg.len, 0);
    assert_eq!(r.comm_d, [0u8; 32]);
    let mut h = Heap::new();
    r.destroy(&mut h);
    assert_eq!(h.live_allocations(), 0);
}

#[test]
fn default_generate_piece_commitment_response() {
    let r = cess_GeneratePieceCommitmentResponse::default();
    assert_eq!(r.status_code, FCPResponseStatus::FCPNoError);
    assert_eq!(r.error_msg.ptr, 0);
    assert_eq!(r.error_msg.len, 0);
    assert_eq!(r.comm_p, [0u8; 32]);
    assert_eq!(r.num_bytes_aligned, 0);
    let mut h = Heap::new();
    r.destroy(&mut h);
    assert_eq!(h.live_allocations(), 0);
}

#[test]
fn default_write_with_alignment_response() {
    let r = cess_WriteWithAlignmentResponse::default();
    assert_eq!(r.status_code, FCPResponseStatus::FCPNoError);
    assert_eq!(r.error_msg.ptr, 0);
    assert_eq!(r.error_msg.len, 0);
    assert_eq!(r.comm_p, [0u8; 32]);
    assert_eq!(r.left_alignment_unpadded, 0);
    assert_eq!(r.total_write_unpadded, 0);
    let mut h = Heap::new();
    r.destroy(&mut h);
    assert_eq!(h.live_allocations(), 0);
}

#[test]
fn default_write_without_alignment_response() {
    let r = cess_WriteWithoutAlignmentResponse::default();
    assert_eq!(r.status_code, FCPResponseStatus::FCPNoError);
    assert_eq!(r.error_msg.ptr, 0);
    assert_eq!(r.error_msg.len, 0);
    assert_eq!(r.comm_p, [0u8; 32]);
    assert_eq!(r.total_write_unpadded, 0);
    let mut h = Heap::new();
    r.destroy(&mut h);
    assert_eq!(h.live_allocations(), 0);
}

#[test]
fn default_get_num_partition_for_fallback_post_response() {
    let r = cess_GetNumPartitionForFallbackPoStResponse::default();
    assert_eq!(r.status_code, FCPResponseStatus::FCPNoError);
    assert_eq!(r.error_msg.ptr, 0);
    assert_eq!(r.error_msg.len, 0);
    assert_eq!(r.num_partition, 0);
    let mut h = Heap::new();
    r.destroy(&mut h);
    assert_eq!(h.live_allocations(), 0);
}

#[test]
fn default_seal_pre_commit_phase2_response() {
    let r = cess_SealPreCommitPhase2Response::default();
    assert_eq!(r.status_code, FCPResponseStatus::FCPNoError);
    assert_eq!(r.error_msg.ptr, 0);
    assert_eq!(r.error_msg.len, 0);
    assert_eq!(r.registered_proof, cess_RegisteredSealProof::StackedDrg2KiBV1);
    assert_eq!(r.comm_d, [0u8; 32]);
    assert_eq!(r.comm_r, [0u8; 32]);
    let mut h = Heap::new();
    r.destroy(&mut h);
    assert_eq!(h.live_allocations(), 0);
}

#[test]
fn default_generate_winning_post_sector_challenge() {
    let r = cess_GenerateWinningPoStSectorChallenge::default();
    assert_eq!(r.status_code, FCPResponseStatus::FCPNoError);
    assert_eq!(r.error_msg.ptr, 0);
    assert_eq!(r.error_msg.len, 0);
    assert_eq!(r.ids.len(), 0);
    let mut h = Heap::new();
    r.destroy(&mut h);
    assert_eq!(h.live_allocations(), 0);
}

#[test]
fn default_generate_fallback_sector_challenges_response() {
    let r = cess_GenerateFallbackSectorChallengesResponse::default();
    assert_eq!(r.status_code, FCPResponseStatus::FCPNoError);
    assert_eq!(r.error_msg.ptr, 0);
    assert_eq!(r.error_msg.len, 0);
    assert_eq!(r.ids.len(), 0);
    assert_eq!(r.challenges.len(), 0);
    assert_eq!(r.challenges_stride, 0);
    let mut h = Heap::new();
    r.destroy(&mut h);
    assert_eq!(h.live_allocations(), 0);
}

#[test]
fn default_aggregate_proof() {
    let r = cess_AggregateProof::default();
    assert_eq!(r.status_code, FCPResponseStatus::FCPNoError);
    assert_eq!(r.error_msg.ptr, 0);
    assert_eq!(r.error_msg.len, 0);
    assert_eq!(r.proof.ptr, 0);
    assert_eq!(r.proof.len, 0);
    let mut h = Heap::new();
    r.destroy(&mut h);
    assert_eq!(h.live_allocations(), 0);
}

#[test]
fn default_seal_pre_commit_phase1_response() {
    let r = cess_SealPreCommitPhase1Response::default();
    assert_eq!(r.status_code, FCPResponseStatus::FCPNoError);
    assert_eq!(r.error_msg.ptr, 0);
    assert_eq!(r.error_msg.len, 0);
    assert_eq!(r.seal_pre_commit_phase1_output.ptr, 0);
    assert_eq!(r.seal_pre_commit_phase1_output.len, 0);
    let mut h = Heap::new();
    r.destroy(&mut h);
    assert_eq!(h.live_allocations(), 0);
}

#[test]
fn default_seal_commit_phase1_response() {
    let r = cess_SealCommitPhase1Response::default();
    assert_eq!(r.status_code, FCPResponseStatus::FCPNoError);
    assert_eq!(r.error_msg.ptr, 0);
    assert_eq!(r.error_msg.len, 0);
    assert_eq!(r.seal_commit_phase1_output.ptr, 0);
    assert_eq!(r.seal_commit_phase1_output.len, 0);
    let mut h = Heap::new();
    r.destroy(&mut h);
    assert_eq!(h.live_allocations(), 0);
}

#[test]
fn default_string_response() {
    let r = cess_StringResponse::default();
    assert_eq!(r.status_code, FCPResponseStatus::FCPNoError);
    assert_eq!(r.error_msg.ptr, 0);
    assert_eq!(r.error_msg.len, 0);
    assert_eq!(r.string_val.ptr, 0);
    assert_eq!(r.string_val.len, 0);
    let mut h = Heap::new();
    r.destroy(&mut h);
    assert_eq!(h.live_allocations(), 0);
}

#[test]
fn default_generate_single_vanilla_proof_response() {
    let r = cess_GenerateSingleVanillaProofResponse::default();
    assert_eq!(r.status_code, FCPResponseStatus::FCPNoError);
    assert_eq!(r.error_msg.ptr, 0);
    assert_eq!(r.error_msg.len, 0);
    assert_eq!(r.vanilla_proof.proof.ptr, 0);
    assert_eq!(r.vanilla_proof.proof.len, 0);
    let mut h = Heap::new();
    r.destroy(&mut h);
    assert_eq!(h.live_allocations(), 0);
}

#[test]
fn default_generate_winning_post_response() {
    let r = cess_GenerateWinningPoStResponse::default();
    assert_eq!(r.status_code, FCPResponseStatus::FCPNoError);
    assert_eq!(r.error_msg.ptr, 0);
    assert_eq!(r.error_msg.len, 0);
    assert_eq!(r.proofs.len(), 0);
    let mut h = Heap::new();
    r.destroy(&mut h);
    assert_eq!(h.live_allocations(), 0);
}

#[test]
fn default_generate_window_post_response() {
    let r = cess_GenerateWindowPoStResponse::default();
    assert_eq!(r.status_code, FCPResponseStatus::FCPNoError);
    assert_eq!(r.error_msg.ptr, 0);
    assert_eq!(r.error_msg.len, 0);
    assert_eq!(r.proofs.len(), 0);
    assert_eq!(r.faulty_sectors.len(), 0);
    let mut h = Heap::new();
    r.destroy(&mut h);
    assert_eq!(h.live_allocations(), 0);
}

#[test]
fn default_generate_single_window_post_with_vanilla_response() {
    let r = cess_GenerateSingleWindowPoStWithVanillaResponse::default();
    assert_eq!(r.status_code, FCPResponseStatus::FCPNoError);
    assert_eq!(r.error_msg.ptr, 0);
    assert_eq!(r.error_msg.len, 0);
    assert_eq!(r.partition_proof.proof.ptr, 0);
    assert_eq!(r.partition_proof.registered_proof, cess_RegisteredPoStProof::StackedDrgWinning2KiBV1);
    assert_eq!(r.faulty_sectors.len(), 0);
    let mut h = Heap::new();
    r.destroy(&mut h);
    assert_eq!(h.live_allocations(), 0);
}

#[test]
fn default_merge_window_post_partition_proofs_response() {
    let r = cess_MergeWindowPoStPartitionProofsResponse::default();
    assert_eq!(r.status_code, FCPResponseStatus::FCPNoError);
    assert_eq!(r.error_msg.ptr, 0);
    assert_eq!(r.error_msg.len, 0);
    assert_eq!(r.proof.proof.ptr, 0);
    assert_eq!(r.proof.registered_proof, cess_RegisteredPoStProof::StackedDrgWinning2KiBV1);
    let mut h = Heap::new();
    r.destroy(&mut h);
    assert_eq!(h.live_allocations(), 0);
}

#[test]
fn default_seal_commit_phase2_response() {
    let r = cess_SealCommitPhase2Response::default();
    assert_eq!(r.status_code, FCPResponseStatus::FCPNoError);
    assert_eq!(r.error_msg.ptr, 0);
    assert_eq!(r.error_msg.len, 0);
    assert_eq!(r.proof.ptr, 0);
    assert_eq!(r.proof.len, 0);
    assert_eq!(r.commit_inputs.len(), 0);
    let mut h = Heap::new();
    r.destroy(&mut h);
    assert_eq!(h.live_allocations(), 0);
}
