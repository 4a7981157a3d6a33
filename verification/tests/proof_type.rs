use poseidon_prover::ProofType;

#[test]
fn chunk_code_round_trips() {
    assert_eq!(ProofType::from_u8(1), ProofType::Chunk);
    assert_eq!(ProofType::Chunk.to_u8(), 1);
    assert_eq!(ProofType::from_u8(ProofType::Chunk.to_u8()), ProofType::Chunk);
}

#[test]
fn batch_code_round_trips() {
    assert_eq!(ProofType::from_u8(2), ProofType::Batch);
    assert_eq!(ProofType::Batch.to_u8(), 2);
    assert_eq!(ProofType::from_u8(ProofType::Batch.to_u8()), ProofType::Batch);
}

#[test]
fn zero_decodes_to_undefined() {
    assert_eq!(ProofType::from_u8(0), ProofType::Undefined);
    assert_eq!(ProofType::Undefined.to_u8(), 0);
}

#[test]
fn unknown_codes_decode_to_undefined() {
    assert_eq!(ProofType::from_u8(3), ProofType::Undefined);
    assert_eq!(ProofType::from_u8(99), ProofType::Undefined);
    assert_eq!(ProofType::from_u8(255), ProofType::Undefined);
}

#[test]
fn default_is_undefined() {
    assert_eq!(ProofType::default(), ProofType::Undefined);
}
