use poseidon_prover::stage::Stage;

#[test]
fn pipeline_advances_in_order() {
    let mut s = Stage::Received;
    for expect in [
        Stage::Decoded,
        Stage::ShapeReady,
        Stage::KeyReady,
        Stage::Proved,
        Stage::SelfVerified,
        Stage::EncodedOk,
    ] {
        s = s.advance(true);
        assert_eq!(s, expect);
    }
    // Encoded states are terminal, whatever happens next.
    assert_eq!(s.advance(true), Stage::EncodedOk);
    assert_eq!(s.advance(false), Stage::EncodedOk);
}

#[test]
fn stage_failure_encodes_the_failure_terminally() {
    let s = Stage::Received.advance(false);
    assert_eq!(s, Stage::EncodedErr);
    assert_eq!(s.advance(true), Stage::EncodedErr);
    assert_eq!(s.advance(false), Stage::EncodedErr);

    let s = Stage::KeyReady.advance(false);
    assert_eq!(s, Stage::EncodedErr);
}
