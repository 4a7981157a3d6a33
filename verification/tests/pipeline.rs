use poseidon_prover::Error;
use poseidon_prover::ProofType;
use poseidon_prover::Task;
use poseidon_prover::pipeline::ProvingOutcome;
use poseidon_prover::pipeline::Screened;
use poseidon_prover::pipeline::screen_task;
use poseidon_prover::pipeline::settle_task;

const FR_MODULUS: &str = "21888242871839275222246405745257275088548364400416034343698204186575808495617";

fn task(id: &str, task_type: ProofType, task_data: &str) -> Task {
    Task {
        uuid: String::from("00000000-0000-0000-0000-000000000000"),
        id: String::from(id),
        task_type,
        task_data: String::from(task_data),
        hard_fork_name: String::from("bernoulli"),
    }
}

#[test]
fn valid_chunk_task_screens_ready() {
    let t = task("t1", ProofType::Chunk, "1,2;3");
    match screen_task(&t) {
        Screened::Ready(rq) => {
            assert_eq!(rq.task_type, ProofType::Chunk);
            assert_eq!(rq.hard_fork_name, "bernoulli");
            assert_eq!(rq.private_input, vec![1, 2]);
            assert_eq!(rq.public_input, "3");
        }
        Screened::Rejected(_) => panic!("a well-formed task must screen ready"),
    }
}

#[test]
fn chunk_task_settles_into_success_envelope() {
    let t = task("t1", ProofType::Chunk, "1,2;3");
    let rq = match screen_task(&t) {
        Screened::Ready(rq) => rq,
        Screened::Rejected(_) => panic!("a well-formed task must screen ready"),
    };
    assert_eq!(rq.public_input, "3");
    // A proving run that came back with self-verified proof bytes settles
    // into a success response: the id and type echoed, the proof encoded,
    // the diagnostic empty.
    let d = settle_task(t.id.clone(), t.task_type, ProvingOutcome::Proved(vec![1, 2, 3, 4]));
    assert_eq!(d.id, "t1");
    assert_eq!(d.proof_type, ProofType::Chunk);
    assert!(!d.proof_data.is_empty());
    assert_eq!(d.error, "");
}

#[test]
fn out_of_field_batch_task_is_rejected_before_proving() {
    let data = format!("1;{FR_MODULUS}");
    let t = task("t2", ProofType::Batch, &data);
    match screen_task(&t) {
        Screened::Ready(_) => panic!("an out-of-field public input must be rejected"),
        Screened::Rejected(d) => {
            assert_eq!(d.id, "t2");
            assert_eq!(d.proof_type, ProofType::Batch);
            assert_eq!(d.proof_data, "");
            assert_eq!(d.error, format!("public input out of field: {FR_MODULUS}"));
        }
    }
}

#[test]
fn malformed_task_data_is_rejected_with_decode_diagnostic() {
    let t = task("t3", ProofType::Chunk, "not a payload");
    match screen_task(&t) {
        Screened::Ready(_) => panic!("a malformed payload must be rejected"),
        Screened::Rejected(d) => {
            assert_eq!(d.id, "t3");
            assert_eq!(d.proof_type, ProofType::Chunk);
            assert_eq!(d.proof_data, "");
            assert_eq!(d.error, "task data is not a well-formed circuit payload");
        }
    }
}

#[test]
fn identical_tasks_screen_identically() {
    let a = task("a", ProofType::Chunk, "5,6;7");
    let b = task("b", ProofType::Chunk, "5,6;7");
    let ra = match screen_task(&a) {
        Screened::Ready(rq) => rq,
        Screened::Rejected(_) => panic!("a well-formed task must screen ready"),
    };
    let rb = match screen_task(&b) {
        Screened::Ready(rq) => rq,
        Screened::Rejected(_) => panic!("a well-formed task must screen ready"),
    };
    assert_eq!(ra.private_input, rb.private_input);
    assert_eq!(ra.public_input, rb.public_input);
}

#[test]
fn proved_bytes_are_base64_encoded() {
    let d = settle_task(String::from("x"), ProofType::Chunk, ProvingOutcome::Proved(vec![104, 105]));
    assert_eq!(d.proof_data, "aGk=");
    assert_eq!(d.error, "");
}

#[test]
fn empty_proof_bytes_encode_to_empty_text() {
    let d = settle_task(String::from("x"), ProofType::Chunk, ProvingOutcome::Proved(Vec::new()));
    assert_eq!(d.proof_data, "");
    assert_eq!(d.error, "");
}

#[test]
fn each_failing_stage_keeps_its_diagnostic() {
    let cases: Vec<(ProvingOutcome, &str)> = vec![
        (
            ProvingOutcome::KeygenVkFailed(String::from("bad shape")),
            "while generating verifying key: bad shape",
        ),
        (
            ProvingOutcome::KeygenPkFailed(String::from("bad shape")),
            "while generating proving key: bad shape",
        ),
        (
            ProvingOutcome::ProveFailed(String::from("unsatisfied constraint")),
            "while proving: unsatisfied constraint",
        ),
        (
            ProvingOutcome::VerifyFailed(String::from("transcript mismatch")),
            "while verifying: transcript mismatch",
        ),
    ];
    for (outcome, message) in cases {
        let d = settle_task(String::from("t"), ProofType::Batch, outcome);
        assert_eq!(d.proof_data, "");
        assert_eq!(d.error, message);
    }
}

#[test]
fn error_messages_carry_stage_and_diagnostic() {
    let e = Error::pub_input_out_of_field(String::from("99"));
    assert_eq!(e.message(), "public input out of field: 99");
    let e = Error::while_keygen_vk(String::from("k too small"));
    assert_eq!(e.message(), "while generating verifying key: k too small");
    let e = Error::while_keygen_pk(String::from("k too small"));
    assert_eq!(e.message(), "while generating proving key: k too small");
    let e = Error::while_prove(String::from("boom"));
    assert_eq!(e.message(), "while proving: boom");
    let e = Error::while_verify(String::from("boom"));
    assert_eq!(e.message(), "while verifying: boom");
}
