use marlin_session::circuit::{
    circuit_dims, Circuit, CircuitDims, ConfigurableCircuit, MultiplicationCircuit,
};
use marlin_session::diagnostic::{diagnostic_circuit, test_constraint, verify_constraint};
use marlin_session::errors::PipelineError;
use marlin_session::field::lifted_product;
use marlin_session::pipeline::{run_full_proof_system, RunOutcomes};
use marlin_session::r1cs::ConstraintBuilder;
use marlin_session::results::VerificationResult;
use marlin_session::session::{
    IndexOutcome, MarlinProofSystem, ProveOutcome, SetupOutcome, SrsBounds, VerifyJudgment,
    VerifyOutcome,
};

fn all_ok_outcomes() -> RunOutcomes {
    RunOutcomes {
        setup: Some(SetupOutcome { ok: true, millis: 5 }),
        index: Some(IndexOutcome { ok: true, millis: 6 }),
        prove: Some(ProveOutcome { ok: true, proof_size: 880, millis: 7 }),
        verify: Some(VerifyOutcome { judgment: VerifyJudgment::Accepted, millis: 8 }),
    }
}

fn mult_circuit(a: u64, b: u64, c: u64) -> Circuit {
    Circuit::Multiplication(MultiplicationCircuit { a: Some(a), b: Some(b), c: Some(c) })
}

fn session_at_proved() -> MarlinProofSystem {
    let mut s = MarlinProofSystem::new();
    s.universal_setup(10, 10, 10, Some(SetupOutcome { ok: true, millis: 1 }))
        .unwrap();
    s.index_circuit(&mult_circuit(3, 5, 15), Some(IndexOutcome { ok: true, millis: 1 })).unwrap();
    s.generate_proof(
        &mult_circuit(3, 5, 15),
        Some(ProveOutcome { ok: true, proof_size: 880, millis: 1 }),
    )
        .unwrap();
    s
}

#[test]
fn builder_starts_with_constant_one() {
    let cs = ConstraintBuilder::new();
    assert_eq!(cs.instance_values, vec![1u128]);
    assert_eq!(cs.witness_values.len(), 0);
    assert_eq!(cs.constraints.len(), 0);
}

#[test]
fn multiplication_circuit_dims() {
    let d = circuit_dims(&mult_circuit(3, 5, 15)).unwrap();
    assert_eq!(d, CircuitDims { num_constraints: 1, num_instance: 2, num_witness: 2 });
}

#[test]
fn configurable_circuit_dims() {
    let d = circuit_dims(&Circuit::Configurable(diagnostic_circuit(3, 5, 15))).unwrap();
    assert_eq!(d, CircuitDims { num_constraints: 2, num_instance: 2, num_witness: 4 });
}

#[test]
fn synthesis_rejects_missing_assignment() {
    let circuit = Circuit::Multiplication(MultiplicationCircuit { a: Some(3), b: None, c: Some(15) });
    let mut cs = ConstraintBuilder::new();
    let r = circuit.generate_constraints(&mut cs);
    assert_eq!(r, Err(PipelineError::MissingAssignment));
    // the builder is left untouched
    assert_eq!(cs.constraints.len(), 0);
    assert_eq!(cs.witness_values.len(), 0);
    assert_eq!(circuit_dims(&circuit), Err(PipelineError::MissingAssignment));
}

#[test]
fn verify_constraint_exact_values() {
    let v = verify_constraint(7, 6, 42);
    assert!(v.is_valid);
    assert_eq!(v.actual_result, 42);
    assert_eq!(v.claimed_result, 42);
    let w = verify_constraint(7, 6, 41);
    assert!(!w.is_valid);
    assert_eq!(w.actual_result, 42);
}

#[test]
fn lifted_product_never_wraps() {
    // the product of the two largest factors still fits the field
    let p = lifted_product(u64::MAX, u64::MAX);
    assert_eq!(p, (u64::MAX as u128) * (u64::MAX as u128));
    let v = verify_constraint(u64::MAX, 2, 0);
    assert!(!v.is_valid);
    assert_eq!(v.actual_result, 2 * (u64::MAX as u128));
}

#[test]
fn setup_rejects_degenerate_bounds() {
    let mut s = MarlinProofSystem::new();
    let r = s.universal_setup(0, 10, 10, None);
    assert_eq!(r, Err(PipelineError::CryptographicFailure));
    assert_eq!(s, MarlinProofSystem::new());
    assert_eq!(s.setup_plan(10, 0, 10), Err(PipelineError::CryptographicFailure));
    assert_eq!(s.setup_plan(10, 10, 10), Ok(()));
}

#[test]
fn setup_records_bounds() {
    let mut s = MarlinProofSystem::new();
    let r = s
        .universal_setup(10, 11, 12, Some(SetupOutcome { ok: true, millis: 3 }))
        .unwrap();
    assert!(r.success);
    assert_eq!(
        Ok(r.max_degree),
        marlin_session::marlin::setup_max_degree(SrsBounds {
            num_constraints: 10,
            num_variables: 11,
            num_non_zero: 12,
        })
    );
    assert_eq!(r.setup_time, 3);
    assert_eq!(r.message, "universal setup completed successfully");
    assert_eq!(
        s.srs_bounds(),
        Some(SrsBounds { num_constraints: 10, num_variables: 11, num_non_zero: 12 })
    );
}

#[test]
fn index_before_setup_fails_stage_not_ready() {
    let mut s = MarlinProofSystem::new();
    let r = s.index_circuit(&mult_circuit(3, 5, 15), Some(IndexOutcome { ok: true, millis: 1 }));
    assert_eq!(r, Err(PipelineError::StageNotReady));
    assert_eq!(s, MarlinProofSystem::new());
}

#[test]
fn prove_before_index_fails_stage_not_ready() {
    let mut s = MarlinProofSystem::new();
    s.universal_setup(10, 10, 10, Some(SetupOutcome { ok: true, millis: 1 }))
        .unwrap();
    let before = s;
    let r = s.generate_proof(
        &mult_circuit(3, 5, 15),
        Some(ProveOutcome { ok: true, proof_size: 880, millis: 1 }),
    );
    assert_eq!(r, Err(PipelineError::StageNotReady));
    assert_eq!(s, before);
}

#[test]
fn verify_before_prove_fails_stage_not_ready() {
    let mut s = MarlinProofSystem::new();
    let r = s.verify_proof(&vec![15], None);
    assert_eq!(r, Err(PipelineError::StageNotReady));
    s.universal_setup(10, 10, 10, Some(SetupOutcome { ok: true, millis: 1 }))
        .unwrap();
    s.index_circuit(&mult_circuit(3, 5, 15), Some(IndexOutcome { ok: true, millis: 1 })).unwrap();
    let before = s;
    let r = s.verify_proof(
        &vec![15],
        Some(VerifyOutcome { judgment: VerifyJudgment::Accepted, millis: 1 }),
    );
    assert_eq!(r, Err(PipelineError::StageNotReady));
    assert_eq!(s, before);
}

#[test]
fn index_rejects_oversized_circuit() {
    let mut s = MarlinProofSystem::new();
    // a reference string this small admits no four-variable circuit
    s.universal_setup(1, 1, 1, Some(SetupOutcome { ok: true, millis: 1 }))
        .unwrap();
    let before = s;
    let r = s.index_circuit(&mult_circuit(3, 5, 15), Some(IndexOutcome { ok: true, millis: 1 }));
    assert_eq!(r, Err(PipelineError::SizeExceeded));
    assert_eq!(s, before);
    assert_eq!(s.index_plan(&mult_circuit(3, 5, 15)), Err(PipelineError::SizeExceeded));
}

#[test]
fn index_records_circuit_dimensions() {
    let mut s = MarlinProofSystem::new();
    s.universal_setup(10, 10, 10, Some(SetupOutcome { ok: true, millis: 1 }))
        .unwrap();
    let r = s
        .index_circuit(&mult_circuit(3, 5, 15), Some(IndexOutcome { ok: true, millis: 4 }))
        .unwrap();
    assert!(r.success);
    assert_eq!(r.num_constraints, 1);
    assert_eq!(r.num_variables, 4);
    assert_eq!(r.index_time, 4);
    assert_eq!(r.message, "circuit indexed successfully");
    assert_eq!(
        s.indexed_dims(),
        Some(CircuitDims { num_constraints: 1, num_instance: 2, num_witness: 2 })
    );
}

#[test]
fn index_with_missing_assignment_fails() {
    let mut s = MarlinProofSystem::new();
    s.universal_setup(10, 10, 10, Some(SetupOutcome { ok: true, millis: 1 }))
        .unwrap();
    let circuit = Circuit::Multiplication(MultiplicationCircuit { a: None, b: Some(5), c: Some(15) });
    let r = s.index_circuit(&circuit, Some(IndexOutcome { ok: true, millis: 1 }));
    assert_eq!(r, Err(PipelineError::MissingAssignment));
}

#[test]
fn prove_with_missing_assignment_fails() {
    let mut s = MarlinProofSystem::new();
    s.universal_setup(10, 10, 10, Some(SetupOutcome { ok: true, millis: 1 }))
        .unwrap();
    s.index_circuit(&mult_circuit(3, 5, 15), Some(IndexOutcome { ok: true, millis: 1 })).unwrap();
    let circuit = Circuit::Multiplication(MultiplicationCircuit { a: Some(3), b: None, c: Some(15) });
    let r = s.generate_proof(&circuit, Some(ProveOutcome { ok: true, proof_size: 880, millis: 1 }));
    assert_eq!(r, Err(PipelineError::MissingAssignment));
}

#[test]
fn verify_rejects_wrong_public_input_length() {
    let mut s = session_at_proved();
    let before = s;
    // zero public values for a one-public-input circuit
    let r: Result<VerificationResult, PipelineError> = s.verify_proof(
        &Vec::new(),
        Some(VerifyOutcome { judgment: VerifyJudgment::Accepted, millis: 1 }),
    );
    assert_eq!(r, Err(PipelineError::CryptographicFailure));
    assert_eq!(s, before);
    // two public values for a one-public-input circuit
    let r = s.verify_proof(
        &vec![15, 15],
        Some(VerifyOutcome { judgment: VerifyJudgment::Accepted, millis: 1 }),
    );
    assert_eq!(r, Err(PipelineError::CryptographicFailure));
    assert_eq!(s, before);
}

#[test]
fn verify_records_both_verdicts() {
    let mut s = session_at_proved();
    let r = s
        .verify_proof(&vec![15], Some(VerifyOutcome { judgment: VerifyJudgment::Accepted, millis: 9 }))
        .unwrap();
    assert!(r.success);
    assert!(r.is_valid);
    assert_eq!(r.verify_time, 9);
    assert_eq!(r.message, "proof verification successful");
    let mut s2 = session_at_proved();
    let r2 = s2
        .verify_proof(&vec![15], Some(VerifyOutcome { judgment: VerifyJudgment::Rejected, millis: 2 }))
        .unwrap();
    assert!(r2.success);
    assert!(!r2.is_valid);
    assert_eq!(r2.message, "proof verification failed");
}

#[test]
fn verify_fault_leaves_session_untouched() {
    let mut s = session_at_proved();
    let before = s;
    let r = s.verify_proof(
        &vec![15],
        Some(VerifyOutcome { judgment: VerifyJudgment::Faulted, millis: 1 }),
    );
    assert_eq!(r, Err(PipelineError::CryptographicFailure));
    assert_eq!(s, before);
}

#[test]
fn reset_restores_the_fresh_session() {
    let mut s = session_at_proved();
    assert_ne!(s, MarlinProofSystem::new());
    s.reset();
    assert_eq!(s, MarlinProofSystem::new());
    assert_eq!(s.seed, 0);
    assert_eq!(s.srs_bounds(), None);
    assert_eq!(s.indexed_dims(), None);
}

#[test]
fn pipeline_aggregates_all_stages() {
    let r = run_full_proof_system(&mult_circuit(3, 5, 15), all_ok_outcomes());
    assert!(r.proof_valid);
    assert!(r.verification_passed);
    assert_eq!(r.error, None);
    assert_eq!((r.setup_time, r.index_time, r.prove_time, r.verify_time), (5, 6, 7, 8));
}

#[test]
fn pipeline_stops_after_failed_setup() {
    let mut outcomes = all_ok_outcomes();
    outcomes.setup = Some(SetupOutcome { ok: false, millis: 5 });
    let r = run_full_proof_system(&mult_circuit(3, 5, 15), outcomes);
    assert!(!r.proof_valid);
    assert!(!r.verification_passed);
    assert_eq!(r.error, Some(PipelineError::CryptographicFailure));
    assert_eq!((r.setup_time, r.index_time, r.prove_time, r.verify_time), (5, 0, 0, 0));
}

#[test]
fn pipeline_stops_after_failed_index() {
    let mut outcomes = all_ok_outcomes();
    outcomes.index = Some(IndexOutcome { ok: false, millis: 6 });
    let r = run_full_proof_system(&mult_circuit(3, 5, 15), outcomes);
    assert!(!r.proof_valid);
    assert_eq!(r.error, Some(PipelineError::CryptographicFailure));
    assert_eq!((r.setup_time, r.index_time, r.prove_time, r.verify_time), (5, 6, 0, 0));
}

#[test]
fn pipeline_reports_failed_proving_without_error() {
    let mut outcomes = all_ok_outcomes();
    outcomes.prove = Some(ProveOutcome { ok: false, proof_size: 0, millis: 7 });
    outcomes.verify = None;
    let r = run_full_proof_system(&mult_circuit(3, 5, 15), outcomes);
    assert!(!r.proof_valid);
    assert!(!r.verification_passed);
    assert_eq!(r.error, None);
    assert_eq!((r.setup_time, r.index_time, r.prove_time, r.verify_time), (5, 6, 7, 0));
}

#[test]
fn pipeline_reports_rejected_verification() {
    let mut outcomes = all_ok_outcomes();
    outcomes.verify = Some(VerifyOutcome { judgment: VerifyJudgment::Rejected, millis: 8 });
    let r = run_full_proof_system(&mult_circuit(3, 5, 15), outcomes);
    assert!(r.proof_valid);
    assert!(!r.verification_passed);
    assert_eq!(r.error, None);
    assert_eq!(r.verify_time, 8);
}

#[test]
fn pipeline_rejects_oversized_circuit_with_size_exceeded() {
    // the diagnostic circuit also fits the default bounds; an unassigned
    // circuit is the one rejected before indexing
    let circuit = Circuit::Multiplication(MultiplicationCircuit { a: Some(3), b: Some(5), c: None });
    let r = run_full_proof_system(&circuit, all_ok_outcomes());
    assert!(!r.proof_valid);
    assert_eq!(r.error, Some(PipelineError::MissingAssignment));
}

#[test]
fn harness_verdict_is_exact() {
    let t = test_constraint(7, 6, 42, all_ok_outcomes());
    assert!(t.is_constraint_correct);
    assert_eq!(t.actual_result, 42);
    assert_eq!(t.claimed_result, 42);
    let t2 = test_constraint(7, 6, 41, all_ok_outcomes());
    assert!(!t2.is_constraint_correct);
    assert_eq!(t2.actual_result, 42);
    assert_eq!(t2.claimed_result, 41);
}

#[test]
fn harness_verdict_on_huge_factors() {
    let t = test_constraint(u64::MAX, u64::MAX, 1, all_ok_outcomes());
    assert!(!t.is_constraint_correct);
    assert_eq!(t.actual_result, (u64::MAX as u128) * (u64::MAX as u128));
}

#[test]
fn diagnostic_circuit_holds_the_true_product() {
    let c = diagnostic_circuit(7, 6, 41);
    assert_eq!(c.witness_a, Some(7));
    assert_eq!(c.witness_b, Some(6));
    assert_eq!(c.public_c, Some(41));
    assert_eq!(c.expected_result, 42);
}

#[test]
fn configurable_circuit_unsatisfiable_on_false_claim() {
    // synthesize the diagnostic circuit for a false claim and check the
    // recorded assignment violates the second constraint
    let circuit = ConfigurableCircuit {
        witness_a: Some(7),
        witness_b: Some(6),
        public_c: Some(41),
        expected_result: 42,
    };
    let mut cs = ConstraintBuilder::new();
    circuit.generate_constraints(&mut cs).unwrap();
    assert_eq!(cs.constraints.len(), 2);
    // instance: [1, claimed]; witness: [a, b, expected, one]
    assert_eq!(cs.instance_values, vec![1, 41]);
    assert_eq!(cs.witness_values, vec![7, 6, 42, 1]);
}

#[test]
fn error_descriptions() {
    assert_eq!(PipelineError::MissingAssignment.describe(), "a required assignment is missing");
    assert_eq!(
        PipelineError::SizeExceeded.describe(),
        "the circuit exceeds the reference string's size bounds"
    );
    assert_eq!(PipelineError::StageNotReady.describe(), "the requested stage is not ready");
    assert_eq!(
        PipelineError::CryptographicFailure.describe(),
        "the underlying cryptographic routine failed"
    );
}

#[test]
fn setup_max_degree_matches_the_argument_system() {
    // the degree the argument system supports for bounds of ten each:
    // its evaluation domains round the counts up to sixteen, and the
    // largest of its degree terms is three times that, less one
    let d = marlin_session::marlin::setup_max_degree(SrsBounds {
        num_constraints: 10,
        num_variables: 10,
        num_non_zero: 10,
    })
    .unwrap();
    assert_eq!(d, 47);
    // larger bounds support a strictly larger degree
    let d2 = marlin_session::marlin::setup_max_degree(SrsBounds {
        num_constraints: 100,
        num_variables: 100,
        num_non_zero: 100,
    })
    .unwrap();
    assert!(d2 > d);
}

#[test]
fn setup_max_degree_rejects_oversized_counts() {
    // counts this large would overflow the argument system's power-of-two
    // rounding; they are rejected before the outside routine runs
    let r = marlin_session::marlin::setup_max_degree(SrsBounds {
        num_constraints: usize::MAX,
        num_variables: 10,
        num_non_zero: 10,
    });
    assert_eq!(r, Err(PipelineError::CryptographicFailure));
}

#[test]
fn setup_rejects_oversized_bounds() {
    let mut s = MarlinProofSystem::new();
    assert_eq!(
        s.setup_plan(10, usize::MAX, 10),
        Err(PipelineError::CryptographicFailure)
    );
    let r = s.universal_setup(10, usize::MAX, 10, None);
    assert_eq!(r, Err(PipelineError::CryptographicFailure));
    assert_eq!(s, MarlinProofSystem::new());
}

#[test]
fn setup_reports_the_argument_systems_degree() {
    let mut s = MarlinProofSystem::new();
    let r = s.universal_setup(10, 10, 10, Some(SetupOutcome { ok: true, millis: 2 })).unwrap();
    // the degree comes from the argument system's own computation for the
    // bounds, not from the host
    assert_eq!(r.max_degree, 47);
}
