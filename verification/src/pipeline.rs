use crate::circuit::Circuit;
use crate::errors::PipelineError;
use crate::session::{
    index_reported_ok, prove_reported_ok, setup_reported_ok, verify_accepted, IndexOutcome,
    MarlinProofSystem, ProveOutcome, SetupOutcome, SrsBounds, VerifyOutcome,
};
use vstd::prelude::*;

verus! {

/// The bound on constraints, variables and non-zero entries the one-shot
/// pipeline sets its reference string up with; both demo circuits fit well
/// under it.
pub const DEFAULT_SRS_BOUND: usize = 10;

/// The bounds the one-shot pipeline runs its setup stage with.
pub open spec fn default_srs_bounds() -> SrsBounds {
    SrsBounds {
        num_constraints: DEFAULT_SRS_BOUND as usize,
        num_variables: DEFAULT_SRS_BOUND as usize,
        num_non_zero: DEFAULT_SRS_BOUND as usize,
    }
}

/// The outcomes the host gathered from the outside routines for one
/// one-shot run. A stage the host never reached is reported as `None`.
#[derive(Clone, Copy, PartialEq, Eq, Debug)]
pub struct RunOutcomes {
    pub setup: Option<SetupOutcome>,
    pub index: Option<IndexOutcome>,
    pub prove: Option<ProveOutcome>,
    pub verify: Option<VerifyOutcome>,
}

/// The aggregated report of a one-shot pipeline run: whether a proof was
/// generated, whether it verified, the first error of the setup or indexing
/// stages if one of them failed, and the duration of every stage that ran.
/// A proving or verification failure is a legitimate outcome for an
/// unsatisfiable circuit, so it shows in the two verdict flags rather than
/// as an error.
#[derive(Clone, Copy, PartialEq, Eq, Debug)]
pub struct ProofRunResult {
    pub proof_valid: bool,
    pub verification_passed: bool,
    pub error: Option<PipelineError>,
    pub setup_time: u64,
    pub index_time: u64,
    pub prove_time: u64,
    pub verify_time: u64,
}

pub open spec fn setup_millis(outcome: Option<SetupOutcome>) -> u64 {
    match outcome {
        Some(o) => o.millis,
        None => 0,
    }
}

pub open spec fn index_millis(outcome: Option<IndexOutcome>) -> u64 {
    match outcome {
        Some(o) => o.millis,
        None => 0,
    }
}

pub open spec fn prove_millis(outcome: Option<ProveOutcome>) -> u64 {
    match outcome {
        Some(o) => o.millis,
        None => 0,
    }
}

pub open spec fn verify_millis(outcome: Option<VerifyOutcome>) -> u64 {
    match outcome {
        Some(o) => o.millis,
        None => 0,
    }
}

/// Whether the one-shot run got through its setup stage.
pub open spec fn run_setup_ok(outcomes: RunOutcomes) -> bool {
    setup_reported_ok(outcomes.setup)
}

/// Whether the one-shot run got through its indexing stage: setup went
/// through, the circuit is fully assigned and fits under the default
/// bounds, and the outside indexing run succeeded.
pub open spec fn run_index_ok(circuit: Circuit, outcomes: RunOutcomes) -> bool {
    &&& run_setup_ok(outcomes)
    &&& circuit.fully_assigned()
    &&& default_srs_bounds().admits(circuit.dims())
    &&& index_reported_ok(outcomes.index)
}

/// Whether the one-shot run produced a proof.
pub open spec fn run_prove_ok(circuit: Circuit, outcomes: RunOutcomes) -> bool {
    run_index_ok(circuit, outcomes) && prove_reported_ok(outcomes.prove)
}

/// Whether the one-shot run produced a proof that verified.
pub open spec fn run_verification_passed(circuit: Circuit, outcomes: RunOutcomes) -> bool {
    run_prove_ok(circuit, outcomes) && verify_accepted(outcomes.verify)
}

/// The error a one-shot run reports: the first failure of its setup or
/// indexing stages, if any.
pub open spec fn run_error(circuit: Circuit, outcomes: RunOutcomes) -> Option<PipelineError> {
    if !run_setup_ok(outcomes) {
        Some(PipelineError::CryptographicFailure)
    } else if !circuit.fully_assigned() {
        Some(PipelineError::MissingAssignment)
    } else if !default_srs_bounds().admits(circuit.dims()) {
        Some(PipelineError::SizeExceeded)
    } else if !index_reported_ok(outcomes.index) {
        Some(PipelineError::CryptographicFailure)
    } else {
        None
    }
}

/// The exact report a one-shot run must produce from the given outcomes.
pub open spec fn expected_run_report(circuit: Circuit, outcomes: RunOutcomes) -> ProofRunResult {
    ProofRunResult {
        proof_valid: run_prove_ok(circuit, outcomes),
        verification_passed: run_verification_passed(circuit, outcomes),
        error: run_error(circuit, outcomes),
        setup_time: setup_millis(outcomes.setup),
        index_time: if run_setup_ok(outcomes) {
            index_millis(outcomes.index)
        } else {
            0
        },
        prove_time: if run_index_ok(circuit, outcomes) {
            prove_millis(outcomes.prove)
        } else {
            0
        },
        verify_time: if run_prove_ok(circuit, outcomes) {
            verify_millis(outcomes.verify)
        } else {
            0
        },
    }
}

/// The one-shot pipeline: a fresh session is taken through setup, index,
/// prove and verify in order, stopping at the first failed stage, and the
/// per-stage verdicts and durations are aggregated into one report. The
/// host performs the outside cryptographic runs and hands their outcomes
/// in; the sequencing, the stage decisions and the report are decided here.
/// A verification can only pass when a proof was generated, and a proof can
/// only count as generated when setup and indexing went through.
pub fn run_full_proof_system(circuit: &Circuit, outcomes: RunOutcomes) -> (r: ProofRunResult)
    ensures
        r == expected_run_report(*circuit, outcomes),
        r.verification_passed ==> r.proof_valid,
{
    let mut session = MarlinProofSystem::new();
    let setup_time: u64 = match outcomes.setup {
        Some(o) => o.millis,
        None => 0,
    };
    if let Err(e) = session.universal_setup(
        DEFAULT_SRS_BOUND,
        DEFAULT_SRS_BOUND,
        DEFAULT_SRS_BOUND,
        outcomes.setup,
    ) {
        return ProofRunResult {
            proof_valid: false,
            verification_passed: false,
            error: Some(e),
            setup_time,
            index_time: 0,
            prove_time: 0,
            verify_time: 0,
        };
    }
    let index_time: u64 = match outcomes.index {
        Some(o) => o.millis,
        None => 0,
    };
    if let Err(e) = session.index_circuit(circuit, outcomes.index) {
        return ProofRunResult {
            proof_valid: false,
            verification_passed: false,
            error: Some(e),
            setup_time,
            index_time,
            prove_time: 0,
            verify_time: 0,
        };
    }
    let prove_time: u64 = match outcomes.prove {
        Some(o) => o.millis,
        None => 0,
    };
    if let Err(_) = session.generate_proof(circuit, outcomes.prove) {
        return ProofRunResult {
            proof_valid: false,
            verification_passed: false,
            error: None,
            setup_time,
            index_time,
            prove_time,
            verify_time: 0,
        };
    }
    let verify_time: u64 = match outcomes.verify {
        Some(o) => o.millis,
        None => 0,
    };
    let public_inputs = match circuit.public_inputs() {
        Ok(v) => v,
        Err(_) => {
            proof {
                // a circuit that indexed successfully is fully assigned, so
                // its public value is always present
                assert(false);
            }
            return ProofRunResult {
                proof_valid: false,
                verification_passed: false,
                error: None,
                setup_time,
                index_time,
                prove_time,
                verify_time,
            };
        },
    };
    let verification_passed = match session.verify_proof(&public_inputs, outcomes.verify) {
        Ok(res) => res.is_valid,
        Err(_) => false,
    };
    ProofRunResult {
        proof_valid: true,
        verification_passed,
        error: None,
        setup_time,
        index_time,
        prove_time,
        verify_time,
    }
}

} // verus!
