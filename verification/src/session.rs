use crate::circuit::{circuit_dims, Circuit, CircuitDims};
use crate::errors::PipelineError;
use crate::marlin::{reported_degree, setup_max_degree};
use crate::results::{IndexResult, ProofResult, UniversalSRSResult, VerificationResult};
use vstd::prelude::*;
use vstd::string::StringExecFns;

verus! {

/// The largest count a stage forwards to the outside routines: counts
/// beyond this could overflow the power-of-two rounding the argument system
/// applies to its evaluation-domain sizes.
pub const MAX_SUPPORTED_COUNT: u64 = 0x4000000000000000;

/// The size bounds a universal reference string is generated for: the
/// largest constraint, variable and non-zero-entry counts a later indexing
/// step may use.
#[derive(Clone, Copy, PartialEq, Eq, Structural, Debug)]
pub struct SrsBounds {
    pub num_constraints: usize,
    pub num_variables: usize,
    pub num_non_zero: usize,
}

impl SrsBounds {
    /// Degenerate bounds make no sense for a reference string and are
    /// rejected before the outside routine ever sees them.
    pub open spec fn degenerate(self) -> bool {
        self.num_constraints == 0 || self.num_variables == 0 || self.num_non_zero == 0
    }

    /// Whether every count is small enough to forward to the outside
    /// routines.
    pub open spec fn within_count_limit(self) -> bool {
        &&& self.num_constraints as int <= MAX_SUPPORTED_COUNT as int
        &&& self.num_variables as int <= MAX_SUPPORTED_COUNT as int
        &&& self.num_non_zero as int <= MAX_SUPPORTED_COUNT as int
    }

    pub fn check_within_count_limit(&self) -> (b: bool)
        ensures
            b == self.within_count_limit(),
    {
        self.num_constraints as u64 <= MAX_SUPPORTED_COUNT && self.num_variables as u64
            <= MAX_SUPPORTED_COUNT && self.num_non_zero as u64 <= MAX_SUPPORTED_COUNT
    }

    /// Whether a circuit of the given dimensions fits under these bounds.
    pub open spec fn admits(self, dims: CircuitDims) -> bool {
        &&& dims.num_constraints <= self.num_constraints
        &&& dims.total_variables() <= self.num_variables as int
        &&& dims.num_non_zero() <= self.num_non_zero as int
    }
}

/// What the host reports back after running the outside universal-setup
/// routine: whether it succeeded and how long it took in milliseconds.
#[derive(Clone, Copy, PartialEq, Eq, Structural, Debug)]
pub struct SetupOutcome {
    pub ok: bool,
    pub millis: u64,
}

/// What the host reports back after running the outside indexing routine.
#[derive(Clone, Copy, PartialEq, Eq, Structural, Debug)]
pub struct IndexOutcome {
    pub ok: bool,
    pub millis: u64,
}

/// What the host reports back after running the outside proving routine.
#[derive(Clone, Copy, PartialEq, Eq, Structural, Debug)]
pub struct ProveOutcome {
    pub ok: bool,
    pub proof_size: usize,
    pub millis: u64,
}

/// The three ways the outside verification routine can come back: it
/// accepted the proof, it rejected the proof, or it failed outright.
#[derive(Clone, Copy, PartialEq, Eq, Structural, Debug)]
pub enum VerifyJudgment {
    Accepted,
    Rejected,
    Faulted,
}

/// What the host reports back after running the outside verification
/// routine.
#[derive(Clone, Copy, PartialEq, Eq, Structural, Debug)]
pub struct VerifyOutcome {
    pub judgment: VerifyJudgment,
    pub millis: u64,
}

/// Whether the host reported a successful outside setup run.
pub open spec fn setup_reported_ok(outcome: Option<SetupOutcome>) -> bool {
    match outcome {
        Some(o) => o.ok,
        None => false,
    }
}

/// Whether the host reported a successful outside indexing run.
pub open spec fn index_reported_ok(outcome: Option<IndexOutcome>) -> bool {
    match outcome {
        Some(o) => o.ok,
        None => false,
    }
}

/// Whether the host reported a successful outside proving run.
pub open spec fn prove_reported_ok(outcome: Option<ProveOutcome>) -> bool {
    match outcome {
        Some(o) => o.ok,
        None => false,
    }
}

/// Whether the host reported a completed verification run, with either
/// verdict.
pub open spec fn verify_completed(outcome: Option<VerifyOutcome>) -> bool {
    match outcome {
        Some(o) => !(o.judgment is Faulted),
        None => false,
    }
}

/// Whether the host reported a completed verification run that accepted the
/// proof.
pub open spec fn verify_accepted(outcome: Option<VerifyOutcome>) -> bool {
    match outcome {
        Some(o) => o.judgment is Accepted,
        None => false,
    }
}

/// The lifecycle of a session. Each state holds exactly the artifacts'
/// metadata that is valid in it, so no stage can read a stale or
/// uninitialized field.
#[derive(Clone, Copy, PartialEq, Eq, Structural, Debug)]
pub enum SessionState {
    Uninitialized,
    SetupDone { bounds: SrsBounds },
    Indexed { bounds: SrsBounds, dims: CircuitDims },
    Proved { bounds: SrsBounds, dims: CircuitDims },
    Verified { bounds: SrsBounds, dims: CircuitDims, is_valid: bool },
}

impl SessionState {
    /// A reference string is available in every state after setup.
    pub open spec fn has_srs(self) -> bool {
        !(self is Uninitialized)
    }

    /// Proving and verifying keys are available in every state after
    /// indexing.
    pub open spec fn has_keys(self) -> bool {
        self is Indexed || self is Proved || self is Verified
    }

    /// A proof is available in every state after proving.
    pub open spec fn has_proof(self) -> bool {
        self is Proved || self is Verified
    }

    /// The bounds the reference string was generated for, in states that
    /// hold one.
    pub open spec fn bounds(self) -> SrsBounds {
        match self {
            SessionState::Uninitialized => arbitrary(),
            SessionState::SetupDone { bounds } => bounds,
            SessionState::Indexed { bounds, .. } => bounds,
            SessionState::Proved { bounds, .. } => bounds,
            SessionState::Verified { bounds, .. } => bounds,
        }
    }

    /// The dimensions of the indexed circuit, in states that hold keys.
    pub open spec fn dims(self) -> CircuitDims {
        match self {
            SessionState::Uninitialized => arbitrary(),
            SessionState::SetupDone { .. } => arbitrary(),
            SessionState::Indexed { dims, .. } => dims,
            SessionState::Proved { dims, .. } => dims,
            SessionState::Verified { dims, .. } => dims,
        }
    }
}

/// The session orchestrator: it owns the lifecycle of one proof session and
/// decides, for each of the four stages, whether the stage may run and what
/// it reports. The outside argument-system library performs the
/// cryptographic work itself; the host runs it exactly when the
/// corresponding plan here allows it, and hands the outcome back as an
/// event. The session is deterministic: its seed is fixed, and the host
/// seeds the pseudorandom generator it drives the outside library with from
/// that value.
#[derive(Clone, Copy, PartialEq, Eq, Structural, Debug)]
pub struct MarlinProofSystem {
    pub state: SessionState,
    pub seed: u64,
}

/// The seed every fresh or reset session starts its pseudorandom generator
/// from.
pub const INITIAL_SEED: u64 = 0;

impl MarlinProofSystem {
    /// The state of a fresh session: nothing set up yet, generator seeded
    /// with the fixed initial seed.
    pub open spec fn initial() -> MarlinProofSystem {
        MarlinProofSystem { state: SessionState::Uninitialized, seed: INITIAL_SEED as u64 }
    }

    pub fn new() -> (s: MarlinProofSystem)
        ensures
            s == MarlinProofSystem::initial(),
    {
        MarlinProofSystem { state: SessionState::Uninitialized, seed: INITIAL_SEED }
    }

    /// Discards every artifact the session holds and reseeds the generator:
    /// the session after a reset is exactly a fresh session, so a rerun with
    /// the same inputs reproduces the same artifacts.
    pub fn reset(&mut self)
        ensures
            *final(self) == MarlinProofSystem::initial(),
    {
        self.state = SessionState::Uninitialized;
        self.seed = INITIAL_SEED;
    }

    /// The bounds of the reference string the session holds, if any.
    pub fn srs_bounds(&self) -> (r: Option<SrsBounds>)
        ensures
            r == (if self.state.has_srs() {
                Some(self.state.bounds())
            } else {
                None::<SrsBounds>
            }),
    {
        match &self.state {
            SessionState::Uninitialized => None,
            SessionState::SetupDone { bounds } => Some(*bounds),
            SessionState::Indexed { bounds, .. } => Some(*bounds),
            SessionState::Proved { bounds, .. } => Some(*bounds),
            SessionState::Verified { bounds, .. } => Some(*bounds),
        }
    }

    /// The dimensions of the circuit the session indexed, if any.
    pub fn indexed_dims(&self) -> (r: Option<CircuitDims>)
        ensures
            r == (if self.state.has_keys() {
                Some(self.state.dims())
            } else {
                None::<CircuitDims>
            }),
    {
        match &self.state {
            SessionState::Uninitialized => None,
            SessionState::SetupDone { .. } => None,
            SessionState::Indexed { dims, .. } => Some(*dims),
            SessionState::Proved { dims, .. } => Some(*dims),
            SessionState::Verified { dims, .. } => Some(*dims),
        }
    }

    /// Whether setup may run with the given bounds: it may from any state,
    /// except that degenerate bounds, and counts too large to forward to the
    /// outside routines, are rejected outright.
    pub open spec fn setup_decision(self, bounds: SrsBounds) -> Result<(), PipelineError> {
        if bounds.degenerate() || !bounds.within_count_limit() {
            Err(PipelineError::CryptographicFailure)
        } else {
            Ok(())
        }
    }

    /// The pure decision of the setup stage; the host runs the outside
    /// setup routine only when this allows it.
    pub fn setup_plan(
        &self,
        num_constraints: usize,
        num_variables: usize,
        num_non_zero: usize,
    ) -> (r: Result<(), PipelineError>)
        ensures
            r == self.setup_decision(SrsBounds { num_constraints, num_variables, num_non_zero }),
    {
        let bounds = SrsBounds { num_constraints, num_variables, num_non_zero };
        if num_constraints == 0 || num_variables == 0 || num_non_zero == 0
            || !bounds.check_within_count_limit() {
            Err(PipelineError::CryptographicFailure)
        } else {
            Ok(())
        }
    }

    /// The setup stage. On success the session moves to `SetupDone`,
    /// recording the bounds, and discards any artifacts of later stages; on
    /// any failure it is left untouched.
    pub fn universal_setup(
        &mut self,
        num_constraints: usize,
        num_variables: usize,
        num_non_zero: usize,
        outcome: Option<SetupOutcome>,
    ) -> (r: Result<UniversalSRSResult, PipelineError>)
        ensures
            ({
                let bounds = SrsBounds { num_constraints, num_variables, num_non_zero };
                &&& old(self).setup_decision(bounds) matches Err(e) ==> r == Err::<
                    UniversalSRSResult,
                    PipelineError,
                >(e) && *final(self) == *old(self)
                &&& old(self).setup_decision(bounds) is Ok && !setup_reported_ok(outcome) ==> r
                    == Err::<UniversalSRSResult, PipelineError>(PipelineError::CryptographicFailure)
                    && *final(self) == *old(self)
                &&& old(self).setup_decision(bounds) is Ok && setup_reported_ok(outcome) ==> {
                    &&& *final(self) == MarlinProofSystem {
                        state: SessionState::SetupDone { bounds },
                        seed: old(self).seed,
                    }
                    &&& r matches Ok(res) && res.success == true && res.max_degree as int
                        == reported_degree(bounds) && res.setup_time == outcome.unwrap().millis
                        && res.message@ == "universal setup completed successfully"@
                }
            }),
    {
        if let Err(e) = self.setup_plan(num_constraints, num_variables, num_non_zero) {
            return Err(e);
        }
        match outcome {
            Some(o) => {
                if o.ok {
                    let bounds = SrsBounds { num_constraints, num_variables, num_non_zero };
                    let max_degree = match setup_max_degree(bounds) {
                        Ok(d) => d,
                        Err(_) => 0,
                    };
                    self.state = SessionState::SetupDone { bounds };
                    Ok(
                        UniversalSRSResult {
                            success: true,
                            message: String::from_str("universal setup completed successfully"),
                            max_degree,
                            setup_time: o.millis,
                        },
                    )
                } else {
                    Err(PipelineError::CryptographicFailure)
                }
            },
            None => Err(PipelineError::CryptographicFailure),
        }
    }

    /// Whether indexing may run: a reference string must be present, the
    /// circuit must be fully assigned, and its dimensions must fit under the
    /// reference string's bounds.
    pub open spec fn index_decision(self, circuit: Circuit) -> Result<
        CircuitDims,
        PipelineError,
    > {
        if !self.state.has_srs() {
            Err(PipelineError::StageNotReady)
        } else if !circuit.fully_assigned() {
            Err(PipelineError::MissingAssignment)
        } else if !self.state.bounds().admits(circuit.dims()) {
            Err(PipelineError::SizeExceeded)
        } else {
            Ok(circuit.dims())
        }
    }

    /// The pure decision of the indexing stage. A circuit that exceeds the
    /// reference string's bounds is rejected with `SizeExceeded` here,
    /// before the outside routine ever runs.
    pub fn index_plan(&self, circuit: &Circuit) -> (r: Result<CircuitDims, PipelineError>)
        ensures
            r == self.index_decision(*circuit),
    {
        let bounds = match self.srs_bounds() {
            Some(b) => b,
            None => {
                return Err(PipelineError::StageNotReady);
            },
        };
        let dims = match circuit_dims(circuit) {
            Ok(d) => d,
            Err(e) => {
                return Err(e);
            },
        };
        if !(dims.num_constraints <= bounds.num_constraints) {
            return Err(PipelineError::SizeExceeded);
        }
        if !(dims.num_instance <= bounds.num_variables && dims.num_witness <= bounds.num_variables
            - dims.num_instance) {
            return Err(PipelineError::SizeExceeded);
        }
        if !(dims.num_constraints <= bounds.num_non_zero) {
            return Err(PipelineError::SizeExceeded);
        }
        Ok(dims)
    }

    /// The indexing stage. On success the session moves to `Indexed`,
    /// recording the circuit's dimensions for later diagnostics; on any
    /// failure it is left untouched.
    pub fn index_circuit(&mut self, circuit: &Circuit, outcome: Option<IndexOutcome>) -> (r:
        Result<IndexResult, PipelineError>)
        ensures
            old(self).index_decision(*circuit) matches Err(e) ==> r == Err::<
                IndexResult,
                PipelineError,
            >(e) && *final(self) == *old(self),
            old(self).index_decision(*circuit) is Ok && !index_reported_ok(outcome) ==> r == Err::<
                IndexResult,
                PipelineError,
            >(PipelineError::CryptographicFailure) && *final(self) == *old(self),
            old(self).index_decision(*circuit) is Ok && index_reported_ok(outcome) ==> {
                let dims = old(self).index_decision(*circuit)->Ok_0;
                &&& *final(self) == MarlinProofSystem {
                    state: SessionState::Indexed { bounds: old(self).state.bounds(), dims },
                    seed: old(self).seed,
                }
                &&& r matches Ok(res) && res.success == true && res.num_constraints
                    == dims.num_constraints && res.num_variables as int == dims.total_variables()
                    && res.index_time == outcome.unwrap().millis && res.message@
                    == "circuit indexed successfully"@
            },
    {
        let dims = match self.index_plan(circuit) {
            Ok(d) => d,
            Err(e) => {
                return Err(e);
            },
        };
        match outcome {
            Some(o) => {
                if o.ok {
                    let bounds = match self.srs_bounds() {
                        Some(b) => b,
                        None => {
                            return Err(PipelineError::StageNotReady);
                        },
                    };
                    self.state = SessionState::Indexed { bounds, dims };
                    Ok(
                        IndexResult {
                            success: true,
                            message: String::from_str("circuit indexed successfully"),
                            num_constraints: dims.num_constraints,
                            num_variables: dims.num_instance + dims.num_witness,
                            index_time: o.millis,
                        },
                    )
                } else {
                    Err(PipelineError::CryptographicFailure)
                }
            },
            None => Err(PipelineError::CryptographicFailure),
        }
    }

    /// Whether proving may run: keys must be present and the circuit fully
    /// assigned.
    pub open spec fn prove_decision(self, circuit: Circuit) -> Result<(), PipelineError> {
        if !self.state.has_keys() {
            Err(PipelineError::StageNotReady)
        } else if !circuit.fully_assigned() {
            Err(PipelineError::MissingAssignment)
        } else {
            Ok(())
        }
    }

    /// The pure decision of the proving stage.
    pub fn prove_plan(&self, circuit: &Circuit) -> (r: Result<(), PipelineError>)
        ensures
            r == self.prove_decision(*circuit),
    {
        if self.indexed_dims().is_none() {
            return Err(PipelineError::StageNotReady);
        }
        if !circuit.check_assignments() {
            return Err(PipelineError::MissingAssignment);
        }
        Ok(())
    }

    /// The proving stage. On success the session moves to `Proved`. A
    /// failure of the outside prover leaves the session untouched: for an
    /// unsatisfiable assignment the outside routine may legitimately either
    /// refuse to prove, reported here, or produce a proof that verification
    /// later rejects.
    pub fn generate_proof(&mut self, circuit: &Circuit, outcome: Option<ProveOutcome>) -> (r:
        Result<ProofResult, PipelineError>)
        ensures
            old(self).prove_decision(*circuit) matches Err(e) ==> r == Err::<
                ProofResult,
                PipelineError,
            >(e) && *final(self) == *old(self),
            old(self).prove_decision(*circuit) is Ok && !prove_reported_ok(outcome) ==> r == Err::<
                ProofResult,
                PipelineError,
            >(PipelineError::CryptographicFailure) && *final(self) == *old(self),
            old(self).prove_decision(*circuit) is Ok && prove_reported_ok(outcome) ==> {
                &&& *final(self) == MarlinProofSystem {
                    state: SessionState::Proved {
                        bounds: old(self).state.bounds(),
                        dims: old(self).state.dims(),
                    },
                    seed: old(self).seed,
                }
                &&& r matches Ok(res) && res.success == true && res.proof_size
                    == outcome.unwrap().proof_size && res.proof_time == outcome.unwrap().millis
                    && res.message@ == "proof generated successfully"@
            },
    {
        if let Err(e) = self.prove_plan(circuit) {
            return Err(e);
        }
        match outcome {
            Some(o) => {
                if o.ok {
                    let (bounds, dims) = match (self.srs_bounds(), self.indexed_dims()) {
                        (Some(b), Some(d)) => (b, d),
                        _ => {
                            return Err(PipelineError::StageNotReady);
                        },
                    };
                    self.state = SessionState::Proved { bounds, dims };
                    Ok(
                        ProofResult {
                            success: true,
                            message: String::from_str("proof generated successfully"),
                            proof_size: o.proof_size,
                            proof_time: o.millis,
                        },
                    )
                } else {
                    Err(PipelineError::CryptographicFailure)
                }
            },
            None => Err(PipelineError::CryptographicFailure),
        }
    }

    /// Whether verification may run: a proof must be present and the public
    /// input vector must have exactly as many entries as the indexed
    /// circuit's instance variables, less the constant one.
    pub open spec fn verify_decision(self, n_inputs: int) -> Result<(), PipelineError> {
        if !self.state.has_proof() {
            Err(PipelineError::StageNotReady)
        } else if n_inputs != self.state.dims().num_instance - 1 {
            Err(PipelineError::CryptographicFailure)
        } else {
            Ok(())
        }
    }

    /// The pure decision of the verification stage. A public input vector
    /// of the wrong length is rejected here with a declared error, so the
    /// outside routine never reads out of bounds.
    pub fn verify_plan(&self, public_inputs: &Vec<u64>) -> (r: Result<(), PipelineError>)
        ensures
            r == self.verify_decision(public_inputs@.len() as int),
    {
        let has_proof = match &self.state {
            SessionState::Proved { .. } => true,
            SessionState::Verified { .. } => true,
            _ => false,
        };
        if !has_proof {
            return Err(PipelineError::StageNotReady);
        }
        let dims = match self.indexed_dims() {
            Some(d) => d,
            None => {
                return Err(PipelineError::StageNotReady);
            },
        };
        if !(dims.num_instance >= 1 && public_inputs.len() == dims.num_instance - 1) {
            return Err(PipelineError::CryptographicFailure);
        }
        Ok(())
    }

    /// The verification stage. A completed verification, whether the proof
    /// was accepted or rejected, moves the session to `Verified` and records
    /// the boolean verdict; a fault of the outside routine leaves the
    /// session untouched.
    pub fn verify_proof(&mut self, public_inputs: &Vec<u64>, outcome: Option<VerifyOutcome>) -> (r:
        Result<VerificationResult, PipelineError>)
        ensures
            old(self).verify_decision(public_inputs@.len() as int) matches Err(e) ==> r == Err::<
                VerificationResult,
                PipelineError,
            >(e) && *final(self) == *old(self),
            old(self).verify_decision(public_inputs@.len() as int) is Ok && !verify_completed(
                outcome,
            ) ==> r == Err::<VerificationResult, PipelineError>(PipelineError::CryptographicFailure)
                && *final(self) == *old(self),
            old(self).verify_decision(public_inputs@.len() as int) is Ok && verify_completed(
                outcome,
            ) ==> {
                &&& *final(self) == MarlinProofSystem {
                    state: SessionState::Verified {
                        bounds: old(self).state.bounds(),
                        dims: old(self).state.dims(),
                        is_valid: verify_accepted(outcome),
                    },
                    seed: old(self).seed,
                }
                &&& r matches Ok(res) && res.success == true && res.is_valid == verify_accepted(
                    outcome,
                ) && res.verify_time == outcome.unwrap().millis
                &&& verify_accepted(outcome) ==> (r matches Ok(res) && res.message@
                    == "proof verification successful"@)
                &&& !verify_accepted(outcome) ==> (r matches Ok(res) && res.message@
                    == "proof verification failed"@)
            },
    {
        if let Err(e) = self.verify_plan(public_inputs) {
            return Err(e);
        }
        match outcome {
            Some(o) => {
                match o.judgment {
                    VerifyJudgment::Faulted => Err(PipelineError::CryptographicFailure),
                    _ => {
                        let (bounds, dims) = match (self.srs_bounds(), self.indexed_dims()) {
                            (Some(b), Some(d)) => (b, d),
                            _ => {
                                return Err(PipelineError::StageNotReady);
                            },
                        };
                        let accepted = matches!(o.judgment, VerifyJudgment::Accepted);
                        self.state = SessionState::Verified { bounds, dims, is_valid: accepted };
                        Ok(
                            VerificationResult {
                                success: true,
                                message: if accepted {
                                    String::from_str("proof verification successful")
                                } else {
                                    String::from_str("proof verification failed")
                                },
                                is_valid: accepted,
                                verify_time: o.millis,
                            },
                        )
                    },
                }
            },
            None => Err(PipelineError::CryptographicFailure),
        }
    }
}

} // verus!
