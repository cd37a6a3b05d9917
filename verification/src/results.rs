use vstd::prelude::*;

verus! {

/// The structured response of a successful universal setup.
#[derive(Clone, PartialEq, Eq, Debug)]
pub struct UniversalSRSResult {
    pub success: bool,
    pub message: String,
    pub max_degree: usize,
    pub setup_time: u64,
}

/// The structured response of a successful indexing step.
#[derive(Clone, PartialEq, Eq, Debug)]
pub struct IndexResult {
    pub success: bool,
    pub message: String,
    pub num_constraints: usize,
    pub num_variables: usize,
    pub index_time: u64,
}

/// The structured response of a successful proof generation.
#[derive(Clone, PartialEq, Eq, Debug)]
pub struct ProofResult {
    pub success: bool,
    pub message: String,
    pub proof_size: usize,
    pub proof_time: u64,
}

/// The structured response of a completed verification, valid or not.
#[derive(Clone, PartialEq, Eq, Debug)]
pub struct VerificationResult {
    pub success: bool,
    pub message: String,
    pub is_valid: bool,
    pub verify_time: u64,
}

} // verus!
