use vstd::prelude::*;

verus! {

/// The failure modes of the proof pipeline.
///
/// Every stage operation reports its failure as one of these values instead
/// of aborting, and the presentation adapters turn them into structured
/// failure responses.
#[derive(Clone, Copy, PartialEq, Eq, Structural, Debug)]
pub enum PipelineError {
    /// A required witness or public value was not supplied before constraint
    /// synthesis.
    MissingAssignment,
    /// The circuit's constraint, variable or non-zero counts exceed the
    /// bounds the reference string was generated for.
    SizeExceeded,
    /// An operation was invoked out of lifecycle order, for example proving
    /// before indexing.
    StageNotReady,
    /// A malformed or mismatched input to the underlying cryptographic
    /// routine, or an opaque failure inside it.
    CryptographicFailure,
}

impl PipelineError {
    /// A short human-readable description, used by the adapters when they
    /// build failure responses.
    pub fn describe(&self) -> (r: &'static str)
        ensures
            *self == PipelineError::MissingAssignment ==> r@ == "a required assignment is missing"@,
            *self == PipelineError::SizeExceeded ==> r@ == "the circuit exceeds the reference string's size bounds"@,
            *self == PipelineError::StageNotReady ==> r@ == "the requested stage is not ready"@,
            *self == PipelineError::CryptographicFailure ==> r@ == "the underlying cryptographic routine failed"@,
    {
        match self {
            PipelineError::MissingAssignment => "a required assignment is missing",
            PipelineError::SizeExceeded => "the circuit exceeds the reference string's size bounds",
            PipelineError::StageNotReady => "the requested stage is not ready",
            PipelineError::CryptographicFailure => "the underlying cryptographic routine failed",
        }
    }
}

} // verus!
