use crate::errors::PipelineError;
use crate::session::{SrsBounds, MAX_SUPPORTED_COUNT};
use vstd::prelude::*;

verus! {

/// What `AHPForR1CS::max_degree` returns for the three counts: the maximum
/// polynomial degree the outside argument system supports for circuits
/// within them, or nothing where a count exceeds the field's evaluation
/// domains. A pure function of the counts.
pub uninterp spec fn ahp_max_degree(
    num_constraints: int,
    num_variables: int,
    num_non_zero: int,
) -> Option<int>;

/// The degree a setup response reports for its bounds: the supported degree
/// where the outside argument system has one, and zero otherwise.
pub open spec fn reported_degree(bounds: SrsBounds) -> int {
    if bounds.within_count_limit() {
        match ahp_max_degree(
            bounds.num_constraints as int,
            bounds.num_variables as int,
            bounds.num_non_zero as int,
        ) {
            Some(d) => d,
            None => 0,
        }
    } else {
        0
    }
}

/// Relies on `AHPForR1CS::max_degree` of the outside argument system, pure
/// arithmetic of the three counts: it succeeds, with the supported degree,
/// exactly when the field has evaluation domains large enough for them.
/// Counts are bounded away from the range where its power-of-two rounding
/// of the domain sizes could overflow and abort.
#[verifier::external_body]
fn max_degree_call(num_constraints: usize, num_variables: usize, num_non_zero: usize) -> (r:
    Result<usize, ()>)
    requires
        num_constraints as int <= MAX_SUPPORTED_COUNT as int,
        num_variables as int <= MAX_SUPPORTED_COUNT as int,
        num_non_zero as int <= MAX_SUPPORTED_COUNT as int,
    ensures
        r is Ok <==> ahp_max_degree(
            num_constraints as int,
            num_variables as int,
            num_non_zero as int,
        ) is Some,
        r matches Ok(d) ==> ahp_max_degree(
            num_constraints as int,
            num_variables as int,
            num_non_zero as int,
        ) == Some(d as int),
{
    ark_marlin::AHPForR1CS::<ark_bls12_381::Fr>::max_degree(
        num_constraints,
        num_variables,
        num_non_zero,
    ).map_err(|_| ())
}

/// The supported degree for the given bounds, reported as the outside
/// argument system computes it: the call succeeds exactly when the counts
/// are within the forwardable limit and the field's evaluation domains
/// cover them, and any failure comes back as a declared error.
pub fn setup_max_degree(bounds: SrsBounds) -> (r: Result<usize, PipelineError>)
    ensures
        r is Ok <==> bounds.within_count_limit() && ahp_max_degree(
            bounds.num_constraints as int,
            bounds.num_variables as int,
            bounds.num_non_zero as int,
        ) is Some,
        r matches Ok(d) ==> ahp_max_degree(
            bounds.num_constraints as int,
            bounds.num_variables as int,
            bounds.num_non_zero as int,
        ) == Some(d as int),
        r is Err ==> r == Err::<usize, PipelineError>(PipelineError::CryptographicFailure),
{
    if !bounds.check_within_count_limit() {
        return Err(PipelineError::CryptographicFailure);
    }
    match max_degree_call(bounds.num_constraints, bounds.num_variables, bounds.num_non_zero) {
        Ok(d) => Ok(d),
        Err(()) => Err(PipelineError::CryptographicFailure),
    }
}

} // verus!
