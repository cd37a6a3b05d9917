use crate::circuit::{
    lemma_diagnostic_claim_checks_the_product, lemma_multiplication_claim_is_integer_product,
    Circuit, ConfigurableCircuit, MultiplicationCircuit,
};
use crate::field::{lemma_u64_product_is_canonical, lifted_product};
use crate::pipeline::{expected_run_report, run_full_proof_system, ProofRunResult, RunOutcomes};
use vstd::prelude::*;

verus! {

/// The arithmetic verdict on a claimed product, independent of any
/// cryptography.
#[derive(Clone, Copy, PartialEq, Eq, Debug)]
pub struct ConstraintVerdict {
    pub is_valid: bool,
    pub actual_result: u128,
    pub claimed_result: u64,
}

/// Checks the claim `witness_a * witness_b = claimed_c` by plain
/// arithmetic: the true product is computed exactly, so the verdict is
/// right for every input.
pub fn verify_constraint(witness_a: u64, witness_b: u64, claimed_c: u64) -> (r: ConstraintVerdict)
    ensures
        r.actual_result as int == witness_a as int * witness_b as int,
        r.claimed_result == claimed_c,
        r.is_valid <==> witness_a as int * witness_b as int == claimed_c as int,
{
    let actual = lifted_product(witness_a, witness_b);
    ConstraintVerdict {
        is_valid: actual == claimed_c as u128,
        actual_result: actual,
        claimed_result: claimed_c,
    }
}

/// The diagnostic circuit the harness runs for a claim: the enforced value
/// is the true product, decoupled from the claimed public value.
pub open spec fn diagnostic_circuit_spec(
    witness_a: u64,
    witness_b: u64,
    claimed_c: u64,
) -> ConfigurableCircuit {
    ConfigurableCircuit {
        witness_a: Some(witness_a),
        witness_b: Some(witness_b),
        public_c: Some(claimed_c),
        expected_result: (witness_a as int * witness_b as int) as u128,
    }
}

/// Builds the diagnostic circuit for a claim.
pub fn diagnostic_circuit(witness_a: u64, witness_b: u64, claimed_c: u64) -> (r:
    ConfigurableCircuit)
    ensures
        r == diagnostic_circuit_spec(witness_a, witness_b, claimed_c),
        r.expected_result as int == witness_a as int * witness_b as int,
{
    proof {
        lemma_u64_product_is_canonical(witness_a as int, witness_b as int);
    }
    ConfigurableCircuit {
        witness_a: Some(witness_a),
        witness_b: Some(witness_b),
        public_c: Some(claimed_c),
        expected_result: lifted_product(witness_a, witness_b),
    }
}

/// A standard circuit whose public value is the true product of its factors
/// encodes a claim that holds, so its synthesized constraint system is
/// satisfiable: the honest prover is never rejected by the constraints.
pub proof fn lemma_correct_product_is_satisfiable(a: u64, b: u64, c: u64)
    requires
        c as int == a as int * b as int,
    ensures
        (MultiplicationCircuit { a: Some(a), b: Some(b), c: Some(c) }).claim_holds(),
{
    lemma_multiplication_claim_is_integer_product(
        MultiplicationCircuit { a: Some(a), b: Some(b), c: Some(c) },
    );
}

/// A diagnostic circuit for a false claim encodes a claim that cannot hold,
/// so its synthesized constraint system is unsatisfiable: no assignment the
/// prover could choose makes the claimed value pass the constraints.
pub proof fn lemma_false_claim_is_unsatisfiable(a: u64, b: u64, claimed: u64)
    requires
        claimed as int != a as int * b as int,
    ensures
        !diagnostic_circuit_spec(a, b, claimed).claim_holds(),
{
    lemma_u64_product_is_canonical(a as int, b as int);
    lemma_diagnostic_claim_checks_the_product(
        diagnostic_circuit_spec(a, b, claimed),
        a,
        b,
        claimed,
    );
}

/// A diagnostic circuit for a correct claim encodes a claim that holds, so
/// its synthesized constraint system is satisfiable.
pub proof fn lemma_true_claim_is_satisfiable(a: u64, b: u64, claimed: u64)
    requires
        claimed as int == a as int * b as int,
    ensures
        diagnostic_circuit_spec(a, b, claimed).claim_holds(),
{
    lemma_u64_product_is_canonical(a as int, b as int);
    lemma_diagnostic_claim_checks_the_product(
        diagnostic_circuit_spec(a, b, claimed),
        a,
        b,
        claimed,
    );
}

/// The full report of the diagnostic harness: the arithmetic verdict on the
/// claim, and the report of the one-shot pipeline run on the diagnostic
/// circuit.
#[derive(Clone, Copy, PartialEq, Eq, Debug)]
pub struct ConstraintTestResult {
    pub actual_result: u128,
    pub claimed_result: u64,
    pub is_constraint_correct: bool,
    pub run: ProofRunResult,
}

/// The diagnostic harness: computes the true product of the two factors,
/// reports whether the claimed value matches it, and runs the one-shot
/// pipeline on the diagnostic circuit built from the true product and the
/// claimed value. The arithmetic verdict is exact for every input; for a
/// false claim the diagnostic circuit is unsatisfiable, so the outside
/// prover either refuses to prove or produces a proof that verification
/// rejects, and either way the run's verdict flags disagree with the claim.
pub fn test_constraint(
    witness_a: u64,
    witness_b: u64,
    claimed_c: u64,
    outcomes: RunOutcomes,
) -> (r: ConstraintTestResult)
    ensures
        r.actual_result as int == witness_a as int * witness_b as int,
        r.claimed_result == claimed_c,
        r.is_constraint_correct <==> witness_a as int * witness_b as int == claimed_c as int,
        r.run == expected_run_report(
            Circuit::Configurable(diagnostic_circuit_spec(witness_a, witness_b, claimed_c)),
            outcomes,
        ),
{
    let verdict = verify_constraint(witness_a, witness_b, claimed_c);
    let circuit = diagnostic_circuit(witness_a, witness_b, claimed_c);
    let run = run_full_proof_system(&Circuit::Configurable(circuit), outcomes);
    ConstraintTestResult {
        actual_result: verdict.actual_result,
        claimed_result: verdict.claimed_result,
        is_constraint_correct: verdict.is_valid,
        run,
    }
}

} // verus!
