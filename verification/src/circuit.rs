use crate::errors::PipelineError;
use crate::field::{field_mul, lemma_u128_is_canonical, lemma_u64_product_is_canonical};
use crate::r1cs::{
    lemma_satisfied_after_push, lemma_satisfied_same_constraints, Constraint, ConstraintBuilder,
    Variable,
};
use vstd::prelude::*;

verus! {

/// The value of an optional input once lifted into the field; an absent
/// input reads as zero, but synthesis rejects absent inputs before any value
/// is read.
pub open spec fn opt_val(o: Option<u64>) -> int {
    match o {
        Some(v) => v as int,
        None => 0,
    }
}

/// The variable and constraint counts of a circuit, as synthesized on a
/// fresh builder. `num_instance` includes the constant-one instance
/// variable.
#[derive(Clone, Copy, PartialEq, Eq, Structural, Debug)]
pub struct CircuitDims {
    pub num_constraints: usize,
    pub num_instance: usize,
    pub num_witness: usize,
}

impl CircuitDims {
    pub open spec fn total_variables(self) -> int {
        self.num_instance + self.num_witness
    }

    /// Every constraint of these circuits has a single variable on each
    /// side, so each matrix of the rank-1 system holds one non-zero entry
    /// per constraint.
    pub open spec fn num_non_zero(self) -> int {
        self.num_constraints as int
    }
}

/// The standard circuit for the statement `a * b = c`: the two factors are
/// private witness values, the product is a public instance value.
#[derive(Clone, Copy, PartialEq, Eq, Debug)]
pub struct MultiplicationCircuit {
    pub a: Option<u64>,
    pub b: Option<u64>,
    pub c: Option<u64>,
}

impl MultiplicationCircuit {
    pub open spec fn fully_assigned(self) -> bool {
        self.a is Some && self.b is Some && self.c is Some
    }

    /// The statement the single constraint encodes for this assignment: the
    /// field product of the two factors equals the public value.
    pub open spec fn claim_holds(self) -> bool {
        field_mul(opt_val(self.a), opt_val(self.b)) == opt_val(self.c)
    }

    /// How synthesis grows a builder: two witness variables holding the
    /// factors, one instance variable holding the public value, and the
    /// constraint `a * b = c` over them.
    pub open spec fn synthesis_shape(self, pre: ConstraintBuilder, post: ConstraintBuilder) -> bool {
        &&& post.witness_values@ == pre.witness_values@.push(opt_val(self.a) as u128).push(
            opt_val(self.b) as u128,
        )
        &&& post.instance_values@ == pre.instance_values@.push(opt_val(self.c) as u128)
        &&& post.constraints@ == pre.constraints@.push(
            Constraint {
                a: Variable::Witness(pre.witness_values@.len() as usize),
                b: Variable::Witness((pre.witness_values@.len() + 1) as usize),
                c: Variable::Instance(pre.instance_values@.len() as usize),
            },
        )
    }

    /// Synthesizes the circuit's constraints on `cs`. Fails with
    /// `MissingAssignment`, leaving the builder untouched, exactly when one
    /// of the three inputs is absent; otherwise the grown builder is
    /// satisfied exactly when it was satisfied before and the product claim
    /// holds of the assignment.
    pub fn generate_constraints(&self, cs: &mut ConstraintBuilder) -> (r: Result<
        (),
        PipelineError,
    >)
        requires
            old(cs).wf(),
        ensures
            r is Ok <==> self.fully_assigned(),
            r is Err ==> *final(cs) == *old(cs) && r == Err::<(), PipelineError>(
                PipelineError::MissingAssignment,
            ),
            r is Ok ==> {
                &&& final(cs).wf()
                &&& final(cs).extends(*old(cs))
                &&& self.synthesis_shape(*old(cs), *final(cs))
                &&& (final(cs).satisfied() <==> old(cs).satisfied() && self.claim_holds())
            },
    {
        let (a_val, b_val, c_val) = match (self.a, self.b, self.c) {
            (Some(x), Some(y), Some(z)) => (x, y, z),
            _ => {
                return Err(PipelineError::MissingAssignment);
            },
        };
        let ghost pre = *cs;
        let va = cs.new_witness_variable(a_val as u128);
        let vb = cs.new_witness_variable(b_val as u128);
        let vc = cs.new_input_variable(c_val as u128);
        let ghost grown = *cs;
        cs.enforce_constraint(va, vb, vc);
        proof {
            let k = Constraint { a: va, b: vb, c: vc };
            assert(grown.extends(pre));
            lemma_satisfied_same_constraints(pre, grown);
            lemma_satisfied_after_push(grown, *cs, k);
            let w0 = pre.witness_values@;
            let x = a_val as u128;
            let y = b_val as u128;
            assert(w0.push(x)[w0.len() as int] == x);
            assert(w0.push(x).push(y)[w0.len() as int] == w0.push(x)[w0.len() as int]);
            assert(w0.push(x).push(y)[w0.len() as int + 1] == y);
            assert(cs.var_value(va) == a_val as int);
            assert(cs.var_value(vb) == b_val as int);
            assert(cs.var_value(vc) == c_val as int);
            assert(cs.extends(pre));
        }
        Ok(())
    }
}

/// For a fully assigned standard circuit the encoded claim is exactly the
/// integer statement `a * b = c`: with factors below 2^64 the field product
/// never wraps around the modulus.
pub proof fn lemma_multiplication_claim_is_integer_product(circuit: MultiplicationCircuit)
    requires
        circuit.fully_assigned(),
    ensures
        circuit.claim_holds() <==> opt_val(circuit.a) * opt_val(circuit.b) == opt_val(circuit.c),
{
    lemma_u64_product_is_canonical(opt_val(circuit.a), opt_val(circuit.b));
}

/// The diagnostic circuit. Unlike the standard circuit it constrains the
/// product of the factors against an independently supplied enforced value,
/// and ties the public value to that enforced value with a second
/// constraint, so a public value that differs from the enforced one makes
/// the system unsatisfiable no matter what the prover claims.
#[derive(Clone, Copy, PartialEq, Eq, Debug)]
pub struct ConfigurableCircuit {
    pub witness_a: Option<u64>,
    pub witness_b: Option<u64>,
    pub public_c: Option<u64>,
    pub expected_result: u128,
}

impl ConfigurableCircuit {
    pub open spec fn fully_assigned(self) -> bool {
        self.witness_a is Some && self.witness_b is Some && self.public_c is Some
    }

    /// The statement the two constraints encode: the field product of the
    /// factors equals the enforced value, and the public value equals the
    /// enforced value.
    pub open spec fn claim_holds(self) -> bool {
        &&& field_mul(opt_val(self.witness_a), opt_val(self.witness_b))
            == self.expected_result as int
        &&& opt_val(self.public_c) == self.expected_result as int
    }

    /// How synthesis grows a builder: witness variables for the two factors,
    /// an instance variable for the public value, witness variables for the
    /// enforced value and the constant one, and the two constraints
    /// `a * b = expected` and `c * 1 = expected`.
    pub open spec fn synthesis_shape(self, pre: ConstraintBuilder, post: ConstraintBuilder) -> bool {
        let nw = pre.witness_values@.len();
        let ni = pre.instance_values@.len();
        &&& post.witness_values@ == pre.witness_values@.push(opt_val(self.witness_a) as u128).push(
            opt_val(self.witness_b) as u128,
        ).push(self.expected_result).push(1u128)
        &&& post.instance_values@ == pre.instance_values@.push(opt_val(self.public_c) as u128)
        &&& post.constraints@ == pre.constraints@.push(
            Constraint {
                a: Variable::Witness(nw as usize),
                b: Variable::Witness((nw + 1) as usize),
                c: Variable::Witness((nw + 2) as usize),
            },
        ).push(
            Constraint {
                a: Variable::Instance(ni as usize),
                b: Variable::Witness((nw + 3) as usize),
                c: Variable::Witness((nw + 2) as usize),
            },
        )
    }

    /// Synthesizes the two diagnostic constraints on `cs`, with the same
    /// failure behaviour as the standard circuit.
    pub fn generate_constraints(&self, cs: &mut ConstraintBuilder) -> (r: Result<
        (),
        PipelineError,
    >)
        requires
            old(cs).wf(),
        ensures
            r is Ok <==> self.fully_assigned(),
            r is Err ==> *final(cs) == *old(cs) && r == Err::<(), PipelineError>(
                PipelineError::MissingAssignment,
            ),
            r is Ok ==> {
                &&& final(cs).wf()
                &&& final(cs).extends(*old(cs))
                &&& self.synthesis_shape(*old(cs), *final(cs))
                &&& (final(cs).satisfied() <==> old(cs).satisfied() && self.claim_holds())
            },
    {
        let (a_val, b_val, c_val) = match (self.witness_a, self.witness_b, self.public_c) {
            (Some(x), Some(y), Some(z)) => (x, y, z),
            _ => {
                return Err(PipelineError::MissingAssignment);
            },
        };
        let ghost pre = *cs;
        let va = cs.new_witness_variable(a_val as u128);
        let vb = cs.new_witness_variable(b_val as u128);
        let vc = cs.new_input_variable(c_val as u128);
        let ve = cs.new_witness_variable(self.expected_result);
        let ghost grown_first = *cs;
        cs.enforce_constraint(va, vb, ve);
        let ghost with_product = *cs;
        let vone = cs.new_witness_variable(1);
        let ghost grown_second = *cs;
        cs.enforce_constraint(vc, vone, ve);
        proof {
            let k1 = Constraint { a: va, b: vb, c: ve };
            let k2 = Constraint { a: vc, b: vone, c: ve };
            assert(grown_first.extends(pre));
            lemma_satisfied_same_constraints(pre, grown_first);
            lemma_satisfied_after_push(grown_first, with_product, k1);
            assert(grown_second.extends(with_product));
            lemma_satisfied_same_constraints(with_product, grown_second);
            lemma_satisfied_after_push(grown_second, *cs, k2);
            let w0 = pre.witness_values@;
            let x = a_val as u128;
            let y = b_val as u128;
            let e = self.expected_result;
            let w1 = w0.push(x);
            let w2 = w1.push(y);
            let w3 = w2.push(e);
            let w4 = w3.push(1u128);
            assert(w1[w0.len() as int] == x);
            assert(w2[w0.len() as int] == w1[w0.len() as int]);
            assert(w2[w0.len() as int + 1] == y);
            assert(w3[w0.len() as int] == w2[w0.len() as int]);
            assert(w3[w0.len() as int + 1] == w2[w0.len() as int + 1]);
            assert(w3[w0.len() as int + 2] == e);
            assert(w4[w0.len() as int] == w3[w0.len() as int]);
            assert(w4[w0.len() as int + 1] == w3[w0.len() as int + 1]);
            assert(w4[w0.len() as int + 2] == w3[w0.len() as int + 2]);
            assert(w4[w0.len() as int + 3] == 1u128);
            // The first constraint compares the product of the factors with
            // the enforced value.
            assert(with_product.witness_values@ == w3);
            assert(with_product.var_value(va) == a_val as int);
            assert(with_product.var_value(vb) == b_val as int);
            assert(with_product.var_value(ve) == self.expected_result as int);
            // The second constraint compares the public value, multiplied by
            // the constant one, with the enforced value.
            assert(cs.witness_values@ == w4);
            assert(cs.var_value(vc) == c_val as int);
            assert(cs.var_value(vone) == 1);
            assert(cs.var_value(ve) == self.expected_result as int);
            lemma_u128_is_canonical(c_val as int);
            assert(cs.constraint_holds(k2) <==> c_val as int == self.expected_result as int);
            assert(cs.extends(pre));
        }
        Ok(())
    }
}

/// A diagnostic circuit whose enforced value is the true product of its
/// factors encodes a claim that holds exactly when the claimed public value
/// is that product. In particular a false claim makes the synthesized
/// constraint system unsatisfiable.
pub proof fn lemma_diagnostic_claim_checks_the_product(
    circuit: ConfigurableCircuit,
    a: u64,
    b: u64,
    claimed: u64,
)
    requires
        circuit.witness_a == Some(a),
        circuit.witness_b == Some(b),
        circuit.public_c == Some(claimed),
        circuit.expected_result as int == a as int * b as int,
    ensures
        circuit.claim_holds() <==> claimed as int == a as int * b as int,
{
    lemma_u64_product_is_canonical(a as int, b as int);
}

/// Either of the two circuit shapes, for the stages that accept both.
#[derive(Clone, Copy, PartialEq, Eq, Debug)]
pub enum Circuit {
    Multiplication(MultiplicationCircuit),
    Configurable(ConfigurableCircuit),
}

impl Circuit {
    pub open spec fn fully_assigned(self) -> bool {
        match self {
            Circuit::Multiplication(m) => m.fully_assigned(),
            Circuit::Configurable(c) => c.fully_assigned(),
        }
    }

    pub open spec fn claim_holds(self) -> bool {
        match self {
            Circuit::Multiplication(m) => m.claim_holds(),
            Circuit::Configurable(c) => c.claim_holds(),
        }
    }

    /// The circuit's one public value: the claimed product.
    pub open spec fn public_value(self) -> Option<u64> {
        match self {
            Circuit::Multiplication(m) => m.c,
            Circuit::Configurable(c) => c.public_c,
        }
    }

    pub open spec fn synthesis_shape(self, pre: ConstraintBuilder, post: ConstraintBuilder) -> bool {
        match self {
            Circuit::Multiplication(m) => m.synthesis_shape(pre, post),
            Circuit::Configurable(c) => c.synthesis_shape(pre, post),
        }
    }

    /// The counts a fresh synthesis of this circuit produces.
    pub open spec fn dims(self) -> CircuitDims {
        match self {
            Circuit::Multiplication(_) => CircuitDims {
                num_constraints: 1,
                num_instance: 2,
                num_witness: 2,
            },
            Circuit::Configurable(_) => CircuitDims {
                num_constraints: 2,
                num_instance: 2,
                num_witness: 4,
            },
        }
    }

    /// Synthesizes whichever circuit this is, with the contract both shapes
    /// share.
    pub fn generate_constraints(&self, cs: &mut ConstraintBuilder) -> (r: Result<
        (),
        PipelineError,
    >)
        requires
            old(cs).wf(),
        ensures
            r is Ok <==> self.fully_assigned(),
            r is Err ==> *final(cs) == *old(cs) && r == Err::<(), PipelineError>(
                PipelineError::MissingAssignment,
            ),
            r is Ok ==> {
                &&& final(cs).wf()
                &&& final(cs).extends(*old(cs))
                &&& self.synthesis_shape(*old(cs), *final(cs))
                &&& (final(cs).satisfied() <==> old(cs).satisfied() && self.claim_holds())
            },
    {
        match self {
            Circuit::Multiplication(m) => m.generate_constraints(cs),
            Circuit::Configurable(c) => c.generate_constraints(cs),
        }
    }

    /// Whether the assignment satisfies the claim the constraints encode,
    /// decided by plain arithmetic. The host consults this before invoking
    /// the outside prover: on an unsatisfiable assignment that prover's
    /// behaviour is a legitimate rejection at either stage, and refusing to
    /// prove is the deterministic form of it.
    pub fn check_claim(&self) -> (b: bool)
        ensures
            b == self.claim_holds(),
    {
        proof {
            match *self {
                Circuit::Multiplication(m) => {
                    lemma_u64_product_is_canonical(opt_val(m.a), opt_val(m.b));
                },
                Circuit::Configurable(c) => {
                    lemma_u64_product_is_canonical(opt_val(c.witness_a), opt_val(c.witness_b));
                },
            }
        }
        match self {
            Circuit::Multiplication(m) => {
                let a = m.a.unwrap_or(0);
                let b = m.b.unwrap_or(0);
                let c = m.c.unwrap_or(0);
                (a as u128) * (b as u128) == c as u128
            },
            Circuit::Configurable(c) => {
                let a = c.witness_a.unwrap_or(0);
                let b = c.witness_b.unwrap_or(0);
                let claimed = c.public_c.unwrap_or(0);
                (a as u128) * (b as u128) == c.expected_result && (claimed as u128)
                    == c.expected_result
            },
        }
    }

    /// Whether every input the circuit needs has been supplied.
    pub fn check_assignments(&self) -> (b: bool)
        ensures
            b == self.fully_assigned(),
    {
        match self {
            Circuit::Multiplication(m) => m.a.is_some() && m.b.is_some() && m.c.is_some(),
            Circuit::Configurable(c) => c.witness_a.is_some() && c.witness_b.is_some()
                && c.public_c.is_some(),
        }
    }

    /// The public input vector the verifier receives: the single claimed
    /// product, without the constant-one instance variable.
    pub fn public_inputs(&self) -> (r: Result<Vec<u64>, PipelineError>)
        ensures
            r is Ok <==> self.public_value() is Some,
            r is Err ==> r == Err::<Vec<u64>, PipelineError>(PipelineError::MissingAssignment),
            r is Ok ==> r.unwrap()@ =~= seq![self.public_value().unwrap()],
    {
        let c = match self {
            Circuit::Multiplication(m) => m.c,
            Circuit::Configurable(cc) => cc.public_c,
        };
        match c {
            Some(v) => {
                let mut inputs: Vec<u64> = Vec::new();
                inputs.push(v);
                Ok(inputs)
            },
            None => Err(PipelineError::MissingAssignment),
        }
    }
}

/// Synthesizes `circuit` on a fresh builder and reports the resulting
/// counts, which for a fully assigned circuit are exactly `circuit.dims()`.
pub fn circuit_dims(circuit: &Circuit) -> (r: Result<CircuitDims, PipelineError>)
    ensures
        r is Ok <==> circuit.fully_assigned(),
        r is Err ==> r == Err::<CircuitDims, PipelineError>(PipelineError::MissingAssignment),
        r matches Ok(d) ==> d == circuit.dims(),
{
    let mut cs = ConstraintBuilder::new();
    let ghost fresh = cs;
    match circuit.generate_constraints(&mut cs) {
        Ok(()) => {
            proof {
                lemma_fresh_synthesis_counts(*circuit, fresh, cs);
            }
            Ok(
                CircuitDims {
                    num_constraints: cs.num_constraints(),
                    num_instance: cs.num_instance_variables(),
                    num_witness: cs.num_witness_variables(),
                },
            )
        },
        Err(e) => Err(e),
    }
}

/// Synthesizing a circuit on a fresh builder yields exactly the counts
/// `dims` announces.
pub proof fn lemma_fresh_synthesis_counts(
    circuit: Circuit,
    pre: ConstraintBuilder,
    post: ConstraintBuilder,
)
    requires
        pre.instance_values@.len() == 1,
        pre.witness_values@.len() == 0,
        pre.constraints@.len() == 0,
        circuit.synthesis_shape(pre, post),
    ensures
        post.constraints@.len() == circuit.dims().num_constraints,
        post.instance_values@.len() == circuit.dims().num_instance,
        post.witness_values@.len() == circuit.dims().num_witness,
{
}

} // verus!
