use crate::field::field_mul;
use vstd::prelude::*;

verus! {

/// A variable of a rank-1 constraint system: either a public (instance)
/// variable or a private (witness) variable, identified by its index in the
/// respective assignment vector.
#[derive(Clone, Copy, PartialEq, Eq, Structural, Debug)]
pub enum Variable {
    Instance(usize),
    Witness(usize),
}

/// A rank-1 constraint `a * b = c` over three variables. Each side is a
/// single variable with unit coefficient, the only linear-combination shape
/// the circuits of this crate produce.
#[derive(Clone, Copy, PartialEq, Eq, Structural, Debug)]
pub struct Constraint {
    pub a: Variable,
    pub b: Variable,
    pub c: Variable,
}

/// One sequence extends another when the shorter one is a prefix of the
/// longer one.
pub open spec fn seq_extends<T>(post: Seq<T>, pre: Seq<T>) -> bool {
    &&& pre.len() <= post.len()
    &&& forall|i: int| 0 <= i < pre.len() ==> #[trigger] post[i] == pre[i]
}

/// An explicit builder for a rank-1 constraint system together with its
/// assignment. Circuit synthesis receives the builder by exclusive mutable
/// reference and registers variables and constraints on it; nothing else is
/// ever registered. Instance variable 0 always holds the constant one,
/// following the usual convention for R1CS instance vectors.
///
/// Assignment values are canonical field representatives: every `u128` is
/// below the field modulus.
pub struct ConstraintBuilder {
    pub instance_values: Vec<u128>,
    pub witness_values: Vec<u128>,
    pub constraints: Vec<Constraint>,
}

impl ConstraintBuilder {
    /// Whether a variable refers to an allocated slot of this builder.
    pub open spec fn var_in_range(self, v: Variable) -> bool {
        match v {
            Variable::Instance(i) => i < self.instance_values@.len(),
            Variable::Witness(i) => i < self.witness_values@.len(),
        }
    }

    /// The value the assignment gives to a variable; unallocated variables
    /// read as zero.
    pub open spec fn var_value(self, v: Variable) -> int {
        match v {
            Variable::Instance(i) => if i < self.instance_values@.len() {
                self.instance_values@[i as int] as int
            } else {
                0
            },
            Variable::Witness(i) => if i < self.witness_values@.len() {
                self.witness_values@[i as int] as int
            } else {
                0
            },
        }
    }

    pub open spec fn constraint_in_range(self, k: Constraint) -> bool {
        &&& self.var_in_range(k.a)
        &&& self.var_in_range(k.b)
        &&& self.var_in_range(k.c)
    }

    /// Whether the assignment satisfies one constraint: the field product of
    /// the two left-hand values equals the right-hand value.
    pub open spec fn constraint_holds(self, k: Constraint) -> bool {
        field_mul(self.var_value(k.a), self.var_value(k.b)) == self.var_value(k.c)
    }

    /// Well-formedness: the constant-one instance variable is allocated and
    /// holds one, and every registered constraint refers to allocated
    /// variables.
    pub open spec fn wf(self) -> bool {
        &&& self.instance_values@.len() >= 1
        &&& self.instance_values@[0] == 1
        &&& forall|i: int|
            0 <= i < self.constraints@.len() ==> self.constraint_in_range(
                #[trigger] self.constraints@[i],
            )
    }

    /// Whether the assignment satisfies every registered constraint.
    pub open spec fn satisfied(self) -> bool {
        forall|i: int|
            0 <= i < self.constraints@.len() ==> self.constraint_holds(
                #[trigger] self.constraints@[i],
            )
    }

    /// Whether this builder only adds variables on top of an earlier one.
    pub open spec fn extends(self, pre: Self) -> bool {
        &&& seq_extends(self.instance_values@, pre.instance_values@)
        &&& seq_extends(self.witness_values@, pre.witness_values@)
    }

    /// A fresh builder: no constraints, no witness variables, and the single
    /// constant-one instance variable.
    pub fn new() -> (r: Self)
        ensures
            r.wf(),
            r.satisfied(),
            r.instance_values@ =~= seq![1u128],
            r.witness_values@ =~= Seq::<u128>::empty(),
            r.constraints@ =~= Seq::<Constraint>::empty(),
    {
        let mut instance_values: Vec<u128> = Vec::new();
        instance_values.push(1);
        ConstraintBuilder { instance_values, witness_values: Vec::new(), constraints: Vec::new() }
    }

    /// Allocates a private variable holding `value`.
    pub fn new_witness_variable(&mut self, value: u128) -> (v: Variable)
        ensures
            final(self).witness_values@ == old(self).witness_values@.push(value),
            final(self).instance_values@ == old(self).instance_values@,
            final(self).constraints@ == old(self).constraints@,
            v == Variable::Witness(old(self).witness_values@.len() as usize),
            old(self).witness_values@.len() <= usize::MAX,
            final(self).extends(*old(self)),
            old(self).wf() ==> final(self).wf(),
    {
        let idx = self.witness_values.len();
        self.witness_values.push(value);
        proof {
            lemma_wf_after_allocation(*old(self), *self);
        }
        Variable::Witness(idx)
    }

    /// Allocates a public variable holding `value`.
    pub fn new_input_variable(&mut self, value: u128) -> (v: Variable)
        ensures
            final(self).instance_values@ == old(self).instance_values@.push(value),
            final(self).witness_values@ == old(self).witness_values@,
            final(self).constraints@ == old(self).constraints@,
            v == Variable::Instance(old(self).instance_values@.len() as usize),
            old(self).instance_values@.len() <= usize::MAX,
            final(self).extends(*old(self)),
            old(self).wf() ==> final(self).wf(),
    {
        let idx = self.instance_values.len();
        self.instance_values.push(value);
        proof {
            lemma_wf_after_allocation(*old(self), *self);
        }
        Variable::Instance(idx)
    }

    /// Registers the constraint `a * b = c`.
    pub fn enforce_constraint(&mut self, a: Variable, b: Variable, c: Variable)
        requires
            old(self).var_in_range(a),
            old(self).var_in_range(b),
            old(self).var_in_range(c),
        ensures
            final(self).constraints@ == old(self).constraints@.push(Constraint { a, b, c }),
            final(self).instance_values@ == old(self).instance_values@,
            final(self).witness_values@ == old(self).witness_values@,
            final(self).extends(*old(self)),
            old(self).wf() ==> final(self).wf(),
    {
        self.constraints.push(Constraint { a, b, c });
        proof {
            if old(self).wf() {
                assert forall|i: int| 0 <= i < self.constraints@.len() implies self
                    .constraint_in_range(self.constraints@[i]) by {
                    if i < old(self).constraints@.len() {
                        assert(self.constraints@[i] == old(self).constraints@[i]);
                    }
                }
            }
        }
    }

    /// The constraint list in the form the outside argument system's
    /// indexer accepts: its subdomain sizing needs at least two non-zero
    /// matrix entries, so a single registered constraint is handed over
    /// twice. Repeating a constraint does not change which assignments
    /// satisfy the system.
    pub fn export_constraints(&self) -> (r: Vec<Constraint>)
        ensures
            self.constraints@.len() == 1 ==> r@ =~= self.constraints@.push(self.constraints@[0]),
            self.constraints@.len() != 1 ==> r@ =~= self.constraints@,
    {
        let mut exported: Vec<Constraint> = Vec::new();
        let mut i: usize = 0;
        while i < self.constraints.len()
            invariant
                0 <= i <= self.constraints@.len(),
                exported@ =~= self.constraints@.subrange(0, i as int),
            decreases self.constraints@.len() - i,
        {
            exported.push(self.constraints[i]);
            i = i + 1;
        }
        proof {
            assert(exported@ =~= self.constraints@);
        }
        if exported.len() == 1 {
            let only = exported[0];
            exported.push(only);
        }
        exported
    }

    pub fn num_constraints(&self) -> (n: usize)
        ensures
            n == self.constraints@.len(),
    {
        self.constraints.len()
    }

    pub fn num_instance_variables(&self) -> (n: usize)
        ensures
            n == self.instance_values@.len(),
    {
        self.instance_values.len()
    }

    pub fn num_witness_variables(&self) -> (n: usize)
        ensures
            n == self.witness_values@.len(),
    {
        self.witness_values.len()
    }
}

/// Allocating variables neither unsets the constant-one slot nor moves any
/// constraint out of range.
proof fn lemma_wf_after_allocation(pre: ConstraintBuilder, post: ConstraintBuilder)
    requires
        post.extends(pre),
        post.constraints@ == pre.constraints@,
    ensures
        pre.wf() ==> post.wf(),
{
    if pre.wf() {
        assert(post.instance_values@[0] == pre.instance_values@[0]);
        assert forall|i: int| 0 <= i < post.constraints@.len() implies post.constraint_in_range(
            post.constraints@[i],
        ) by {
            assert(pre.constraint_in_range(pre.constraints@[i]));
        }
    }
}

/// The exported constraint list is satisfied exactly when the builder is:
/// the export only ever repeats a constraint that is already registered.
pub proof fn lemma_export_preserves_satisfaction(cs: ConstraintBuilder, r: Seq<Constraint>)
    requires
        cs.constraints@.len() == 1 ==> r =~= cs.constraints@.push(cs.constraints@[0]),
        cs.constraints@.len() != 1 ==> r =~= cs.constraints@,
    ensures
        (forall|i: int| 0 <= i < r.len() ==> cs.constraint_holds(#[trigger] r[i]))
            <==> cs.satisfied(),
{
    if cs.constraints@.len() == 1 {
        assert(r[0] == cs.constraints@[0]);
        if forall|i: int| 0 <= i < r.len() ==> cs.constraint_holds(#[trigger] r[i]) {
            assert(cs.constraint_holds(r[0]));
            assert forall|i: int| 0 <= i < cs.constraints@.len() implies cs.constraint_holds(
                cs.constraints@[i],
            ) by {
                assert(cs.constraints@[i] == r[0]);
            }
        }
        if cs.satisfied() {
            assert forall|i: int| 0 <= i < r.len() implies cs.constraint_holds(r[i]) by {
                assert(r[i] == cs.constraints@[0]);
                assert(cs.constraint_holds(cs.constraints@[0]));
            }
        }
    }
}

/// The value of a variable that was in range before is untouched when the
/// builder is only extended.
pub proof fn lemma_var_value_frame(pre: ConstraintBuilder, post: ConstraintBuilder, v: Variable)
    requires
        post.extends(pre),
        pre.var_in_range(v),
    ensures
        post.var_in_range(v),
        post.var_value(v) == pre.var_value(v),
{
}

/// A constraint over variables of the smaller builder holds in the extended
/// builder exactly when it held before.
pub proof fn lemma_constraint_holds_frame(
    pre: ConstraintBuilder,
    post: ConstraintBuilder,
    k: Constraint,
)
    requires
        post.extends(pre),
        pre.constraint_in_range(k),
    ensures
        post.constraint_in_range(k),
        post.constraint_holds(k) == pre.constraint_holds(k),
{
    lemma_var_value_frame(pre, post, k.a);
    lemma_var_value_frame(pre, post, k.b);
    lemma_var_value_frame(pre, post, k.c);
}

/// Extending the assignment without touching the constraints preserves
/// satisfaction in both directions.
pub proof fn lemma_satisfied_same_constraints(pre: ConstraintBuilder, post: ConstraintBuilder)
    requires
        pre.wf(),
        post.extends(pre),
        post.constraints@ == pre.constraints@,
    ensures
        post.satisfied() <==> pre.satisfied(),
{
    if pre.satisfied() {
        assert forall|i: int| 0 <= i < post.constraints@.len() implies post.constraint_holds(
            post.constraints@[i],
        ) by {
            assert(pre.constraint_holds(pre.constraints@[i]));
            lemma_constraint_holds_frame(pre, post, pre.constraints@[i]);
        }
    }
    if post.satisfied() {
        assert forall|i: int| 0 <= i < pre.constraints@.len() implies pre.constraint_holds(
            pre.constraints@[i],
        ) by {
            assert(post.constraint_holds(post.constraints@[i]));
            lemma_constraint_holds_frame(pre, post, pre.constraints@[i]);
        }
    }
}

/// After registering one new constraint on top of an extended assignment,
/// the builder is satisfied exactly when it was satisfied before and the new
/// constraint holds.
pub proof fn lemma_satisfied_after_push(
    pre: ConstraintBuilder,
    post: ConstraintBuilder,
    k: Constraint,
)
    requires
        pre.wf(),
        post.extends(pre),
        post.constraints@ == pre.constraints@.push(k),
    ensures
        post.satisfied() <==> pre.satisfied() && post.constraint_holds(k),
{
    assert(post.constraints@[post.constraints@.len() - 1] == k);
    if post.satisfied() {
        assert forall|i: int| 0 <= i < pre.constraints@.len() implies pre.constraint_holds(
            pre.constraints@[i],
        ) by {
            assert(post.constraints@[i] == pre.constraints@[i]);
            assert(post.constraint_holds(post.constraints@[i]));
            lemma_constraint_holds_frame(pre, post, pre.constraints@[i]);
        }
    }
    if pre.satisfied() && post.constraint_holds(k) {
        assert forall|i: int| 0 <= i < post.constraints@.len() implies post.constraint_holds(
            post.constraints@[i],
        ) by {
            if i < pre.constraints@.len() {
                assert(post.constraints@[i] == pre.constraints@[i]);
                assert(pre.constraint_holds(pre.constraints@[i]));
                lemma_constraint_holds_frame(pre, post, pre.constraints@[i]);
            }
        }
    }
}

} // verus!
