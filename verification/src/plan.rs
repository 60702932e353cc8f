//! Rebuilding a body: the prisms of its spacers, in history order.
use vstd::prelude::*;
use crate::spacer::{Prism, Role, Spacer};

verus! {

/// A spacer feature of a body as the rebuild sees it.
#[derive(Clone, Debug)]
pub struct Feature {
    pub id: String,
    /// Its data; `None` when the data does not read as a spacer.
    pub spacer: Option<Spacer>,
}

/// One body's plan.
#[derive(Clone, Debug)]
pub enum Plan {
    /// Build these prisms; `op_features[i]` is the feature prism `i` is for.
    Ops { ops: Vec<Prism>, op_features: Vec<String> },
    /// Nothing to build.
    Empty,
    /// The plan could not be made; the message goes on `feature`.
    Error { feature: String, message: &'static str },
}

pub open spec fn spec_unreadable() -> &'static str {
    "The spacer's data does not read."
}

/// What a feature whose data does not read is told.
pub fn unreadable() -> (r: &'static str)
    ensures
        r == spec_unreadable(),
{
    "The spacer's data does not read."
}

/// Whether a feature stops its body's plan: its data does not read, or
/// something is wrong with the spacer.
pub open spec fn fails(f: Feature) -> bool {
    match f.spacer {
        None => true,
        Some(s) => s.spec_problem() is Some,
    }
}

/// What a failing feature is told.
pub open spec fn failure_text(f: Feature) -> &'static str {
    match f.spacer {
        None => spec_unreadable(),
        Some(s) => s.spec_problem().unwrap().spec_text(),
    }
}

/// The prisms of the first `n` features, the first of them starting the
/// solid.
pub open spec fn ops_of(fs: Seq<Feature>, n: nat) -> Seq<Prism>
    decreases n,
{
    if n == 0 {
        seq![]
    } else {
        ops_of(fs, (n - 1) as nat) + fs[n - 1].spacer.unwrap().spec_ops(n - 1 == 0)
    }
}

/// The feature each prism of the first `n` features is for.
pub open spec fn features_of(fs: Seq<Feature>, n: nat) -> Seq<String>
    decreases n,
{
    if n == 0 {
        seq![]
    } else {
        features_of(fs, (n - 1) as nat) + Seq::new(
            fs[n - 1].spacer.unwrap().spec_ops(n - 1 == 0).len(),
            |j: int| fs[n - 1].id,
        )
    }
}

/// `i` is the first failing feature.
pub open spec fn first_failure(fs: Seq<Feature>, i: int) -> bool {
    &&& 0 <= i < fs.len()
    &&& fails(fs[i])
    &&& forall|j: int| 0 <= j < i ==> !fails(#[trigger] fs[j])
}

/// The plan for a body with these features, in history order: the first
/// failing feature's message on it; no plan for no features; else every
/// spacer's prisms, each with its feature.
pub open spec fn plan_is(fs: Seq<Feature>, plan: Plan) -> bool {
    match plan {
        Plan::Error { feature, message } => exists|i: int|
            #[trigger] first_failure(fs, i) && feature == fs[i].id && message == failure_text(
                fs[i],
            ),
        Plan::Empty => fs.len() == 0,
        Plan::Ops { ops, op_features } => {
            &&& fs.len() > 0
            &&& forall|i: int| 0 <= i < fs.len() ==> !fails(#[trigger] fs[i])
            &&& ops@ == ops_of(fs, fs.len())
            &&& op_features@ == features_of(fs, fs.len())
        },
    }
}

proof fn lemma_ops_grow(fs: Seq<Feature>, n: nat)
    requires
        n <= fs.len(),
        forall|i: int| 0 <= i < n ==> (#[trigger] fs[i]).spacer is Some,
    ensures
        ops_of(fs, n).len() >= n,
        features_of(fs, n).len() == ops_of(fs, n).len(),
    decreases n,
{
    if n > 0 {
        lemma_ops_grow(fs, (n - 1) as nat);
    }
}

/// The plan for one body from its spacer features, in history order.
pub fn plan_body(features: &Vec<Feature>) -> (r: Plan)
    ensures
        plan_is(features@, r),
{
    let mut ops: Vec<Prism> = Vec::new();
    let mut op_features: Vec<String> = Vec::new();
    let n = features.len();
    let mut i: usize = 0;
    while i < n
        invariant
            n == features@.len(),
            i <= n,
            forall|j: int| 0 <= j < i ==> !fails(#[trigger] features@[j]),
            ops@ == ops_of(features@, i as nat),
            op_features@ == features_of(features@, i as nat),
        decreases n - i,
    {
        let feature = &features[i];
        proof {
            lemma_ops_grow(features@, i as nat);
        }
        match feature.spacer {
            None => {
                proof {
                    assert(first_failure(features@, i as int));
                }
                return Plan::Error { feature: feature.id.clone(), message: unreadable() };
            },
            Some(spacer) => {
                match spacer.problem() {
                    Some(message) => {
                        proof {
                            assert(first_failure(features@, i as int));
                        }
                        return Plan::Error { feature: feature.id.clone(), message };
                    },
                    None => {
                        let new_ops = spacer.ops(ops.len() == 0);
                        let ghost before = ops@;
                        let ghost before_features = op_features@;
                        let mut k: usize = 0;
                        while k < new_ops.len()
                            invariant
                                ops@ == before + new_ops@.take(k as int),
                                op_features@ == before_features + Seq::new(
                                    k as nat,
                                    |j: int| feature.id,
                                ),
                                k <= new_ops@.len(),
                            decreases new_ops@.len() - k,
                        {
                            ops.push(new_ops[k]);
                            op_features.push(feature.id.clone());
                            k += 1;
                            assert(ops@ =~= before + new_ops@.take(k as int));
                            assert(op_features@ =~= before_features + Seq::new(
                                k as nat,
                                |j: int| feature.id,
                            ));
                        }
                        assert(new_ops@.take(k as int) =~= new_ops@);
                        assert(ops@ =~= ops_of(features@, (i + 1) as nat));
                        assert(op_features@ =~= features_of(features@, (i + 1) as nat));
                    },
                }
            },
        }
        i += 1;
    }
    if ops.len() == 0 {
        proof {
            lemma_ops_grow(features@, n as nat);
        }
        Plan::Empty
    } else {
        Plan::Ops { ops, op_features }
    }
}

/// Every prism of a plan has its feature: a plan lists as many features as
/// prisms.
pub proof fn lemma_plan_names_a_feature_per_prism(fs: Seq<Feature>, ops: Vec<Prism>, op_features: Vec<String>)
    requires
        plan_is(fs, Plan::Ops { ops, op_features }),
    ensures
        op_features@.len() == ops@.len(),
{
    lemma_ops_grow(fs, fs.len());
}

proof fn lemma_roles(fs: Seq<Feature>, n: nat)
    requires
        1 <= n <= fs.len(),
        forall|i: int| 0 <= i < n ==> (#[trigger] fs[i]).spacer is Some,
    ensures
        ops_of(fs, n)[0].role == Role::NewSolid,
        forall|k: int| 1 <= k < ops_of(fs, n).len() ==> (#[trigger] ops_of(fs, n)[k]).role == Role::Fuse,
    decreases n,
{
    if n > 1 {
        lemma_roles(fs, (n - 1) as nat);
        lemma_ops_grow(fs, (n - 1) as nat);
        let prev = ops_of(fs, (n - 1) as nat);
        let new = fs[n - 1].spacer.unwrap().spec_ops(false);
        assert forall|k: int| 1 <= k < ops_of(fs, n).len() implies (#[trigger] ops_of(fs, n)[k]).role
            == Role::Fuse by {
            if k >= prev.len() {
                assert(ops_of(fs, n)[k] == new[k - prev.len()]);
            } else {
                assert(ops_of(fs, n)[k] == prev[k]);
            }
        }
    } else {
        assert(ops_of(fs, 0) =~= seq![]);
        assert(ops_of(fs, 1) =~= fs[0].spacer.unwrap().spec_ops(true));
    }
}

/// A body's plan starts its solid with its first prism and fuses every
/// other prism to it.
pub proof fn lemma_plan_starts_one_solid(fs: Seq<Feature>, ops: Vec<Prism>, op_features: Vec<String>)
    requires
        plan_is(fs, Plan::Ops { ops, op_features }),
    ensures
        ops@.len() >= 1,
        ops@[0].role == Role::NewSolid,
        forall|k: int| 1 <= k < ops@.len() ==> (#[trigger] ops@[k]).role == Role::Fuse,
{
    assert forall|i: int| 0 <= i < fs.len() implies (#[trigger] fs[i]).spacer is Some by {
        assert(!fails(fs[i]));
    }
    lemma_ops_grow(fs, fs.len());
    lemma_roles(fs, fs.len());
}

proof fn lemma_features_are_ids(fs: Seq<Feature>, n: nat)
    requires
        n <= fs.len(),
        forall|i: int| 0 <= i < n ==> (#[trigger] fs[i]).spacer is Some,
    ensures
        forall|k: int|
            0 <= k < features_of(fs, n).len() ==> exists|i: int|
                0 <= i < n && #[trigger] features_of(fs, n)[k] == fs[i].id,
        n >= 1 ==> features_of(fs, n)[0] == fs[0].id,
        n >= 1 ==> features_of(fs, n).last() == fs[n - 1].id,
        n >= 1 ==> ops_of(fs, n).last() == fs[n - 1].spacer.unwrap().spec_ops(n - 1 == 0).last(),
    decreases n,
{
    if n > 0 {
        lemma_features_are_ids(fs, (n - 1) as nat);
        lemma_ops_grow(fs, (n - 1) as nat);
        lemma_ops_grow(fs, n);
        let prev = features_of(fs, (n - 1) as nat);
        let new_ops = fs[n - 1].spacer.unwrap().spec_ops(n - 1 == 0);
        assert(new_ops.len() >= 1);
        assert forall|k: int| 0 <= k < features_of(fs, n).len() implies exists|i: int|
            0 <= i < n && #[trigger] features_of(fs, n)[k] == fs[i].id by {
            if k < prev.len() {
                assert(features_of(fs, n)[k] == prev[k]);
            } else {
                assert(features_of(fs, n)[k] == fs[n - 1].id);
            }
        }
        if n == 1 {
            assert(prev.len() == 0);
            assert(features_of(fs, n)[0] == fs[0].id);
        }
    }
}

/// Each prism of a plan is for one of the body's features: the first for
/// the first feature, the last for the last, whose body prism it is.
pub proof fn lemma_plan_prisms_are_for_the_features(fs: Seq<Feature>, ops: Vec<Prism>, op_features: Vec<String>)
    requires
        plan_is(fs, Plan::Ops { ops, op_features }),
    ensures
        forall|k: int|
            0 <= k < op_features@.len() ==> exists|i: int|
                0 <= i < fs.len() && #[trigger] op_features@[k] == fs[i].id,
        op_features@[0] == fs[0].id,
        op_features@.last() == fs.last().id,
        ops@.last() == fs.last().spacer.unwrap().spec_ops(fs.len() == 1).last(),
{
    assert forall|i: int| 0 <= i < fs.len() implies (#[trigger] fs[i]).spacer is Some by {
        assert(!fails(fs[i]));
    }
    lemma_features_are_ids(fs, fs.len());
}

} // verus!
