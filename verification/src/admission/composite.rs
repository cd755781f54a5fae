use vstd::prelude::*;
use crate::types::AdmissionDecision;

verus! {

/// What the composite evaluation does next.
#[derive(Debug, Clone, Copy, PartialEq, Eq, Structural)]
pub enum CompositeStep {
    /// Evaluate the policy with this index and report its decision.
    Evaluate(usize),
    /// Every policy needed has been heard: this is the decision.
    Decided(AdmissionDecision),
}

/// Whether some decision heard so far is a denial.
pub open spec fn has_denial(decisions: Seq<AdmissionDecision>) -> bool {
    exists|i: int| 0 <= i < decisions.len() && decisions[i] == AdmissionDecision::Deny
}

/// The next step of a composite of `num_policies` policies that all must
/// accept, after hearing `decisions` from the first of them in order.
pub open spec fn composite_step(num_policies: nat, decisions: Seq<AdmissionDecision>) -> CompositeStep {
    if has_denial(decisions) {
        CompositeStep::Decided(AdmissionDecision::Deny)
    } else if decisions.len() < num_policies {
        CompositeStep::Evaluate(decisions.len() as usize)
    } else {
        CompositeStep::Decided(AdmissionDecision::Accept)
    }
}

/// ANDs the policies in order: the first denial decides, and the policies
/// after it are not evaluated; all must accept for the query to be admitted.
pub fn composite_next(num_policies: usize, decisions: &Vec<AdmissionDecision>) -> (r: CompositeStep)
    ensures
        r == composite_step(num_policies as nat, decisions@),
{
    let n = decisions.len();
    let mut i: usize = 0;
    while i < n
        invariant
            n == decisions@.len(),
            i <= n,
            forall|j: int| 0 <= j < i ==> decisions@[j] == AdmissionDecision::Accept,
        decreases n - i,
    {
        if decisions[i] == AdmissionDecision::Deny {
            return CompositeStep::Decided(AdmissionDecision::Deny);
        }
        i = i + 1;
    }
    if n < num_policies {
        CompositeStep::Evaluate(n)
    } else {
        CompositeStep::Decided(AdmissionDecision::Accept)
    }
}

} // verus!

verus! {

/// Whether every policy accepts.
pub open spec fn all_accept(outcomes: Seq<AdmissionDecision>) -> bool {
    forall|i: int| 0 <= i < outcomes.len() ==> outcomes[i] == AdmissionDecision::Accept
}

/// The decision of the composite: Accept exactly when every policy accepts.
pub open spec fn composite_decision(outcomes: Seq<AdmissionDecision>) -> AdmissionDecision {
    if all_accept(outcomes) {
        AdmissionDecision::Accept
    } else {
        AdmissionDecision::Deny
    }
}

/// How many leading policies accept before the first denial.
pub open spec fn accepts_before_denial(outcomes: Seq<AdmissionDecision>) -> nat
    decreases outcomes.len(),
{
    if outcomes.len() == 0 || outcomes[0] == AdmissionDecision::Deny {
        0
    } else {
        1 + accepts_before_denial(outcomes.drop_first())
    }
}

proof fn lemma_accepts_before_denial(outcomes: Seq<AdmissionDecision>)
    ensures
        accepts_before_denial(outcomes) <= outcomes.len(),
        forall|j: int|
            0 <= j < accepts_before_denial(outcomes) ==> outcomes[j] == AdmissionDecision::Accept,
        accepts_before_denial(outcomes) < outcomes.len() ==> outcomes[accepts_before_denial(
            outcomes,
        ) as int] == AdmissionDecision::Deny,
    decreases outcomes.len(),
{
    if outcomes.len() > 0 && outcomes[0] == AdmissionDecision::Accept {
        let rest = outcomes.drop_first();
        lemma_accepts_before_denial(rest);
        assert forall|j: int| 0 <= j < accepts_before_denial(outcomes) implies outcomes[j]
            == AdmissionDecision::Accept by {
            if j > 0 {
                assert(outcomes[j] == rest[j - 1]);
            }
        }
    }
}

/// Driving `composite_next` with the decisions that the policies return,
/// in order, evaluates the first `k` policies and then decides. The decision
/// is Accept exactly when every policy accepts, and the evaluation stops
/// early only right after a denial.
pub proof fn lemma_composite_run(outcomes: Seq<AdmissionDecision>) -> (k: nat)
    ensures
        k <= outcomes.len(),
        forall|j: int|
            0 <= j < k ==> composite_step(outcomes.len(), #[trigger] outcomes.take(j))
                == CompositeStep::Evaluate(j as usize),
        composite_step(outcomes.len(), outcomes.take(k as int)) == CompositeStep::Decided(
            composite_decision(outcomes),
        ),
        k < outcomes.len() ==> k > 0 && outcomes[k - 1] == AdmissionDecision::Deny,
{
    lemma_accepts_before_denial(outcomes);
    let c = accepts_before_denial(outcomes);
    let n = outcomes.len();
    let k: nat = if c < n {
        c + 1
    } else {
        n
    };
    assert forall|j: int| 0 <= j < k implies composite_step(n, #[trigger] outcomes.take(j))
        == CompositeStep::Evaluate(j as usize) by {
        assert(!has_denial(outcomes.take(j))) by {
            assert forall|i: int| 0 <= i < outcomes.take(j).len() implies outcomes.take(j)[i]
                != AdmissionDecision::Deny by {
                assert(outcomes.take(j)[i] == outcomes[i]);
            }
        }
    }
    if c < n {
        assert(outcomes.take(k as int)[c as int] == AdmissionDecision::Deny);
        assert(has_denial(outcomes.take(k as int)));
        assert(!all_accept(outcomes));
    } else {
        assert(outcomes.take(k as int) =~= outcomes);
        assert(all_accept(outcomes));
        assert(!has_denial(outcomes));
    }
    k
}

} // verus!
