//! The dispatch rule: modules are asked in registry order, and the first
//! present verdict ends the run.
use vstd::prelude::*;
use crate::codec::opt_view;

verus! {

/// The verdict of a run whose modules answered `responses`, in registry order.
pub open spec fn first_verdict(responses: Seq<Option<Seq<char>>>) -> Option<Seq<char>>
    decreases responses.len(),
{
    if responses.len() == 0 {
        None
    } else if responses[0] is Some {
        responses[0]
    } else {
        first_verdict(responses.drop_first())
    }
}

/// How many modules a run invokes when they would answer `responses`.
pub open spec fn invoked(responses: Seq<Option<Seq<char>>>) -> nat
    decreases responses.len(),
{
    if responses.len() == 0 {
        0
    } else if responses[0] is Some {
        1
    } else {
        1 + invoked(responses.drop_first())
    }
}

/// A run over `n` modules that got `seen` from the modules it invoked stopped
/// where the rule says, with verdict `v`.
pub open spec fn run_outcome(seen: Seq<Option<Seq<char>>>, n: nat, v: Option<Seq<char>>) -> bool {
    &&& seen.len() <= n
    &&& forall|j: int| 0 <= j < seen.len() - 1 ==> (#[trigger] seen[j]) is None
    &&& (seen.len() < n ==> seen.len() > 0 && seen.last() is Some)
    &&& v == first_verdict(seen)
}

/// The models of a list of answers.
pub open spec fn views(responses: Seq<Option<String>>) -> Seq<Option<Seq<char>>> {
    responses.map_values(|r: Option<String>| opt_view(r))
}

/// Where every answer before the last is absent, the verdict is the last answer.
pub proof fn lemma_first_verdict_of_absent_prefix(seen: Seq<Option<Seq<char>>>)
    requires
        seen.len() > 0,
        forall|j: int| 0 <= j < seen.len() - 1 ==> (#[trigger] seen[j]) is None,
    ensures
        first_verdict(seen) == seen.last(),
        invoked(seen) == seen.len(),
    decreases seen.len(),
{
    if seen.len() == 1 {
        reveal_with_fuel(first_verdict, 2);
        reveal_with_fuel(invoked, 2);
        assert(seen.drop_first().len() == 0);
    } else {
        let rest = seen.drop_first();
        assert(seen[0] is None);
        assert forall|j: int| 0 <= j < rest.len() - 1 implies (#[trigger] rest[j]) is None by {
            assert(rest[j] == seen[j + 1]);
        }
        lemma_first_verdict_of_absent_prefix(rest);
        assert(rest.last() == seen.last());
    }
}

/// Where every answer is absent, so is the verdict.
pub proof fn lemma_all_absent(seen: Seq<Option<Seq<char>>>)
    requires
        forall|j: int| 0 <= j < seen.len() ==> (#[trigger] seen[j]) is None,
    ensures
        first_verdict(seen) is None,
        invoked(seen) == seen.len(),
    decreases seen.len(),
{
    if seen.len() > 0 {
        let rest = seen.drop_first();
        assert forall|j: int| 0 <= j < rest.len() implies (#[trigger] rest[j]) is None by {
            assert(rest[j] == seen[j + 1]);
        }
        lemma_all_absent(rest);
    }
}

/// An absent answer hands the run on to the next module.
pub proof fn lemma_absent_continues(rest: Seq<Option<Seq<char>>>)
    ensures
        first_verdict(seq![None::<Seq<char>>] + rest) == first_verdict(rest),
        invoked(seq![None::<Seq<char>>] + rest) == 1 + invoked(rest),
{
    assert((seq![None::<Seq<char>>] + rest).drop_first() =~= rest);
}

/// A present answer ends the run: of three modules where the first answers
/// nothing and the second answers, the second's verdict wins and the third is
/// never invoked.
pub proof fn lemma_short_circuit(a: Option<Seq<char>>, b: Option<Seq<char>>, c: Option<Seq<char>>)
    requires
        a is None,
        b is Some,
    ensures
        first_verdict(seq![a, b, c]) == b,
        invoked(seq![a, b, c]) == 2,
{
    reveal_with_fuel(first_verdict, 2);
    reveal_with_fuel(invoked, 2);
    assert(seq![a, b, c].drop_first() =~= seq![b, c]);
}

/// Registry order decides: of two modules that both answer, the one
/// registered first wins, whichever order they come in.
pub proof fn lemma_order_decides(a: Option<Seq<char>>, b: Option<Seq<char>>)
    requires
        a is Some,
        b is Some,
    ensures
        first_verdict(seq![a, b]) == a,
        first_verdict(seq![b, a]) == b,
        a != b ==> first_verdict(seq![a, b]) != first_verdict(seq![b, a]),
{
}

/// The verdict of a run whose modules answered `responses`, and how many of
/// them were invoked.
pub fn first_present(responses: &Vec<Option<String>>) -> (r: (Option<String>, usize))
    ensures
        opt_view(r.0) == first_verdict(views(responses@)),
        r.1 == invoked(views(responses@)),
{
    let ghost all = views(responses@);
    let mut i: usize = 0;
    while i < responses.len()
        invariant
            i <= responses@.len(),
            all == views(responses@),
            forall|j: int| 0 <= j < i ==> (#[trigger] all[j]) is None,
        decreases responses@.len() - i,
    {
        if responses[i].is_some() {
            proof {
                let seen = all.subrange(0, i + 1);
                assert forall|j: int| 0 <= j < seen.len() - 1 implies (#[trigger] seen[j]) is None by {
                    assert(seen[j] == all[j]);
                }
                lemma_first_verdict_of_absent_prefix(seen);
                lemma_prefix_decides(all, i + 1);
            }
            return (responses[i].clone(), i + 1);
        }
        i = i + 1;
    }
    proof {
        lemma_all_absent(all);
    }
    (None, responses.len())
}

/// Once a prefix holds a present answer, what follows it does not matter.
proof fn lemma_prefix_decides(all: Seq<Option<Seq<char>>>, k: int)
    requires
        0 < k <= all.len(),
        all[k - 1] is Some,
    ensures
        first_verdict(all) == first_verdict(all.subrange(0, k)),
        invoked(all) == invoked(all.subrange(0, k)),
    decreases k,
{
    let p = all.subrange(0, k);
    if all[0] is None {
        assert(p.drop_first() =~= all.drop_first().subrange(0, k - 1));
        lemma_prefix_decides(all.drop_first(), k - 1);
    }
}

} // verus!
