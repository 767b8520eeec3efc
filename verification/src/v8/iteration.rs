//! What a run of calls of an iterator's `next` yields.
use vstd::prelude::*;

verus! {

/// One call of `next` on an iterator whose items still to come are
/// `before`: it yields the first of them and drops it, or, when none is
/// left, yields nothing and none is left after it.
pub open spec fn next_step<A>(before: Seq<A>, after: Seq<A>, out: Option<A>) -> bool {
    if before.len() == 0 {
        out is None && after.len() == 0
    } else {
        out == Some(before[0]) && after == before.drop_first()
    }
}

/// A run of calls of `next`: `states[j]` are the items still to come
/// before the call `j`, and `outs[j]` is what that call yielded.
pub open spec fn run_of_calls<A>(states: Seq<Seq<A>>, outs: Seq<Option<A>>) -> bool {
    &&& states.len() == outs.len() + 1
    &&& forall|j: int| 0 <= j < outs.len() ==> #[trigger] next_step(states[j], states[j + 1], outs[j])
}

/// What the call `j` of a run yields when the items to come were
/// `items` at its start: the item `j`, or nothing once all are yielded.
pub open spec fn yielded<A>(items: Seq<A>, j: int) -> Option<A> {
    if j < items.len() {
        Some(items[j])
    } else {
        None
    }
}

/// An iterator yields every item to come, in order, one per call of
/// `next`, and then nothing on every later call; after `j` calls, the
/// items to come are those not yielded yet.
pub proof fn law_iteration_yields_in_order<A>(states: Seq<Seq<A>>, outs: Seq<Option<A>>)
    requires
        run_of_calls(states, outs),
    ensures
        forall|j: int| 0 <= j < outs.len() ==> #[trigger] outs[j] == yielded(states[0], j),
        forall|j: int|
            0 <= j < states.len() ==> #[trigger] states[j] == states[0].skip(
                if j < states[0].len() { j } else { states[0].len() as int },
            ),
    decreases outs.len(),
{
    if outs.len() > 0 {
        let m = outs.len() - 1;
        let s2 = states.subrange(0, m + 1);
        let o2 = outs.subrange(0, m);
        assert forall|j: int| 0 <= j < o2.len() implies #[trigger] next_step(s2[j], s2[j + 1], o2[j]) by {
            assert(next_step(states[j], states[j + 1], outs[j]));
        }
        law_iteration_yields_in_order(s2, o2);
        let items = states[0];
        assert(s2[m] == states[m]);
        assert(states[m] == items.skip(if m < items.len() { m } else { items.len() as int }));
        assert(next_step(states[m], states[m + 1], outs[m]));
        if m < items.len() {
            assert(states[m][0] == items[m]);
            assert(states[m + 1] =~= items.skip(m + 1));
        } else {
            assert(states[m + 1] =~= items.skip(items.len() as int));
        }
        assert forall|j: int| 0 <= j < outs.len() implies #[trigger] outs[j] == yielded(states[0], j) by {
            if j < m {
                assert(o2[j] == outs[j]);
                assert(s2[0] == states[0]);
            }
        }
        assert forall|j: int| 0 <= j < states.len() implies #[trigger] states[j] == states[0].skip(
            if j < states[0].len() { j } else { states[0].len() as int },
        ) by {
            if j <= m {
                assert(s2[j] == states[j]);
            }
        }
    } else {
        assert(states[0] =~= states[0].skip(0));
    }
}

} // verus!
