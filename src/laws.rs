//! Laws of the builder, stated over its model and proved.
use vstd::prelude::*;

use crate::authority::{Authority, AuthorityInput};
use crate::builder::{apply, build_outcome, get_slot, run, set_slot, Builder, Slot, Step};
use crate::error::Error;
use crate::path_and_query::{PathAndQuery, PathAndQueryInput};
use crate::scheme::{Scheme, SchemeInput};
use crate::uri::{finalize, shape_error, Components, Uri};

verus! {

/// Every call in `steps` converted its input.
pub open spec fn all_succeed(steps: Seq<Step>) -> bool {
    forall|i: int| 0 <= i < steps.len() ==> (#[trigger] steps[i]).outcome is Ok
}

/// The value of the last successful call in `steps` that targets `slot`.
pub open spec fn last_value(steps: Seq<Step>, slot: Slot) -> Option<Seq<u8>>
    decreases steps.len(),
{
    if steps.len() == 0 {
        None
    } else if steps.last().slot == slot && steps.last().outcome is Ok {
        Some(steps.last().outcome->Ok_0)
    } else {
        last_value(steps.drop_last(), slot)
    }
}

/// The value of `slot` after `steps` on parts `c`: the last value written to
/// it, else what `c` held.
pub open spec fn slot_after(c: Components, steps: Seq<Step>, slot: Slot) -> Option<Seq<u8>> {
    match last_value(steps, slot) {
        Some(v) => Some(v),
        None => get_slot(c, slot),
    }
}

/// The parts after `steps` on parts `c`, slot by slot.
pub open spec fn components_after(c: Components, steps: Seq<Step>) -> Components {
    Components {
        scheme: slot_after(c, steps, Slot::Scheme),
        authority: slot_after(c, steps, Slot::Authority),
        path_and_query: slot_after(c, steps, Slot::PathAndQuery),
    }
}

/// `i` is the first call in `steps` whose input failed to convert.
pub open spec fn is_first_failure(steps: Seq<Step>, i: int) -> bool {
    &&& 0 <= i < steps.len()
    &&& steps[i].outcome is Err
    &&& forall|j: int| 0 <= j < i ==> (#[trigger] steps[j]).outcome is Ok
}

/// When every input converts, each slot ends with the value of the last call
/// that targeted it, and a slot no call targeted keeps its value (unset, for
/// a new builder).
pub proof fn lemma_successful_calls(c: Components, steps: Seq<Step>)
    requires
        all_succeed(steps),
    ensures
        run(Ok(c), steps) == Ok::<Components, Error>(components_after(c, steps)),
    decreases steps.len(),
{
    if steps.len() > 0 {
        let rest = steps.drop_last();
        assert forall|i: int| 0 <= i < rest.len() implies (#[trigger] rest[i]).outcome is Ok by {
            assert(rest[i] == steps[i]);
        }
        lemma_successful_calls(c, rest);
        assert(steps.last() == steps[steps.len() - 1]);
    }
}

/// When some input fails to convert, the builder ends poisoned with the error
/// of the first such call, and `build` returns that error.
pub proof fn lemma_first_error_wins(c: Components, steps: Seq<Step>, i: int)
    requires
        is_first_failure(steps, i),
    ensures
        run(Ok(c), steps) == Err::<Components, Error>(steps[i].outcome->Err_0),
        build_outcome(run(Ok(c), steps)) == Err::<Components, Error>(steps[i].outcome->Err_0),
    decreases steps.len(),
{
    let rest = steps.drop_last();
    if i == steps.len() - 1 {
        assert forall|j: int| 0 <= j < rest.len() implies (#[trigger] rest[j]).outcome is Ok by {
            assert(rest[j] == steps[j]);
        }
        lemma_successful_calls(c, rest);
    } else {
        assert(rest[i] == steps[i]);
        assert forall|j: int| 0 <= j < i implies (#[trigger] rest[j]).outcome is Ok by {
            assert(rest[j] == steps[j]);
        }
        lemma_first_error_wins(c, rest, i);
    }
}

/// Two runs of successful calls that leave every slot with the same last
/// value give the same builder, so `build` gives the same result: the order
/// of calls on different slots does not matter.
pub proof fn lemma_order_independent(c: Components, s1: Seq<Step>, s2: Seq<Step>)
    requires
        all_succeed(s1),
        all_succeed(s2),
        forall|k: Slot| last_value(s1, k) == last_value(s2, k),
    ensures
        run(Ok(c), s1) == run(Ok(c), s2),
        build_outcome(run(Ok(c), s1)) == build_outcome(run(Ok(c), s2)),
{
    lemma_successful_calls(c, s1);
    lemma_successful_calls(c, s2);
    assert(last_value(s1, Slot::Scheme) == last_value(s2, Slot::Scheme));
    assert(last_value(s1, Slot::Authority) == last_value(s2, Slot::Authority));
    assert(last_value(s1, Slot::PathAndQuery) == last_value(s2, Slot::PathAndQuery));
}

/// Two successful setter calls on different slots may be swapped without
/// changing the builder.
pub proof fn lemma_distinct_slots_commute(
    b: Result<Components, Error>,
    x: Step,
    y: Step,
)
    requires
        x.slot != y.slot,
        x.outcome is Ok,
        y.outcome is Ok,
    ensures
        apply(apply(b, x), y) == apply(apply(b, y), x),
{
}

/// A builder made from a URI, with no setter applied, builds that URI again.
pub proof fn lemma_round_trip(u: Uri)
    requires
        shape_error(u@) is None,
    ensures
        build_outcome(Builder::spec_from_uri(u)@) == Ok::<Components, Error>(u@),
{
    Builder::lemma_from_uri_view(u);
}

/// Setting a slot to `a` and then to `b` leaves the builder as setting it to
/// `b` alone, with `b` in the slot.
pub proof fn lemma_last_write_wins(c: Components, slot: Slot, a: Seq<u8>, b: Seq<u8>)
    ensures
        apply(
            apply(Ok(c), (Step { slot: slot, outcome: Ok(a) })),
            (Step { slot: slot, outcome: Ok(b) }),
        ) == apply(Ok(c), (Step { slot: slot, outcome: Ok(b) })),
        apply(Ok(c), (Step { slot: slot, outcome: Ok(b) })) == Ok::<Components, Error>(
            set_slot(c, slot, b),
        ),
        get_slot(set_slot(c, slot, b), slot) == Some(b),
{
}

/// A poisoned builder stays poisoned with the same error, whatever setters
/// follow.
pub proof fn lemma_poisoned_stays(e: Error, steps: Seq<Step>)
    ensures
        run(Err(e), steps) == Err::<Components, Error>(e),
    decreases steps.len(),
{
    if steps.len() > 0 {
        lemma_poisoned_stays(e, steps.drop_last());
    }
}

/// A new builder builds what `Uri::from_parts` makes of parts with no slot
/// set, which is the empty URI.
pub proof fn lemma_empty_build()
    ensures
        build_outcome(Ok(Components::empty())) == finalize(Components::empty()),
        finalize(Components::empty()) == Ok::<Components, Error>(Components::empty()),
{
}

/// A setter given an already validated component takes it as it is: the
/// conversion cannot fail.
pub proof fn lemma_validated_inputs_accepted(
    c: Components,
    s: Scheme,
    a: Authority,
    p: PathAndQuery,
)
    ensures
        apply(Ok(c), (Step { slot: Slot::Scheme, outcome: s.scheme_outcome() })) == Ok::<
            Components,
            Error,
        >(set_slot(c, Slot::Scheme, s@)),
        apply(Ok(c), (Step { slot: Slot::Authority, outcome: a.authority_outcome() })) == Ok::<
            Components,
            Error,
        >(set_slot(c, Slot::Authority, a@)),
        apply(
            Ok(c),
            (Step { slot: Slot::PathAndQuery, outcome: p.path_and_query_outcome() }),
        ) == Ok::<Components, Error>(set_slot(c, Slot::PathAndQuery, p@)),
{
}

/// A setter whose input fails to convert writes no slot: whatever the parts
/// were, the builder is left with that error alone.
pub proof fn lemma_failed_conversion_writes_nothing(c: Components, slot: Slot, e: Error)
    ensures
        apply(Ok(c), (Step { slot: slot, outcome: Err(e) })) == Err::<Components, Error>(e),
{
}

} // verus!
