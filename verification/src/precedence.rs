//! Precedence among style operations: of two operations that write the same
//! slot the later one takes effect.

use vstd::prelude::*;
use crate::style::{Slot, StyleOperation};

verus! {

/// Whether a later operation writes the slot of the one at `at`.
pub open spec fn is_overridden(operations: Seq<StyleOperation>, at: int) -> bool {
    exists|later: int|
        at < later < operations.len() && (#[trigger] operations[later]).slot()
            == operations[at].slot()
}

/// The operations that take effect: each one that no later operation
/// overrides, in their order.
pub open spec fn keep_last(operations: Seq<StyleOperation>) -> Seq<StyleOperation>
    decreases operations.len(),
{
    if operations.len() == 0 {
        Seq::empty()
    } else if is_overridden(operations, 0) {
        keep_last(operations.drop_first())
    } else {
        seq![operations[0]] + keep_last(operations.drop_first())
    }
}

/// Drops every operation that a later one overrides.
pub fn keep_last_of(operations: &Vec<StyleOperation>) -> (kept: Vec<StyleOperation>)
    ensures
        kept@ == keep_last(operations@),
{
    let mut kept: Vec<StyleOperation> = Vec::new();
    let total = operations.len();
    let mut at: usize = 0;
    proof {
        assert(operations@.skip(0) =~= operations@);
    }
    while at < total
        invariant
            at <= total == operations@.len(),
            keep_last(operations@) == kept@ + keep_last(operations@.skip(at as int)),
        decreases total - at,
    {
        let slot = operations[at].slot();
        let mut later = at + 1;
        let mut overridden = false;
        while later < total && !overridden
            invariant
                at < later <= total == operations@.len(),
                slot == operations@[at as int].slot(),
                overridden ==> is_overridden(operations@, at as int),
                !overridden ==> forall|i: int|
                    at < i < later ==> (#[trigger] operations@[i]).slot() != slot,
            decreases total - later + (if overridden { 0int } else { 1int }),
        {
            if operations[later].slot() == slot {
                overridden = true;
            } else {
                later = later + 1;
            }
        }
        proof {
            let tail = operations@.skip(at as int);
            assert(tail.drop_first() =~= operations@.skip(at + 1));
            assert(tail[0] == operations@[at as int]);
            if overridden {
                let witness = choose|i: int|
                    at < i < operations@.len() && (#[trigger] operations@[i]).slot()
                        == operations@[at as int].slot();
                assert(tail[witness - at] == operations@[witness]);
                assert(is_overridden(tail, 0));
            } else {
                if is_overridden(tail, 0) {
                    let witness = choose|i: int|
                        0 < i < tail.len() && (#[trigger] tail[i]).slot() == tail[0].slot();
                    assert(tail[witness] == operations@[at + witness]);
                }
                assert(kept@.push(operations@[at as int]) + keep_last(tail.drop_first()) =~= kept@
                    + (seq![tail[0]] + keep_last(tail.drop_first())));
            }
        }
        if !overridden {
            kept.push(operations[at]);
        }
        at = at + 1;
    }
    proof {
        assert(kept@ + Seq::<StyleOperation>::empty() =~= kept@);
    }
    kept
}

/// The operation that takes effect in `slot`: the last one that writes it.
pub open spec fn winner(operations: Seq<StyleOperation>, slot: Slot) -> Option<StyleOperation>
    decreases operations.len(),
{
    if operations.len() == 0 {
        None
    } else if operations.last().slot() == slot {
        Some(operations.last())
    } else {
        winner(operations.drop_last(), slot)
    }
}

/// No two of the operations write the same slot.
pub open spec fn slots_are_distinct(operations: Seq<StyleOperation>) -> bool {
    forall|i: int, j: int|
        0 <= i < j < operations.len() ==> (#[trigger] operations[i]).slot()
            != (#[trigger] operations[j]).slot()
}

/// Being overridden does not depend on what stands before.
proof fn overridden_in_tail(operations: Seq<StyleOperation>, at: int)
    requires
        0 < at < operations.len(),
    ensures
        is_overridden(operations, at) == is_overridden(operations.drop_first(), at - 1),
{
    let tail = operations.drop_first();
    if is_overridden(operations, at) {
        let later = choose|later: int|
            at < later < operations.len() && (#[trigger] operations[later]).slot()
                == operations[at].slot();
        assert(tail[later - 1] == operations[later]);
    }
    if is_overridden(tail, at - 1) {
        let later = choose|later: int|
            at - 1 < later < tail.len() && (#[trigger] tail[later]).slot() == tail[at - 1].slot();
        assert(operations[later + 1] == tail[later]);
    }
}

/// Each operation that is kept stands in the list it was taken from, where no later one
/// overrides it.
pub proof fn kept_origin(operations: Seq<StyleOperation>, k: int) -> (at: int)
    requires
        0 <= k < keep_last(operations).len(),
    ensures
        0 <= at < operations.len(),
        operations[at] == keep_last(operations)[k],
        !is_overridden(operations, at),
    decreases operations.len(),
{
    let tail = operations.drop_first();
    if !is_overridden(operations, 0) && k == 0 {
        0
    } else {
        let inner = if is_overridden(operations, 0) {
            k
        } else {
            k - 1
        };
        let at = kept_origin(tail, inner);
        overridden_in_tail(operations, at + 1);
        at + 1
    }
}

/// An operation that no later one overrides is kept.
pub proof fn unoverridden_is_kept(operations: Seq<StyleOperation>, at: int)
    requires
        0 <= at < operations.len(),
        !is_overridden(operations, at),
    ensures
        keep_last(operations).contains(operations[at]),
    decreases operations.len(),
{
    let tail = operations.drop_first();
    if at == 0 {
        assert(keep_last(operations)[0] == operations[0]);
    } else {
        overridden_in_tail(operations, at);
        unoverridden_is_kept(tail, at - 1);
        let k = choose|k: int|
            0 <= k < keep_last(tail).len() && keep_last(tail)[k] == tail[at - 1];
        if is_overridden(operations, 0) {
            assert(keep_last(operations)[k] == operations[at]);
        } else {
            assert(keep_last(operations)[k + 1] == operations[at]);
        }
    }
}

/// Of the operations that are kept no two write the same slot.
pub proof fn kept_slots_are_distinct(operations: Seq<StyleOperation>)
    ensures
        slots_are_distinct(keep_last(operations)),
    decreases operations.len(),
{
    if operations.len() > 0 {
        let tail = operations.drop_first();
        kept_slots_are_distinct(tail);
        if !is_overridden(operations, 0) {
            let kept = keep_last(operations);
            assert forall|i: int, j: int| 0 <= i < j < kept.len() implies (#[trigger] kept[i]).slot()
                != (#[trigger] kept[j]).slot() by {
                assert(kept[j] == keep_last(tail)[j - 1]);
                if i == 0 {
                    let at = kept_origin(tail, j - 1);
                    assert(operations[at + 1] == tail[at]);
                } else {
                    assert(kept[i] == keep_last(tail)[i - 1]);
                }
            }
        }
    }
}

/// The winner of a slot is the last operation that writes it, and there is
/// none where no operation writes it.
pub proof fn winner_is_last(operations: Seq<StyleOperation>, slot: Slot)
    ensures
        match winner(operations, slot) {
            Some(operation) => exists|at: int|
                0 <= at < operations.len() && #[trigger] operations[at] == operation
                    && operation.slot() == slot && forall|later: int|
                    at < later < operations.len() ==> (#[trigger] operations[later]).slot() != slot,
            None => forall|at: int|
                0 <= at < operations.len() ==> (#[trigger] operations[at]).slot() != slot,
        },
    decreases operations.len(),
{
    if operations.len() > 0 {
        let front = operations.drop_last();
        let last = operations.len() - 1;
        if operations.last().slot() == slot {
            assert(operations[last] == operations.last());
        } else {
            winner_is_last(front, slot);
            match winner(front, slot) {
                Some(operation) => {
                    let at = choose|at: int|
                        0 <= at < front.len() && #[trigger] front[at] == operation
                            && operation.slot() == slot && forall|later: int|
                            at < later < front.len() ==> (#[trigger] front[later]).slot() != slot;
                    assert(operations[at] == front[at]);
                    assert forall|later: int| at < later < operations.len() implies (
                    #[trigger] operations[later]).slot() != slot by {
                        if later < last {
                            assert(operations[later] == front[later]);
                        }
                    }
                },
                None => {
                    assert forall|at: int| 0 <= at < operations.len() implies (
                    #[trigger] operations[at]).slot() != slot by {
                        if at < last {
                            assert(operations[at] == front[at]);
                        }
                    }
                },
            }
        }
    }
}

/// Where no two operations write the same slot, each is the winner of its
/// slot.
pub proof fn sole_writer_wins(operations: Seq<StyleOperation>, at: int)
    requires
        slots_are_distinct(operations),
        0 <= at < operations.len(),
    ensures
        winner(operations, operations[at].slot()) == Some(operations[at]),
{
    let slot = operations[at].slot();
    winner_is_last(operations, slot);
    match winner(operations, slot) {
        Some(operation) => {
            let found = choose|found: int|
                0 <= found < operations.len() && #[trigger] operations[found] == operation
                    && operation.slot() == slot;
            if found < at {
                assert(operations[found].slot() != operations[at].slot());
            } else if at < found {
                assert(operations[at].slot() != operations[found].slot());
            }
        },
        None => {
            assert(operations[at].slot() != slot);
        },
    }
}

/// Dropping the overridden operations changes the winner of no slot: in each
/// slot the last operation that writes it takes effect, and only it is kept.
pub proof fn keep_last_keeps_winners(operations: Seq<StyleOperation>, slot: Slot)
    ensures
        winner(keep_last(operations), slot) == winner(operations, slot),
{
    let kept = keep_last(operations);
    winner_is_last(operations, slot);
    winner_is_last(kept, slot);
    kept_slots_are_distinct(operations);
    match winner(operations, slot) {
        Some(operation) => {
            let at = choose|at: int|
                0 <= at < operations.len() && #[trigger] operations[at] == operation
                    && operation.slot() == slot && forall|later: int|
                    at < later < operations.len() ==> (#[trigger] operations[later]).slot() != slot;
            if is_overridden(operations, at) {
                let later = choose|later: int|
                    at < later < operations.len() && (#[trigger] operations[later]).slot()
                        == operations[at].slot();
                assert(operations[later].slot() != slot);
            }
            unoverridden_is_kept(operations, at);
            let k = choose|k: int| 0 <= k < kept.len() && kept[k] == operations[at];
            sole_writer_wins(kept, k);
        },
        None => {
            if winner(kept, slot) is Some {
                let k = choose|k: int|
                    0 <= k < kept.len() && #[trigger] kept[k] == winner(kept, slot).unwrap();
                let at = kept_origin(operations, k);
                assert(operations[at].slot() != slot);
            }
        },
    }
}

/// Where no two operations write the same slot, all of them are kept.
pub proof fn distinct_slots_keep_all(operations: Seq<StyleOperation>)
    requires
        slots_are_distinct(operations),
    ensures
        keep_last(operations) == operations,
    decreases operations.len(),
{
    if operations.len() > 0 {
        let tail = operations.drop_first();
        assert forall|i: int, j: int| 0 <= i < j < tail.len() implies (#[trigger] tail[i]).slot()
            != (#[trigger] tail[j]).slot() by {
            assert(tail[i] == operations[i + 1] && tail[j] == operations[j + 1]);
        }
        distinct_slots_keep_all(tail);
        if is_overridden(operations, 0) {
            let later = choose|later: int|
                0 < later < operations.len() && (#[trigger] operations[later]).slot()
                    == operations[0].slot();
            assert(operations[0].slot() != operations[later].slot());
        }
        assert(seq![operations[0]] + tail =~= operations);
    }
}

/// Where no two operations write the same slot, none occurs twice.
proof fn distinct_slots_occur_once(operations: Seq<StyleOperation>, operation: StyleOperation)
    requires
        slots_are_distinct(operations),
    ensures
        operations.to_multiset().count(operation) <= 1,
{
    broadcast use vstd::seq_lib::group_to_multiset_ensures;

    if operations.to_multiset().count(operation) >= 2 {
        assert(operations.contains(operation));
        let at = choose|at: int| 0 <= at < operations.len() && operations[at] == operation;
        let rest = operations.remove(at);
        assert(rest.to_multiset().count(operation) >= 1);
        assert(rest.contains(operation));
        let other = choose|other: int| 0 <= other < rest.len() && rest[other] == operation;
        if other < at {
            assert(operations[other] == rest[other]);
            assert(operations[other].slot() != operations[at].slot());
        } else {
            assert(operations[other + 1] == rest[other]);
            assert(operations[at].slot() != operations[other + 1].slot());
        }
    }
}

/// A rearrangement holds the same operations.
proof fn rearranged_holds(
    first: Seq<StyleOperation>,
    second: Seq<StyleOperation>,
    operation: StyleOperation,
)
    requires
        first.to_multiset() == second.to_multiset(),
        second.contains(operation),
    ensures
        first.contains(operation),
{
    vstd::seq_lib::to_multiset_contains(first, operation);
    vstd::seq_lib::to_multiset_contains(second, operation);
}

/// The order of operations that write distinct slots is immaterial: however
/// they are rearranged, all of them are kept and each slot has the same winner.
pub proof fn order_is_immaterial(first: Seq<StyleOperation>, second: Seq<StyleOperation>)
    requires
        first.to_multiset() == second.to_multiset(),
        slots_are_distinct(first),
    ensures
        slots_are_distinct(second),
        keep_last(first) == first,
        keep_last(second) == second,
        forall|slot: Slot| winner(first, slot) == winner(second, slot),
{
    broadcast use vstd::seq_lib::group_to_multiset_ensures;

    assert forall|i: int, j: int| 0 <= i < j < second.len() implies (#[trigger] second[i]).slot()
        != (#[trigger] second[j]).slot() by {
        if second[i].slot() == second[j].slot() {
            assert(second.contains(second[i]));
            assert(second.contains(second[j]));
            rearranged_holds(first, second, second[i]);
            rearranged_holds(first, second, second[j]);
            let p = choose|p: int| 0 <= p < first.len() && first[p] == second[i];
            let q = choose|q: int| 0 <= q < first.len() && first[q] == second[j];
            if p < q {
                assert(first[p].slot() != first[q].slot());
            } else if q < p {
                assert(first[q].slot() != first[p].slot());
            } else {
                let rest = second.remove(i);
                assert(rest[j - 1] == second[j]);
                assert(rest.contains(second[i]));
                assert(rest.to_multiset().count(second[i]) >= 1);
                assert(second.to_multiset().count(second[i]) >= 2);
                distinct_slots_occur_once(first, second[i]);
            }
        }
    }
    distinct_slots_keep_all(first);
    distinct_slots_keep_all(second);
    assert forall|slot: Slot| winner(first, slot) == winner(second, slot) by {
        winner_is_last(first, slot);
        winner_is_last(second, slot);
        match winner(first, slot) {
            Some(operation) => {
                assert(first.contains(operation));
                rearranged_holds(second, first, operation);
                let at = choose|at: int| 0 <= at < second.len() && second[at] == operation;
                sole_writer_wins(second, at);
            },
            None => {
                if winner(second, slot) is Some {
                    let operation = winner(second, slot).unwrap();
                    assert(second.contains(operation));
                    rearranged_holds(first, second, operation);
                    let at = choose|at: int| 0 <= at < first.len() && first[at] == operation;
                    assert(first[at].slot() != slot);
                }
            },
        }
    }
}

} // verus!
