//! Searching in sequences: the first element that meets a condition.

use vstd::prelude::*;

verus! {

/// Where, at or after `from`, the first element stands that meets the condition; the length where
/// there is none.
pub open spec fn position<T>(list: Seq<T>, wanted: spec_fn(T) -> bool, from: int) -> int
    decreases list.len() - from,
{
    if from >= list.len() {
        list.len() as int
    } else if wanted(list[from]) {
        from
    } else {
        position(list, wanted, from + 1)
    }
}

/// The first element that meets the condition.
pub open spec fn find<T>(list: Seq<T>, wanted: spec_fn(T) -> bool) -> Option<T> {
    let at = position(list, wanted, 0);
    if 0 <= at < list.len() {
        Some(list[at])
    } else {
        None
    }
}

/// The first element of a list.
pub open spec fn first<T>(list: Seq<T>) -> Option<T> {
    if list.len() > 0 {
        Some(list[0])
    } else {
        None
    }
}

/// What `position` says: the element there meets the condition and none before it does.
pub proof fn position_is_first<T>(list: Seq<T>, wanted: spec_fn(T) -> bool, from: int)
    requires
        0 <= from <= list.len(),
    ensures
        from <= position(list, wanted, from) <= list.len(),
        position(list, wanted, from) < list.len() ==> wanted(
            list[position(list, wanted, from)],
        ),
        forall|i: int|
            from <= i < position(list, wanted, from) ==> !#[trigger] wanted(list[i]),
    decreases list.len() - from,
{
    if from < list.len() && !wanted(list[from]) {
        position_is_first(list, wanted, from + 1);
    }
}

/// An element that meets the condition with none before it is the first.
pub proof fn first_is_position<T>(list: Seq<T>, wanted: spec_fn(T) -> bool, from: int, at: int)
    requires
        0 <= from <= at <= list.len(),
        at < list.len() ==> wanted(list[at]),
        forall|i: int| from <= i < at ==> !#[trigger] wanted(list[i]),
    ensures
        position(list, wanted, from) == at,
{
    position_is_first(list, wanted, from);
    let p = position(list, wanted, from);
    if p < at {
        assert(!wanted(list[p]));
    }
    if at < p {
        assert(!wanted(list[at]));
    }
}

} // verus!
