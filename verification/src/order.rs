//! Order: of texts, and of lists by a given order.

use vstd::prelude::*;
use vstd::string::*;

use crate::seqs::{position, position_is_first};
use crate::text::chars_of;

verus! {

/// Whether a text stands before another in the order of their characters.
pub open spec fn text_before(left: Seq<char>, right: Seq<char>) -> bool
    decreases left.len(),
{
    if right.len() == 0 {
        false
    } else if left.len() == 0 {
        true
    } else {
        left[0] < right[0] || (left[0] == right[0] && text_before(
            left.drop_first(),
            right.drop_first(),
        ))
    }
}

/// Whether a text stands before another in the order of their characters.
pub fn is_before(left: &str, right: &str) -> (yes: bool)
    ensures
        yes == text_before(left@, right@),
{
    let a = chars_of(left);
    let b = chars_of(right);
    let mut at: usize = 0;
    assert(left@.skip(0) =~= left@);
    assert(right@.skip(0) =~= right@);
    loop
        invariant
            a@ == left@,
            b@ == right@,
            at <= a@.len(),
            at <= b@.len(),
            text_before(left@.skip(at as int), right@.skip(at as int)) == text_before(left@, right@),
        decreases a@.len() - at,
    {
        let ghost l = left@.skip(at as int);
        let ghost r = right@.skip(at as int);
        if at == b.len() {
            return false;
        }
        if at == a.len() {
            return true;
        }
        assert(l[0] == a@[at as int] && r[0] == b@[at as int]);
        if a[at] < b[at] {
            return true;
        }
        if a[at] != b[at] {
            return false;
        }
        assert(l.drop_first() =~= left@.skip(at + 1));
        assert(r.drop_first() =~= right@.skip(at + 1));
        at = at + 1;
    }
}

/// No text stands before itself.
pub proof fn text_order_is_irreflexive(text: Seq<char>)
    ensures
        !text_before(text, text),
    decreases text.len(),
{
    if text.len() > 0 {
        text_order_is_irreflexive(text.drop_first());
    }
}

/// What stands before a text stands before all that the text stands before.
pub proof fn text_order_is_transitive(a: Seq<char>, b: Seq<char>, c: Seq<char>)
    requires
        text_before(a, b),
        text_before(b, c),
    ensures
        text_before(a, c),
    decreases a.len(),
{
    if a.len() > 0 && a[0] == b[0] && b[0] == c[0] {
        text_order_is_transitive(a.drop_first(), b.drop_first(), c.drop_first());
    }
}

/// Of two different texts, one stands before the other.
pub proof fn text_order_is_total(a: Seq<char>, b: Seq<char>)
    ensures
        a == b || text_before(a, b) || text_before(b, a),
    decreases a.len(),
{
    if a.len() == 0 {
        if b.len() == 0 {
            assert(a =~= b);
        }
    } else if b.len() > 0 && a[0] == b[0] {
        text_order_is_total(a.drop_first(), b.drop_first());
        if a.drop_first() == b.drop_first() {
            assert(a =~= seq![a[0]] + a.drop_first());
            assert(b =~= seq![b[0]] + b.drop_first());
        }
    }
}

/// All that the order of texts says about three of them.
pub proof fn lemma_text_order(a: Seq<char>, b: Seq<char>, c: Seq<char>)
    ensures
        text_before(a, b) ==> !text_before(b, a),
        text_before(b, c) ==> !text_before(c, b),
        text_before(a, c) ==> !text_before(c, a),
        a == b || text_before(a, b) || text_before(b, a),
        b == c || text_before(b, c) || text_before(c, b),
        a == c || text_before(a, c) || text_before(c, a),
        !text_before(a, a),
        text_before(a, b) && text_before(b, c) ==> text_before(a, c),
        text_before(c, b) && text_before(b, a) ==> text_before(c, a),
        text_before(b, a) && text_before(a, c) ==> text_before(b, c),
        text_before(c, a) && text_before(a, b) ==> text_before(c, b),
        text_before(a, c) && text_before(c, b) ==> text_before(a, b),
        text_before(b, c) && text_before(c, a) ==> text_before(b, a),
{
    lemma_asymmetric(a, b);
    lemma_asymmetric(b, c);
    lemma_asymmetric(a, c);
    text_order_is_total(a, b);
    text_order_is_total(b, c);
    text_order_is_total(a, c);
    text_order_is_irreflexive(a);
    lemma_transitive(a, b, c);
    lemma_transitive(c, b, a);
    lemma_transitive(b, a, c);
    lemma_transitive(c, a, b);
    lemma_transitive(a, c, b);
    lemma_transitive(b, c, a);
}

proof fn lemma_asymmetric(a: Seq<char>, b: Seq<char>)
    ensures
        text_before(a, b) ==> !text_before(b, a),
{
    if text_before(a, b) && text_before(b, a) {
        text_order_is_transitive(a, b, a);
        text_order_is_irreflexive(a);
    }
}

proof fn lemma_transitive(a: Seq<char>, b: Seq<char>, c: Seq<char>)
    ensures
        text_before(a, b) && text_before(b, c) ==> text_before(a, c),
{
    if text_before(a, b) && text_before(b, c) {
        text_order_is_transitive(a, b, c);
    }
}

/// Elements can be ordered by a text that each of them has.
pub proof fn orders_by_text<T>(before: spec_fn(T, T) -> bool, key: spec_fn(T) -> Seq<char>)
    requires
        forall|a: T, b: T| #[trigger] before(a, b) == text_before(key(a), key(b)),
    ensures
        orders(before),
{
    assert forall|a: T, b: T| #[trigger] before(a, b) implies !before(b, a) by {
        lemma_text_order(key(a), key(b), key(a));
    }
    assert forall|a: T, b: T, c: T|
        #![trigger before(b, a), before(c, b)]
        !before(b, a) && !before(c, b) implies !before(c, a) by {
        lemma_text_order(key(a), key(b), key(c));
    }
}

/// The elements that stand after a given one.
pub open spec fn after<T>(before: spec_fn(T, T) -> bool, item: T) -> spec_fn(T) -> bool {
    |other: T| before(item, other)
}

/// A list with one more element, which goes before the first that it stands before.
pub open spec fn inserted<T>(list: Seq<T>, before: spec_fn(T, T) -> bool, item: T) -> Seq<T> {
    list.insert(position(list, after(before, item), 0), item)
}

/// A list in order. Elements of which neither stands before the other keep their order.
pub open spec fn sorted<T>(list: Seq<T>, before: spec_fn(T, T) -> bool) -> Seq<T>
    decreases list.len(),
{
    if list.len() == 0 {
        list
    } else {
        inserted(sorted(list.drop_last(), before), before, list.last())
    }
}

/// What an order has to be for sorting to make sense: an element is before another exactly where
/// neither the converse nor anything between them says otherwise.
pub open spec fn orders<T>(before: spec_fn(T, T) -> bool) -> bool {
    &&& forall|a: T, b: T| #[trigger] before(a, b) ==> !before(b, a)
    &&& forall|a: T, b: T, c: T|
        #![trigger before(b, a), before(c, b)]
        !before(b, a) && !before(c, b) ==> !before(c, a)
}

/// Nothing stands before what comes earlier.
pub open spec fn in_order<T>(list: Seq<T>, before: spec_fn(T, T) -> bool) -> bool {
    forall|i: int, j: int|
        0 <= i < j < list.len() ==> !before(#[trigger] list[j], #[trigger] list[i])
}

proof fn lemma_inserted<T>(list: Seq<T>, before: spec_fn(T, T) -> bool, item: T)
    requires
        orders(before),
        in_order(list, before),
    ensures
        in_order(inserted(list, before, item), before),
        inserted(list, before, item).to_multiset() =~= list.to_multiset().insert(item),
{
    let p = position(list, after(before, item), 0);
    position_is_first(list, after(before, item), 0);
    let result = inserted(list, before, item);
    let later = after(before, item);
    assert forall|i: int, j: int| 0 <= i < j < result.len() implies !before(
        #[trigger] result[j],
        #[trigger] result[i],
    ) by {
        if i == p {
            // what is pushed back stands at or after the first element that the item is before
            assert(later(list[p]));
            if j - 1 > p {
                assert(!before(list[j - 1], list[p]));
                lemma_chain(before, item, list[p], list[j - 1]);
            }
        } else if j == p {
            assert(!later(list[i]));
        } else {
            let i2 = if i < p {
                i
            } else {
                i - 1
            };
            let j2 = if j < p {
                j
            } else {
                j - 1
            };
            assert(result[i] == list[i2] && result[j] == list[j2]);
        }
    }
    vstd::seq_lib::to_multiset_insert(list, p, item);
}

/// From `a` before `b` and `c` not before `b`, `c` is not before `a`.
proof fn lemma_chain<T>(before: spec_fn(T, T) -> bool, a: T, b: T, c: T)
    requires
        orders(before),
        before(a, b),
        !before(c, b),
    ensures
        !before(c, a),
{
}

/// Sorting puts a list in order and neither drops nor adds an element.
pub proof fn sorting_orders<T>(list: Seq<T>, before: spec_fn(T, T) -> bool)
    requires
        orders(before),
    ensures
        in_order(sorted(list, before), before),
        sorted(list, before).to_multiset() =~= list.to_multiset(),
        sorted(list, before).len() == list.len(),
    decreases list.len(),
{
    broadcast use vstd::seq_lib::group_to_multiset_ensures;

    if list.len() > 0 {
        sorting_orders(list.drop_last(), before);
        lemma_inserted(sorted(list.drop_last(), before), before, list.last());
        position_is_first(
            sorted(list.drop_last(), before),
            after(before, list.last()),
            0,
        );
        assert(list =~= list.drop_last().push(list.last()));
        vstd::seq_lib::to_multiset_build(list.drop_last(), list.last());
    }
}

proof fn lemma_position_of_images<S, T>(
    list: Seq<S>,
    image: spec_fn(S) -> T,
    wanted: spec_fn(S) -> bool,
    wanted_image: spec_fn(T) -> bool,
    from: int,
)
    requires
        0 <= from <= list.len(),
        forall|item: S| #[trigger] wanted(item) == wanted_image(image(item)),
    ensures
        position(list, wanted, from) == position(list.map_values(image), wanted_image, from),
    decreases list.len() - from,
{
    if from < list.len() {
        assert(list.map_values(image)[from] == image(list[from]));
        if !wanted(list[from]) {
            lemma_position_of_images(list, image, wanted, wanted_image, from + 1);
        }
    }
}

/// Sorting by what is seen of the elements gives what is seen of them, sorted.
pub proof fn sorting_commutes_with_looking<S, T>(
    list: Seq<S>,
    image: spec_fn(S) -> T,
    before: spec_fn(S, S) -> bool,
    before_image: spec_fn(T, T) -> bool,
)
    requires
        forall|a: S, b: S| #[trigger] before(a, b) == before_image(image(a), image(b)),
    ensures
        sorted(list, before).map_values(image) == sorted(list.map_values(image), before_image),
    decreases list.len(),
{
    let images = list.map_values(image);
    if list.len() == 0 {
        assert(sorted(list, before).map_values(image) =~= sorted(images, before_image));
    } else {
        let rest = list.drop_last();
        let item = list.last();
        sorting_commutes_with_looking(rest, image, before, before_image);
        assert(images.drop_last() =~= rest.map_values(image));
        assert(images.last() == image(item));
        let part = sorted(rest, before);
        let at = position(part, after(before, item), 0);
        lemma_position_of_images(
            part,
            image,
            after(before, item),
            after(before_image, image(item)),
            0,
        );
        position_is_first(part, after(before, item), 0);
        assert(part.insert(at, item).map_values(image) =~= part.map_values(image).insert(
            at,
            image(item),
        ));
    }
}

/// Puts a list in order. `less` has to compute `before`.
pub(crate) fn sort<T, F: Fn(&T, &T) -> bool>(list: Vec<T>, less: F, Ghost(before): Ghost<
    spec_fn(T, T) -> bool,
>) -> (result: Vec<T>)
    requires
        forall|a: &T, b: &T| call_requires(less, (a, b)),
        forall|a: &T, b: &T, r: bool| call_ensures(less, (a, b), r) ==> r == before(*a, *b),
    ensures
        result@ == sorted(list@, before),
{
    let ghost whole = list@;
    let mut rest = list;
    let mut result: Vec<T> = Vec::new();
    let count: usize = rest.len();
    let mut done: usize = 0;
    assert(whole.take(0) =~= seq![]);
    assert(rest@ =~= whole.skip(0));
    while done < count
        invariant
            forall|a: &T, b: &T| call_requires(less, (a, b)),
            forall|a: &T, b: &T, r: bool| call_ensures(less, (a, b), r) ==> r == before(*a, *b),
            done <= count == whole.len(),
            rest@ == whole.skip(done as int),
            result@ == sorted(whole.take(done as int), before),
        decreases count - done,
    {
        let ghost now = whole.take(done + 1);
        assert(now.drop_last() =~= whole.take(done as int));
        assert(now.last() == whole[done as int]);
        let item = rest.remove(0);
        assert(item == whole[done as int]);
        assert(rest@ =~= whole.skip(done + 1));
        let ghost later = after(before, item);
        let mut at: usize = 0;
        while at < result.len() && !less(&item, &result[at])
            invariant
                forall|a: &T, b: &T| call_requires(less, (a, b)),
                forall|a: &T, b: &T, r: bool| call_ensures(less, (a, b), r) ==> r == before(*a, *b),
                at <= result@.len(),
                later == after(before, item),
                position(result@, later, at as int) == position(result@, later, 0),
            decreases result@.len() - at,
        {
            at = at + 1;
        }
        assert(position(result@, later, 0) == at);
        result.insert(at, item);
        done = done + 1;
    }
    assert(whole.take(count as int) =~= whole);
    result
}

} // verus!
