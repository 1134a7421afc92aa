//! What is known of each host.

use vstd::prelude::*;

use crate::hosts::HostId;
use crate::seqs::{first_is_position, position, position_is_first};

verus! {

/// The entries of a host.
pub open spec fn of_host<V>(host: Seq<char>) -> spec_fn((HostId, V)) -> bool {
    |entry: (HostId, V)| entry.0@ == host
}

/// What stands under each host: the first entry with it.
pub open spec fn standing<V>(list: Seq<(HostId, V)>) -> Map<Seq<char>, V> {
    Map::new(
        |host: Seq<char>| 0 <= position(list, of_host::<V>(host), 0) < list.len(),
        |host: Seq<char>| list[position(list, of_host::<V>(host), 0)].1,
    )
}

/// Whether no host has two entries.
pub open spec fn hosts_differ<V>(list: Seq<(HostId, V)>) -> bool {
    forall|i: int, j: int|
        0 <= i < j < list.len() ==> (#[trigger] list[i]).0@ != (#[trigger] list[j]).0@
}

/// Where the entry of a host stands.
pub fn find_host_entry<V>(list: &Vec<(HostId, V)>, host: &HostId) -> (found: Option<usize>)
    ensures
        match found {
            Some(at) => {
                &&& at < list@.len()
                &&& position(list@, of_host::<V>(host@), 0) == at
                &&& list@[at as int].0@ == host@
                &&& standing(list@).contains_key(host@)
                &&& standing(list@)[host@] == list@[at as int].1
            },
            None => {
                &&& position(list@, of_host::<V>(host@), 0) == list@.len()
                &&& !standing(list@).contains_key(host@)
            },
        },
{
    let mut at: usize = 0;
    while at < list.len()
        invariant
            at <= list@.len(),
            position(list@, of_host::<V>(host@), at as int) == position(
                list@,
                of_host::<V>(host@),
                0,
            ),
        decreases list@.len() - at,
    {
        if list[at].0 == *host {
            return Some(at);
        }
        at = at + 1;
    }
    None
}

/// What stands under a host.
pub fn get_host<'a, V>(list: &'a Vec<(HostId, V)>, host: &HostId) -> (value: Option<&'a V>)
    ensures
        match value {
            Some(value) => standing(list@).contains_key(host@) && standing(list@)[host@] == *value,
            None => !standing(list@).contains_key(host@),
        },
{
    match find_host_entry(list, host) {
        Some(at) => Some(&list[at].1),
        None => None,
    }
}

proof fn lemma_pushed<V>(list: Seq<(HostId, V)>, entry: (HostId, V))
    requires
        !standing(list).contains_key(entry.0@),
    ensures
        standing(list.push(entry)) == standing(list).insert(entry.0@, entry.1),
        hosts_differ(list) ==> hosts_differ(list.push(entry)),
{
    let after = list.push(entry);
    let expected = standing(list).insert(entry.0@, entry.1);
    position_is_first(list, of_host::<V>(entry.0@), 0);
    assert forall|host: Seq<char>|
        #![trigger standing(after).dom().contains(host)]
        #![trigger standing(after)[host]]
        standing(after).contains_key(host) == expected.contains_key(host) && (
        expected.contains_key(host) ==> standing(after)[host] == expected[host]) by {
        let wanted = of_host::<V>(host);
        position_is_first(list, wanted, 0);
        let at = position(list, wanted, 0);
        assert(forall|i: int| 0 <= i < list.len() ==> after[i] == list[i]);
        if at < list.len() {
            first_is_position(after, wanted, 0, at);
        } else if entry.0@ == host {
            first_is_position(after, wanted, 0, list.len() as int);
        } else {
            first_is_position(after, wanted, 0, after.len() as int);
        }
    }
    assert(standing(after) =~= expected);
    if hosts_differ(list) {
        assert forall|i: int, j: int| 0 <= i < j < after.len() implies (
        #[trigger] after[i]).0@ != (#[trigger] after[j]).0@ by {
            if j == list.len() {
                assert(!of_host::<V>(entry.0@)(list[i]));
            }
        }
    }
}

proof fn lemma_replaced<V>(list: Seq<(HostId, V)>, at: int, entry: (HostId, V))
    requires
        0 <= at < list.len(),
        at == position(list, of_host::<V>(entry.0@), 0),
    ensures
        standing(list.update(at, entry)) == standing(list).insert(entry.0@, entry.1),
        hosts_differ(list) ==> hosts_differ(list.update(at, entry)),
{
    let after = list.update(at, entry);
    let expected = standing(list).insert(entry.0@, entry.1);
    position_is_first(list, of_host::<V>(entry.0@), 0);
    assert(list[at].0@ == entry.0@);
    assert forall|host: Seq<char>|
        #![trigger standing(after).dom().contains(host)]
        #![trigger standing(after)[host]]
        standing(after).contains_key(host) == expected.contains_key(host) && (
        expected.contains_key(host) ==> standing(after)[host] == expected[host]) by {
        let wanted = of_host::<V>(host);
        position_is_first(list, wanted, 0);
        let place = position(list, wanted, 0);
        assert(forall|i: int| 0 <= i < list.len() && i != at ==> after[i] == list[i]);
        assert forall|i: int| 0 <= i < place implies !#[trigger] wanted(after[i]) by {
            assert(!wanted(list[i]));
        }
        first_is_position(after, wanted, 0, place);
    }
    assert(standing(after) =~= expected);
}

proof fn lemma_dropped<V>(list: Seq<(HostId, V)>, at: int)
    requires
        0 <= at < list.len(),
    ensures
        standing(list.remove(at)).remove(list[at].0@) == standing(list).remove(list[at].0@),
        hosts_differ(list) ==> hosts_differ(list.remove(at)),
{
    let after = list.remove(at);
    let gone = list[at].0@;
    let left = standing(after).remove(gone);
    let expected = standing(list).remove(gone);
    assert forall|i: int| 0 <= i < after.len() implies #[trigger] after[i] == list[if i < at {
        i
    } else {
        i + 1
    }] by {}
    assert forall|host: Seq<char>|
        #![trigger left.dom().contains(host)]
        #![trigger left[host]]
        left.contains_key(host) == expected.contains_key(host) && (expected.contains_key(host)
            ==> left[host] == expected[host]) by {
        if host != gone {
            let wanted = of_host::<V>(host);
            position_is_first(list, wanted, 0);
            let place = position(list, wanted, 0);
            assert(place != at);
            let moved = if place < at {
                place
            } else {
                place - 1
            };
            assert forall|i: int| 0 <= i < moved implies !#[trigger] wanted(after[i]) by {
                if i < at {
                    assert(!wanted(list[i]));
                } else {
                    assert(!wanted(list[i + 1]));
                }
            }
            first_is_position(after, wanted, 0, moved);
        }
    }
    assert(left =~= expected);
    if hosts_differ(list) {
        assert forall|i: int, j: int| 0 <= i < j < after.len() implies (
        #[trigger] after[i]).0@ != (#[trigger] after[j]).0@ by {
            let i2 = if i < at {
                i
            } else {
                i + 1
            };
            let j2 = if j < at {
                j
            } else {
                j + 1
            };
            assert(list[i2].0@ != list[j2].0@);
        }
    }
}

/// Puts a value under a host, in the place of what stood there.
pub fn put_host<V>(list: &mut Vec<(HostId, V)>, host: HostId, value: V)
    ensures
        standing(final(list)@) == standing(old(list)@).insert(host@, value),
        hosts_differ(old(list)@) ==> hosts_differ(final(list)@),
{
    match find_host_entry(list, &host) {
        Some(at) => {
            proof {
                lemma_replaced(list@, at as int, (host, value));
            }
            list.set(at, (host, value));
        },
        None => {
            proof {
                lemma_pushed(list@, (host, value));
            }
            list.push((host, value));
        },
    }
}

/// Forgets what stands under a host.
pub fn drop_host<V>(list: &mut Vec<(HostId, V)>, host: &HostId)
    ensures
        standing(final(list)@) == standing(old(list)@).remove(host@),
        hosts_differ(old(list)@) ==> hosts_differ(final(list)@),
{
    let ghost before = list@;
    let mut at: usize = 0;
    while at < list.len()
        invariant
            at <= list@.len(),
            standing(list@).remove(host@) == standing(before).remove(host@),
            hosts_differ(before) ==> hosts_differ(list@),
            forall|i: int| 0 <= i < at ==> (#[trigger] list@[i]).0@ != host@,
        decreases list@.len() - at,
    {
        if list[at].0 == *host {
            let ghost now = list@;
            proof {
                lemma_dropped(now, at as int);
            }
            let _ = list.remove(at);
            assert(list@ == now.remove(at as int));
        } else {
            at = at + 1;
        }
    }
    proof {
        let wanted = of_host::<V>(host@);
        assert forall|i: int| 0 <= i < list@.len() implies !#[trigger] wanted(list@[i]) by {}
        first_is_position(list@, wanted, 0, list@.len() as int);
        assert(standing(list@).remove(host@) =~= standing(list@));
    }
}

} // verus!
