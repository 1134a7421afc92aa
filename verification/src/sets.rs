//! Sets of hosts and of sessions, kept as lists.

use vstd::prelude::*;

use crate::app::{has_host, lists_host};
use crate::hosts::{HostId, KeyView, SessionKey};
use crate::strip::{has_key, lists_key};

verus! {

/// The hosts of a list.
pub open spec fn hosts_in(list: Seq<HostId>) -> Set<Seq<char>> {
    Set::new(|host: Seq<char>| lists_host(list, host))
}

/// The sessions of a list.
pub open spec fn keys_in(list: Seq<SessionKey>) -> Set<KeyView> {
    Set::new(|key: KeyView| lists_key(list, key))
}

/// The sessions of a host.
pub open spec fn keys_on(host: Seq<char>) -> Set<KeyView> {
    Set::new(|key: KeyView| key.host == host)
}

/// The keys of a host, in a list.
pub open spec fn key_on_host(host: Seq<char>) -> spec_fn(SessionKey) -> bool {
    |key: SessionKey| key.host_id@ == host
}

proof fn lemma_host_pushed(list: Seq<HostId>, host: HostId)
    ensures
        hosts_in(list.push(host)) == hosts_in(list).insert(host@),
{
    let after = list.push(host);
    assert forall|other: Seq<char>| hosts_in(after).contains(other) == hosts_in(list).insert(
        host@,
    ).contains(other) by {
        if lists_host(list, other) {
            let i = choose|i: int| 0 <= i < list.len() && (#[trigger] list[i])@ == other;
            assert(after[i]@ == other);
        }
        if other == host@ {
            assert(after[list.len() as int]@ == other);
        }
        if lists_host(after, other) && other != host@ {
            let i = choose|i: int| 0 <= i < after.len() && (#[trigger] after[i])@ == other;
            assert(list[i]@ == other);
        }
    }
    assert(hosts_in(after) =~= hosts_in(list).insert(host@));
}

proof fn lemma_key_pushed(list: Seq<SessionKey>, key: SessionKey)
    ensures
        keys_in(list.push(key)) == keys_in(list).insert(key@),
{
    let after = list.push(key);
    assert forall|other: KeyView| keys_in(after).contains(other) == keys_in(list).insert(
        key@,
    ).contains(other) by {
        if lists_key(list, other) {
            let i = choose|i: int| 0 <= i < list.len() && (#[trigger] list[i])@ == other;
            assert(after[i]@ == other);
        }
        if other == key@ {
            assert(after[list.len() as int]@ == other);
        }
        if lists_key(after, other) && other != key@ {
            let i = choose|i: int| 0 <= i < after.len() && (#[trigger] after[i])@ == other;
            assert(list[i]@ == other);
        }
    }
    assert(keys_in(after) =~= keys_in(list).insert(key@));
}

proof fn lemma_no_hosts(list: Seq<HostId>)
    requires
        list.len() == 0,
    ensures
        hosts_in(list) == Set::<Seq<char>>::empty(),
{
    assert(hosts_in(list) =~= Set::<Seq<char>>::empty());
}

proof fn lemma_no_keys(list: Seq<SessionKey>)
    requires
        list.len() == 0,
    ensures
        keys_in(list) == Set::<KeyView>::empty(),
{
    assert(keys_in(list) =~= Set::<KeyView>::empty());
}

/// Puts a host into a list, unless it stands there.
pub fn keep_host(list: &mut Vec<HostId>, host: &HostId) -> (new: bool)
    ensures
        new == !hosts_in(old(list)@).contains(host@),
        hosts_in(final(list)@) == hosts_in(old(list)@).insert(host@),
{
    if has_host(list, host) {
        assert(hosts_in(list@).insert(host@) =~= hosts_in(list@));
        return false;
    }
    proof {
        lemma_host_pushed(list@, *host);
    }
    list.push(host.clone());
    true
}

/// Takes a host out of a list.
pub fn leave_host(list: &mut Vec<HostId>, host: &HostId)
    ensures
        hosts_in(final(list)@) == hosts_in(old(list)@).remove(host@),
{
    let mut rest: Vec<HostId> = Vec::new();
    let mut at: usize = 0;
    proof {
        lemma_no_hosts(rest@);
        lemma_no_hosts(list@.take(0));
        assert(hosts_in(rest@) =~= hosts_in(list@.take(0)).remove(host@));
    }
    while at < list.len()
        invariant
            at <= list@.len(),
            hosts_in(rest@) == hosts_in(list@.take(at as int)).remove(host@),
        decreases list@.len() - at,
    {
        let ghost before = list@.take(at as int);
        let ghost kept = hosts_in(rest@);
        assert(list@.take(at + 1) =~= before.push(list@[at as int]));
        proof {
            lemma_host_pushed(before, list@[at as int]);
            lemma_host_pushed(rest@, list@[at as int]);
        }
        if list[at] != *host {
            rest.push(list[at].clone());
            assert(hosts_in(list@.take(at + 1)).remove(host@) =~= kept.insert(
                list@[at as int]@,
            ));
        } else {
            assert(hosts_in(list@.take(at + 1)).remove(host@) =~= kept);
        }
        at = at + 1;
    }
    assert(list@.take(at as int) =~= list@);
    *list = rest;
}

/// Puts a session into a list, unless it stands there.
pub fn keep_key(list: &mut Vec<SessionKey>, key: &SessionKey)
    ensures
        keys_in(final(list)@) == keys_in(old(list)@).insert(key@),
{
    if has_key(list, key) {
        assert(keys_in(list@).insert(key@) =~= keys_in(list@));
        return ;
    }
    proof {
        lemma_key_pushed(list@, *key);
    }
    list.push(key.clone());
}

/// Takes a session out of a list.
pub fn leave_key(list: &mut Vec<SessionKey>, key: &SessionKey)
    ensures
        keys_in(final(list)@) == keys_in(old(list)@).remove(key@),
{
    let mut rest: Vec<SessionKey> = Vec::new();
    let mut at: usize = 0;
    proof {
        lemma_no_keys(rest@);
        lemma_no_keys(list@.take(0));
        assert(keys_in(rest@) =~= keys_in(list@.take(0)).remove(key@));
    }
    while at < list.len()
        invariant
            at <= list@.len(),
            keys_in(rest@) == keys_in(list@.take(at as int)).remove(key@),
        decreases list@.len() - at,
    {
        let ghost before = list@.take(at as int);
        let ghost kept = keys_in(rest@);
        assert(list@.take(at + 1) =~= before.push(list@[at as int]));
        proof {
            lemma_key_pushed(before, list@[at as int]);
            lemma_key_pushed(rest@, list@[at as int]);
        }
        if list[at] != *key {
            rest.push(list[at].clone());
            assert(keys_in(list@.take(at + 1)).remove(key@) =~= kept.insert(list@[at as int]@));
        } else {
            assert(keys_in(list@.take(at + 1)).remove(key@) =~= kept);
        }
        at = at + 1;
    }
    assert(list@.take(at as int) =~= list@);
    *list = rest;
}

/// Takes the sessions of a host out of a list.
pub fn leave_keys_of_host(list: &mut Vec<SessionKey>, host: &HostId)
    ensures
        keys_in(final(list)@) == keys_in(old(list)@).difference(keys_on(host@)),
{
    let mut rest: Vec<SessionKey> = Vec::new();
    let mut at: usize = 0;
    proof {
        lemma_no_keys(rest@);
        lemma_no_keys(list@.take(0));
        assert(keys_in(rest@) =~= keys_in(list@.take(0)).difference(keys_on(host@)));
    }
    while at < list.len()
        invariant
            at <= list@.len(),
            keys_in(rest@) == keys_in(list@.take(at as int)).difference(keys_on(host@)),
        decreases list@.len() - at,
    {
        let ghost before = list@.take(at as int);
        let ghost kept = keys_in(rest@);
        assert(list@.take(at + 1) =~= before.push(list@[at as int]));
        proof {
            lemma_key_pushed(before, list@[at as int]);
            lemma_key_pushed(rest@, list@[at as int]);
        }
        if list[at].host_id != *host {
            rest.push(list[at].clone());
            assert(keys_in(list@.take(at + 1)).difference(keys_on(host@)) =~= kept.insert(
                list@[at as int]@,
            ));
        } else {
            assert(keys_in(list@.take(at + 1)).difference(keys_on(host@)) =~= kept);
        }
        at = at + 1;
    }
    assert(list@.take(at as int) =~= list@);
    *list = rest;
}

/// Puts the sessions of another list that are of a host into a list.
pub fn keep_keys_of_host(list: &mut Vec<SessionKey>, others: &Vec<SessionKey>, host: &HostId)
    ensures
        keys_in(final(list)@) == keys_in(old(list)@).union(
            keys_in(others@).intersect(keys_on(host@)),
        ),
{
    let ghost first = keys_in(list@);
    let mut at: usize = 0;
    proof {
        lemma_no_keys(others@.take(0));
        assert(keys_in(list@) =~= first.union(
            keys_in(others@.take(0)).intersect(keys_on(host@)),
        ));
    }
    while at < others.len()
        invariant
            at <= others@.len(),
            keys_in(list@) == first.union(
                keys_in(others@.take(at as int)).intersect(keys_on(host@)),
            ),
        decreases others@.len() - at,
    {
        let ghost before = others@.take(at as int);
        let ghost kept = keys_in(list@);
        assert(others@.take(at + 1) =~= before.push(others@[at as int]));
        proof {
            lemma_key_pushed(before, others@[at as int]);
        }
        let ghost wanted = first.union(keys_in(others@.take(at + 1)).intersect(keys_on(host@)));
        if others[at].host_id == *host {
            keep_key(list, &others[at]);
            assert(wanted =~= kept.insert(others@[at as int]@));
        } else {
            assert(wanted =~= kept);
        }
        at = at + 1;
    }
    assert(others@.take(at as int) =~= others@);
}

} // verus!
