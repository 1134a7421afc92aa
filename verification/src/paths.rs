//! Paths as text, with the rules of a Unix file system.

use vstd::prelude::*;
use vstd::string::*;

use crate::text::{pieces, same_text, split_on, texts, concat2, concat3};

verus! {

/// Whether a path starts at the root.
pub open spec fn absolute(path: Seq<char>) -> bool {
    path.len() > 0 && path[0] == '/'
}

/// Whether a path starts at the root.
pub fn is_absolute(path: &str) -> (yes: bool)
    ensures
        yes == absolute(path@),
{
    path.unicode_len() > 0 && path.get_char(0) == '/'
}

/// A path below another. An absolute path replaces what stands before it; a separator is put
/// between the two unless the first is empty or ends with one.
pub open spec fn joined(base: Seq<char>, rest: Seq<char>) -> Seq<char> {
    if absolute(rest) {
        rest
    } else if base.len() == 0 || base.last() == '/' {
        base + rest
    } else {
        base + "/"@ + rest
    }
}

/// A path below another.
pub fn join(base: &str, rest: &str) -> (path: String)
    ensures
        path@ == joined(base@, rest@),
{
    if is_absolute(rest) {
        return rest.to_owned();
    }
    let length: usize = base.unicode_len();
    if length == 0 || base.get_char(length - 1) == '/' {
        concat2(base, rest)
    } else {
        concat3(base, "/", rest)
    }
}

/// Whether a piece between two separators counts. Empty pieces do not, nor does a dot, except
/// where a relative path starts with it.
pub open spec fn counts(piece: Seq<char>, leading: bool) -> bool {
    piece.len() > 0 && (leading || piece != "."@)
}

/// The pieces that count. `leading` says whether the first piece starts a relative path.
pub open spec fn counted(parts: Seq<Seq<char>>, leading: bool) -> Seq<Seq<char>>
    decreases parts.len(),
{
    if parts.len() == 0 {
        seq![]
    } else {
        let rest = counted(parts.drop_first(), false);
        if counts(parts[0], leading) {
            seq![parts[0]] + rest
        } else {
            rest
        }
    }
}

/// What two paths must share to be the same path: where they start, and the pieces that count.
pub open spec fn components(path: Seq<char>) -> (bool, Seq<Seq<char>>) {
    (absolute(path), counted(pieces(path, '/'), !absolute(path)))
}

fn component_list(path: &str) -> (list: Vec<String>)
    ensures
        texts(list@) == components(path@).1,
{
    let parts = split_on(path, '/');
    let relative: bool = !is_absolute(path);
    let mut list: Vec<String> = Vec::new();
    let mut at: usize = 0;
    let ghost all = texts(parts@);
    assert(all.skip(0) =~= all);
    assert(texts(list@) + counted(all, relative) =~= counted(all, relative));
    while at < parts.len()
        invariant
            at <= parts@.len(),
            all == texts(parts@),
            texts(list@) + counted(all.skip(at as int), relative && at == 0) == counted(
                all,
                relative,
            ),
        decreases parts@.len() - at,
    {
        let part = &parts[at];
        let leading: bool = relative && at == 0;
        let ghost rest = all.skip(at as int);
        assert(rest[0] == part@);
        assert(rest.drop_first() =~= all.skip(at + 1));
        let ghost before = list@;
        if part.as_str().unicode_len() > 0 && (leading || !same_text(part, ".")) {
            list.push(part.clone());
            assert(texts(list@) =~= texts(before).push(part@));
            assert(texts(before) + (seq![part@] + counted(all.skip(at + 1), false)) =~= texts(list@)
                + counted(all.skip(at + 1), false));
        }
        at = at + 1;
    }
    assert(all.skip(at as int) =~= seq![]);
    assert(texts(list@) + counted(seq![], relative && at == 0) =~= texts(list@));
    list
}

/// The last part of a path, unless it is no name: a path that ends with a dot or two has none.
pub open spec fn file_name_of(path: Seq<char>) -> Option<Seq<char>> {
    let parts = components(path).1;
    if parts.len() == 0 || parts.last() == "."@ || parts.last() == ".."@ {
        None
    } else {
        Some(parts.last())
    }
}

/// The last part of a path, unless it is no name.
pub fn file_name(path: &str) -> (name: Option<String>)
    ensures
        crate::text::optional(name) == file_name_of(path@),
{
    let parts = component_list(path);
    assert(texts(parts@).len() == parts@.len());
    if parts.len() == 0 {
        return None;
    }
    let last = &parts[parts.len() - 1];
    assert(texts(parts@).last() == last@);
    if same_text(last, ".") || same_text(last, "..") {
        None
    } else {
        Some(last.clone())
    }
}

/// Whether two paths are the same path.
pub fn same_path(left: &str, right: &str) -> (same: bool)
    ensures
        same == (components(left@) == components(right@)),
{
    if is_absolute(left) != is_absolute(right) {
        return false;
    }
    let a = component_list(left);
    let b = component_list(right);
    assert(texts(a@).len() == a@.len() && texts(b@).len() == b@.len());
    if a.len() != b.len() {
        return false;
    }
    let mut at: usize = 0;
    while at < a.len()
        invariant
            at <= a@.len() == b@.len(),
            texts(a@) == components(left@).1,
            texts(b@) == components(right@).1,
            forall|i: int| 0 <= i < at ==> texts(a@)[i] == texts(b@)[i],
        decreases a@.len() - at,
    {
        if !same_text(&a[at], &b[at]) {
            assert(texts(a@)[at as int] != texts(b@)[at as int]);
            return false;
        }
        at = at + 1;
    }
    assert(texts(a@) =~= texts(b@));
    true
}

/// Whether two optional paths are both absent, or are the same path.
pub open spec fn optional_components(path: Option<String>) -> Option<(bool, Seq<Seq<char>>)> {
    match path {
        Some(path) => Some(components(path@)),
        None => None,
    }
}

/// Whether two optional paths are both absent, or are the same path.
pub fn same_optional_path(left: &Option<String>, right: &Option<String>) -> (same: bool)
    ensures
        same == (optional_components(*left) == optional_components(*right)),
{
    match (left, right) {
        (None, None) => true,
        (Some(a), Some(b)) => same_path(a, b),
        _ => false,
    }
}

} // verus!
