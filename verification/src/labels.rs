//! Text that has to fit a place on the screen.

use vstd::prelude::*;
use vstd::string::*;

use crate::text::{concat2, same_text};

verus! {

/// A text cut to a width, with an ellipsis in the place of what was cut off.
pub open spec fn clipped(label: Seq<char>, width: nat) -> Seq<char> {
    if label.len() <= width {
        label
    } else if width == 0 {
        seq![]
    } else {
        label.take(width - 1).push('…')
    }
}

/// A text cut to a width.
pub fn clip_label(label: &str, width: usize) -> (text: String)
    ensures
        text@ == clipped(label@, width as nat),
{
    let length: usize = label.unicode_len();
    if length <= width {
        return label.to_owned();
    }
    if width == 0 {
        let text = String::new();
        assert(text@ =~= clipped(label@, width as nat));
        return text;
    }
    let mut text = label.substring_char(0, width - 1).to_owned();
    text.push('…');
    assert(text@ =~= clipped(label@, width as nat));
    text
}

/// A clipped text fits, and one that fits is not changed.
pub proof fn clipped_labels_fit(label: Seq<char>, width: nat)
    ensures
        clipped(label, width).len() <= width,
        label.len() <= width ==> clipped(label, width) == label,
{
}

/// The end of a text, with an ellipsis in the place of what does not fit before it.
pub open spec fn tail_of(value: Seq<char>, width: nat) -> Seq<char> {
    if value.len() <= width {
        value
    } else if width == 0 {
        "…"@
    } else {
        "…"@ + value.skip(value.len() - (width - 1))
    }
}

/// The end of a text, with an ellipsis in the place of what does not fit before it.
pub fn tail_text(value: &str, width: usize) -> (text: String)
    ensures
        text@ == tail_of(value@, width as nat),
{
    let length: usize = value.unicode_len();
    if length <= width {
        return value.to_owned();
    }
    if width == 0 {
        return "…".to_owned();
    }
    let rest = value.substring_char(length - (width - 1), length);
    assert(rest@ =~= value@.skip(value@.len() - (width - 1)));
    concat2("…", rest)
}

/// The states in which a mission waits for a person.
pub open spec fn waits_for_person(state: Seq<char>) -> bool {
    state == "blocked"@ || state == "failed"@ || state == "readyToClose"@ || state
        == "mergedNotClosed"@
}

/// Whether a mission in this state waits for a person.
pub fn needs_person(state: &str) -> (yes: bool)
    ensures
        yes == waits_for_person(state@),
{
    same_text(state, "blocked") || same_text(state, "failed") || same_text(state, "readyToClose")
        || same_text(state, "mergedNotClosed")
}

} // verus!
