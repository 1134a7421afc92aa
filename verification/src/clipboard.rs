//! Clipboard writes that a pane emits as OSC 52 control sequences.
//!
//! Only a write to the clipboard selection with a base64 payload of bounded length is handed on.
//! Reads, other selections and every other control sequence are dropped.

use vstd::prelude::*;
use vstd::slice::{slice_subrange, slice_to_vec};

verus! {

/// The longest payload that is handed on, in bytes.
pub const MAX_PAYLOAD: usize = 100_000;

/// What an unterminated sequence may hold before it is given up, in bytes.
pub const MAX_PENDING: usize = 100_013;

/// The bytes that start an OSC 52 sequence: `ESC ] 5 2 ;`.
pub open spec fn prefix() -> Seq<u8> {
    seq![0x1bu8, 0x5du8, 0x35u8, 0x32u8, 0x3bu8]
}

/// Whether the prefix stands in `bytes` at `at`.
pub open spec fn prefix_at(bytes: Seq<u8>, at: int) -> bool {
    0 <= at && at + 5 <= bytes.len() && bytes.subrange(at, at + 5) == prefix()
}

/// The first place at or after `from` where the prefix stands.
pub open spec fn find_prefix(bytes: Seq<u8>, from: int) -> Option<int>
    decreases bytes.len() - from,
{
    if from + 5 > bytes.len() {
        None
    } else if prefix_at(bytes, from) {
        Some(from)
    } else {
        find_prefix(bytes, from + 1)
    }
}

/// The length of the terminator that stands in `bytes` at `at`: BEL, or ESC followed by a
/// backslash; 0 where none stands there.
pub open spec fn terminator_at(bytes: Seq<u8>, at: int) -> int {
    if bytes[at] == 7 {
        1
    } else if bytes[at] == 27 && at + 1 < bytes.len() && bytes[at + 1] == 0x5c {
        2
    } else {
        0
    }
}

/// The first place at or after `from` where a terminator stands.
pub open spec fn find_terminator(bytes: Seq<u8>, from: int) -> Option<int>
    decreases bytes.len() - from,
{
    if from >= bytes.len() {
        None
    } else if terminator_at(bytes, from) > 0 {
        Some(from)
    } else {
        find_terminator(bytes, from + 1)
    }
}

/// A byte of the base64 alphabet, padding included.
pub open spec fn base64_byte(byte: u8) -> bool {
    0x30 <= byte <= 0x39 || 0x41 <= byte <= 0x5a || 0x61 <= byte <= 0x7a || byte == 0x2b || byte
        == 0x2f || byte == 0x3d
}

/// The body of a clipboard write: `c;` and a payload of 1 to `MAX_PAYLOAD` base64 bytes.
pub open spec fn write_body(body: Seq<u8>) -> bool {
    &&& body.len() > 2
    &&& body[0] == 0x63
    &&& body[1] == 0x3b
    &&& body.len() - 2 <= MAX_PAYLOAD
    &&& forall|i: int| 2 <= i < body.len() ==> base64_byte(#[trigger] body[i])
}

/// How many bytes at the end of `bytes` may be the start of a prefix, at most `limit` of them.
pub open spec fn partial_prefix(bytes: Seq<u8>, limit: int) -> int
    decreases limit,
{
    if limit <= 0 {
        0
    } else if limit <= bytes.len() && bytes.skip(bytes.len() - limit) == prefix().take(limit) {
        limit
    } else {
        partial_prefix(bytes, limit - 1)
    }
}

/// What is made of a run of bytes: the sequences handed on, and the bytes kept for later.
pub struct Scan {
    pub accepted: Seq<Seq<u8>>,
    pub kept: Seq<u8>,
    /// Whether an unterminated sequence was given up because it grew too long.
    pub overflowed: bool,
}

/// Reads `bytes` from the left. Each sequence runs from its prefix to the first terminator after
/// it and is handed on where its body is a clipboard write.
pub open spec fn scan(bytes: Seq<u8>) -> Scan
    decreases bytes.len(),
{
    match find_prefix(bytes, 0) {
        None => Scan {
            accepted: seq![],
            kept: bytes.skip(bytes.len() - partial_prefix(bytes, 4)),
            overflowed: false,
        },
        Some(start) => {
            match find_terminator(bytes, start + 5) {
                None => if bytes.len() - start > MAX_PENDING {
                    Scan { accepted: seq![], kept: seq![], overflowed: true }
                } else {
                    Scan { accepted: seq![], kept: bytes.skip(start), overflowed: false }
                },
                Some(end) => {
                    let whole = end + terminator_at(bytes, end);
                    if 0 <= start < whole <= bytes.len() {
                        let rest = scan(bytes.skip(whole));
                        if write_body(bytes.subrange(start + 5, end)) {
                            Scan {
                                accepted: seq![bytes.subrange(start, whole)] + rest.accepted,
                                ..rest
                            }
                        } else {
                            rest
                        }
                    } else {
                        Scan { accepted: seq![], kept: seq![], overflowed: false }
                    }
                },
            }
        },
    }
}

/// The contents of each vector.
pub open spec fn contents(list: Seq<Vec<u8>>) -> Seq<Seq<u8>> {
    list.map_values(|item: Vec<u8>| item@)
}

/// What comes from a pane: a fragment of its output, the news that some of it was lost, or something
/// else.
#[derive(Debug)]
pub enum Output {
    Bytes(Vec<u8>),
    Lag,
    Other,
}

/// Finds clipboard writes in the output of a pane, which arrives in fragments.
pub struct Osc52Parser {
    pending: Vec<u8>,
}

impl View for Osc52Parser {
    type V = Seq<u8>;

    /// The bytes kept from earlier fragments.
    closed spec fn view(&self) -> Seq<u8> {
        self.pending@
    }
}

impl Default for Osc52Parser {
    fn default() -> (parser: Self)
        ensures
            parser@ == Seq::<u8>::empty(),
    {
        Osc52Parser { pending: Vec::new() }
    }
}

impl Osc52Parser {
    /// Forgets what earlier fragments left.
    pub fn reset(&mut self)
        ensures
            final(self)@ == Seq::<u8>::empty(),
    {
        self.pending.clear();
    }

    /// Takes the next fragment and returns the clipboard writes that it completes.
    pub fn feed(&mut self, bytes: &[u8]) -> (accepted: Vec<Vec<u8>>)
        ensures
            contents(accepted@) == scan(old(self)@ + bytes@).accepted,
            final(self)@ == scan(old(self)@ + bytes@).kept,
    {
        self.pending.extend_from_slice(bytes);
        let ghost whole: Seq<u8> = self.pending@;
        assert(whole == old(self)@ + bytes@);
        let mut accepted: Vec<Vec<u8>> = Vec::new();
        let mut at: usize = 0;
        assert(whole.skip(0) =~= whole);
        assert(contents(accepted@) + scan(whole).accepted =~= scan(whole).accepted);
        loop
            invariant_except_break
                self.pending@ == whole,
                at <= whole.len(),
                contents(accepted@) + scan(whole.skip(at as int)).accepted == scan(whole).accepted,
                scan(whole.skip(at as int)).kept == scan(whole).kept,
            ensures
                contents(accepted@) == scan(whole).accepted,
                self.pending@ == scan(whole).kept,
            decreases whole.len() - at,
        {
            let ghost rest = whole.skip(at as int);
            let pending = slice_subrange(self.pending.as_slice(), at, self.pending.len());
            assert(pending@ =~= rest);
            match find(pending) {
                None => {
                    let keep: usize = suffix_prefix_len(pending);
                    let kept = slice_to_vec(
                        slice_subrange(pending, pending.len() - keep, pending.len()),
                    );
                    assert(kept@ =~= scan(rest).kept);
                    assert(contents(accepted@) + scan(rest).accepted =~= contents(accepted@));
                    self.pending = kept;
                    break;
                },
                Some(start) => {
                    match terminator(pending, start + 5) {
                        None => {
                            assert(contents(accepted@) + scan(rest).accepted =~= contents(
                                accepted@,
                            ));
                            if pending.len() - start > MAX_PENDING {
                                self.pending = Vec::new();
                            } else {
                                let kept = slice_to_vec(
                                    slice_subrange(pending, start, pending.len()),
                                );
                                assert(kept@ =~= scan(rest).kept);
                                self.pending = kept;
                            }
                            break;
                        },
                        Some((end, terminal_len)) => {
                            let whole_end: usize = end + terminal_len;
                            let ghost before = accepted@;
                            let ghost tail = scan(rest.skip(whole_end as int));
                            if valid_body(slice_subrange(pending, start + 5, end)) {
                                let sequence = slice_to_vec(
                                    slice_subrange(pending, start, whole_end),
                                );
                                accepted.push(sequence);
                                assert(contents(accepted@) =~= contents(before).push(sequence@));
                                assert(contents(accepted@) + tail.accepted =~= contents(before) + (
                                seq![sequence@] + tail.accepted));
                            }
                            assert(whole.skip(at + whole_end) =~= rest.skip(whole_end as int));
                            at = at + whole_end;
                        },
                    }
                },
            }
        }
        accepted
    }

    /// Takes what comes from a pane, and returns the clipboard writes that it completes. Only the pane
    /// that is heard can write; whatever is not heard, or was lost, is forgotten.
    pub fn take(&mut self, chunk: Output, heard: bool) -> (accepted: Vec<Vec<u8>>)
        ensures
            match chunk {
                Output::Bytes(bytes) => if heard {
                    &&& contents(accepted@) == scan(old(self)@ + bytes@).accepted
                    &&& final(self)@ == scan(old(self)@ + bytes@).kept
                } else {
                    accepted@.len() == 0 && final(self)@ == Seq::<u8>::empty()
                },
                Output::Lag => accepted@.len() == 0 && final(self)@ == Seq::<u8>::empty(),
                Output::Other => accepted@.len() == 0 && final(self)@ == old(self)@,
            },
    {
        match chunk {
            Output::Bytes(bytes) => {
                if heard {
                    return self.feed(bytes.as_slice());
                }
                self.reset();
            },
            Output::Lag => self.reset(),
            Output::Other => {},
        }
        Vec::new()
    }
}

fn valid_body(body: &[u8]) -> (valid: bool)
    ensures
        valid == write_body(body@),
{
    if body.len() <= 2 || body[0] != 0x63 || body[1] != 0x3b || body.len() - 2 > MAX_PAYLOAD {
        return false;
    }
    let mut at: usize = 2;
    while at < body.len()
        invariant
            2 <= at <= body@.len(),
            forall|i: int| 2 <= i < at ==> base64_byte(#[trigger] body@[i]),
        decreases body@.len() - at,
    {
        let byte: u8 = body[at];
        let known: bool = (0x30 <= byte && byte <= 0x39) || (0x41 <= byte && byte <= 0x5a) || (0x61
            <= byte && byte <= 0x7a) || byte == 0x2b || byte == 0x2f || byte == 0x3d;
        if !known {
            assert(!base64_byte(body@[at as int]));
            return false;
        }
        at = at + 1;
    }
    true
}

fn find(bytes: &[u8]) -> (start: Option<usize>)
    ensures
        match start {
            Some(start) => find_prefix(bytes@, 0) == Some(start as int) && start + 5 <= bytes@.len(),
            None => find_prefix(bytes@, 0) is None,
        },
{
    let mut at: usize = 0;
    while bytes.len() - at >= 5
        invariant
            at <= bytes@.len(),
            find_prefix(bytes@, at as int) == find_prefix(bytes@, 0),
        decreases bytes@.len() - at,
    {
        let found: bool = bytes[at] == 0x1b && bytes[at + 1] == 0x5d && bytes[at + 2] == 0x35
            && bytes[at + 3] == 0x32 && bytes[at + 4] == 0x3b;
        let ghost window = bytes@.subrange(at as int, at + 5);
        assert(window[0] == bytes@[at as int] && window[1] == bytes@[at + 1] && window[2]
            == bytes@[at + 2] && window[3] == bytes@[at + 3] && window[4] == bytes@[at + 4]);
        assert(found <==> window =~= prefix());
        if found {
            return Some(at);
        }
        at = at + 1;
    }
    None
}

fn terminator(bytes: &[u8], from: usize) -> (found: Option<(usize, usize)>)
    requires
        from <= bytes@.len(),
    ensures
        match found {
            Some((end, length)) => {
                &&& find_terminator(bytes@, from as int) == Some(end as int)
                &&& length == terminator_at(bytes@, end as int)
                &&& from <= end
                &&& 0 < length
                &&& end + length <= bytes@.len()
            },
            None => find_terminator(bytes@, from as int) is None,
        },
{
    let mut at: usize = from;
    while at < bytes.len()
        invariant
            from <= at <= bytes@.len(),
            find_terminator(bytes@, at as int) == find_terminator(bytes@, from as int),
        decreases bytes@.len() - at,
    {
        if bytes[at] == 7 {
            return Some((at, 1));
        }
        if bytes[at] == 27 && bytes.len() - at > 1 && bytes[at + 1] == 0x5c {
            return Some((at, 2));
        }
        at = at + 1;
    }
    None
}

fn suffix_prefix_len(bytes: &[u8]) -> (length: usize)
    ensures
        length == partial_prefix(bytes@, 4),
        length <= bytes@.len(),
{
    let mut length: usize = 4;
    while length > 0
        invariant
            0 <= length <= 4,
            partial_prefix(bytes@, length as int) == partial_prefix(bytes@, 4),
        decreases length,
    {
        if length <= bytes.len() {
            let from: usize = bytes.len() - length;
            let found: bool = bytes[from] == 0x1b && (length < 2 || bytes[from + 1] == 0x5d) && (
            length < 3 || bytes[from + 2] == 0x35) && (length < 4 || bytes[from + 3] == 0x32);
            let ghost tail = bytes@.skip(from as int);
            let ghost head = prefix().take(length as int);
            assert(tail.len() == length && head.len() == length);
            assert(tail[0] == bytes@[from as int] && head[0] == 0x1b);
            assert(length >= 2 ==> tail[1] == bytes@[from + 1] && head[1] == 0x5d);
            assert(length >= 3 ==> tail[2] == bytes@[from + 2] && head[2] == 0x35);
            assert(length >= 4 ==> tail[3] == bytes@[from + 3] && head[3] == 0x32);
            assert(found <==> tail =~= head);
            if found {
                return length;
            }
        }
        length = length - 1;
    }
    0
}

/// Whether the bytes from `at` on agree with the prefix as far as both go.
spec fn starts(bytes: Seq<u8>, at: int) -> bool {
    forall|t: int| 0 <= t < 5 && at + t < bytes.len() ==> bytes[at + t] == #[trigger] prefix()[t]
}

proof fn lemma_prefix_starts(bytes: Seq<u8>, at: int)
    requires
        0 <= at,
        at + 5 <= bytes.len(),
    ensures
        prefix_at(bytes, at) <==> starts(bytes, at),
{
    let window = bytes.subrange(at, at + 5);
    if prefix_at(bytes, at) {
        assert forall|t: int| 0 <= t < 5 && at + t < bytes.len() implies bytes[at + t]
            == #[trigger] prefix()[t] by {
            assert(window[t] == bytes[at + t]);
        }
    }
    if starts(bytes, at) {
        assert(window =~= prefix());
    }
}

proof fn lemma_find_prefix(bytes: Seq<u8>, from: int)
    requires
        0 <= from,
    ensures
        match find_prefix(bytes, from) {
            Some(found) => {
                &&& from <= found
                &&& found + 5 <= bytes.len()
                &&& starts(bytes, found)
                &&& forall|j: int| from <= j < found ==> !#[trigger] starts(bytes, j)
            },
            None => forall|j: int|
                from <= j && j + 5 <= bytes.len() ==> !#[trigger] starts(bytes, j),
        },
    decreases bytes.len() - from,
{
    if from + 5 <= bytes.len() {
        lemma_prefix_starts(bytes, from);
        if !prefix_at(bytes, from) {
            lemma_find_prefix(bytes, from + 1);
        }
    }
}

proof fn lemma_found_prefix(bytes: Seq<u8>, from: int, found: int)
    requires
        0 <= from <= found,
        found + 5 <= bytes.len(),
        starts(bytes, found),
        forall|j: int| from <= j < found ==> !#[trigger] starts(bytes, j),
    ensures
        find_prefix(bytes, from) == Some(found),
{
    lemma_find_prefix(bytes, from);
    match find_prefix(bytes, from) {
        Some(other) => {
            if other < found {
                assert(!starts(bytes, other));
            }
            if found < other {
                assert(!starts(bytes, found));
            }
        },
        None => {
            assert(!starts(bytes, found));
        },
    }
}

proof fn lemma_partial_prefix(bytes: Seq<u8>, limit: int)
    requires
        0 <= limit <= 4,
    ensures
        0 <= partial_prefix(bytes, limit) <= limit,
        partial_prefix(bytes, limit) <= bytes.len(),
        partial_prefix(bytes, limit) > 0 ==> starts(
            bytes,
            bytes.len() - partial_prefix(bytes, limit),
        ),
        forall|j: int|
            bytes.len() - limit <= j < bytes.len() - partial_prefix(bytes, limit) && 0 <= j
                ==> !#[trigger] starts(bytes, j),
    decreases limit,
{
    if limit > 0 {
        if limit <= bytes.len() {
            let from = bytes.len() - limit;
            let tail = bytes.skip(from);
            let head = prefix().take(limit);
            if tail == head {
                assert forall|t: int| 0 <= t < 5 && from + t < bytes.len() implies bytes[from + t]
                    == #[trigger] prefix()[t] by {
                    assert(tail[t] == head[t]);
                }
            } else {
                if starts(bytes, from) {
                    assert forall|t: int| 0 <= t < limit implies tail[t] == head[t] by {
                        assert(bytes[from + t] == prefix()[t]);
                    }
                    assert(tail =~= head);
                }
                lemma_partial_prefix(bytes, limit - 1);
            }
        } else {
            lemma_partial_prefix(bytes, limit - 1);
        }
    }
}

proof fn lemma_partial_is(bytes: Seq<u8>, length: int)
    requires
        0 <= length <= 4,
        length <= bytes.len(),
        length > 0 ==> starts(bytes, bytes.len() - length),
        forall|j: int|
            bytes.len() - 4 <= j < bytes.len() - length && 0 <= j ==> !#[trigger] starts(bytes, j),
    ensures
        partial_prefix(bytes, 4) == length,
{
    lemma_partial_prefix(bytes, 4);
    let other = partial_prefix(bytes, 4);
    if other < length {
        assert(!starts(bytes, bytes.len() - length));
    }
    if length < other {
        assert(!starts(bytes, bytes.len() - other));
    }
}

proof fn lemma_starts_skip(bytes: Seq<u8>, drop: int, at: int)
    requires
        0 <= drop <= bytes.len(),
        0 <= at,
    ensures
        starts(bytes.skip(drop), at) <==> starts(bytes, drop + at),
{
    let rest = bytes.skip(drop);
    if starts(rest, at) {
        assert forall|t: int| 0 <= t < 5 && drop + at + t < bytes.len() implies bytes[drop + at + t]
            == #[trigger] prefix()[t] by {
            assert(rest[at + t] == prefix()[t]);
        }
    }
    if starts(bytes, drop + at) {
        assert forall|t: int| 0 <= t < 5 && at + t < rest.len() implies rest[at + t]
            == #[trigger] prefix()[t] by {
            assert(bytes[drop + at + t] == prefix()[t]);
        }
    }
}

proof fn lemma_find_terminator(bytes: Seq<u8>, from: int)
    requires
        0 <= from,
    ensures
        match find_terminator(bytes, from) {
            Some(end) => {
                &&& from <= end
                &&& terminator_at(bytes, end) > 0
                &&& end + terminator_at(bytes, end) <= bytes.len()
                &&& forall|j: int| from <= j < end ==> #[trigger] terminator_at(bytes, j) == 0
            },
            None => forall|j: int|
                from <= j < bytes.len() ==> #[trigger] terminator_at(bytes, j) == 0,
        },
    decreases bytes.len() - from,
{
    if from < bytes.len() && terminator_at(bytes, from) == 0 {
        lemma_find_terminator(bytes, from + 1);
    }
}

proof fn lemma_found_terminator(bytes: Seq<u8>, from: int, end: int)
    requires
        0 <= from <= end < bytes.len(),
        terminator_at(bytes, end) > 0,
        forall|j: int| from <= j < end ==> #[trigger] terminator_at(bytes, j) == 0,
    ensures
        find_terminator(bytes, from) == Some(end),
    decreases end - from,
{
    if from < end {
        assert(terminator_at(bytes, from) == 0);
        lemma_found_terminator(bytes, from + 1, end);
    }
}

/// A terminator is found in the rest of the bytes where it is found in all of them.
proof fn lemma_terminator_skip(bytes: Seq<u8>, drop: int, from: int)
    requires
        0 <= drop <= bytes.len(),
        0 <= from,
    ensures
        match find_terminator(bytes, drop + from) {
            Some(end) => {
                &&& find_terminator(bytes.skip(drop), from) == Some(end - drop)
                &&& terminator_at(bytes.skip(drop), end - drop) == terminator_at(bytes, end)
            },
            None => find_terminator(bytes.skip(drop), from) is None,
        },
    decreases bytes.len() - from,
{
    let rest = bytes.skip(drop);
    if drop + from < bytes.len() {
        assert(rest[from] == bytes[drop + from]);
        assert(terminator_at(rest, from) == terminator_at(bytes, drop + from));
        lemma_terminator_skip(bytes, drop, from + 1);
    }
}

/// Leading bytes at which no prefix can start change nothing.
proof fn lemma_scan_skip(bytes: Seq<u8>, drop: int)
    requires
        0 <= drop <= bytes.len(),
        forall|j: int| 0 <= j < drop ==> !#[trigger] starts(bytes, j),
    ensures
        scan(bytes) == scan(bytes.skip(drop)),
{
    let rest = bytes.skip(drop);
    lemma_find_prefix(bytes, 0);
    match find_prefix(bytes, 0) {
        None => {
            assert forall|j: int| 0 <= j && j + 5 <= rest.len() implies !#[trigger] starts(
                rest,
                j,
            ) by {
                lemma_starts_skip(bytes, drop, j);
            }
            lemma_find_prefix(rest, 0);
            assert(find_prefix(rest, 0) is None) by {
                if let Some(found) = find_prefix(rest, 0) {
                    assert(starts(rest, found));
                }
            }
            lemma_partial_prefix(bytes, 4);
            let kept = partial_prefix(bytes, 4);
            if kept > 0 {
                assert(bytes.len() - kept >= drop);
                lemma_starts_skip(bytes, drop, bytes.len() - kept - drop);
            }
            assert(kept <= rest.len());
            assert forall|j: int| rest.len() - 4 <= j < rest.len() - kept && 0 <= j implies
                !#[trigger] starts(rest, j) by {
                lemma_starts_skip(bytes, drop, j);
                assert(!starts(bytes, drop + j));
            }
            lemma_partial_is(rest, kept);
            assert(bytes.skip(bytes.len() - kept) =~= rest.skip(rest.len() - kept));
        },
        Some(start) => {
            assert(drop <= start);
            lemma_starts_skip(bytes, drop, start - drop);
            assert forall|j: int| 0 <= j < start - drop implies !#[trigger] starts(rest, j) by {
                lemma_starts_skip(bytes, drop, j);
            }
            lemma_found_prefix(rest, 0, start - drop);
            lemma_find_terminator(bytes, start + 5);
            lemma_terminator_skip(bytes, drop, start - drop + 5);
            match find_terminator(bytes, start + 5) {
                None => {
                    assert(bytes.skip(start) =~= rest.skip(start - drop));
                },
                Some(end) => {
                    let whole = end + terminator_at(bytes, end);
                    assert(bytes.skip(whole) =~= rest.skip(whole - drop));
                    assert(bytes.subrange(start + 5, end) =~= rest.subrange(
                        start - drop + 5,
                        end - drop,
                    ));
                    assert(bytes.subrange(start, whole) =~= rest.subrange(
                        start - drop,
                        whole - drop,
                    ));
                },
            }
        },
    }
}

/// Where a prefix cannot start in the first bytes, it cannot start there when more follow.
proof fn lemma_starts_extended(first: Seq<u8>, second: Seq<u8>, at: int)
    requires
        0 <= at <= first.len(),
        starts(first + second, at),
    ensures
        starts(first, at),
{
    let all = first + second;
    assert forall|t: int| 0 <= t < 5 && at + t < first.len() implies first[at + t]
        == #[trigger] prefix()[t] by {
        assert(all[at + t] == prefix()[t]);
    }
}

/// It makes no difference how the output is cut into fragments: two fragments give what their
/// concatenation gives, unless the first one already had to be given up for its length.
pub proof fn fragments_join(first: Seq<u8>, second: Seq<u8>)
    requires
        !scan(first).overflowed,
    ensures
        scan(first + second).accepted == scan(first).accepted + scan(
            scan(first).kept + second,
        ).accepted,
        scan(first + second).kept == scan(scan(first).kept + second).kept,
        scan(first + second).overflowed == scan(scan(first).kept + second).overflowed,
    decreases first.len(),
{
    let all = first + second;
    lemma_find_prefix(first, 0);
    match find_prefix(first, 0) {
        None => {
            lemma_partial_prefix(first, 4);
            let drop = first.len() - partial_prefix(first, 4);
            assert forall|j: int| 0 <= j < drop implies !#[trigger] starts(all, j) by {
                if starts(all, j) {
                    lemma_starts_extended(first, second, j);
                    assert(!starts(first, j));
                }
            }
            lemma_scan_skip(all, drop);
            assert(all.skip(drop) =~= first.skip(drop) + second);
            assert(scan(first).accepted + scan(all.skip(drop)).accepted =~= scan(
                all.skip(drop),
            ).accepted);
        },
        Some(start) => {
            assert forall|j: int| 0 <= j < start implies !#[trigger] starts(all, j) by {
                if starts(all, j) {
                    lemma_starts_extended(first, second, j);
                    assert(!starts(first, j));
                }
            }
            lemma_find_terminator(first, start + 5);
            match find_terminator(first, start + 5) {
                None => {
                    lemma_scan_skip(all, start);
                    assert(all.skip(start) =~= first.skip(start) + second);
                    assert(scan(first).accepted + scan(all.skip(start)).accepted =~= scan(
                        all.skip(start),
                    ).accepted);
                },
                Some(end) => {
                    assert(starts(all, start)) by {
                        assert forall|t: int| 0 <= t < 5 && start + t < all.len() implies all[start
                            + t] == #[trigger] prefix()[t] by {
                            assert(first[start + t] == prefix()[t]);
                        }
                    }
                    lemma_found_prefix(all, 0, start);
                    assert forall|j: int| start + 5 <= j < end implies #[trigger] terminator_at(
                        all,
                        j,
                    ) == 0 by {
                        assert(terminator_at(first, j) == 0);
                    }
                    assert(terminator_at(all, end) == terminator_at(first, end));
                    lemma_found_terminator(all, start + 5, end);
                    let whole = end + terminator_at(first, end);
                    let rest = first.skip(whole);
                    assert(all.skip(whole) =~= rest + second);
                    fragments_join(rest, second);
                    assert(all.subrange(start + 5, end) =~= first.subrange(start + 5, end));
                    assert(all.subrange(start, whole) =~= first.subrange(start, whole));
                    assert(scan(all).accepted =~= scan(first).accepted + scan(
                        scan(first).kept + second,
                    ).accepted);
                },
            }
        },
    }
}

/// A parser never keeps more than `MAX_PENDING` bytes.
pub proof fn kept_is_bounded(bytes: Seq<u8>)
    ensures
        scan(bytes).kept.len() <= MAX_PENDING,
    decreases bytes.len(),
{
    lemma_partial_prefix(bytes, 4);
    lemma_find_prefix(bytes, 0);
    if let Some(start) = find_prefix(bytes, 0) {
        lemma_find_terminator(bytes, start + 5);
        if let Some(end) = find_terminator(bytes, start + 5) {
            kept_is_bounded(bytes.skip(end + terminator_at(bytes, end)));
        }
    }
}

/// A whole clipboard write: the prefix, the body and one terminator, which is the first.
pub open spec fn clipboard_write(sequence: Seq<u8>) -> bool {
    &&& prefix_at(sequence, 0)
    &&& match find_terminator(sequence, 5) {
        Some(end) => end + terminator_at(sequence, end) == sequence.len() && write_body(
            sequence.subrange(5, end),
        ),
        None => false,
    }
}

/// Nothing but clipboard writes is handed on, and nothing that did not stand in the output.
pub proof fn only_clipboard_writes(bytes: Seq<u8>, index: int)
    requires
        0 <= index < scan(bytes).accepted.len(),
    ensures
        clipboard_write(scan(bytes).accepted[index]),
        exists|at: int|
            0 <= at <= bytes.len() - scan(bytes).accepted[index].len()
                && #[trigger] bytes.subrange(at, at + scan(bytes).accepted[index].len())
                == scan(bytes).accepted[index],
    decreases bytes.len(),
{
    let sequence = scan(bytes).accepted[index];
    lemma_find_prefix(bytes, 0);
    let start = find_prefix(bytes, 0)->0;
    lemma_find_terminator(bytes, start + 5);
    let end = find_terminator(bytes, start + 5)->0;
    let whole = end + terminator_at(bytes, end);
    let rest = scan(bytes.skip(whole));
    if write_body(bytes.subrange(start + 5, end)) && index == 0 {
        assert(sequence == bytes.subrange(start, whole));
        lemma_prefix_starts(bytes, start);
        assert(sequence.subrange(0, 5) =~= bytes.subrange(start, start + 5));
        assert forall|j: int| 5 <= j < end - start implies #[trigger] terminator_at(sequence, j)
            == 0 by {
            assert(terminator_at(bytes, start + j) == 0);
        }
        assert(terminator_at(sequence, end - start) == terminator_at(bytes, end));
        lemma_found_terminator(sequence, 5, end - start);
        assert(sequence.subrange(5, end - start) =~= bytes.subrange(start + 5, end));
        assert(bytes.subrange(start, start + sequence.len()) == sequence);
    } else {
        let earlier: int = if write_body(bytes.subrange(start + 5, end)) {
            index - 1
        } else {
            index
        };
        assert(rest.accepted[earlier] == sequence);
        only_clipboard_writes(bytes.skip(whole), earlier);
        let at = choose|at: int|
            0 <= at <= bytes.skip(whole).len() - sequence.len()
                && #[trigger] bytes.skip(whole).subrange(at, at + sequence.len()) == sequence;
        assert(bytes.subrange(whole + at, whole + at + sequence.len()) =~= bytes.skip(
            whole,
        ).subrange(at, at + sequence.len()));
    }
}

/// Where the sequences that are handed on stand in the output.
pub open spec fn frame_places(bytes: Seq<u8>) -> Seq<int>
    decreases bytes.len(),
{
    match find_prefix(bytes, 0) {
        None => seq![],
        Some(start) => match find_terminator(bytes, start + 5) {
            None => seq![],
            Some(end) => {
                let whole = end + terminator_at(bytes, end);
                if 0 <= start < whole <= bytes.len() {
                    let rest = frame_places(bytes.skip(whole)).map_values(|at: int| whole + at);
                    if write_body(bytes.subrange(start + 5, end)) {
                        seq![start] + rest
                    } else {
                        rest
                    }
                } else {
                    seq![]
                }
            },
        },
    }
}

/// Whether a piece stands in the bytes at a place.
pub open spec fn stands_at(bytes: Seq<u8>, piece: Seq<u8>, at: int) -> bool {
    0 <= at <= bytes.len() - piece.len() && bytes.subrange(at, at + piece.len()) == piece
}

/// Whether pieces stand in the bytes at places, one behind the other, and all before the last `kept`
/// bytes.
pub open spec fn in_turn(bytes: Seq<u8>, pieces: Seq<Seq<u8>>, places: Seq<int>, kept: nat) -> bool {
    &&& places.len() == pieces.len()
    &&& forall|i: int| 0 <= i < pieces.len() ==> stands_at(bytes, #[trigger] pieces[i], places[i])
    &&& forall|i: int, j: int|
        #![trigger places[i], places[j]]
        0 <= i < j < pieces.len() ==> places[i] + pieces[i].len() <= places[j]
    &&& forall|i: int|
        0 <= i < pieces.len() ==> (#[trigger] places[i]) + pieces[i].len() <= bytes.len() - kept
}

/// The sequences that are handed on are pieces of the output that do not overlap, in the order in
/// which they stand there, and none of them reaches into what is kept for later.
pub proof fn frames_stand_in_turn(bytes: Seq<u8>)
    ensures
        in_turn(bytes, scan(bytes).accepted, frame_places(bytes), scan(bytes).kept.len()),
    decreases bytes.len(),
{
    lemma_find_prefix(bytes, 0);
    if let Some(start) = find_prefix(bytes, 0) {
        lemma_find_terminator(bytes, start + 5);
        if let Some(end) = find_terminator(bytes, start + 5) {
            let whole = end + terminator_at(bytes, end);
            let tail = bytes.skip(whole);
            frames_stand_in_turn(tail);
            let rest = scan(tail).accepted;
            let there = frame_places(tail);
            let moved = there.map_values(|at: int| whole + at);
            assert forall|i: int| 0 <= i < rest.len() implies stands_at(
                bytes,
                #[trigger] rest[i],
                moved[i],
            ) by {
                assert(stands_at(tail, rest[i], there[i]));
                assert(bytes.subrange(moved[i], moved[i] + rest[i].len()) =~= tail.subrange(
                    there[i],
                    there[i] + rest[i].len(),
                ));
            }
            let pieces = scan(bytes).accepted;
            let places = frame_places(bytes);
            let first: int = if write_body(bytes.subrange(start + 5, end)) {
                1
            } else {
                0
            };
            assert forall|i: int| first <= i < pieces.len() implies #[trigger] pieces[i] == rest[i
                - first] && places[i] == moved[i - first] by {}
            assert forall|i: int, j: int|
                #![trigger places[i], places[j]]
                0 <= i < j < pieces.len() implies places[i] + pieces[i].len() <= places[j] by {
                assert(pieces[j] == rest[j - first]);
                assert(there[j - first] >= 0) by {
                    assert(stands_at(tail, rest[j - first], there[j - first]));
                }
                if i >= first {
                    assert(pieces[i] == rest[i - first]);
                    assert(there[i - first] + rest[i - first].len() <= there[j - first]);
                }
            }
            assert forall|i: int| 0 <= i < pieces.len() implies stands_at(
                bytes,
                #[trigger] pieces[i],
                places[i],
            ) && places[i] + pieces[i].len() <= bytes.len() - scan(bytes).kept.len() by {
                if i >= first {
                    assert(stands_at(bytes, rest[i - first], moved[i - first]));
                    assert(there[i - first] + rest[i - first].len() <= tail.len()
                        - scan(tail).kept.len());
                } else {
                    lemma_kept_len(tail);
                }
            }
        }
    }
}

proof fn lemma_kept_len(bytes: Seq<u8>)
    ensures
        scan(bytes).kept.len() <= bytes.len(),
    decreases bytes.len(),
{
    lemma_partial_prefix(bytes, 4);
    lemma_find_prefix(bytes, 0);
    if let Some(start) = find_prefix(bytes, 0) {
        lemma_find_terminator(bytes, start + 5);
        if let Some(end) = find_terminator(bytes, start + 5) {
            lemma_kept_len(bytes.skip(end + terminator_at(bytes, end)));
        }
    }
}

/// After a reset nothing of what came before can complete a sequence: output without a prefix
/// hands nothing on.
pub proof fn nothing_without_a_prefix(bytes: Seq<u8>)
    requires
        forall|at: int| !prefix_at(bytes, at),
    ensures
        scan(bytes).accepted.len() == 0,
{
    lemma_find_prefix(bytes, 0);
    if let Some(start) = find_prefix(bytes, 0) {
        lemma_prefix_starts(bytes, start);
    }
}

} // verus!
