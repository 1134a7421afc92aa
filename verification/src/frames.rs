//! What a Node sends: one JSON value to a line.

use vstd::prelude::*;
use vstd::slice::{slice_subrange, slice_to_vec};
use vstd::string::*;

use crate::error::{ClientError, Failure};
use crate::json::{json, json_read, jsons, parse, Json};

verus! {

/// The protocol that this client speaks.
pub const PROTOCOL_VERSION: u64 = 3;

/// The longest line that is taken from a Node or sent to one, in bytes.
pub const MAX_LINE_BYTES: usize = 8_388_608;

/// Where the next line ends; the length where no line feed stands.
pub open spec fn line_end(buffer: Seq<u8>, from: int) -> int
    decreases buffer.len() - from,
{
    if from >= buffer.len() {
        buffer.len() as int
    } else if buffer[from] == 10 {
        from
    } else {
        line_end(buffer, from + 1)
    }
}

/// What is made of the bytes that have arrived.
pub struct Drained {
    /// What the complete lines hold, up to the first that fails.
    pub frames: Seq<Json>,
    /// The bytes that are left.
    pub rest: Seq<u8>,
    pub failure: Option<Failure>,
}

/// Takes complete lines off the front. Empty lines are passed over. A line that is too long or
/// that is not JSON ends the reading, and so does an unterminated line that is too long.
pub open spec fn drained(buffer: Seq<u8>) -> Drained
    decreases buffer.len(),
{
    let end = line_end(buffer, 0);
    if !(0 <= end < buffer.len()) {
        if buffer.len() > MAX_LINE_BYTES {
            Drained {
                frames: seq![],
                rest: buffer,
                failure: Some(Failure::Protocol("unterminated line exceeds 8 MiB"@)),
            }
        } else {
            Drained { frames: seq![], rest: buffer, failure: None }
        }
    } else if end > MAX_LINE_BYTES {
        Drained {
            frames: seq![],
            rest: buffer,
            failure: Some(Failure::Protocol("line exceeds 8 MiB"@)),
        }
    } else if end == 0 {
        drained(buffer.skip(1))
    } else {
        match json_read(buffer.take(end)) {
            Some(frame) => {
                let later = drained(buffer.skip(end + 1));
                Drained { frames: seq![frame] + later.frames, ..later }
            },
            None => Drained {
                frames: seq![],
                rest: buffer.skip(end + 1),
                failure: Some(Failure::Protocol("malformed JSON from Neta Node"@)),
            },
        }
    }
}

fn find_newline(buffer: &[u8], from: usize) -> (end: usize)
    requires
        from <= buffer@.len(),
    ensures
        from <= end <= buffer@.len(),
        end == from + line_end(buffer@.skip(from as int), 0),
{
    let ghost rest = buffer@.skip(from as int);
    let mut at: usize = from;
    while at < buffer.len() && buffer[at] != 10
        invariant
            from <= at <= buffer@.len(),
            rest == buffer@.skip(from as int),
            line_end(rest, at - from) == line_end(rest, 0),
        decreases buffer@.len() - at,
    {
        at = at + 1;
    }
    at
}

/// Takes the complete lines out of the buffer and returns what they hold.
pub fn drain_frames(buffer: &mut Vec<u8>) -> (frames: Result<Vec<serde_json::Value>, ClientError>)
    ensures
        match frames {
            Ok(frames) => {
                &&& drained(old(buffer)@).failure is None
                &&& jsons(frames@) == drained(old(buffer)@).frames
            },
            Err(error) => drained(old(buffer)@).failure == Some(error@),
        },
        final(buffer)@ == drained(old(buffer)@).rest,
{
    let ghost whole = buffer@;
    let mut frames: Vec<serde_json::Value> = Vec::new();
    let mut at: usize = 0;
    assert(whole.skip(0) =~= whole);
    assert(jsons(frames@) + drained(whole).frames =~= drained(whole).frames);
    loop
        invariant
            buffer@ == whole,
            whole == old(buffer)@,
            at <= whole.len(),
            jsons(frames@) + drained(whole.skip(at as int)).frames == drained(whole).frames,
            drained(whole.skip(at as int)).rest == drained(whole).rest,
            drained(whole.skip(at as int)).failure == drained(whole).failure,
        decreases whole.len() - at,
    {
        let ghost rest = whole.skip(at as int);
        let end: usize = find_newline(buffer.as_slice(), at);
        let left: usize = buffer.len() - at;
        if end == buffer.len() {
            let kept = slice_to_vec(slice_subrange(buffer.as_slice(), at, buffer.len()));
            assert(kept@ =~= rest);
            *buffer = kept;
            if left > MAX_LINE_BYTES {
                return Err(ClientError::Protocol("unterminated line exceeds 8 MiB".to_owned()));
            }
            assert(jsons(frames@) + drained(rest).frames =~= jsons(frames@));
            return Ok(frames);
        }
        if end - at > MAX_LINE_BYTES {
            let kept = slice_to_vec(slice_subrange(buffer.as_slice(), at, buffer.len()));
            assert(kept@ =~= rest);
            *buffer = kept;
            return Err(ClientError::Protocol("line exceeds 8 MiB".to_owned()));
        }
        assert(rest.skip(end - at + 1) =~= whole.skip(end + 1));
        if end > at {
            let line = slice_subrange(buffer.as_slice(), at, end);
            assert(line@ =~= rest.take(end - at));
            match parse(line) {
                Some(frame) => {
                    let ghost before = frames@;
                    frames.push(frame);
                    assert(jsons(frames@) =~= jsons(before).push(json(frame)));
                    assert(jsons(before) + (seq![json(frame)] + drained(
                        whole.skip(end + 1),
                    ).frames) =~= jsons(frames@) + drained(whole.skip(end + 1)).frames);
                },
                None => {
                    let kept = slice_to_vec(
                        slice_subrange(buffer.as_slice(), end + 1, buffer.len()),
                    );
                    assert(kept@ =~= whole.skip(end + 1));
                    *buffer = kept;
                    return Err(ClientError::Protocol("malformed JSON from Neta Node".to_owned()));
                },
            }
        }
        at = end + 1;
    }
}

proof fn lemma_line_end(buffer: Seq<u8>, from: int)
    requires
        0 <= from <= buffer.len(),
    ensures
        from <= line_end(buffer, from) <= buffer.len(),
        forall|i: int| from <= i < line_end(buffer, from) ==> buffer[i] != 10,
        line_end(buffer, from) < buffer.len() ==> buffer[line_end(buffer, from)] == 10,
    decreases buffer.len() - from,
{
    if from < buffer.len() && buffer[from] != 10 {
        lemma_line_end(buffer, from + 1);
    }
}

proof fn lemma_line_end_is(buffer: Seq<u8>, end: int)
    requires
        0 <= end < buffer.len(),
        buffer[end] == 10,
        forall|i: int| 0 <= i < end ==> buffer[i] != 10,
    ensures
        line_end(buffer, 0) == end,
{
    lemma_line_end(buffer, 0);
}

/// Where the first fragment was read without failure, it makes no difference that the bytes came in
/// two fragments.
pub proof fn frames_join(first: Seq<u8>, second: Seq<u8>)
    requires
        drained(first).failure is None,
    ensures
        drained(first + second).frames == drained(first).frames + drained(
            drained(first).rest + second,
        ).frames,
        drained(first + second).rest == drained(drained(first).rest + second).rest,
        drained(first + second).failure == drained(drained(first).rest + second).failure,
    decreases first.len(),
{
    let all = first + second;
    lemma_line_end(first, 0);
    let end = line_end(first, 0);
    if end == first.len() {
        assert(drained(first).frames + drained(all).frames =~= drained(all).frames);
    } else {
        assert forall|i: int| 0 <= i < end implies all[i] != 10 by {
            assert(all[i] == first[i]);
        }
        lemma_line_end_is(all, end);
        let rest = first.skip(end + 1);
        assert(all.skip(end + 1) =~= rest + second);
        assert(all.take(end) =~= first.take(end));
        if end == 0 {
            frames_join(first.skip(1), second);
        } else {
            frames_join(rest, second);
            assert(drained(all).frames =~= drained(first).frames + drained(
                drained(first).rest + second,
            ).frames);
        }
    }
}

/// What is kept after a reading without failure is an unterminated line of bounded length.
pub proof fn kept_is_a_bounded_line(buffer: Seq<u8>)
    requires
        drained(buffer).failure is None,
    ensures
        drained(buffer).rest.len() <= MAX_LINE_BYTES,
        forall|i: int| 0 <= i < drained(buffer).rest.len() ==> drained(buffer).rest[i] != 10,
    decreases buffer.len(),
{
    lemma_line_end(buffer, 0);
    let end = line_end(buffer, 0);
    if end < buffer.len() {
        if end == 0 {
            kept_is_a_bounded_line(buffer.skip(1));
        } else {
            kept_is_a_bounded_line(buffer.skip(end + 1));
        }
    }
}

} // verus!
