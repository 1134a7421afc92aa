//! What holds of texts: of their order, of their pieces, of what is cut from them, and of the
//! clipboard writes that stand in the output of a pane.

use vstd::prelude::*;
use vstd::string::*;
use vstd::utf8::*;

use crate::clipboard::{
    base64_byte, find_prefix, find_terminator, only_clipboard_writes, partial_prefix,
    prefix, prefix_at, scan, terminator_at, write_body,
};
use crate::labels::{clipped, tail_of, waits_for_person};
use crate::paths::{absolute, components, counted, file_name_of, joined};
use crate::order::{after, in_order, inserted, sorted, text_before};
use crate::protocol::{label_of, started_of};
use crate::seqs::first_is_position;
use crate::spine::day_of;
use crate::text::{
    blank, byte_slice, control, index_from, lines_of, pieces, trim_end, trim_start, trimmed,
    white_space, without_return,
};

verus! {

/// Of two texts, the one stands first that has the smaller character where they first differ; one that
/// goes on stands behind its own beginning.
pub proof fn texts_are_ordered_by_their_first_difference(
    common: Seq<char>,
    left: Seq<char>,
    right: Seq<char>,
)
    ensures
        left.len() > 0 && right.len() > 0 && left[0] < right[0] ==> text_before(
            common + left,
            common + right,
        ) && !text_before(common + right, common + left),
        right.len() > 0 ==> text_before(common, common + right) && !text_before(
            common + right,
            common,
        ),
        !text_before(common, common),
    decreases common.len(),
{
    if common.len() == 0 {
        assert(common + left =~= left);
        assert(common + right =~= right);
    } else {
        let rest = common.drop_first();
        texts_are_ordered_by_their_first_difference(rest, left, right);
        assert((common + left).drop_first() =~= rest + left);
        assert((common + right).drop_first() =~= rest + right);
    }
}

/// What is in order already stays as it is: of elements that are alike, none changes its place.
pub proof fn what_is_in_order_stays<T>(list: Seq<T>, before: spec_fn(T, T) -> bool)
    requires
        in_order(list, before),
    ensures
        sorted(list, before) == list,
    decreases list.len(),
{
    if list.len() > 0 {
        let rest = list.drop_last();
        let item = list.last();
        assert forall|i: int, j: int| 0 <= i < j < rest.len() implies !before(
            #[trigger] rest[j],
            #[trigger] rest[i],
        ) by {
            assert(rest[i] == list[i] && rest[j] == list[j]);
        }
        what_is_in_order_stays(rest, before);
        assert forall|i: int| 0 <= i < rest.len() implies !#[trigger] after(before, item)(rest[i]) by {
            assert(rest[i] == list[i]);
            assert(item == list[list.len() - 1]);
        }
        first_is_position(rest, after(before, item), 0, rest.len() as int);
        assert(inserted(rest, before, item) =~= list);
    }
}

proof fn lemma_trim_start(text: Seq<char>) -> (lead: Seq<char>)
    ensures
        blank(lead),
        text == lead + trim_start(text),
        trim_start(text).len() > 0 ==> !white_space(trim_start(text)[0]),
    decreases text.len(),
{
    if text.len() > 0 && white_space(text[0]) {
        let lead = lemma_trim_start(text.drop_first());
        let whole = seq![text[0]] + lead;
        assert(text =~= seq![text[0]] + text.drop_first());
        assert(text =~= whole + trim_start(text));
        whole
    } else {
        assert(text =~= seq![] + text);
        seq![]
    }
}

proof fn lemma_trim_end(text: Seq<char>) -> (tail: Seq<char>)
    ensures
        blank(tail),
        text == trim_end(text) + tail,
        trim_end(text).len() > 0 ==> !white_space(trim_end(text).last()),
        trim_end(text).len() > 0 ==> trim_end(text)[0] == text[0],
    decreases text.len(),
{
    if text.len() > 0 && white_space(text.last()) {
        let tail = lemma_trim_end(text.drop_last());
        let whole = tail.push(text.last());
        assert(text =~= text.drop_last().push(text.last()));
        assert(text =~= trim_end(text) + whole);
        whole
    } else {
        assert(text =~= text + seq![]);
        seq![]
    }
}

/// Trimming takes nothing but white space away, and takes all of it away from both ends.
pub proof fn trimming_takes_white_space_from_both_ends(text: Seq<char>)
    ensures
        exists|lead: Seq<char>, tail: Seq<char>|
            blank(lead) && blank(tail) && text == #[trigger] (lead + trimmed(text) + tail),
        trimmed(text).len() > 0 ==> !white_space(trimmed(text)[0]) && !white_space(
            trimmed(text).last(),
        ),
{
    let lead = lemma_trim_start(text);
    let tail = lemma_trim_end(trim_start(text));
    assert(text =~= lead + trimmed(text) + tail);
}

/// Of the characters below the first hundred and twenty-eight, the space and those from the tabulator
/// to the carriage return are white space; the first thirty-two and the last are control characters.
pub proof fn plain_white_space_and_controls(c: char)
    requires
        c <= '\u{7f}',
    ensures
        white_space(c) <==> c == ' ' || '\t' <= c <= '\r',
        control(c) <==> c < ' ' || c == '\u{7f}',
{
}

/// Texts, one behind the other, with a character between each two.
pub open spec fn put_together(parts: Seq<Seq<char>>, c: char) -> Seq<char>
    decreases parts.len(),
{
    if parts.len() == 0 {
        seq![]
    } else if parts.len() == 1 {
        parts[0]
    } else {
        parts[0].push(c) + put_together(parts.drop_first(), c)
    }
}

proof fn lemma_index_from(text: Seq<char>, c: char, from: int)
    requires
        0 <= from <= text.len(),
    ensures
        from <= index_from(text, c, from) <= text.len(),
        index_from(text, c, from) < text.len() ==> text[index_from(text, c, from)] == c,
        forall|i: int| from <= i < index_from(text, c, from) ==> #[trigger] text[i] != c,
    decreases text.len() - from,
{
    if from < text.len() && text[from] != c {
        lemma_index_from(text, c, from + 1);
    }
}

proof fn lemma_index_is(text: Seq<char>, c: char, from: int, at: int)
    requires
        0 <= from <= at <= text.len(),
        at < text.len() ==> text[at] == c,
        forall|i: int| from <= i < at ==> #[trigger] text[i] != c,
    ensures
        index_from(text, c, from) == at,
    decreases at - from,
{
    if from < at {
        lemma_index_is(text, c, from + 1, at);
    }
}

/// The pieces of a text, put together again with what they were cut at, are the text, and none of them
/// holds it.
pub proof fn pieces_make_up_the_text(text: Seq<char>, c: char)
    ensures
        put_together(pieces(text, c), c) == text,
        pieces(text, c).len() > 0,
        forall|i: int| 0 <= i < pieces(text, c).len() ==> !(#[trigger] pieces(text, c)[i]).contains(c),
    decreases text.len(),
{
    lemma_index_from(text, c, 0);
    let at = index_from(text, c, 0);
    if at < text.len() {
        let rest = text.skip(at + 1);
        pieces_make_up_the_text(rest, c);
        let all = pieces(text, c);
        assert(all.drop_first() =~= pieces(rest, c));
        assert(all[0] == text.take(at));
        assert(text =~= text.take(at).push(c) + rest);
        assert forall|i: int| 0 <= i < all.len() implies !(#[trigger] all[i]).contains(c) by {
            if i > 0 {
                assert(all[i] == pieces(rest, c)[i - 1]);
            }
        }
    }
}

proof fn lemma_pieces_append(front: Seq<char>, name: Seq<char>, c: char)
    requires
        !name.contains(c),
    ensures
        pieces(front.push(c) + name, c) == pieces(front, c).push(name),
    decreases front.len(),
{
    let whole = front.push(c) + name;
    lemma_index_from(front, c, 0);
    let at = index_from(front, c, 0);
    assert forall|i: int| 0 <= i < at implies #[trigger] whole[i] != c by {
        assert(whole[i] == front[i]);
    }
    if at < front.len() {
        assert(whole[at] == front[at]);
    }
    lemma_index_is(whole, c, 0, at);
    assert(whole.take(at) =~= front.take(at));
    if at < front.len() {
        let rest = front.skip(at + 1);
        lemma_pieces_append(rest, name, c);
        assert(whole.skip(at + 1) =~= rest.push(c) + name);
        assert(pieces(whole, c) =~= seq![front.take(at)] + pieces(rest, c).push(name));
    } else {
        assert forall|i: int| 0 <= i < name.len() implies #[trigger] name[i] != c by {
            assert(name.contains(name[i]));
        }
        lemma_index_is(name, c, 0, name.len() as int);
        assert(whole.skip(at + 1) =~= name);
        assert(whole.take(at) =~= front);
        assert(pieces(name, c) == seq![name]);
        assert(pieces(whole, c) == seq![front] + pieces(name, c));
        assert(pieces(whole, c) =~= seq![front].push(name));
    }
}

proof fn lemma_counted_append(parts: Seq<Seq<char>>, last: Seq<char>, leading: bool)
    requires
        parts.len() > 0,
    ensures
        counted(parts.push(last), leading) == counted(parts, leading) + (if last.len() > 0 && last
            != "."@ {
            seq![last]
        } else {
            seq![]
        }),
    decreases parts.len(),
{
    let all = parts.push(last);
    let rest = parts.drop_first();
    assert(all.drop_first() =~= rest.push(last));
    if rest.len() > 0 {
        lemma_counted_append(rest, last, false);
    } else {
        assert(rest.push(last) =~= seq![last]);
        assert(seq![last].drop_first() =~= seq![]);
        assert(counted(seq![], false) =~= seq![]);
        assert(counted(rest, false) =~= seq![]);
        reveal_with_fuel(counted, 3);
    }
    assert(counted(all, leading) =~= counted(parts, leading) + (if last.len() > 0 && last != "."@ {
        seq![last]
    } else {
        seq![]
    }));
}

/// A name that is put below a path is one more part of it, and its last: the path is otherwise the
/// same. A separator, or a dot, at the end of a path makes no difference.
pub proof fn a_name_is_one_more_part_of_a_path(base: Seq<char>, name: Seq<char>)
    requires
        base.len() > 0,
        !name.contains('/'),
    ensures
        components(joined(base, name)).0 == components(base).0,
        name.len() > 0 && name != "."@ ==> components(joined(base, name)).1 == components(
            base,
        ).1.push(name),
        name.len() == 0 || name == "."@ ==> components(joined(base, name)) == components(base),
        name.len() > 0 && name != "."@ && name != ".."@ ==> file_name_of(joined(base, name)) == Some(
            name,
        ),
        components(base.push('/')) == components(base),
{
    reveal_strlit("/");
    assert("/"@ =~= seq!['/']);
    assert(!absolute(name)) by {
        if absolute(name) {
            assert(name.contains(name[0]));
        }
    }
    let leading = !absolute(base);
    let none: Seq<char> = seq![];
    lemma_pieces_append(base, none, '/');
    assert(base.push('/') + none =~= base.push('/'));
    pieces_make_up_the_text(base, '/');
    lemma_counted_append(pieces(base, '/'), none, leading);
    assert(counted(pieces(base.push('/'), '/'), leading) =~= counted(pieces(base, '/'), leading));
    assert(base.push('/')[0] == base[0]);
    let whole = joined(base, name);
    if base.last() == '/' {
        let front = base.drop_last();
        assert(base =~= front.push('/'));
        lemma_pieces_append(front, name, '/');
        lemma_pieces_append(front, none, '/');
        assert(front.push('/') + none =~= base);
        pieces_make_up_the_text(front, '/');
        lemma_counted_append(pieces(front, '/'), name, leading);
        lemma_counted_append(pieces(front, '/'), none, leading);
        assert(whole =~= front.push('/') + name);
    } else {
        lemma_pieces_append(base, name, '/');
        lemma_counted_append(pieces(base, '/'), name, leading);
        assert(whole =~= base.push('/') + name);
    }
    assert(whole[0] == base[0]);
    let parts = components(whole).1;
    if name.len() > 0 && name != "."@ {
        assert(parts =~= components(base).1.push(name));
    } else {
        assert(parts =~= components(base).1);
    }
}

/// A line that ends with a line feed, with or without a carriage return before it, is the first line
/// of what follows it too; a last line need not end with one.
pub proof fn lines_end_with_line_feeds(line: Seq<char>, rest: Seq<char>)
    requires
        !line.contains('\n'),
    ensures
        line.len() == 0 || line.last() != '\r' ==> lines_of(line.push('\n') + rest) == seq![line]
            + lines_of(rest),
        lines_of(line.push('\r').push('\n') + rest) == seq![line] + lines_of(rest),
        line.len() > 0 ==> lines_of(line) == seq![line],
        lines_of(seq![]) == Seq::<Seq<char>>::empty(),
{
    assert forall|i: int| 0 <= i < line.len() implies #[trigger] line[i] != '\n' by {
        assert(line.contains(line[i]));
    }
    let n: int = line.len() as int;
    let plain = line.push('\n') + rest;
    lemma_index_is(plain, '\n', 0, n);
    assert(plain.take(n) =~= line);
    assert(plain.skip(n + 1) =~= rest);
    let both = line.push('\r').push('\n') + rest;
    lemma_index_is(both, '\n', 0, n + 1);
    assert(both.take(n + 1) =~= line.push('\r'));
    assert(both.skip(n + 2) =~= rest);
    assert(without_return(line.push('\r')) =~= line);
    lemma_index_is(line, '\n', 0, n);
}

proof fn lemma_ascii_decode(text: Seq<char>, from: int, to: int)
    requires
        is_ascii_chars(text),
        0 <= from <= to <= text.len(),
    ensures
        is_char_boundary(encode_utf8(text), from),
        decode_utf8(encode_utf8(text).subrange(from, to)) == text.subrange(from, to),
{
    let bytes = encode_utf8(text);
    encode_utf8_valid_utf8(text);
    is_ascii_chars_encode_utf8(text);
    if from < text.len() {
        assert(text[from] <= '\u{7f}');
        assert(bytes[from] == text[from] as u8);
        is_char_boundary_iff_not_is_continuation_byte(bytes, from);
    } else {
        is_char_boundary_start_end_of_seq(bytes);
    }
    let part = text.subrange(from, to);
    is_ascii_chars_encode_utf8(part);
    assert forall|i: int| 0 <= i < part.len() implies #[trigger] encode_utf8(part)[i]
        == bytes.subrange(from, to)[i] by {
        assert(part[i] == text[from + i]);
        assert(bytes[from + i] == text[from + i] as u8);
    }
    assert(encode_utf8(part) =~= bytes.subrange(from, to));
    encode_utf8_decode_utf8(part);
}

/// In a text of plain characters, byte offsets count characters.
pub proof fn plain_texts_are_cut_at_characters(text: Seq<char>, from: int, to: int)
    requires
        is_ascii_chars(text),
        0 <= from <= to,
    ensures
        byte_slice(text, from, to) == (if to <= text.len() {
            Some(text.subrange(from, to))
        } else {
            None
        }),
{
    encode_utf8_valid_utf8(text);
    is_ascii_chars_encode_utf8(text);
    if to <= text.len() {
        lemma_ascii_decode(text, from, to);
        lemma_ascii_decode(text, to, to);
    } else {
        reveal_with_fuel(is_char_boundary, 2);
    }
}

/// Of a time stamp `dayThh:mm…`, the day is what stands before the sign between them, and the time is
/// the five characters behind it.
pub proof fn time_stamps_hold_a_day_and_a_time(
    day: Seq<char>,
    sign: char,
    time: Seq<char>,
    rest: Seq<char>,
)
    requires
        day.len() == 10,
        time.len() == 5,
        is_ascii_chars(day.push(sign) + time + rest),
    ensures
        day_of(day.push(sign) + time + rest) == day,
        started_of(day.push(sign) + time + rest) == time,
        started_of(day) == "--:--"@,
        day_of(time) == time,
{
    let stamp = day.push(sign) + time + rest;
    plain_texts_are_cut_at_characters(stamp, 0, 10);
    plain_texts_are_cut_at_characters(stamp, 11, 16);
    assert(stamp.subrange(0, 10) =~= day);
    assert(stamp.subrange(11, 16) =~= time);
    assert forall|i: int| 0 <= i < day.len() implies '\0' <= #[trigger] day[i] <= '\u{7f}' by {
        assert(stamp[i] == day[i]);
    }
    assert forall|i: int| 0 <= i < time.len() implies '\0' <= #[trigger] time[i] <= '\u{7f}' by {
        assert(stamp[11 + i] == time[i]);
    }
    plain_texts_are_cut_at_characters(day, 11, 16);
    plain_texts_are_cut_at_characters(time, 0, 10);
}

/// A text that has to be cut fills its width: its beginning stays, and the ellipsis stands last.
pub proof fn cut_texts_keep_their_beginning(label: Seq<char>, width: nat)
    requires
        0 < width < label.len(),
    ensures
        clipped(label, width).len() == width,
        clipped(label, width).last() == '…',
        forall|i: int| 0 <= i < width - 1 ==> #[trigger] clipped(label, width)[i] == label[i],
        clipped(label, 0).len() == 0,
{
}

/// Of a text that is too long for a field its end stays, and the ellipsis stands first.
pub proof fn long_entries_keep_their_end(value: Seq<char>, width: nat)
    requires
        0 < width < value.len(),
    ensures
        tail_of(value, width).len() == width,
        tail_of(value, width)[0] == '…',
        forall|i: int|
            1 <= i < width ==> #[trigger] tail_of(value, width)[i] == value[value.len() - width + i],
        tail_of(value, value.len()) == value,
{
    reveal_strlit("…");
}

/// The states that have a word of their own, with that word. The first four wait for a person.
pub open spec fn state_words() -> Seq<(Seq<char>, Seq<char>)> {
    seq![
        ("blocked"@, "NEEDS YOU"@),
        ("failed"@, "FAILED"@),
        ("readyToClose"@, "READY"@),
        ("mergedNotClosed"@, "MERGED"@),
        ("closed"@, "DONE"@),
        ("completed"@, "DONE"@),
        ("archived"@, "DONE"@),
        ("idle"@, "IDLE"@),
    ]
}

/// What a state is called: each of a few by a word of its own, every other one as running. A mission
/// waits for a person in four of them, and in no other.
pub proof fn states_are_called_by_their_words(state: Seq<char>)
    ensures
        forall|i: int|
            0 <= i < state_words().len() && (#[trigger] state_words()[i]).0 == state ==> label_of(
                state,
            ) == state_words()[i].1 && (waits_for_person(state) <==> i < 4),
        (forall|i: int| 0 <= i < state_words().len() ==> (#[trigger] state_words()[i]).0 != state)
            ==> label_of(state) == "RUNNING"@ && !waits_for_person(state),
{
    reveal_strlit("blocked");
    reveal_strlit("failed");
    reveal_strlit("readyToClose");
    reveal_strlit("mergedNotClosed");
    reveal_strlit("closed");
    reveal_strlit("completed");
    reveal_strlit("archived");
    reveal_strlit("idle");
    assert("blocked"@.len() == 7);
    assert("failed"@.len() == 6 && "failed"@[0] == 'f');
    assert("readyToClose"@.len() == 12);
    assert("mergedNotClosed"@.len() == 15);
    assert("closed"@.len() == 6 && "closed"@[0] == 'c');
    assert("completed"@.len() == 9);
    assert("archived"@.len() == 8);
    assert("idle"@.len() == 4);
    let words = state_words();
    assert forall|i: int| 0 <= i < words.len() && (#[trigger] words[i]).0 == state implies label_of(
        state,
    ) == words[i].1 && (waits_for_person(state) <==> i < 4) by {
        if i == 0 {
            assert(words[0] == ("blocked"@, "NEEDS YOU"@));
        } else if i == 1 {
            assert(words[1] == ("failed"@, "FAILED"@));
        } else if i == 2 {
            assert(words[2] == ("readyToClose"@, "READY"@));
        } else if i == 3 {
            assert(words[3] == ("mergedNotClosed"@, "MERGED"@));
        } else if i == 4 {
            assert(words[4] == ("closed"@, "DONE"@));
        } else if i == 5 {
            assert(words[5] == ("completed"@, "DONE"@));
        } else if i == 6 {
            assert(words[6] == ("archived"@, "DONE"@));
        } else {
            assert(words[7] == ("idle"@, "IDLE"@));
        }
    }
    if forall|i: int| 0 <= i < words.len() ==> (#[trigger] words[i]).0 != state {
        assert(words[0].0 != state && words[1].0 != state && words[2].0 != state && words[3].0
            != state);
        assert(words[4].0 != state && words[5].0 != state && words[6].0 != state && words[7].0
            != state);
    }
}

/// The bytes that announce a clipboard write.
pub open spec fn announced() -> Seq<char> {
    "\u{1b}]52;c;"@
}

/// Whether bytes are the plain characters of a text.
pub open spec fn spells(bytes: Seq<u8>, text: Seq<char>) -> bool {
    bytes.len() == text.len() && forall|i: int|
        0 <= i < bytes.len() ==> #[trigger] bytes[i] as int == text[i] as int
}

/// A character that base64 is written with.
pub open spec fn is_base64(byte: u8) -> bool {
    let c = byte as char;
    'A' <= c <= 'Z' || 'a' <= c <= 'z' || '0' <= c <= '9' || c == '+' || c == '/' || c == '='
}

/// A payload that a clipboard write can carry.
pub open spec fn is_payload(payload: Seq<u8>) -> bool {
    0 < payload.len() <= 100_000 && forall|i: int|
        0 <= i < payload.len() ==> is_base64(#[trigger] payload[i])
}

/// One of the two ways in which a control sequence ends.
pub open spec fn is_end(end: Seq<u8>) -> bool {
    spells(end, "\u{7}"@) || spells(end, "\u{1b}\\"@)
}

/// Whatever is handed on to the terminal announces a clipboard write, carries a payload in base64 of
/// at most a hundred thousand bytes, and ends there.
pub proof fn only_base64_reaches_the_clipboard(bytes: Seq<u8>, index: int)
    requires
        0 <= index < scan(bytes).accepted.len(),
    ensures
        exists|head: Seq<u8>, payload: Seq<u8>, end: Seq<u8>|
            spells(head, announced()) && is_payload(payload) && is_end(end) && scan(
                bytes,
            ).accepted[index] == #[trigger] (head + payload + end),
{
    only_clipboard_writes(bytes, index);
    let sequence = scan(bytes).accepted[index];
    let end = find_terminator(sequence, 5)->0;
    lemma_terminator_place(sequence, 5);
    let body = sequence.subrange(5, end);
    let head = sequence.take(7);
    let payload = sequence.subrange(7, end);
    let last = sequence.skip(end);
    reveal_strlit("\u{1b}]52;c;");
    reveal_strlit("\u{7}");
    reveal_strlit("\u{1b}\\");
    assert(sequence.subrange(0, 5) =~= prefix());
    assert forall|i: int| 0 <= i < 5 implies #[trigger] sequence[i] == prefix()[i] by {
        assert(sequence.subrange(0, 5)[i] == sequence[i]);
    }
    assert(body[0] == sequence[5] && body[1] == sequence[6]);
    assert(sequence[0] == 0x1b && sequence[1] == 0x5d && sequence[2] == 0x35 && sequence[3] == 0x32
        && sequence[4] == 0x3b);
    assert forall|i: int| 0 <= i < payload.len() implies is_base64(#[trigger] payload[i]) by {
        assert(body[i + 2] == payload[i]);
        assert(base64_byte(body[i + 2]));
    }
    assert(last.len() == terminator_at(sequence, end));
    assert(last[0] == sequence[end]);
    if last.len() == 2 {
        assert(last[1] == sequence[end + 1]);
    }
    assert(sequence =~= head + payload + last);
}

proof fn lemma_terminator_place(bytes: Seq<u8>, from: int)
    requires
        0 <= from,
        find_terminator(bytes, from) is Some,
    ensures
        from <= find_terminator(bytes, from)->0 < bytes.len(),
        terminator_at(bytes, find_terminator(bytes, from)->0) > 0,
    decreases bytes.len() - from,
{
    if from < bytes.len() && terminator_at(bytes, from) <= 0 {
        lemma_terminator_place(bytes, from + 1);
    }
}

proof fn lemma_first_terminator(bytes: Seq<u8>, from: int, end: int)
    requires
        0 <= from <= end < bytes.len(),
        terminator_at(bytes, end) > 0,
        forall|i: int| from <= i < end ==> #[trigger] terminator_at(bytes, i) == 0,
    ensures
        find_terminator(bytes, from) == Some(end),
    decreases end - from,
{
    if from < end {
        assert(terminator_at(bytes, from) == 0);
        lemma_first_terminator(bytes, from + 1, end);
    }
}

/// A clipboard write that a pane emits is handed on as it is, and nothing of it is kept.
pub proof fn a_clipboard_write_is_handed_on(head: Seq<u8>, payload: Seq<u8>, end: Seq<u8>)
    requires
        spells(head, announced()),
        is_payload(payload),
        is_end(end),
    ensures
        scan(head + payload + end).accepted == seq![head + payload + end],
        scan(head + payload + end).kept.len() == 0,
{
    let bytes = head + payload + end;
    let stop: int = (head + payload).len() as int;
    reveal_strlit("\u{1b}]52;c;");
    reveal_strlit("\u{7}");
    reveal_strlit("\u{1b}\\");
    assert(head.len() == 7);
    assert(head[0] == 0x1b && head[1] == 0x5d && head[2] == 0x35 && head[3] == 0x32 && head[4]
        == 0x3b && head[5] == 0x63 && head[6] == 0x3b);
    assert(bytes.subrange(0, 5) =~= prefix());
    assert(prefix_at(bytes, 0));
    assert(find_prefix(bytes, 0) == Some(0int));
    assert(end[0] == 7 || (end[0] == 27 && end[1] == 0x5c));
    assert(bytes[stop] == end[0]);
    if end.len() == 2 {
        assert(bytes[stop + 1] == end[1]);
    }
    assert forall|i: int| 5 <= i < stop implies #[trigger] terminator_at(bytes, i) == 0 by {
        if i >= 7 {
            assert(bytes[i] == payload[i - 7]);
            assert(is_base64(payload[i - 7]));
        }
    }
    lemma_first_terminator(bytes, 5, stop);
    let body = bytes.subrange(5, stop);
    assert forall|i: int| 2 <= i < body.len() implies base64_byte(#[trigger] body[i]) by {
        assert(body[i] == payload[i - 2]);
        assert(is_base64(payload[i - 2]));
    }
    assert(write_body(body));
    assert(bytes.subrange(0, bytes.len() as int) =~= bytes);
    let rest = bytes.skip(bytes.len() as int);
    assert(rest =~= seq![]);
    assert(find_prefix(rest, 0) is None);
    reveal_with_fuel(partial_prefix, 5);
    assert(scan(rest).accepted =~= seq![] && scan(rest).kept =~= seq![]);
    assert(scan(bytes).accepted =~= seq![bytes]);
}

} // verus!
