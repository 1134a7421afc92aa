//! Text as sequences of characters: the few operations on strings that the rest of the crate
//! needs, each stated over the characters that the string holds.

use vstd::prelude::*;
use vstd::slice::slice_subrange;
use vstd::string::*;
use vstd::utf8::*;

verus! {

/// `String::push` puts one character behind those that are there.
pub assume_specification[ String::push ](text: &mut String, c: char)
    ensures
        final(text)@ == old(text)@.push(c),
;

/// The characters of a string, one element each.
pub fn chars_of(text: &str) -> (chars: Vec<char>)
    ensures
        chars@ == text@,
{
    let mut chars: Vec<char> = Vec::new();
    for c in it: text.chars()
        invariant
            chars@ == it.seq().take(it.index() as int),
            it.seq() == text@,
    {
        chars.push(c);
    }
    chars
}

/// The string that holds the given characters.
pub fn from_chars(chars: &[char]) -> (text: String)
    ensures
        text@ == chars@,
{
    let mut text = String::new();
    let mut at: usize = 0;
    while at < chars.len()
        invariant
            at <= chars@.len(),
            text@ == chars@.take(at as int),
        decreases chars@.len() - at,
    {
        text.push(chars[at]);
        at = at + 1;
    }
    text
}

/// What `String::from_utf8_lossy` makes of bytes.
pub uninterp spec fn lossy_text(bytes: Seq<u8>) -> Seq<char>;

/// `String::from_utf8_lossy`: the text that the bytes encode; where they are no UTF-8, a text with
/// replacement characters, which is a function of the bytes.
#[verifier::external_body]
pub(crate) fn lossy(bytes: &[u8]) -> (text: String)
    ensures
        text@ == lossy_text(bytes@),
        valid_utf8(bytes@) ==> text@ == decode_utf8(bytes@),
{
    String::from_utf8_lossy(bytes).into_owned()
}

/// A text in lower case, as `str::to_lowercase` has it.
pub uninterp spec fn lower_case(text: Seq<char>) -> Seq<char>;

/// `str::to_lowercase`: its result is a function of the text.
#[verifier::external_body]
pub(crate) fn to_lower_case(text: &str) -> (lower: String)
    ensures
        lower@ == lower_case(text@),
{
    text.to_lowercase()
}

/// A text in upper case, as `str::to_uppercase` has it.
pub uninterp spec fn upper_case(text: Seq<char>) -> Seq<char>;

/// `str::to_uppercase`: its result is a function of the text.
#[verifier::external_body]
pub(crate) fn to_upper_case(text: &str) -> (upper: String)
    ensures
        upper@ == upper_case(text@),
{
    text.to_uppercase()
}

/// Texts with the same bytes hold the same characters.
pub proof fn encoding_is_injective(left: Seq<char>, right: Seq<char>)
    ensures
        encode_utf8(left) == encode_utf8(right) <==> left == right,
{
    encode_utf8_decode_utf8(left);
    encode_utf8_decode_utf8(right);
}

/// Whether two strings hold the same characters.
pub fn same_text(left: &str, right: &str) -> (same: bool)
    ensures
        same == (left@ == right@),
{
    let a = left.as_bytes();
    let b = right.as_bytes();
    proof {
        encoding_is_injective(left@, right@);
    }
    if a.len() != b.len() {
        return false;
    }
    let mut at: usize = 0;
    while at < a.len()
        invariant
            at <= a@.len() == b@.len(),
            forall|i: int| 0 <= i < at ==> a@[i] == b@[i],
            a@ == encode_utf8(left@),
            b@ == encode_utf8(right@),
            encode_utf8(left@) == encode_utf8(right@) <==> left@ == right@,
        decreases a@.len() - at,
    {
        if a[at] != b[at] {
            return false;
        }
        at = at + 1;
    }
    assert(a@ =~= b@);
    true
}

/// Whether two optional strings are both absent, or hold the same characters.
pub fn same_optional(left: &Option<String>, right: &Option<String>) -> (same: bool)
    ensures
        same == (optional(*left) == optional(*right)),
{
    match (left, right) {
        (None, None) => true,
        (Some(a), Some(b)) => same_text(a, b),
        _ => false,
    }
}

/// The characters of an optional string.
pub open spec fn optional(text: Option<String>) -> Option<Seq<char>> {
    match text {
        Some(text) => Some(text@),
        None => None,
    }
}

/// The characters of each string of a list.
pub open spec fn texts(list: Seq<String>) -> Seq<Seq<char>> {
    list.map_values(|item: String| item@)
}

/// A copy of a list of strings.
pub fn clone_texts(list: &Vec<String>) -> (copy: Vec<String>)
    ensures
        copy@ == list@,
{
    let mut copy: Vec<String> = Vec::new();
    let mut at: usize = 0;
    while at < list.len()
        invariant
            at <= list@.len(),
            copy@ == list@.take(at as int),
        decreases list@.len() - at,
    {
        copy.push(list[at].clone());
        at = at + 1;
    }
    assert(list@.take(at as int) =~= list@);
    copy
}

/// A copy of an optional string.
pub fn clone_optional(text: &Option<String>) -> (copy: Option<String>)
    ensures
        copy == *text,
{
    match text {
        Some(text) => Some(text.clone()),
        None => None,
    }
}

/// Two strings, one behind the other.
pub fn concat2(a: &str, b: &str) -> (text: String)
    ensures
        text@ == a@ + b@,
{
    let mut text = a.to_owned();
    text.append(b);
    text
}

/// Three strings, one behind the other.
pub fn concat3(a: &str, b: &str, c: &str) -> (text: String)
    ensures
        text@ == a@ + b@ + c@,
{
    let mut text = a.to_owned();
    text.append(b);
    text.append(c);
    text
}

/// Four strings, one behind the other.
pub fn concat4(a: &str, b: &str, c: &str, d: &str) -> (text: String)
    ensures
        text@ == a@ + b@ + c@ + d@,
{
    let mut text = a.to_owned();
    text.append(b);
    text.append(c);
    text.append(d);
    text
}

/// The characters with Unicode's `White_Space` property.
pub open spec fn white_space(c: char) -> bool {
    0x9 <= c <= 0xd || c == 0x20 || c == 0x85 || c == 0xa0 || c == 0x1680 || 0x2000 <= c <= 0x200a
        || c == 0x2028 || c == 0x2029 || c == 0x202f || c == 0x205f || c == 0x3000
}

/// Whether a character is white space.
pub fn is_white_space(c: char) -> (white: bool)
    ensures
        white == white_space(c),
{
    let code: u32 = c as u32;
    (0x9 <= code && code <= 0xd) || code == 0x20 || code == 0x85 || code == 0xa0 || code == 0x1680
        || (0x2000 <= code && code <= 0x200a) || code == 0x2028 || code == 0x2029 || code == 0x202f
        || code == 0x205f || code == 0x3000
}

/// The characters of Unicode's control category.
pub open spec fn control(c: char) -> bool {
    c <= 0x1f || 0x7f <= c <= 0x9f
}

/// Whether a character is a control character.
pub fn is_control(c: char) -> (yes: bool)
    ensures
        yes == control(c),
{
    let code: u32 = c as u32;
    code <= 0x1f || (0x7f <= code && code <= 0x9f)
}

/// Whether a text holds a control character.
pub fn has_control(text: &str) -> (found: bool)
    ensures
        found == exists|i: int| 0 <= i < text@.len() && control(#[trigger] text@[i]),
{
    let chars = chars_of(text);
    let mut at: usize = 0;
    while at < chars.len()
        invariant
            at <= chars@.len(),
            chars@ == text@,
            forall|i: int| 0 <= i < at ==> !control(#[trigger] text@[i]),
        decreases chars@.len() - at,
    {
        if is_control(chars[at]) {
            assert(control(text@[at as int]));
            return true;
        }
        at = at + 1;
    }
    false
}

/// Whether a text holds nothing but white space.
pub open spec fn blank(text: Seq<char>) -> bool {
    forall|i: int| 0 <= i < text.len() ==> white_space(#[trigger] text[i])
}

/// Whether a text holds nothing but white space.
pub fn is_blank(text: &str) -> (yes: bool)
    ensures
        yes == blank(text@),
{
    let chars = chars_of(text);
    let mut at: usize = 0;
    while at < chars.len()
        invariant
            at <= chars@.len(),
            chars@ == text@,
            forall|i: int| 0 <= i < at ==> white_space(#[trigger] text@[i]),
        decreases chars@.len() - at,
    {
        if !is_white_space(chars[at]) {
            assert(!white_space(text@[at as int]));
            return false;
        }
        at = at + 1;
    }
    true
}

/// A text without the white space at its start.
pub open spec fn trim_start(text: Seq<char>) -> Seq<char>
    decreases text.len(),
{
    if text.len() > 0 && white_space(text[0]) {
        trim_start(text.drop_first())
    } else {
        text
    }
}

/// A text without the white space at its end.
pub open spec fn trim_end(text: Seq<char>) -> Seq<char>
    decreases text.len(),
{
    if text.len() > 0 && white_space(text.last()) {
        trim_end(text.drop_last())
    } else {
        text
    }
}

/// A text without the white space at either end.
pub open spec fn trimmed(text: Seq<char>) -> Seq<char> {
    trim_end(trim_start(text))
}

/// A text without the white space at either end.
pub fn trim(text: &str) -> (rest: String)
    ensures
        rest@ == trimmed(text@),
{
    let chars = chars_of(text);
    let mut from: usize = 0;
    assert(chars@.skip(0) =~= text@);
    while from < chars.len() && is_white_space(chars[from])
        invariant
            from <= chars@.len(),
            trim_start(chars@.skip(from as int)) == trim_start(text@),
        decreases chars@.len() - from,
    {
        assert(chars@.skip(from as int).drop_first() =~= chars@.skip(from + 1));
        from = from + 1;
    }
    let ghost start = chars@.skip(from as int);
    assert(start == trim_start(text@)) by {
        if from < chars.len() {
            assert(start[0] == chars@[from as int]);
        }
    }
    let mut to: usize = chars.len();
    assert(start.take(start.len() as int) =~= start);
    while to > from && is_white_space(chars[to - 1])
        invariant
            from <= to <= chars@.len(),
            start == chars@.skip(from as int),
            trim_end(start.take(to - from)) == trim_end(start),
        decreases to,
    {
        let ghost now = start.take(to - from);
        assert(now.last() == chars@[to - 1]);
        assert(now.drop_last() =~= start.take(to - 1 - from));
        to = to - 1;
    }
    let ghost kept = start.take(to - from);
    assert(kept == trim_end(start)) by {
        if to > from {
            assert(kept.last() == chars@[to - 1]);
        }
    }
    assert(kept =~= chars@.subrange(from as int, to as int));
    from_chars(slice_subrange(chars.as_slice(), from, to))
}

/// Trimming leaves nothing exactly where there is nothing but white space.
pub proof fn trimmed_is_empty_iff_blank(text: Seq<char>)
    ensures
        trimmed(text).len() == 0 <==> blank(text),
{
    lemma_trim_start_blank(text);
    lemma_trim_end_blank(trim_start(text));
}

proof fn lemma_trim_start_blank(text: Seq<char>)
    ensures
        blank(trim_start(text)) <==> blank(text),
    decreases text.len(),
{
    if text.len() > 0 && white_space(text[0]) {
        lemma_trim_start_blank(text.drop_first());
        if blank(text.drop_first()) {
            assert forall|i: int| 0 <= i < text.len() implies white_space(#[trigger] text[i]) by {
                if i > 0 {
                    assert(text.drop_first()[i - 1] == text[i]);
                }
            }
        }
        if blank(text) {
            assert(blank(text.drop_first()));
        }
    }
}

proof fn lemma_trim_end_blank(text: Seq<char>)
    ensures
        trim_end(text).len() == 0 <==> blank(text),
    decreases text.len(),
{
    if text.len() > 0 {
        if white_space(text.last()) {
            lemma_trim_end_blank(text.drop_last());
            if blank(text.drop_last()) {
                assert forall|i: int| 0 <= i < text.len() implies white_space(
                    #[trigger] text[i],
                ) by {
                    if i < text.len() - 1 {
                        assert(text.drop_last()[i] == text[i]);
                    }
                }
            }
            if blank(text) {
                assert(blank(text.drop_last()));
            }
        } else {
            assert(!white_space(text[text.len() - 1]));
        }
    }
}

/// Whether `text` starts with `start`.
pub fn starts_with(text: &str, start: &str) -> (yes: bool)
    ensures
        yes == start@.is_prefix_of(text@),
{
    let chars = chars_of(text);
    let head = chars_of(start);
    if head.len() > chars.len() {
        return false;
    }
    let mut at: usize = 0;
    while at < head.len()
        invariant
            at <= head@.len() <= chars@.len(),
            chars@ == text@,
            head@ == start@,
            forall|i: int| 0 <= i < at ==> head@[i] == chars@[i],
        decreases head@.len() - at,
    {
        if head[at] != chars[at] {
            assert(text@.subrange(0, start@.len() as int)[at as int] != start@[at as int]);
            return false;
        }
        at = at + 1;
    }
    assert(start@ =~= text@.subrange(0, start@.len() as int));
    true
}

/// What follows `start` in `text`, where `text` starts with it.
pub open spec fn without_prefix(text: Seq<char>, start: Seq<char>) -> Option<Seq<char>> {
    if start.is_prefix_of(text) {
        Some(text.skip(start.len() as int))
    } else {
        None
    }
}

/// What follows `start` in `text`, where `text` starts with it.
pub fn strip_prefix(text: &str, start: &str) -> (rest: Option<String>)
    ensures
        optional(rest) == without_prefix(text@, start@),
{
    if starts_with(text, start) {
        let from: usize = start.unicode_len();
        let to: usize = text.unicode_len();
        let rest = text.substring_char(from, to).to_owned();
        assert(rest@ =~= text@.skip(start@.len() as int));
        Some(rest)
    } else {
        None
    }
}

/// Whether `needle` stands in `text` at `at`.
pub open spec fn stands_at(text: Seq<char>, needle: Seq<char>, at: int) -> bool {
    0 <= at && at + needle.len() <= text.len() && text.subrange(at, at + needle.len()) == needle
}

/// Whether `needle` stands anywhere in `text`.
pub open spec fn holds(text: Seq<char>, needle: Seq<char>) -> bool {
    exists|at: int| stands_at(text, needle, at)
}

/// Whether `needle` stands anywhere in `text`.
pub fn contains(text: &str, needle: &str) -> (found: bool)
    ensures
        found == holds(text@, needle@),
{
    let chars = chars_of(text);
    let wanted = chars_of(needle);
    if wanted.len() > chars.len() {
        return false;
    }
    let last: usize = chars.len() - wanted.len();
    let mut at: usize = 0;
    while at <= last
        invariant
            last == chars@.len() - wanted@.len(),
            at <= last + 1,
            last + wanted@.len() <= usize::MAX,
            chars@ == text@,
            wanted@ == needle@,
            forall|i: int| 0 <= i < at ==> !stands_at(text@, needle@, i),
        decreases last + 1 - at,
    {
        let mut same: usize = 0;
        while same < wanted.len() && chars[at + same] == wanted[same]
            invariant
                at <= last,
                last == chars@.len() - wanted@.len(),
                last + wanted@.len() <= usize::MAX,
                same <= wanted@.len(),
                forall|i: int| 0 <= i < same ==> chars@[at + i] == wanted@[i],
            decreases wanted@.len() - same,
        {
            same = same + 1;
        }
        if same == wanted.len() {
            assert(text@.subrange(at as int, at + needle@.len()) =~= needle@);
            assert(stands_at(text@, needle@, at as int));
            return true;
        }
        assert(text@.subrange(at as int, at + needle@.len())[same as int] != needle@[same as int]);
        if at == usize::MAX {
            assert(false);
        }
        at = at + 1;
    }
    false
}

/// Where `c` first stands in `text` at or after `from`; the length of `text` where it does not.
pub open spec fn index_from(text: Seq<char>, c: char, from: int) -> int
    decreases text.len() - from,
{
    if from >= text.len() {
        text.len() as int
    } else if text[from] == c {
        from
    } else {
        index_from(text, c, from + 1)
    }
}

/// The pieces of `text` between the occurrences of `c`; one piece where there is none.
pub open spec fn pieces(text: Seq<char>, c: char) -> Seq<Seq<char>>
    decreases text.len(),
{
    let at = index_from(text, c, 0);
    if 0 <= at < text.len() {
        seq![text.take(at)] + pieces(text.skip(at + 1), c)
    } else {
        seq![text]
    }
}

fn find_char(chars: &[char], c: char, from: usize) -> (at: usize)
    requires
        from <= chars@.len(),
    ensures
        from <= at <= chars@.len(),
        at == from + index_from(chars@.skip(from as int), c, 0),
        at < chars@.len() ==> chars@[at as int] == c,
{
    let mut at: usize = from;
    let ghost rest = chars@.skip(from as int);
    while at < chars.len() && chars[at] != c
        invariant
            from <= at <= chars@.len(),
            rest == chars@.skip(from as int),
            index_from(rest, c, at - from) == index_from(rest, c, 0),
        decreases chars@.len() - at,
    {
        at = at + 1;
    }
    at
}

/// The pieces of `text` between the occurrences of `c`.
pub fn split_on(text: &str, c: char) -> (parts: Vec<String>)
    ensures
        texts(parts@) == pieces(text@, c),
        parts@.len() >= 1,
{
    let chars = chars_of(text);
    let mut parts: Vec<String> = Vec::new();
    let mut from: usize = 0;
    assert(chars@.skip(0) =~= text@);
    assert(texts(parts@) + pieces(text@, c) =~= pieces(text@, c));
    loop
        invariant_except_break
            from <= chars@.len(),
            texts(parts@) + pieces(chars@.skip(from as int), c) == pieces(text@, c),
        ensures
            texts(parts@) == pieces(text@, c),
            parts@.len() >= 1,
        decreases chars@.len() - from,
    {
        let ghost rest = chars@.skip(from as int);
        let at: usize = find_char(chars.as_slice(), c, from);
        let part = from_chars(slice_subrange(chars.as_slice(), from, at));
        let ghost before = parts@;
        parts.push(part);
        assert(texts(parts@) =~= texts(before).push(part@));
        if at == chars.len() {
            assert(part@ =~= rest);
            assert(texts(before) + seq![rest] =~= texts(parts@));
            break;
        }
        assert(part@ =~= rest.take(at - from));
        assert(rest.skip(at - from + 1) =~= chars@.skip(at + 1));
        assert(texts(before) + (seq![part@] + pieces(chars@.skip(at + 1), c)) =~= texts(parts@)
            + pieces(chars@.skip(at + 1), c));
        from = at + 1;
    }
    parts
}

/// A line without the carriage return that stood before its line feed.
pub open spec fn without_return(line: Seq<char>) -> Seq<char> {
    if line.len() > 0 && line.last() == '\r' {
        line.drop_last()
    } else {
        line
    }
}

/// The lines of a text: each ends with a line feed, which may follow a carriage return; the last
/// may end with the text.
pub open spec fn lines_of(text: Seq<char>) -> Seq<Seq<char>>
    decreases text.len(),
{
    let at = index_from(text, '\n', 0);
    if text.len() == 0 {
        seq![]
    } else if 0 <= at < text.len() {
        seq![without_return(text.take(at))] + lines_of(text.skip(at + 1))
    } else {
        seq![text]
    }
}

/// The lines of a text.
pub fn lines(text: &str) -> (list: Vec<String>)
    ensures
        texts(list@) == lines_of(text@),
{
    let chars = chars_of(text);
    let mut list: Vec<String> = Vec::new();
    let mut from: usize = 0;
    assert(chars@.skip(0) =~= text@);
    assert(texts(list@) + lines_of(text@) =~= lines_of(text@));
    while from < chars.len()
        invariant
            from <= chars@.len(),
            texts(list@) + lines_of(chars@.skip(from as int)) == lines_of(text@),
        decreases chars@.len() - from,
    {
        let ghost rest = chars@.skip(from as int);
        let at: usize = find_char(chars.as_slice(), '\n', from);
        let ghost before = list@;
        if at == chars.len() {
            let line = from_chars(slice_subrange(chars.as_slice(), from, at));
            list.push(line);
            assert(line@ =~= rest);
            assert(texts(list@) =~= texts(before).push(line@));
            assert(lines_of(rest) =~= seq![rest]);
            assert(texts(list@) =~= texts(before) + seq![rest]);
            from = at;
            assert(chars@.skip(from as int) =~= seq![]);
            assert(texts(list@) + lines_of(seq![]) =~= texts(list@));
        } else {
            let end: usize = if at > from && chars[at - 1] == '\r' {
                at - 1
            } else {
                at
            };
            let line = from_chars(slice_subrange(chars.as_slice(), from, end));
            list.push(line);
            let ghost whole = rest.take(at - from);
            if at > from {
                assert(whole.last() == chars@[at - 1]);
            }
            assert(line@ =~= without_return(whole));
            assert(texts(list@) =~= texts(before).push(line@));
            assert(rest.skip(at - from + 1) =~= chars@.skip(at + 1));
            assert(texts(before) + (seq![line@] + lines_of(chars@.skip(at + 1))) =~= texts(list@)
                + lines_of(chars@.skip(at + 1)));
            from = at + 1;
        }
    }
    assert(chars@.skip(from as int) =~= seq![]);
    assert(texts(list@) + lines_of(seq![]) =~= texts(list@));
    list
}

/// The decimal digit of a number below ten.
pub open spec fn digit(value: nat) -> char {
    (48 + value) as char
}

/// A number in decimal, without leading zeros.
pub open spec fn decimal_of(value: nat) -> Seq<char>
    decreases value,
{
    if value < 10 {
        seq![digit(value)]
    } else {
        decimal_of(value / 10).push(digit(value % 10))
    }
}

/// A number in decimal, without leading zeros.
pub fn decimal(value: u64) -> (text: String)
    ensures
        text@ == decimal_of(value as nat),
    decreases value,
{
    let unit: u8 = (value % 10) as u8;
    let c: char = (48 + unit) as char;
    if value < 10 {
        let mut text = String::new();
        text.push(c);
        assert(text@ =~= decimal_of(value as nat));
        text
    } else {
        let mut text = decimal(value / 10);
        text.push(c);
        text
    }
}

/// The part of a text between two byte offsets; none where either falls outside the text or inside
/// a character.
pub open spec fn byte_slice(text: Seq<char>, from: int, to: int) -> Option<Seq<char>> {
    let bytes = encode_utf8(text);
    if from <= to && is_char_boundary(bytes, from) && is_char_boundary(bytes, to) {
        Some(decode_utf8(bytes.subrange(from, to)))
    } else {
        None
    }
}

/// The part of a text between two byte offsets.
pub fn byte_range(text: &str, from: usize, to: usize) -> (part: Option<String>)
    requires
        from < to,
    ensures
        optional(part) == byte_slice(text@, from as int, to as int),
{
    let ghost bytes = encode_utf8(text@);
    proof {
        encode_utf8_valid_utf8(text@);
    }
    if !text.is_char_boundary(to) || !text.is_char_boundary(from) {
        return None;
    }
    let head = text.split_at(to).0;
    let ghost head_bytes = bytes.subrange(0, to as int);
    proof {
        encode_utf8_valid_utf8(head@);
        is_char_boundary_iff_not_is_continuation_byte(bytes, from as int);
        is_char_boundary_iff_not_is_continuation_byte(head_bytes, from as int);
    }
    let part = head.split_at(from).1.to_owned();
    assert(head_bytes.subrange(from as int, to as int) =~= bytes.subrange(from as int, to as int));
    proof {
        encode_utf8_decode_utf8(part@);
    }
    Some(part)
}

/// Whether a text holds nothing but decimal digits.
pub open spec fn all_digits(text: Seq<char>) -> bool {
    forall|i: int| 0 <= i < text.len() ==> '0' <= #[trigger] text[i] <= '9'
}

/// The number that decimal digits stand for.
pub open spec fn value_of(digits: Seq<char>) -> int
    decreases digits.len(),
{
    if digits.len() == 0 {
        0
    } else {
        value_of(digits.drop_last()) * 10 + (digits.last() as int - '0' as int)
    }
}

/// A number in decimal is read back: it holds digits only, they stand for the number, and the first of
/// several is no zero.
pub proof fn decimals_read_back(value: nat)
    ensures
        all_digits(decimal_of(value)),
        decimal_of(value).len() > 0,
        value_of(decimal_of(value)) == value,
        decimal_of(value).len() > 1 ==> decimal_of(value)[0] != '0',
    decreases value,
{
    let digits = decimal_of(value);
    if value < 10 {
        assert(digits.drop_last() =~= seq![]);
        assert(value_of(digits.drop_last()) == 0);
    } else {
        decimals_read_back(value / 10);
        assert(digits.drop_last() =~= decimal_of(value / 10));
        if decimal_of(value / 10).len() == 1 {
            assert(value / 10 > 0);
            assert(decimal_of(value / 10).drop_last() =~= seq![]);
            assert(value_of(decimal_of(value / 10).drop_last()) == 0);
        }
    }
}

} // verus!
