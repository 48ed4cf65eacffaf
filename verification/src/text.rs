//! Text: what the rest of the library asks of strings, stated over sequences of characters.
use vstd::prelude::*;

verus! {

/// `String::push` appends one character to the text.
pub assume_specification[ String::push ](this: &mut String, ch: char)
    ensures
        final(this)@ == old(this)@.push(ch),
;

/// The text of an optional string.
pub open spec fn optional(text: Option<String>) -> Option<Seq<char>> {
    match text {
        Some(text) => Some(text@),
        None => None,
    }
}

/// The text of an optional string slice.
pub open spec fn optional_str(text: Option<&str>) -> Option<Seq<char>> {
    match text {
        Some(text) => Some(text@),
        None => None,
    }
}

/// The texts of a list of strings.
pub open spec fn texts(list: Seq<String>) -> Seq<Seq<char>> {
    list.map_values(|text: String| text@)
}

/// The texts of a list of string slices.
pub open spec fn slices(list: Seq<&str>) -> Seq<Seq<char>> {
    list.map_values(|text: &str| text@)
}

/// The texts of a list of pairs.
pub open spec fn pair_texts(pairs: Seq<(String, String)>) -> Seq<(Seq<char>, Seq<char>)> {
    pairs.map_values(|pair: (String, String)| (pair.0@, pair.1@))
}

/// White space: the characters with the Unicode property `White_Space`.
pub open spec fn is_white_space(c: char) -> bool {
    let code = c as u32;
    ||| 0x9 <= code <= 0xd
    ||| code == 0x20
    ||| code == 0x85
    ||| code == 0xa0
    ||| code == 0x1680
    ||| 0x2000 <= code <= 0x200a
    ||| code == 0x2028
    ||| code == 0x2029
    ||| code == 0x202f
    ||| code == 0x205f
    ||| code == 0x3000
}

/// Control characters: the Unicode general category `Cc`.
pub open spec fn is_control(c: char) -> bool {
    let code = c as u32;
    code <= 0x1f || 0x7f <= code <= 0x9f
}

/// An ASCII capital becomes the small letter; every other character stays.
pub open spec fn lower(c: char) -> char {
    if 'A' <= c && c <= 'Z' {
        (c as u8 + 32) as char
    } else {
        c
    }
}

/// An ASCII small letter becomes the capital; every other character stays.
pub open spec fn upper(c: char) -> char {
    if 'a' <= c && c <= 'z' {
        (c as u8 - 32) as char
    } else {
        c
    }
}

/// `s` with its ASCII letters in lower case.
pub open spec fn lowercase(s: Seq<char>) -> Seq<char> {
    s.map_values(|c: char| lower(c))
}

/// `s` with its ASCII letters in upper case.
pub open spec fn uppercase(s: Seq<char>) -> Seq<char> {
    s.map_values(|c: char| upper(c))
}

/// Where a text is cut.
#[derive(Clone, Copy)]
pub enum Separator {
    /// At one particular character.
    Char(char),
    /// At a blank or a comma.
    BlankOrComma,
    /// At any white space.
    WhiteSpace,
}

impl Separator {
    /// Whether `c` separates.
    pub open spec fn splits(self, c: char) -> bool {
        match self {
            Separator::Char(own) => c == own,
            Separator::BlankOrComma => c == ' ' || c == ',',
            Separator::WhiteSpace => is_white_space(c),
        }
    }

    fn test(&self, c: char) -> (found: bool)
        ensures
            found == self.splits(c),
    {
        match self {
            Separator::Char(own) => c == *own,
            Separator::BlankOrComma => c == ' ' || c == ',',
            Separator::WhiteSpace => white_space(c),
        }
    }
}

/// The index of the first separator in `s`, or the length of `s` when it has none.
pub open spec fn first_cut(s: Seq<char>, sep: Separator) -> int
    decreases s.len(),
{
    if s.len() == 0 || sep.splits(s[0]) {
        0
    } else {
        1 + first_cut(s.drop_first(), sep)
    }
}

/// What stands before and after the first separator, when there is one.
pub open spec fn cut(s: Seq<char>, sep: Separator) -> Option<(Seq<char>, Seq<char>)> {
    let at = first_cut(s, sep);
    if 0 <= at < s.len() {
        Some((s.subrange(0, at), s.subrange(at + 1, s.len() as int)))
    } else {
        None
    }
}

/// The pieces between the separators, empty ones included.
pub open spec fn pieces(s: Seq<char>, sep: Separator) -> Seq<Seq<char>>
    decreases s.len(),
{
    match cut(s, sep) {
        None => seq![s],
        Some((head, tail)) => seq![head] + pieces(tail, sep),
    }
}

/// The members of `list` that are not empty.
pub open spec fn non_empty(list: Seq<Seq<char>>) -> Seq<Seq<char>> {
    list.filter(|piece: Seq<char>| piece.len() > 0)
}

/// `s` without the white space it starts with.
pub open spec fn trim_start(s: Seq<char>) -> Seq<char>
    decreases s.len(),
{
    if s.len() > 0 && is_white_space(s[0]) {
        trim_start(s.drop_first())
    } else {
        s
    }
}

/// `s` without the white space it ends with.
pub open spec fn trim_end(s: Seq<char>) -> Seq<char>
    decreases s.len(),
{
    if s.len() > 0 && is_white_space(s.last()) {
        trim_end(s.drop_last())
    } else {
        s
    }
}

/// `s` without the white space around it.
pub open spec fn trimmed(s: Seq<char>) -> Seq<char> {
    trim_end(trim_start(s))
}

/// `s` without the run of `c` it ends with.
pub open spec fn without_trailing(s: Seq<char>, c: char) -> Seq<char>
    decreases s.len(),
{
    if s.len() > 0 && s.last() == c {
        without_trailing(s.drop_last(), c)
    } else {
        s
    }
}

/// Whether `s` starts with `prefix`.
pub open spec fn has_prefix(s: Seq<char>, prefix: Seq<char>) -> bool {
    prefix.len() <= s.len() && s.subrange(0, prefix.len() as int) == prefix
}

/// What follows `prefix` in `s`, when `s` starts with it.
pub open spec fn after_prefix(s: Seq<char>, prefix: Seq<char>) -> Option<Seq<char>> {
    if has_prefix(s, prefix) {
        Some(s.subrange(prefix.len() as int, s.len() as int))
    } else {
        None
    }
}

/// The decimal digit for a number below ten.
pub open spec fn digit(n: nat) -> char {
    (n as u8 + 48) as char
}

/// The decimal notation of `n`.
pub open spec fn decimal(n: nat) -> Seq<char>
    decreases n,
{
    if n < 10 {
        seq![digit(n)]
    } else {
        decimal(n / 10).push(digit(n % 10))
    }
}

/// The first separator lies at `at` exactly when nothing before it separates.
pub proof fn lemma_first_cut(s: Seq<char>, sep: Separator, at: int)
    requires
        0 <= at <= s.len(),
        forall|i: int| 0 <= i < at ==> !sep.splits(#[trigger] s[i]),
        at < s.len() ==> sep.splits(s[at]),
    ensures
        first_cut(s, sep) == at,
    decreases at,
{
    if at > 0 {
        let rest = s.drop_first();
        assert forall|i: int| 0 <= i < at - 1 implies !sep.splits(#[trigger] rest[i]) by {
            assert(rest[i] == s[i + 1]);
        }
        lemma_first_cut(rest, sep, at - 1);
    }
}

/// The first separator is within the text or at its end, and nothing before it separates.
pub proof fn lemma_first_cut_bounds(s: Seq<char>, sep: Separator)
    ensures
        0 <= first_cut(s, sep) <= s.len(),
        first_cut(s, sep) < s.len() ==> sep.splits(s[first_cut(s, sep)]),
        forall|i: int| 0 <= i < first_cut(s, sep) ==> !sep.splits(#[trigger] s[i]),
    decreases s.len(),
{
    if s.len() > 0 && !sep.splits(s[0]) {
        let rest = s.drop_first();
        lemma_first_cut_bounds(rest, sep);
        assert forall|i: int| 0 <= i < first_cut(s, sep) implies !sep.splits(#[trigger] s[i]) by {
            if i > 0 {
                assert(rest[i - 1] == s[i]);
            }
        }
    }
}

/// Two texts with the same encoding are the same text.
pub proof fn lemma_same_encoding(a: Seq<char>, b: Seq<char>)
    requires
        vstd::utf8::encode_utf8(a) == vstd::utf8::encode_utf8(b),
    ensures
        a == b,
{
    vstd::utf8::encode_utf8_decode_utf8(a);
    vstd::utf8::encode_utf8_decode_utf8(b);
}

proof fn lemma_trim_start_at(s: Seq<char>, from: int)
    requires
        0 <= from <= s.len(),
        forall|i: int| 0 <= i < from ==> is_white_space(#[trigger] s[i]),
        from < s.len() ==> !is_white_space(s[from]),
    ensures
        trim_start(s) == s.subrange(from, s.len() as int),
    decreases from,
{
    if from > 0 {
        let rest = s.drop_first();
        assert forall|i: int| 0 <= i < from - 1 implies is_white_space(#[trigger] rest[i]) by {
            assert(rest[i] == s[i + 1]);
        }
        lemma_trim_start_at(rest, from - 1);
        assert(rest.subrange(from - 1, rest.len() as int) =~= s.subrange(from, s.len() as int));
    } else {
        assert(s.subrange(0, s.len() as int) =~= s);
    }
}

proof fn lemma_trim_end_at(s: Seq<char>, to: int)
    requires
        0 <= to <= s.len(),
        forall|i: int| to <= i < s.len() ==> is_white_space(#[trigger] s[i]),
        0 < to ==> !is_white_space(s[to - 1]),
    ensures
        trim_end(s) == s.subrange(0, to),
    decreases s.len(),
{
    if to < s.len() {
        let rest = s.drop_last();
        assert forall|i: int| to <= i < rest.len() implies is_white_space(#[trigger] rest[i]) by {
            assert(rest[i] == s[i]);
        }
        lemma_trim_end_at(rest, to);
        assert(rest.subrange(0, to) =~= s.subrange(0, to));
    } else {
        assert(s.subrange(0, to) =~= s);
    }
}

proof fn lemma_without_trailing_at(s: Seq<char>, c: char, to: int)
    requires
        0 <= to <= s.len(),
        forall|i: int| to <= i < s.len() ==> #[trigger] s[i] == c,
        0 < to ==> s[to - 1] != c,
    ensures
        without_trailing(s, c) == s.subrange(0, to),
    decreases s.len(),
{
    if to < s.len() {
        let rest = s.drop_last();
        assert forall|i: int| to <= i < rest.len() implies #[trigger] rest[i] == c by {
            assert(rest[i] == s[i]);
        }
        lemma_without_trailing_at(rest, c, to);
        assert(rest.subrange(0, to) =~= s.subrange(0, to));
    } else {
        assert(s.subrange(0, to) =~= s);
    }
}

/// Whether `c` is white space.
pub fn white_space(c: char) -> (found: bool)
    ensures
        found == is_white_space(c),
{
    let code: u32 = c as u32;
    (0x9 <= code && code <= 0xd) || code == 0x20 || code == 0x85 || code == 0xa0 || code == 0x1680
        || (0x2000 <= code && code <= 0x200a) || code == 0x2028 || code == 0x2029 || code == 0x202f
        || code == 0x205f || code == 0x3000
}

/// Whether `s` holds a control character.
pub open spec fn holds_control(s: Seq<char>) -> bool {
    exists|i: int| 0 <= i < s.len() && is_control(#[trigger] s[i])
}

/// Whether `text` holds a control character.
pub fn has_control(text: &str) -> (found: bool)
    ensures
        found == exists|i: int| 0 <= i < text@.len() && is_control(#[trigger] text@[i]),
        found == holds_control(text@),
{
    let chars = chars_of(text);
    let mut at: usize = 0;
    while at < chars.len()
        invariant
            at <= chars.len(),
            chars@ == text@,
            forall|i: int| 0 <= i < at ==> !is_control(#[trigger] text@[i]),
        decreases chars.len() - at,
    {
        let code: u32 = chars[at] as u32;
        if code <= 0x1f || (0x7f <= code && code <= 0x9f) {
            assert(is_control(text@[at as int]));
            return true;
        }
        at += 1;
    }
    false
}

/// The characters of `text`, in order.
pub fn chars_of(text: &str) -> (chars: Vec<char>)
    ensures
        chars@ == text@,
{
    let mut chars: Vec<char> = Vec::new();
    for c in it: text.chars()
        invariant
            it.seq() == text@,
            chars@ == text@.subrange(0, it.index() as int),
    {
        chars.push(c);
        assert(text@.subrange(0, it.index() + 1) =~= text@.subrange(0, it.index() as int).push(c));
    }
    assert(text@.subrange(0, text@.len() as int) =~= text@);
    chars
}

/// Whether two texts are the same.
pub fn equal(a: &str, b: &str) -> (same: bool)
    ensures
        same == (a@ == b@),
{
    let left = a.as_bytes();
    let right = b.as_bytes();
    if left.len() != right.len() {
        return false;
    }
    let mut at: usize = 0;
    while at < left.len()
        invariant
            at <= left.len(),
            left@ == vstd::utf8::encode_utf8(a@),
            right@ == vstd::utf8::encode_utf8(b@),
            left.len() == right.len(),
            forall|i: int| 0 <= i < at ==> left@[i] == right@[i],
        decreases left.len() - at,
    {
        if left[at] != right[at] {
            return false;
        }
        at += 1;
    }
    proof {
        assert(left@ =~= right@);
        lemma_same_encoding(a@, b@);
    }
    true
}

/// `text` without the white space around it.
pub fn trim(text: &str) -> (rest: &str)
    ensures
        rest@ == trimmed(text@),
{
    let chars = chars_of(text);
    let mut from: usize = 0;
    while from < chars.len() && white_space(chars[from])
        invariant
            from <= chars.len(),
            chars@ == text@,
            forall|i: int| 0 <= i < from ==> is_white_space(#[trigger] text@[i]),
        decreases chars.len() - from,
    {
        from += 1;
    }
    let mut to: usize = chars.len();
    while from < to && white_space(chars[to - 1])
        invariant
            from <= to <= chars.len(),
            chars@ == text@,
            forall|i: int| to <= i < text@.len() ==> is_white_space(#[trigger] text@[i]),
        decreases to - from,
    {
        to -= 1;
    }
    proof {
        let left = text@.subrange(from as int, text@.len() as int);
        lemma_trim_start_at(text@, from as int);
        assert forall|i: int| to - from <= i < left.len() implies is_white_space(
            #[trigger] left[i],
        ) by {
            assert(left[i] == text@[i + from]);
        }
        lemma_trim_end_at(left, to - from);
        assert(left.subrange(0, to - from) =~= text@.subrange(from as int, to as int));
    }
    text.substring_char(from, to)
}

/// `text` without the run of `c` it ends with.
pub fn trim_end_matches(text: &str, c: char) -> (rest: &str)
    ensures
        rest@ == without_trailing(text@, c),
{
    let chars = chars_of(text);
    let mut to: usize = chars.len();
    while 0 < to && chars[to - 1] == c
        invariant
            to <= chars.len(),
            chars@ == text@,
            forall|i: int| to <= i < text@.len() ==> #[trigger] text@[i] == c,
        decreases to,
    {
        to -= 1;
    }
    proof {
        lemma_without_trailing_at(text@, c, to as int);
    }
    text.substring_char(0, to)
}

/// What stands before and after the first separator, when there is one.
pub fn split_once<'a>(text: &'a str, sep: Separator) -> (parts: Option<(&'a str, &'a str)>)
    ensures
        match parts {
            Some((head, tail)) => cut(text@, sep) == Some((head@, tail@)),
            None => cut(text@, sep) is None,
        },
{
    let chars = chars_of(text);
    let mut at: usize = 0;
    while at < chars.len()
        invariant
            at <= chars.len(),
            chars@ == text@,
            forall|i: int| 0 <= i < at ==> !sep.splits(#[trigger] text@[i]),
        decreases chars.len() - at,
    {
        if sep.test(chars[at]) {
            proof {
                lemma_first_cut(text@, sep, at as int);
            }
            return Some((text.substring_char(0, at), text.substring_char(at + 1, chars.len())));
        }
        at += 1;
    }
    proof {
        lemma_first_cut(text@, sep, at as int);
    }
    None
}

/// The pieces between the separators, empty ones included.
pub fn split<'a>(text: &'a str, sep: Separator) -> (list: Vec<&'a str>)
    ensures
        slices(list@) == pieces(text@, sep),
{
    let mut list: Vec<&'a str> = Vec::new();
    let mut rest: &'a str = text;
    assert(slices(list@) + pieces(rest@, sep) =~= pieces(text@, sep));
    loop
        invariant
            slices(list@) + pieces(rest@, sep) == pieces(text@, sep),
        decreases rest@.len(),
    {
        match split_once(rest, sep) {
            None => {
                let ghost before = list@;
                list.push(rest);
                assert(slices(list@) =~= slices(before) + seq![rest@]);
                return list;
            },
            Some((head, tail)) => {
                let ghost before = list@;
                proof {
                    lemma_first_cut_bounds(rest@, sep);
                    assert(slices(before) + (seq![head@] + pieces(tail@, sep)) =~= (slices(before)
                        + seq![head@]) + pieces(tail@, sep));
                }
                list.push(head);
                assert(slices(list@) =~= slices(before) + seq![head@]);
                rest = tail;
            },
        }
    }
}

/// The members of `all` that are not empty.
fn keep_non_empty<'a>(all: Vec<&'a str>) -> (list: Vec<&'a str>)
    ensures
        slices(list@) == non_empty(slices(all@)),
{
    let ghost whole = slices(all@);
    let ghost keep = |piece: Seq<char>| piece.len() > 0;
    let mut list: Vec<&'a str> = Vec::new();
    let mut at: usize = 0;
    proof {
        reveal(Seq::filter);
        assert(slices(list@) =~= whole.subrange(0, 0).filter(keep));
    }
    while at < all.len()
        invariant
            at <= all.len(),
            whole == slices(all@),
            keep == (|piece: Seq<char>| piece.len() > 0),
            slices(list@) == whole.subrange(0, at as int).filter(keep),
        decreases all.len() - at,
    {
        let ghost before = list@;
        let piece = all[at];
        if !piece.is_empty() {
            list.push(piece);
        }
        proof {
            reveal(Seq::filter);
            let next = whole.subrange(0, at + 1);
            assert(next.drop_last() =~= whole.subrange(0, at as int));
            assert(next.last() == piece@);
            if piece@.len() > 0 {
                assert(slices(list@) =~= slices(before).push(piece@));
            }
        }
        at += 1;
    }
    assert(whole.subrange(0, whole.len() as int) =~= whole);
    list
}

/// The pieces of `text` between the separators, without the empty ones.
pub fn split_non_empty<'a>(text: &'a str, sep: Separator) -> (list: Vec<&'a str>)
    ensures
        slices(list@) == non_empty(pieces(text@, sep)),
{
    keep_non_empty(split(text, sep))
}

/// Every member of `list` without the white space around it.
pub open spec fn all_trimmed(list: Seq<Seq<char>>) -> Seq<Seq<char>> {
    list.map_values(|piece: Seq<char>| trimmed(piece))
}

/// The pieces of `text` between the separators, trimmed, without those that are then empty.
pub fn split_trimmed<'a>(text: &'a str, sep: Separator) -> (list: Vec<&'a str>)
    ensures
        slices(list@) == non_empty(all_trimmed(pieces(text@, sep))),
{
    let all = split(text, sep);
    let mut list: Vec<&'a str> = Vec::new();
    let mut at: usize = 0;
    while at < all.len()
        invariant
            at <= all.len(),
            list.len() == at,
            forall|i: int| 0 <= i < at ==> #[trigger] list@[i]@ == trimmed(all@[i]@),
        decreases all.len() - at,
    {
        list.push(trim(all[at]));
        at += 1;
    }
    assert(slices(list@) =~= all_trimmed(slices(all@)));
    keep_non_empty(list)
}

/// Whether `text` starts with `prefix`.
pub fn starts_with(text: &str, prefix: &str) -> (found: bool)
    ensures
        found == has_prefix(text@, prefix@),
{
    strip_prefix(text, prefix).is_some()
}

/// What follows `prefix` in `text`, when `text` starts with it.
pub fn strip_prefix<'a>(text: &'a str, prefix: &str) -> (rest: Option<&'a str>)
    ensures
        optional_str(rest) == after_prefix(text@, prefix@),
{
    let chars = chars_of(text);
    let start = chars_of(prefix);
    if chars.len() < start.len() {
        return None;
    }
    let mut at: usize = 0;
    while at < start.len()
        invariant
            at <= start.len() <= chars.len(),
            chars@ == text@,
            start@ == prefix@,
            forall|i: int| 0 <= i < at ==> text@[i] == prefix@[i],
        decreases start.len() - at,
    {
        if chars[at] != start[at] {
            assert(text@.subrange(0, prefix@.len() as int)[at as int] != prefix@[at as int]);
            return None;
        }
        at += 1;
    }
    assert(text@.subrange(0, prefix@.len() as int) =~= prefix@);
    Some(text.substring_char(start.len(), chars.len()))
}

/// `text` with its ASCII letters in lower case.
pub fn to_ascii_lowercase(text: &str) -> (out: String)
    ensures
        out@ == lowercase(text@),
{
    let chars = chars_of(text);
    let mut out = String::new();
    let mut at: usize = 0;
    while at < chars.len()
        invariant
            at <= chars.len(),
            chars@ == text@,
            out@ == lowercase(text@.subrange(0, at as int)),
        decreases chars.len() - at,
    {
        let c = chars[at];
        out.push(
            if 'A' <= c && c <= 'Z' {
                (c as u8 + 32) as char
            } else {
                c
            },
        );
        at += 1;
        assert(lowercase(text@.subrange(0, at as int)) =~= lowercase(
            text@.subrange(0, at - 1),
        ).push(lower(c)));
    }
    assert(text@.subrange(0, text@.len() as int) =~= text@);
    out
}

/// `text` with its ASCII letters in upper case.
pub fn to_ascii_uppercase(text: &str) -> (out: String)
    ensures
        out@ == uppercase(text@),
{
    let chars = chars_of(text);
    let mut out = String::new();
    let mut at: usize = 0;
    while at < chars.len()
        invariant
            at <= chars.len(),
            chars@ == text@,
            out@ == uppercase(text@.subrange(0, at as int)),
        decreases chars.len() - at,
    {
        let c = chars[at];
        out.push(
            if 'a' <= c && c <= 'z' {
                (c as u8 - 32) as char
            } else {
                c
            },
        );
        at += 1;
        assert(uppercase(text@.subrange(0, at as int)) =~= uppercase(
            text@.subrange(0, at - 1),
        ).push(upper(c)));
    }
    assert(text@.subrange(0, text@.len() as int) =~= text@);
    out
}

/// The decimal notation of `n`.
pub fn to_decimal(n: u64) -> (out: String)
    ensures
        out@ == decimal(n as nat),
    decreases n,
{
    let mut out = if n < 10 {
        String::new()
    } else {
        to_decimal(n / 10)
    };
    let last: u8 = (n % 10) as u8;
    out.push((last + 48) as char);
    assert(out@ =~= decimal(n as nat));
    out
}

/// `a` followed by `b`.
pub fn join(a: &str, b: &str) -> (out: String)
    ensures
        out@ == a@ + b@,
{
    let mut out = String::from_str(a);
    out.append(b);
    out
}

/// A list of strings with the texts of `list`.
pub fn to_strings(list: &Vec<&str>) -> (out: Vec<String>)
    ensures
        texts(out@) == slices(list@),
{
    let mut out: Vec<String> = Vec::new();
    let mut at: usize = 0;
    while at < list.len()
        invariant
            at <= list.len(),
            out.len() == at,
            forall|i: int| 0 <= i < at ==> #[trigger] out@[i]@ == list@[i]@,
        decreases list.len() - at,
    {
        out.push(String::from_str(list[at]));
        at += 1;
    }
    assert(texts(out@) =~= slices(list@));
    out
}

/// A copy of a list of strings.
pub fn copy_strings(list: &Vec<String>) -> (out: Vec<String>)
    ensures
        texts(out@) == texts(list@),
{
    let mut out: Vec<String> = Vec::new();
    let mut at: usize = 0;
    while at < list.len()
        invariant
            at <= list.len(),
            out.len() == at,
            forall|i: int| 0 <= i < at ==> #[trigger] out@[i]@ == list@[i]@,
        decreases list.len() - at,
    {
        out.push(String::from_str(list[at].as_str()));
        at += 1;
    }
    assert(texts(out@) =~= texts(list@));
    out
}

/// Whether `list` holds `text`.
pub fn contains(list: &Vec<String>, text: &str) -> (found: bool)
    ensures
        found == texts(list@).contains(text@),
{
    let mut at: usize = 0;
    while at < list.len()
        invariant
            at <= list.len(),
            forall|i: int| 0 <= i < at ==> texts(list@)[i] != text@,
        decreases list.len() - at,
    {
        if equal(list[at].as_str(), text) {
            assert(texts(list@)[at as int] == text@);
            return true;
        }
        at += 1;
    }
    false
}

/// A copy of an optional string.
pub fn copy_optional(text: &Option<String>) -> (copy: Option<String>)
    ensures
        optional(copy) == optional(*text),
{
    match text {
        Some(text) => Some(text.clone()),
        None => None,
    }
}

/// A view into an optional string.
pub fn as_deref(text: &Option<String>) -> (slice: Option<&str>)
    ensures
        optional_str(slice) == optional(*text),
{
    match text {
        Some(text) => Some(text.as_str()),
        None => None,
    }
}

/// Whether `s` is white space only.
pub open spec fn is_blank(s: Seq<char>) -> bool {
    forall|i: int| 0 <= i < s.len() ==> is_white_space(#[trigger] s[i])
}

/// Whether `s` neither starts nor ends with white space.
pub open spec fn is_bare(s: Seq<char>) -> bool {
    s.len() > 0 ==> !is_white_space(s[0]) && !is_white_space(s.last())
}

/// Whether `s` is a word in any mixture of small letters and capitals, given the word in either.
pub open spec fn spells(s: Seq<char>, small: Seq<char>, capital: Seq<char>) -> bool {
    s.len() == small.len() && forall|i: int|
        0 <= i < s.len() ==> #[trigger] s[i] == small[i] || s[i] == capital[i]
}

/// Blanks, tabs and line ends are white space; no visible ASCII character is.
pub proof fn visible_characters_are_no_white_space(c: char)
    ensures
        '!' <= c && c <= '~' ==> !is_white_space(c),
        c == ' ' || c == '\t' || c == '\n' || c == '\r' ==> is_white_space(c),
{
}

/// Trimming takes the white space off both ends, all of it and nothing else.
pub proof fn trimming_keeps_what_is_between(
    text: &str,
    rest: &str,
    lead: Seq<char>,
    core: Seq<char>,
    trail: Seq<char>,
)
    requires
        call_ensures(trim, (text,), rest),
        text@ == lead + core + trail,
        is_blank(lead),
        is_blank(trail),
        is_bare(core),
    ensures
        rest@ == core,
{
    lemma_trimmed(lead, core, trail);
}

/// What is left when white space surrounds a text.
pub proof fn lemma_trimmed(lead: Seq<char>, core: Seq<char>, trail: Seq<char>)
    requires
        is_blank(lead),
        is_blank(trail),
        is_bare(core),
    ensures
        trimmed(lead + core + trail) == core,
{
    let s = lead + core + trail;
    if core.len() > 0 {
        assert forall|i: int| 0 <= i < lead.len() implies is_white_space(#[trigger] s[i]) by {
            assert(s[i] == lead[i]);
        }
        assert(s[lead.len() as int] == core[0]);
        lemma_trim_start_at(s, lead.len() as int);
        let left = s.subrange(lead.len() as int, s.len() as int);
        assert(left =~= core + trail);
        assert forall|i: int| core.len() <= i < left.len() implies is_white_space(
            #[trigger] left[i],
        ) by {
            assert(left[i] == trail[i - core.len()]);
        }
        assert(left[core.len() - 1] == core.last());
        lemma_trim_end_at(left, core.len() as int);
        assert(left.subrange(0, core.len() as int) =~= core);
    } else {
        assert forall|i: int| 0 <= i < s.len() implies is_white_space(#[trigger] s[i]) by {
            if i < lead.len() {
                assert(s[i] == lead[i]);
            } else {
                assert(s[i] == trail[i - lead.len()]);
            }
        }
        lemma_trim_start_at(s, s.len() as int);
        assert(trim_start(s) =~= Seq::empty());
        assert(core =~= Seq::empty());
    }
}

/// A text is cut at its first separator: what stands before holds none, and the three parts make up
/// the text.
pub proof fn lemma_cut(head: Seq<char>, mark: char, tail: Seq<char>, sep: Separator)
    requires
        sep.splits(mark),
        forall|i: int| 0 <= i < head.len() ==> !sep.splits(#[trigger] head[i]),
    ensures
        cut(head.push(mark) + tail, sep) == Some((head, tail)),
{
    let s = head.push(mark) + tail;
    assert forall|i: int| 0 <= i < head.len() implies !sep.splits(#[trigger] s[i]) by {
        assert(s[i] == head[i]);
    }
    assert(s[head.len() as int] == mark);
    lemma_first_cut(s, sep, head.len() as int);
    assert(s.subrange(0, head.len() as int) =~= head);
    assert(s.subrange(head.len() as int + 1, s.len() as int) =~= tail);
}

/// A text without separators is not cut.
pub proof fn lemma_uncut(s: Seq<char>, sep: Separator)
    requires
        forall|i: int| 0 <= i < s.len() ==> !sep.splits(#[trigger] s[i]),
    ensures
        cut(s, sep) is None,
{
    lemma_first_cut(s, sep, s.len() as int);
}

/// Cutting at one character loses nothing: head and tail with the character between them are the
/// text, and the head does not hold it. A text that is not cut does not hold it.
pub proof fn cutting_loses_nothing(text: &str, mark: char, parts: Option<(&str, &str)>)
    requires
        call_ensures(split_once, (text, Separator::Char(mark)), parts),
    ensures
        match parts {
            Some((head, tail)) => text@ == head@.push(mark) + tail@ && !head@.contains(mark),
            None => !text@.contains(mark),
        },
{
    let sep = Separator::Char(mark);
    lemma_first_cut_bounds(text@, sep);
    let at = first_cut(text@, sep);
    if let Some((head, tail)) = parts {
        assert(text@ =~= head@.push(mark) + tail@);
        assert forall|i: int| 0 <= i < head@.len() implies #[trigger] head@[i] != mark by {
            assert(head@[i] == text@[i]);
            assert(!sep.splits(text@[i]));
        }
    } else {
        assert forall|i: int| 0 <= i < text@.len() implies #[trigger] text@[i] != mark by {
            assert(!sep.splits(text@[i]));
        }
    }
}

/// The pieces with `mark` between them.
pub open spec fn joined(pieces: Seq<Seq<char>>, mark: char) -> Seq<char>
    decreases pieces.len(),
{
    if pieces.len() == 0 {
        Seq::empty()
    } else if pieces.len() == 1 {
        pieces[0]
    } else {
        pieces[0].push(mark) + joined(pieces.drop_first(), mark)
    }
}

/// Pieces that do not hold the separator are what a text that joins them splits into.
pub proof fn lemma_pieces_of_joined(list: Seq<Seq<char>>, mark: char)
    requires
        list.len() > 0,
        forall|i: int| 0 <= i < list.len() ==> !(#[trigger] list[i]).contains(mark),
    ensures
        pieces(joined(list, mark), Separator::Char(mark)) == list,
    decreases list.len(),
{
    let sep = Separator::Char(mark);
    let head = list[0];
    assert forall|i: int| 0 <= i < head.len() implies !sep.splits(#[trigger] head[i]) by {
        assert(head.contains(head[i]));
    }
    if list.len() == 1 {
        lemma_uncut(head, sep);
        assert(list =~= seq![head]);
    } else {
        let rest = list.drop_first();
        assert forall|i: int| 0 <= i < rest.len() implies !(#[trigger] rest[i]).contains(mark) by {
            assert(rest[i] == list[i + 1]);
        }
        lemma_pieces_of_joined(rest, mark);
        lemma_cut(head, mark, joined(rest, mark), sep);
        lemma_first_cut_bounds(joined(list, mark), sep);
        assert(list =~= seq![head] + rest);
    }
}

/// Splitting undoes joining: pieces that do not hold the separator come back as they were, however
/// many there are and wherever empty ones stand.
pub proof fn splitting_undoes_joining(
    text: &str,
    mark: char,
    found: Vec<&str>,
    list: Seq<Seq<char>>,
)
    requires
        call_ensures(split, (text, Separator::Char(mark)), found),
        text@ == joined(list, mark),
        list.len() > 0,
        forall|i: int| 0 <= i < list.len() ==> !(#[trigger] list[i]).contains(mark),
    ensures
        slices(found@) == list,
{
    lemma_pieces_of_joined(list, mark);
}

/// Changing the case changes ASCII letters only, each into its counterpart.
pub proof fn case_changes_letters_only(text: &str, small: String, capital: String, at: int)
    requires
        call_ensures(to_ascii_lowercase, (text,), small),
        call_ensures(to_ascii_uppercase, (text,), capital),
        0 <= at < text@.len(),
    ensures
        small@.len() == text@.len() && capital@.len() == text@.len(),
        small@[at] as u32 == if 0x41 <= text@[at] as u32 <= 0x5a {
            text@[at] as u32 + 0x20
        } else {
            text@[at] as int
        },
        capital@[at] as u32 == if 0x61 <= text@[at] as u32 <= 0x7a {
            text@[at] as u32 - 0x20
        } else {
            text@[at] as int
        },
{
}

proof fn lemma_lower(c: char, small: char, capital: char)
    requires
        'a' <= small && small <= 'z',
        capital as u32 + 0x20 == small as u32,
    ensures
        (lower(c) == small) == (c == small || c == capital),
{
}

/// A word is spelled in some case exactly when its small letters are those of the word.
pub proof fn lemma_spells(s: Seq<char>, small: Seq<char>, capital: Seq<char>)
    requires
        capital.len() == small.len(),
        forall|i: int|
            0 <= i < small.len() ==> 'a' <= #[trigger] small[i] && small[i] <= 'z'
                && capital[i] as u32 + 0x20 == small[i] as u32,
    ensures
        spells(s, small, capital) == (lowercase(s) == small),
{
    if spells(s, small, capital) {
        assert forall|i: int| 0 <= i < s.len() implies #[trigger] lowercase(s)[i] == small[i] by {
            assert(s[i] == small[i] || s[i] == capital[i]);
            lemma_lower(s[i], small[i], capital[i]);
        }
        assert(lowercase(s) =~= small);
    }
    if lowercase(s) == small {
        assert(lowercase(s).len() == s.len());
        assert forall|i: int| 0 <= i < s.len() implies #[trigger] s[i] == small[i] || s[i]
            == capital[i] by {
            assert(lowercase(s)[i] == lower(s[i]));
            lemma_lower(s[i], small[i], capital[i]);
        }
    }
}

/// A list without empty members is kept whole.
pub proof fn lemma_all_non_empty(list: Seq<Seq<char>>)
    requires
        forall|i: int| 0 <= i < list.len() ==> (#[trigger] list[i]).len() > 0,
    ensures
        non_empty(list) == list,
    decreases list.len(),
{
    reveal(Seq::filter);
    if list.len() > 0 {
        let front = list.drop_last();
        assert forall|i: int| 0 <= i < front.len() implies (#[trigger] front[i]).len() > 0 by {
            assert(front[i] == list[i]);
        }
        lemma_all_non_empty(front);
        assert(list.last() == list[list.len() - 1]);
        assert(list =~= front.push(list.last()));
    } else {
        assert(non_empty(list) =~= list);
    }
}

/// One more piece goes behind the others.
pub proof fn lemma_joined_push(list: Seq<Seq<char>>, mark: char, piece: Seq<char>)
    requires
        list.len() > 0,
    ensures
        joined(list.push(piece), mark) == joined(list, mark).push(mark) + piece,
    decreases list.len(),
{
    let longer = list.push(piece);
    if list.len() == 1 {
        reveal_with_fuel(joined, 3);
        assert(longer.drop_first() =~= seq![piece]);
        assert(longer[0] == list[0]);
        assert(joined(longer, mark) =~= joined(list, mark).push(mark) + piece);
    } else {
        lemma_joined_push(list.drop_first(), mark, piece);
        assert(longer.drop_first() =~= list.drop_first().push(piece));
        assert(longer[0] == list[0]);
        assert(joined(longer, mark) =~= joined(list, mark).push(mark) + piece);
    }
}

/// The value of a run of decimal digits.
pub open spec fn value_of_digits(digits: Seq<char>) -> nat
    decreases digits.len(),
{
    if digits.len() == 0 {
        0
    } else {
        value_of_digits(digits.drop_last()) * 10 + (digits.last() as u32 - 0x30) as nat
    }
}

/// A number is written in decimal digits that stand for it, without leading zeros.
pub proof fn lemma_decimal(n: nat)
    ensures
        value_of_digits(decimal(n)) == n,
        decimal(n).len() > 0,
        forall|i: int|
            0 <= i < decimal(n).len() ==> '0' <= #[trigger] decimal(n)[i] && decimal(n)[i] <= '9',
        n > 0 ==> decimal(n)[0] != '0',
    decreases n,
{
    if n < 10 {
        assert(decimal(n).drop_last() =~= Seq::<char>::empty());
        reveal_with_fuel(value_of_digits, 2);
    } else {
        lemma_decimal(n / 10);
        assert(decimal(n).drop_last() =~= decimal(n / 10));
        assert(decimal(n)[0] == decimal(n / 10)[0]);
        assert forall|i: int| 0 <= i < decimal(n).len() implies '0' <= #[trigger] decimal(n)[i]
            && decimal(n)[i] <= '9' by {
            if i < decimal(n / 10).len() {
                assert(decimal(n)[i] == decimal(n / 10)[i]);
            }
        }
    }
}

/// What is written for a number stands for it.
pub proof fn written_number_stands_for_itself(n: u64, out: String)
    requires
        call_ensures(to_decimal, (n,), out),
    ensures
        value_of_digits(out@) == n,
        forall|i: int| 0 <= i < out@.len() ==> '0' <= #[trigger] out@[i] && out@[i] <= '9',
        out@.len() > 0,
        n > 0 ==> out@[0] != '0',
{
    lemma_decimal(n as nat);
}

/// Trimming leaves nothing of white space, and something of everything else.
pub proof fn lemma_blank(s: Seq<char>)
    ensures
        (trimmed(s).len() == 0) == is_blank(s),
{
    if is_blank(s) {
        lemma_trimmed(s, Seq::empty(), Seq::empty());
        assert(s + Seq::<char>::empty() + Seq::<char>::empty() =~= s);
    } else {
        let i = choose|i: int| 0 <= i < s.len() && !is_white_space(#[trigger] s[i]);
        let start = lemma_trimmed_parts(s);
        lemma_kept_by_trimming(s, start, i);
    }
}

proof fn lemma_trim_start_parts(s: Seq<char>) -> (start: int)
    ensures
        0 <= start <= s.len(),
        trim_start(s) == s.subrange(start, s.len() as int),
        forall|i: int| 0 <= i < start ==> is_white_space(#[trigger] s[i]),
    decreases s.len(),
{
    if s.len() > 0 && is_white_space(s[0]) {
        let rest = s.drop_first();
        let inner = lemma_trim_start_parts(rest);
        assert(rest.subrange(inner, rest.len() as int) =~= s.subrange(inner + 1, s.len() as int));
        assert forall|i: int| 0 <= i < inner + 1 implies is_white_space(#[trigger] s[i]) by {
            if i > 0 {
                assert(rest[i - 1] == s[i]);
            }
        }
        inner + 1
    } else {
        assert(s.subrange(0, s.len() as int) =~= s);
        0
    }
}

proof fn lemma_trim_end_parts(s: Seq<char>)
    ensures
        trim_end(s).len() <= s.len(),
        trim_end(s) == s.subrange(0, trim_end(s).len() as int),
        forall|i: int| trim_end(s).len() <= i < s.len() ==> is_white_space(#[trigger] s[i]),
    decreases s.len(),
{
    if s.len() > 0 && is_white_space(s.last()) {
        let front = s.drop_last();
        lemma_trim_end_parts(front);
        let to = trim_end(front).len() as int;
        assert(front.subrange(0, to) =~= s.subrange(0, to));
        assert forall|i: int| to <= i < s.len() implies is_white_space(#[trigger] s[i]) by {
            if i < front.len() {
                assert(front[i] == s[i]);
            }
        }
    } else {
        assert(s.subrange(0, s.len() as int) =~= s);
    }
}

/// Where what trimming leaves starts in the text.
pub proof fn lemma_trimmed_parts(s: Seq<char>) -> (start: int)
    ensures
        0 <= start <= start + trimmed(s).len() <= s.len(),
        trimmed(s) == s.subrange(start, start + trimmed(s).len()),
        forall|i: int| 0 <= i < start ==> is_white_space(#[trigger] s[i]),
        forall|i: int|
            start + trimmed(s).len() <= i < s.len() ==> is_white_space(#[trigger] s[i]),
{
    let start = lemma_trim_start_parts(s);
    let left = trim_start(s);
    lemma_trim_end_parts(left);
    let length = trimmed(s).len() as int;
    assert(left.subrange(0, length) =~= s.subrange(start, start + length));
    assert forall|i: int| start + length <= i < s.len() implies is_white_space(#[trigger] s[i]) by {
        assert(left[i - start] == s[i]);
    }
    start
}

/// Whatever is no white space is left by trimming.
pub proof fn lemma_kept_by_trimming(s: Seq<char>, start: int, i: int)
    requires
        0 <= start <= start + trimmed(s).len() <= s.len(),
        trimmed(s) == s.subrange(start, start + trimmed(s).len()),
        forall|j: int| 0 <= j < start ==> is_white_space(#[trigger] s[j]),
        forall|j: int|
            start + trimmed(s).len() <= j < s.len() ==> is_white_space(#[trigger] s[j]),
        0 <= i < s.len(),
        !is_white_space(s[i]),
    ensures
        start <= i < start + trimmed(s).len(),
        trimmed(s)[i - start] == s[i],
{
}

/// What follows a prefix is found behind it, and a text without the prefix has nothing behind it.
pub proof fn prefix_is_taken_off(
    text: &str,
    prefix: &str,
    rest: Option<&str>,
    found: bool,
    tail: Seq<char>,
)
    requires
        call_ensures(strip_prefix, (text, prefix), rest),
        call_ensures(starts_with, (text, prefix), found),
    ensures
        found == (rest is Some),
        rest is Some ==> text@ == prefix@ + rest->Some_0@,
        text@ == prefix@ + tail ==> rest is Some && rest->Some_0@ == tail,
{
    if rest is Some {
        assert(text@ =~= prefix@ + rest->Some_0@);
    }
    if text@ == prefix@ + tail {
        assert(text@.subrange(0, prefix@.len() as int) =~= prefix@);
        assert(text@.subrange(prefix@.len() as int, text@.len() as int) =~= tail);
    }
}

/// Two texts are joined one behind the other, and compared character by character.
pub proof fn texts_are_joined_and_compared(a: &str, b: &str, both: String, same: bool)
    requires
        call_ensures(join, (a, b), both),
        call_ensures(equal, (a, b), same),
    ensures
        both@.len() == a@.len() + b@.len(),
        forall|i: int| 0 <= i < a@.len() ==> #[trigger] both@[i] == a@[i],
        forall|i: int| 0 <= i < b@.len() ==> both@[a@.len() + i] == #[trigger] b@[i],
        same == (a@.len() == b@.len() && forall|i: int|
            0 <= i < a@.len() ==> #[trigger] a@[i] == b@[i]),
{
    if a@.len() == b@.len() && forall|i: int| 0 <= i < a@.len() ==> #[trigger] a@[i] == b@[i] {
        assert(a@ =~= b@);
    }
}

/// Whether `s` ends with `tail`.
pub open spec fn ends_with(s: Seq<char>, tail: Seq<char>) -> bool {
    tail.len() <= s.len() && s.subrange(s.len() - tail.len(), s.len() as int) == tail
}

/// What is put behind a text is what it ends with.
pub proof fn lemma_ends_with(s: Seq<char>, tail: Seq<char>)
    ensures
        ends_with(s + tail, tail),
{
    let whole = s + tail;
    assert(whole.subrange(whole.len() - tail.len(), whole.len() as int) =~= tail);
}

/// No piece holds a separator.
pub proof fn lemma_pieces_hold_no_separator(s: Seq<char>, sep: Separator)
    ensures
        pieces(s, sep).len() > 0,
        forall|i: int, j: int|
            0 <= i < pieces(s, sep).len() && 0 <= j < pieces(s, sep)[i].len() ==> !sep.splits(
                #[trigger] pieces(s, sep)[i][j],
            ),
    decreases s.len(),
{
    lemma_first_cut_bounds(s, sep);
    if let Some((head, tail)) = cut(s, sep) {
        lemma_pieces_hold_no_separator(tail, sep);
        let rest = pieces(tail, sep);
        assert forall|i: int, j: int|
            0 <= i < pieces(s, sep).len() && 0 <= j < pieces(s, sep)[i].len() implies !sep.splits(
            #[trigger] pieces(s, sep)[i][j],
        ) by {
            if i == 0 {
                assert(pieces(s, sep)[0] == head);
                assert(head[j] == s[j]);
            } else {
                assert(pieces(s, sep)[i] == rest[i - 1]);
                assert(!sep.splits(rest[i - 1][j]));
            }
        }
    } else {
        assert(pieces(s, sep)[0] == s);
    }
}

/// What is kept of a list is not empty, and was in the list.
pub proof fn lemma_non_empty_members(list: Seq<Seq<char>>)
    ensures
        forall|i: int|
            0 <= i < non_empty(list).len() ==> (#[trigger] non_empty(list)[i]).len() > 0
                && list.contains(non_empty(list)[i]),
    decreases list.len(),
{
    reveal(Seq::filter);
    if list.len() > 0 {
        let front = list.drop_last();
        lemma_non_empty_members(front);
        assert forall|i: int| 0 <= i < non_empty(list).len() implies (
        #[trigger] non_empty(list)[i]).len() > 0 && list.contains(non_empty(list)[i]) by {
            if i < non_empty(front).len() {
                assert(non_empty(list)[i] == non_empty(front)[i]);
                let k = choose|k: int|
                    0 <= k < front.len() && front[k] == non_empty(front)[i];
                assert(list[k] == front[k]);
            } else {
                assert(non_empty(list)[i] == list.last());
                assert(list[list.len() - 1] == list.last());
            }
        }
    }
}

/// A character that a text does not hold is in none of its pieces.
pub proof fn lemma_pieces_are_parts(s: Seq<char>, sep: Separator)
    ensures
        forall|c: char, i: int|
            0 <= i < pieces(s, sep).len() && !s.contains(c) ==> !(#[trigger] pieces(
                s,
                sep,
            )[i].contains(c)),
    decreases s.len(),
{
    lemma_first_cut_bounds(s, sep);
    if let Some((head, tail)) = cut(s, sep) {
        lemma_pieces_are_parts(tail, sep);
        let rest = pieces(tail, sep);
        let at = first_cut(s, sep);
        assert forall|c: char, i: int| 0 <= i < pieces(s, sep).len() && !s.contains(c) implies !(
        #[trigger] pieces(s, sep)[i].contains(c)) by {
            if i == 0 {
                assert(pieces(s, sep)[0] == head);
                if head.contains(c) {
                    let j = choose|j: int| 0 <= j < head.len() && head[j] == c;
                    assert(s[j] == c);
                }
            } else {
                assert(pieces(s, sep)[i] == rest[i - 1]);
                if tail.contains(c) {
                    let j = choose|j: int| 0 <= j < tail.len() && tail[j] == c;
                    assert(s[at + 1 + j] == c);
                }
                assert(!rest[i - 1].contains(c));
            }
        }
    } else {
        assert(pieces(s, sep)[0] == s);
    }
}

/// White space is what Unicode calls so, and a control character is one below the blank, or the
/// deletion mark or one of the thirty-two behind it.
pub proof fn characters_are_classed_by_unicode(c: char, blank: bool, text: &str, control: bool)
    requires
        call_ensures(white_space, (c,), blank),
        call_ensures(has_control, (text,), control),
    ensures
        blank == ('\t' <= c <= '\r' || c == ' ' || c == '\u{85}' || c == '\u{a0}' || c == '\u{1680}'
            || '\u{2000}' <= c <= '\u{200a}' || c == '\u{2028}' || c == '\u{2029}' || c
            == '\u{202f}' || c == '\u{205f}' || c == '\u{3000}'),
        control == exists|i: int|
            0 <= i < text@.len() && ((#[trigger] text@[i]) < ' ' || '\u{7f}' <= text@[i]
                <= '\u{9f}'),
{
    assert forall|i: int| 0 <= i < text@.len() implies is_control(#[trigger] text@[i]) == (text@[i]
        < ' ' || '\u{7f}' <= text@[i] <= '\u{9f}') by {
        lemma_control(text@[i]);
    }
    if control {
        let i = choose|i: int| 0 <= i < text@.len() && is_control(#[trigger] text@[i]);
        assert(text@[i] < ' ' || '\u{7f}' <= text@[i] <= '\u{9f}');
    } else {
        assert forall|i: int| 0 <= i < text@.len() implies !((#[trigger] text@[i]) < ' '
            || '\u{7f}' <= text@[i] <= '\u{9f}') by {
            assert(!is_control(text@[i]));
        }
    }
}

/// A control character is known by its place.
pub proof fn lemma_control(c: char)
    ensures
        is_control(c) == (c < ' ' || '\u{7f}' <= c <= '\u{9f}'),
{
}

/// A character is taken off the end of a text as often as it stands there.
pub proof fn trailing_characters_are_taken_off(text: &str, c: char, rest: &str)
    requires
        call_ensures(trim_end_matches, (text, c), rest),
    ensures
        rest@.len() <= text@.len() && rest@ == text@.subrange(0, rest@.len() as int),
        rest@.len() > 0 ==> rest@.last() != c,
        forall|i: int| rest@.len() <= i < text@.len() ==> #[trigger] text@[i] == c,
{
    lemma_trailing(text@, c);
}

proof fn lemma_trailing(s: Seq<char>, c: char)
    ensures
        without_trailing(s, c).len() <= s.len(),
        without_trailing(s, c) == s.subrange(0, without_trailing(s, c).len() as int),
        without_trailing(s, c).len() > 0 ==> without_trailing(s, c).last() != c,
        forall|i: int| without_trailing(s, c).len() <= i < s.len() ==> #[trigger] s[i] == c,
    decreases s.len(),
{
    if s.len() > 0 && s.last() == c {
        lemma_trailing(s.drop_last(), c);
        let kept = without_trailing(s, c);
        assert(s.drop_last().subrange(0, kept.len() as int) =~= s.subrange(0, kept.len() as int));
        assert forall|i: int| kept.len() <= i < s.len() implies #[trigger] s[i] == c by {
            if i < s.len() - 1 {
                assert(s.drop_last()[i] == s[i]);
            }
        }
    } else {
        assert(s =~= s.subrange(0, s.len() as int));
    }
}

/// The pieces of two texts with a separator between them are those of the one and of the other.
pub proof fn lemma_pieces_of_two(head: Seq<char>, mark: char, tail: Seq<char>, sep: Separator)
    requires
        sep.splits(mark),
    ensures
        pieces(head.push(mark) + tail, sep) == pieces(head, sep) + pieces(tail, sep),
    decreases head.len(),
{
    lemma_first_cut_bounds(head, sep);
    let at = first_cut(head, sep);
    let whole = head.push(mark) + tail;
    if at < head.len() {
        let first = head.subrange(0, at);
        let rest = head.subrange(at + 1, head.len() as int);
        assert forall|i: int| 0 <= i < first.len() implies !sep.splits(#[trigger] first[i]) by {
            assert(first[i] == head[i]);
        }
        assert(whole =~= first.push(head[at]) + (rest.push(mark) + tail));
        lemma_cut(first, head[at], rest.push(mark) + tail, sep);
        lemma_pieces_of_two(rest, mark, tail, sep);
        assert(seq![first] + (pieces(rest, sep) + pieces(tail, sep)) =~= (seq![first] + pieces(
            rest,
            sep,
        )) + pieces(tail, sep));
    } else {
        lemma_cut(head, mark, tail, sep);
        assert(pieces(head, sep) == seq![head]);
    }
}

/// What is kept of two lists is what is kept of the one and of the other.
pub proof fn lemma_non_empty_of_two(one: Seq<Seq<char>>, two: Seq<Seq<char>>)
    ensures
        non_empty(one + two) == non_empty(one) + non_empty(two),
    decreases two.len(),
{
    reveal(Seq::filter);
    if two.len() > 0 {
        lemma_non_empty_of_two(one, two.drop_last());
        assert((one + two).drop_last() =~= one + two.drop_last());
        assert((one + two).last() == two.last());
        assert(non_empty(one + two) =~= non_empty(one) + non_empty(two));
    } else {
        assert(one + two =~= one);
        assert(non_empty(one + two) =~= non_empty(one) + non_empty(two));
    }
}

} // verus!
