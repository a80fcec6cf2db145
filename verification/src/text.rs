//! Character-level scanning: white space, tokens and line ends.
//!
//! Every scan is defined as "the first index at or after a starting point at
//! which something holds, or the length when it holds nowhere". The recursive
//! definitions say that directly; the `lemma_*` functions restate each of them
//! with quantifiers.

use vstd::prelude::*;
use vstd::utf8::*;

verus! {

/// The characters with the Unicode property `White_Space`.
pub open spec fn is_whitespace(c: char) -> bool {
    let u = c as u32;
    ||| 0x09 <= u <= 0x0D
    ||| u == 0x20
    ||| u == 0x85
    ||| u == 0xA0
    ||| u == 0x1680
    ||| 0x2000 <= u <= 0x200A
    ||| u == 0x2028
    ||| u == 0x2029
    ||| u == 0x202F
    ||| u == 0x205F
    ||| u == 0x3000
}

/// Tells whether `c` is white space.
pub fn whitespace(c: char) -> (b: bool)
    ensures
        b == is_whitespace(c),
{
    let u: u32 = c as u32;
    (0x09 <= u && u <= 0x0D) || u == 0x20 || u == 0x85 || u == 0xA0 || u == 0x1680 || (0x2000 <= u
        && u <= 0x200A) || u == 0x2028 || u == 0x2029 || u == 0x202F || u == 0x205F || u == 0x3000
}

/// The first index at or after `from` that holds white space; `s.len()` when
/// there is none.
pub open spec fn first_space(s: Seq<char>, from: int) -> int
    recommends
        0 <= from,
    decreases s.len() - from,
{
    if from < 0 || from >= s.len() {
        s.len() as int
    } else if is_whitespace(s[from]) {
        from
    } else {
        first_space(s, from + 1)
    }
}

/// The first index at or after `from` that holds something other than white
/// space; `s.len()` when there is none.
pub open spec fn first_non_space(s: Seq<char>, from: int) -> int
    recommends
        0 <= from,
    decreases s.len() - from,
{
    if from < 0 || from >= s.len() {
        s.len() as int
    } else if !is_whitespace(s[from]) {
        from
    } else {
        first_non_space(s, from + 1)
    }
}

/// The token that begins at or after `from`, as the pair of its first index
/// and the index just past its last character. A token is a longest run of
/// characters that are not white space.
pub open spec fn token_at(s: Seq<char>, from: int) -> Option<(int, int)>
    recommends
        0 <= from,
{
    let start = first_non_space(s, from);
    if start < s.len() {
        Some((start, first_space(s, start)))
    } else {
        None
    }
}

/// A carriage return at `i` with a line feed right after it.
pub open spec fn crlf_at(s: Seq<char>, i: int) -> bool {
    0 <= i && i + 1 < s.len() && s[i] == '\r' && s[i + 1] == '\n'
}

/// The first index at or after `from` at which a CRLF pair begins; `s.len()`
/// when there is none.
pub open spec fn first_crlf(s: Seq<char>, from: int) -> int
    recommends
        0 <= from,
    decreases s.len() - from,
{
    if from < 0 || from + 1 >= s.len() {
        s.len() as int
    } else if crlf_at(s, from) {
        from
    } else {
        first_crlf(s, from + 1)
    }
}

/// `first_space` is the least index from `from` on that holds white space.
pub proof fn lemma_first_space(s: Seq<char>, from: int)
    requires
        0 <= from <= s.len(),
    ensures
        from <= first_space(s, from) <= s.len(),
        forall|i: int| from <= i < first_space(s, from) ==> !is_whitespace(#[trigger] s[i]),
        first_space(s, from) < s.len() ==> is_whitespace(s[first_space(s, from)]),
    decreases s.len() - from,
{
    if from < s.len() && !is_whitespace(s[from]) {
        lemma_first_space(s, from + 1);
    }
}

/// `first_non_space` is the least index from `from` on that holds something
/// other than white space.
pub proof fn lemma_first_non_space(s: Seq<char>, from: int)
    requires
        0 <= from <= s.len(),
    ensures
        from <= first_non_space(s, from) <= s.len(),
        forall|i: int| from <= i < first_non_space(s, from) ==> is_whitespace(#[trigger] s[i]),
        first_non_space(s, from) < s.len() ==> !is_whitespace(s[first_non_space(s, from)]),
    decreases s.len() - from,
{
    if from < s.len() && is_whitespace(s[from]) {
        lemma_first_non_space(s, from + 1);
    }
}

/// `first_crlf` is the least index from `from` on at which a CRLF pair begins.
pub proof fn lemma_first_crlf(s: Seq<char>, from: int)
    requires
        0 <= from <= s.len(),
    ensures
        from <= first_crlf(s, from) <= s.len(),
        forall|i: int| from <= i < first_crlf(s, from) ==> !crlf_at(s, i),
        first_crlf(s, from) < s.len() ==> crlf_at(s, first_crlf(s, from)),
        first_crlf(s, from) == s.len() ==> forall|i: int| from <= i ==> !crlf_at(s, i),
    decreases s.len() - from,
{
    if from + 1 < s.len() && !crlf_at(s, from) {
        lemma_first_crlf(s, from + 1);
    }
}

/// A token is never empty, holds no white space, is preceded only by white
/// space and ends at white space or at the end of the text.
pub proof fn lemma_token_at(s: Seq<char>, from: int)
    requires
        0 <= from <= s.len(),
    ensures
        match token_at(s, from) {
            Some((start, end)) => {
                &&& from <= start < end <= s.len()
                &&& forall|i: int| from <= i < start ==> is_whitespace(#[trigger] s[i])
                &&& forall|i: int| start <= i < end ==> !is_whitespace(#[trigger] s[i])
                &&& end < s.len() ==> is_whitespace(s[end])
            },
            None => forall|i: int| from <= i < s.len() ==> is_whitespace(#[trigger] s[i]),
        },
{
    lemma_first_non_space(s, from);
    let start = first_non_space(s, from);
    if start < s.len() {
        lemma_first_space(s, start);
    }
}

/// Finds the first white space at or after `from`.
pub fn find_space(chars: &[char], from: usize) -> (at: usize)
    ensures
        at == first_space(chars@, from as int),
{
    let mut i: usize = from;
    while i < chars.len() && !whitespace(chars[i])
        invariant
            from <= i,
            first_space(chars@, from as int) == first_space(chars@, i as int),
        decreases chars.len() - i,
    {
        i = i + 1;
    }
    if i >= chars.len() {
        chars.len()
    } else {
        i
    }
}

/// Finds the first character at or after `from` that is not white space.
pub fn find_non_space(chars: &[char], from: usize) -> (at: usize)
    ensures
        at == first_non_space(chars@, from as int),
{
    let mut i: usize = from;
    while i < chars.len() && whitespace(chars[i])
        invariant
            from <= i,
            first_non_space(chars@, from as int) == first_non_space(chars@, i as int),
        decreases chars.len() - i,
    {
        i = i + 1;
    }
    if i >= chars.len() {
        chars.len()
    } else {
        i
    }
}

/// Finds the token that begins at or after `from`.
pub fn next_token(chars: &[char], from: usize) -> (span: Option<(usize, usize)>)
    ensures
        match span {
            Some((start, end)) => token_at(chars@, from as int) == Some((start as int, end as int)),
            None => token_at(chars@, from as int) is None,
        },
{
    let start = find_non_space(chars, from);
    if start < chars.len() {
        Some((start, find_space(chars, start)))
    } else {
        None
    }
}

/// Finds the first CRLF pair at or after `from`.
pub fn find_crlf(chars: &[char], from: usize) -> (at: usize)
    ensures
        at == first_crlf(chars@, from as int),
{
    let n = chars.len();
    let mut i: usize = from;
    while i < n && n - i >= 2 && !(chars[i] == '\r' && chars[i + 1] == '\n')
        invariant
            n == chars@.len(),
            from <= i,
            first_crlf(chars@, from as int) == first_crlf(chars@, i as int),
        decreases n - i,
    {
        i = i + 1;
    }
    if i < n && n - i >= 2 {
        i
    } else {
        n
    }
}

/// The characters of `text`, one by one.
pub fn chars_of(text: &str) -> (chars: Vec<char>)
    ensures
        chars@ == text@,
{
    broadcast use vstd::string::group_string_axioms;

    let mut chars: Vec<char> = Vec::new();
    for c in it: text.chars()
        invariant
            chars@.len() == it.index(),
            forall|i: int| 0 <= i < chars@.len() ==> chars@[i] == it.seq()[i],
    {
        chars.push(c);
    }
    chars
}

/// Tells whether two strings hold the same characters.
pub fn same_text(a: &str, b: &str) -> (same: bool)
    ensures
        same == (a@ == b@),
{
    let x = a.as_bytes();
    let y = b.as_bytes();
    proof {
        encode_utf8_decode_utf8(a@);
        encode_utf8_decode_utf8(b@);
    }
    if x.len() != y.len() {
        return false;
    }
    let mut i: usize = 0;
    while i < x.len()
        invariant
            i <= x@.len(),
            x@.len() == y@.len(),
            x@ == encode_utf8(a@),
            y@ == encode_utf8(b@),
            forall|k: int| 0 <= k < i ==> x@[k] == y@[k],
        decreases x.len() - i,
    {
        if x[i] != y[i] {
            assert(x@[i as int] != y@[i as int]);
            return false;
        }
        i = i + 1;
    }
    assert(x@ =~= y@);
    true
}

} // verus!
