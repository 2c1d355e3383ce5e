//! Reading and cutting of text, character by character.

use vstd::prelude::*;

verus! {

/// The text without the slashes at its end.
pub open spec fn without_trailing_slashes(s: Seq<char>) -> Seq<char>
    decreases s.len(),
{
    if s.len() > 0 && s.last() == '/' {
        without_trailing_slashes(s.drop_last())
    } else {
        s
    }
}

/// The characters that Unicode gives the property `White_Space`.
pub open spec fn is_white_space(c: char) -> bool {
    ||| '\u{9}' <= c <= '\u{d}'
    ||| c == '\u{20}'
    ||| c == '\u{85}'
    ||| c == '\u{a0}'
    ||| c == '\u{1680}'
    ||| '\u{2000}' <= c <= '\u{200a}'
    ||| c == '\u{2028}'
    ||| c == '\u{2029}'
    ||| c == '\u{202f}'
    ||| c == '\u{205f}'
    ||| c == '\u{3000}'
}

/// The text without the white space at its end.
pub open spec fn without_trailing_space(s: Seq<char>) -> Seq<char>
    decreases s.len(),
{
    if s.len() > 0 && is_white_space(s.last()) {
        without_trailing_space(s.drop_last())
    } else {
        s
    }
}

/// The text without the white space at its start.
pub open spec fn without_leading_space(s: Seq<char>) -> Seq<char>
    decreases s.len(),
{
    if s.len() > 0 && is_white_space(s.first()) {
        without_leading_space(s.drop_first())
    } else {
        s
    }
}

/// The text without the white space at either end.
pub open spec fn trimmed(s: Seq<char>) -> Seq<char> {
    without_trailing_space(without_leading_space(s))
}

/// What stands behind the first `c`, where there is one.
pub open spec fn after_first(s: Seq<char>, c: char) -> Option<Seq<char>> {
    match s.index_of_first(c) {
        Some(i) => Some(s.skip(i + 1)),
        None => None,
    }
}

/// What stands before the first `c`: everything where there is none.
pub open spec fn before_first(s: Seq<char>, c: char) -> Seq<char> {
    match s.index_of_first(c) {
        Some(i) => s.take(i),
        None => s,
    }
}

/// The second of the pieces into which `c` divides the text.
pub open spec fn second_piece(s: Seq<char>, c: char) -> Option<Seq<char>> {
    match after_first(s, c) {
        Some(rest) => Some(before_first(rest, c)),
        None => None,
    }
}

/// The character with an ASCII capital made small.
pub open spec fn ascii_lower(c: char) -> char {
    if 'A' <= c <= 'Z' {
        (c as u32 + 32) as char
    } else {
        c
    }
}

/// The text with its ASCII capitals made small.
pub open spec fn ascii_lowercase(s: Seq<char>) -> Seq<char> {
    s.map_values(|c: char| ascii_lower(c))
}

/// `needle` stands in `s` from position `at` on.
pub open spec fn occurs_at(s: Seq<char>, needle: Seq<char>, at: int) -> bool {
    &&& 0 <= at
    &&& at + needle.len() <= s.len()
    &&& s.subrange(at, at + needle.len()) == needle
}

/// `needle` stands somewhere in `s`.
pub open spec fn occurs_in(s: Seq<char>, needle: Seq<char>) -> bool {
    exists|at: int| occurs_at(s, needle, at)
}

/// The first `limit` characters, or the whole text where it is shorter.
pub open spec fn excerpt(s: Seq<char>, limit: nat) -> Seq<char> {
    if s.len() <= limit {
        s
    } else {
        s.take(limit as int)
    }
}

/// The characters of a text that may be missing.
pub open spec fn optional_text(text: Option<String>) -> Option<Seq<char>> {
    match text {
        Some(text) => Some(text@),
        None => None,
    }
}

/// The characters of the text.
fn chars_of(s: &str) -> (chars: Vec<char>)
    ensures
        chars@ == s@,
{
    let mut chars: Vec<char> = Vec::new();
    for c in iter: s.chars()
        invariant
            iter.seq() == s@,
            chars@ == s@.take(iter.index()),
    {
        chars.push(c);
    }
    assert(s@.take(s@.len() as int) == s@);
    chars
}

/// Cuts the slashes off the end of the text.
pub fn trim_end_slashes(s: &str) -> (r: &str)
    ensures
        r@ == without_trailing_slashes(s@),
{
    let chars = chars_of(s);
    let mut end: usize = chars.len();
    assert(s@.take(end as int) == s@);
    while end > 0 && chars[end - 1] == '/'
        invariant
            chars@ == s@,
            end <= s@.len(),
            without_trailing_slashes(s@.take(end as int)) == without_trailing_slashes(s@),
        decreases end,
    {
        assert(s@.take(end as int).drop_last() == s@.take(end - 1));
        end = end - 1;
    }
    assert(s@.take(end as int) == s@.subrange(0, end as int));
    s.substring_char(0, end)
}

/// Tells whether Unicode gives the character the property `White_Space`.
pub fn char_is_white_space(c: char) -> (r: bool)
    ensures
        r == is_white_space(c),
{
    ('\u{9}' <= c && c <= '\u{d}') || c == '\u{20}' || c == '\u{85}' || c == '\u{a0}'
        || c == '\u{1680}' || ('\u{2000}' <= c && c <= '\u{200a}') || c == '\u{2028}'
        || c == '\u{2029}' || c == '\u{202f}' || c == '\u{205f}' || c == '\u{3000}'
}

/// Cuts the white space off both ends of the text.
pub fn trim(s: &str) -> (r: &str)
    ensures
        r@ == trimmed(s@),
{
    let chars = chars_of(s);
    let len: usize = chars.len();
    let mut start: usize = 0;
    assert(s@.skip(0) == s@);
    while start < len && char_is_white_space(chars[start])
        invariant
            chars@ == s@,
            len == s@.len(),
            start <= len,
            without_leading_space(s@.skip(start as int)) == without_leading_space(s@),
        decreases len - start,
    {
        assert(s@.skip(start as int).drop_first() == s@.skip(start + 1));
        start = start + 1;
    }
    let ghost rest = s@.skip(start as int);
    assert(without_leading_space(s@) == rest);
    let mut end: usize = len;
    assert(s@.subrange(start as int, end as int) == rest);
    while end > start && char_is_white_space(chars[end - 1])
        invariant
            chars@ == s@,
            start <= end <= s@.len(),
            without_trailing_space(s@.subrange(start as int, end as int))
                == without_trailing_space(rest),
        decreases end,
    {
        assert(s@.subrange(start as int, end as int).drop_last() == s@.subrange(
            start as int,
            end - 1,
        ));
        end = end - 1;
    }
    s.substring_char(start, end)
}

/// Tells whether the text begins with `prefix`.
pub fn starts_with(s: &str, prefix: &str) -> (r: bool)
    ensures
        r == prefix@.is_prefix_of(s@),
{
    let n: usize = prefix.unicode_len();
    if s.unicode_len() < n {
        return false;
    }
    let head = s.substring_char(0, n);
    assert(s@.take(n as int) == s@.subrange(0, n as int));
    same_text(head, prefix)
}

/// Tells whether two texts hold the same characters.
pub fn same_text(a: &str, b: &str) -> (r: bool)
    ensures
        r == (a@ == b@),
{
    let left = chars_of(a);
    let right = chars_of(b);
    if left.len() != right.len() {
        return false;
    }
    let mut i: usize = 0;
    while i < left.len()
        invariant
            left@ == a@,
            right@ == b@,
            left@.len() == right@.len(),
            i <= left@.len(),
            forall|j: int| 0 <= j < i ==> left@[j] == right@[j],
        decreases left@.len() - i,
    {
        if left[i] != right[i] {
            assert(a@[i as int] != b@[i as int]);
            return false;
        }
        i = i + 1;
    }
    assert(a@ == b@);
    true
}

/// The position of the first `c` in the characters.
fn position_of(chars: &Vec<char>, c: char) -> (r: Option<usize>)
    ensures
        match r {
            Some(i) => chars@.index_of_first(c) == Some(i as int) && i < chars@.len(),
            None => chars@.index_of_first(c) is None,
        },
{
    proof {
        chars@.index_of_first_ensures(c);
    }
    let mut i: usize = 0;
    while i < chars.len()
        invariant
            i <= chars@.len(),
            forall|j: int| 0 <= j < i ==> chars@[j] != c,
            match chars@.index_of_first(c) {
                Some(k) => 0 <= k < chars@.len() && chars@[k] == c && forall|j: int|
                    0 <= j < k ==> chars@[j] != c,
                None => !chars@.contains(c),
            },
        decreases chars@.len() - i,
    {
        if chars[i] == c {
            assert(chars@.contains(c));
            return Some(i);
        }
        i = i + 1;
    }
    None
}

/// Gives what stands behind the first `c`, where there is one.
pub fn split_after(s: &str, c: char) -> (r: Option<&str>)
    ensures
        match r {
            Some(rest) => after_first(s@, c) == Some(rest@),
            None => after_first(s@, c) is None,
        },
{
    let chars = chars_of(s);
    let len: usize = chars.len();
    match position_of(&chars, c) {
        Some(i) => {
            let rest = s.substring_char(i + 1, len);
            assert(rest@ == s@.skip(i + 1));
            Some(rest)
        },
        None => None,
    }
}

/// Gives what stands before the first `c`, or everything where there is none.
pub fn split_before(s: &str, c: char) -> (r: &str)
    ensures
        r@ == before_first(s@, c),
{
    let chars = chars_of(s);
    match position_of(&chars, c) {
        Some(i) => {
            let head = s.substring_char(0, i);
            assert(head@ == s@.take(i as int));
            head
        },
        None => s,
    }
}

/// Gives the second of the pieces into which `c` divides the text.
pub fn second_of(s: &str, c: char) -> (r: Option<&str>)
    ensures
        match r {
            Some(piece) => second_piece(s@, c) == Some(piece@),
            None => second_piece(s@, c) is None,
        },
{
    match split_after(s, c) {
        Some(rest) => Some(split_before(rest, c)),
        None => None,
    }
}

/// Makes an ASCII capital small.
fn lower_char(c: char) -> (r: char)
    ensures
        r == ascii_lower(c),
{
    if 'A' <= c && c <= 'Z' {
        (c as u8 + 32) as char
    } else {
        c
    }
}

/// Tells whether the pattern stands somewhere in the characters.
fn occurs(chars: &Vec<char>, pattern: &Vec<char>) -> (r: bool)
    ensures
        r == occurs_in(chars@, pattern@),
{
    let n: usize = chars.len();
    let m: usize = pattern.len();
    if n < m {
        assert(forall|at: int| !occurs_at(chars@, pattern@, at));
        return false;
    }
    let mut at: usize = 0;
    while at <= n - m
        invariant
            n == chars@.len(),
            m == pattern@.len(),
            m <= n,
            at <= n - m + 1,
            forall|k: int| 0 <= k < at ==> !occurs_at(chars@, pattern@, k),
        decreases n - m + 1 - at,
    {
        let mut i: usize = 0;
        while i < m && chars[at + i] == pattern[i]
            invariant
                n == chars@.len(),
                m == pattern@.len(),
                m <= n,
                at <= n - m,
                i <= m,
                forall|k: int| 0 <= k < i ==> chars@[at + k] == pattern@[k],
            decreases m - i,
        {
            i = i + 1;
        }
        if i == m {
            assert(chars@.subrange(at as int, at + pattern@.len()) == pattern@);
            assert(occurs_at(chars@, pattern@, at as int));
            return true;
        }
        assert(!occurs_at(chars@, pattern@, at as int)) by {
            assert(chars@.subrange(at as int, at + pattern@.len())[i as int] == chars@[at + i]);
        }
        at = at + 1;
    }
    assert(forall|k: int| !occurs_at(chars@, pattern@, k));
    false
}

/// Tells whether `needle` stands in the text.
pub fn contains_text(s: &str, needle: &str) -> (r: bool)
    ensures
        r == occurs_in(s@, needle@),
{
    occurs(&chars_of(s), &chars_of(needle))
}

/// Tells whether `needle` stands in the text once the text's ASCII capitals are made small.
pub fn contains_lowercased(s: &str, needle: &str) -> (r: bool)
    ensures
        r == occurs_in(ascii_lowercase(s@), needle@),
{
    let mut lower: Vec<char> = Vec::new();
    for c in iter: s.chars()
        invariant
            iter.seq() == s@,
            lower@ == ascii_lowercase(s@).take(iter.index()),
    {
        lower.push(lower_char(c));
    }
    assert(ascii_lowercase(s@).take(s@.len() as int) == ascii_lowercase(s@));
    occurs(&lower, &chars_of(needle))
}

/// Gives the first `limit` characters, or the whole text where it is shorter.
pub fn take_chars(s: &str, limit: usize) -> (r: String)
    ensures
        r@ == excerpt(s@, limit as nat),
{
    if s.unicode_len() <= limit {
        s.to_owned()
    } else {
        let head = s.substring_char(0, limit);
        assert(head@ == s@.take(limit as int));
        head.to_owned()
    }
}

} // verus!
