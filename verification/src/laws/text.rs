//! What the cutting and the searching of text come to.

use crate::text::{
    after_first, ascii_lowercase, before_first, excerpt, is_white_space, occurs_at, occurs_in,
    second_piece, trimmed, without_leading_space, without_trailing_slashes, without_trailing_space,
};
use vstd::prelude::*;

verus! {

/// Every character of the text is white space.
pub open spec fn all_white_space(s: Seq<char>) -> bool {
    forall|i: int| 0 <= i < s.len() ==> is_white_space(#[trigger] s[i])
}

/// Every character of the text is a slash.
pub open spec fn all_slashes(s: Seq<char>) -> bool {
    forall|i: int| 0 <= i < s.len() ==> #[trigger] s[i] == '/'
}

/// What is cut off the end of an address are slashes, and none is left.
pub proof fn only_slashes_are_cut(s: Seq<char>)
    ensures
        ({
            let kept = without_trailing_slashes(s);
            &&& kept.len() <= s.len()
            &&& kept == s.take(kept.len() as int)
            &&& all_slashes(s.skip(kept.len() as int))
            &&& kept.len() > 0 ==> kept.last() != '/'
        }),
    decreases s.len(),
{
    if s.len() > 0 && s.last() == '/' {
        let shorter = s.drop_last();
        only_slashes_are_cut(shorter);
        let n = without_trailing_slashes(shorter).len() as int;
        assert(shorter.take(n) == s.take(n));
        assert forall|i: int| 0 <= i < s.skip(n).len() implies #[trigger] s.skip(n)[i] == '/' by {
            if i < shorter.skip(n).len() {
                assert(shorter.skip(n)[i] == s.skip(n)[i]);
            } else {
                assert(s.skip(n)[i] == s.last());
            }
        }
    } else {
        assert(s.take(s.len() as int) == s);
    }
}

/// An address that ends in no slash comes out whole, however many slashes are put behind it.
pub proof fn addresses_come_out_whole(base: Seq<char>, cut: Seq<char>)
    requires
        base.len() == 0 || base.last() != '/',
        all_slashes(cut),
    ensures
        without_trailing_slashes(base + cut) == base,
    decreases cut.len(),
{
    let s = base + cut;
    if cut.len() == 0 {
        assert(s == base);
    } else {
        assert(s.last() == cut.last());
        assert(cut.last() == '/');
        assert(s.drop_last() == base + cut.drop_last());
        assert(all_slashes(cut.drop_last()));
        addresses_come_out_whole(base, cut.drop_last());
    }
}

proof fn lemma_leading_space(lead: Seq<char>, rest: Seq<char>)
    requires
        all_white_space(lead),
        rest.len() == 0 || !is_white_space(rest.first()),
    ensures
        without_leading_space(lead + rest) == rest,
    decreases lead.len(),
{
    let s = lead + rest;
    if lead.len() == 0 {
        assert(s == rest);
    } else {
        assert(s.first() == lead[0]);
        assert(s.drop_first() == lead.drop_first() + rest);
        assert(all_white_space(lead.drop_first()));
        lemma_leading_space(lead.drop_first(), rest);
    }
}

proof fn lemma_trailing_space(rest: Seq<char>, trail: Seq<char>)
    requires
        all_white_space(trail),
        rest.len() == 0 || !is_white_space(rest.last()),
    ensures
        without_trailing_space(rest + trail) == rest,
    decreases trail.len(),
{
    let s = rest + trail;
    if trail.len() == 0 {
        assert(s == rest);
    } else {
        assert(s.last() == trail.last());
        assert(is_white_space(trail[trail.len() - 1]));
        assert(s.drop_last() == rest + trail.drop_last());
        assert(all_white_space(trail.drop_last()));
        lemma_trailing_space(rest, trail.drop_last());
    }
}

/// A text with no white space at its ends comes out whole, whatever white space is put around it.
pub proof fn trimming_keeps_what_is_inside(lead: Seq<char>, text: Seq<char>, trail: Seq<char>)
    requires
        all_white_space(lead),
        all_white_space(trail),
        text.len() == 0 || (!is_white_space(text.first()) && !is_white_space(text.last())),
    ensures
        trimmed(lead + text + trail) == text,
{
    let s = lead + text + trail;
    if text.len() == 0 {
        let space = lead + trail;
        let none = Seq::<char>::empty();
        assert(s == space + none);
        assert(all_white_space(space));
        lemma_leading_space(space, none);
        lemma_trailing_space(none, none);
        assert(none + none == none);
        assert(text == none);
    } else {
        let rest = text + trail;
        assert(s == lead + rest);
        assert(rest.first() == text.first());
        lemma_leading_space(lead, rest);
        lemma_trailing_space(text, trail);
    }
}

proof fn lemma_first_position(a: Seq<char>, c: char, b: Seq<char>)
    requires
        !a.contains(c),
    ensures
        (a + seq![c] + b).index_of_first(c) == Some(a.len() as int),
{
    let s = a + seq![c] + b;
    s.index_of_first_ensures(c);
    assert(s[a.len() as int] == c);
    assert(s.contains(c));
    assert forall|k: int| 0 <= k < a.len() implies s[k] != c by {
        assert(s[k] == a[k]);
    }
}

/// A text is cut at the first mark: all that stands before it, and all that stands behind it.
pub proof fn text_is_cut_at_the_first_mark(a: Seq<char>, c: char, b: Seq<char>)
    requires
        !a.contains(c),
    ensures
        before_first(a + seq![c] + b, c) == a,
        after_first(a + seq![c] + b, c) == Some(b),
        before_first(a, c) == a,
        after_first(a, c) is None,
{
    let s = a + seq![c] + b;
    lemma_first_position(a, c, b);
    assert(s.take(a.len() as int) == a);
    assert(s.skip((a.len() + 1) as int) == b);
    a.index_of_first_ensures(c);
}

/// The second piece is all that stands between the first two marks, or behind the only one.
pub proof fn second_piece_stands_between_marks(
    a: Seq<char>,
    c: char,
    b: Seq<char>,
    rest: Seq<char>,
)
    requires
        !a.contains(c),
        !b.contains(c),
    ensures
        second_piece(a + seq![c] + b + seq![c] + rest, c) == Some(b),
        second_piece(a + seq![c] + b, c) == Some(b),
        second_piece(a, c) is None,
{
    let tail = b + seq![c] + rest;
    assert(a + seq![c] + b + seq![c] + rest == a + seq![c] + tail);
    text_is_cut_at_the_first_mark(a, c, tail);
    text_is_cut_at_the_first_mark(b, c, rest);
    text_is_cut_at_the_first_mark(a, c, b);
}

/// A needle stands in a text if and only if the text is the needle with something before and
/// something behind it.
pub proof fn needles_stand_between_texts(s: Seq<char>, needle: Seq<char>)
    ensures
        occurs_in(s, needle) <==> exists|a: Seq<char>, b: Seq<char>|
            s == #[trigger] (a + needle + b),
{
    if occurs_in(s, needle) {
        let at = choose|at: int| occurs_at(s, needle, at);
        let a = s.take(at);
        let b = s.skip(at + needle.len());
        assert(s == a + needle + b) by {
            assert(s.subrange(at, at + needle.len()) == needle);
            assert forall|k: int| 0 <= k < s.len() implies s[k] == (a + needle + b)[k] by {
                if at <= k < at + needle.len() {
                    assert(s.subrange(at, at + needle.len())[k - at] == s[k]);
                }
            }
        }
    }
    if exists|a: Seq<char>, b: Seq<char>| s == #[trigger] (a + needle + b) {
        let (a, b) = choose|a: Seq<char>, b: Seq<char>| s == #[trigger] (a + needle + b);
        let at = a.len() as int;
        assert(s.subrange(at, at + needle.len()) == needle);
        assert(occurs_at(s, needle, at));
    }
}

/// Capitals become the small letters of the same name, and nothing else changes.
pub proof fn only_capitals_become_small(s: Seq<char>, i: int)
    requires
        0 <= i < s.len(),
    ensures
        ascii_lowercase(s).len() == s.len(),
        65 <= s[i] as u32 <= 90 ==> ascii_lowercase(s)[i] as u32 == s[i] as u32 + 32,
        !(65 <= s[i] as u32 <= 90) ==> ascii_lowercase(s)[i] == s[i],
{
}

/// An excerpt is as much of the start of a text as there is room for.
pub proof fn excerpts_fill_their_room(body: Seq<char>, limit: nat)
    ensures
        body.len() <= limit ==> excerpt(body, limit) == body,
        body.len() > limit ==> excerpt(body, limit).len() == limit,
        exists|rest: Seq<char>| body == #[trigger] (excerpt(body, limit) + rest),
{
    let rest = body.skip(excerpt(body, limit).len() as int);
    assert(body == excerpt(body, limit) + rest);
}

} // verus!
