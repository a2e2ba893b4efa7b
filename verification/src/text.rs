//! Conversions between strings and sequences of characters.

use vstd::prelude::*;
use vstd::slice::slice_subrange;
use vstd::std_specs::iter::IteratorSpec;
use vstd::string::*;

verus! {

/// `String::push` appends one character to the end of the string.
pub assume_specification[ String::push ](s: &mut String, ch: char)
    ensures
        final(s)@ == old(s)@.push(ch),
;

/// The characters of `s`, in order.
pub fn to_chars(s: &str) -> (chars: Vec<char>)
    ensures
        chars@ == s@,
{
    broadcast use {axiom_spec_iter, next_postcondition};

    let n: usize = s.unicode_len();
    let mut rest = s.chars();
    let mut chars: Vec<char> = Vec::new();
    let mut i: usize = 0;
    while i < n
        invariant
            n == s@.len(),
            i <= n,
            chars@.len() == i,
            rest.obeys_prophetic_iter_laws(),
            chars@ + rest.remaining() == s@,
        decreases n - i,
    {
        let ghost before = rest.remaining();
        assert(before.len() == n - i);
        match rest.next() {
            Some(c) => {
                chars.push(c);
                assert(chars@ + rest.remaining() == s@) by {
                    assert(before == seq![c] + before.drop_first());
                }
            },
            None => {},
        }
        i += 1;
    }
    assert(rest.remaining().len() == 0);
    chars
}

/// The string made of `chars`, in order.
pub fn from_chars(chars: &[char]) -> (s: String)
    ensures
        s@ == chars@,
{
    let mut s = String::new();
    let mut i: usize = 0;
    while i < chars.len()
        invariant
            i <= chars@.len(),
            s@ == chars@.subrange(0, i as int),
        decreases chars@.len() - i,
    {
        s.push(chars[i]);
        assert(s@ == chars@.subrange(0, i + 1));
        i += 1;
    }
    assert(s@ == chars@);
    s
}

/// The position of the first `c` in `s`, or the length of `s` where it
/// holds none.
pub open spec fn first_index(s: Seq<char>, c: char) -> int
    decreases s.len(),
{
    if s.len() == 0 || s[0] == c {
        0
    } else {
        1 + first_index(s.drop_first(), c)
    }
}

/// `s` cut at its first `c`: what stands before it and what stands after
/// it, or `None` where `s` holds no `c`.
pub open spec fn split_once(s: Seq<char>, c: char) -> Option<(Seq<char>, Seq<char>)> {
    let i = first_index(s, c);
    if 0 <= i < s.len() {
        Some((s.subrange(0, i), s.subrange(i + 1, s.len() as int)))
    } else {
        None
    }
}

/// The first position of `c` is the one before which no `c` stands.
pub proof fn lemma_first_index(s: Seq<char>, c: char, i: int)
    requires
        0 <= i <= s.len(),
        forall|j: int| 0 <= j < i ==> s[j] != c,
        i < s.len() ==> s[i] == c,
    ensures
        first_index(s, c) == i,
    decreases i,
{
    if i > 0 {
        let t = s.drop_first();
        assert forall|j: int| 0 <= j < i - 1 implies t[j] != c by {
            assert(t[j] == s[j + 1]);
        }
        lemma_first_index(t, c, i - 1);
    }
}

/// Cutting `head + [c] + tail` at the first `c` gives back `head` and
/// `tail`, where `head` holds no `c`.
pub proof fn lemma_split_once_joined(head: Seq<char>, c: char, tail: Seq<char>)
    requires
        !head.contains(c),
    ensures
        split_once(head + seq![c] + tail, c) == Some((head, tail)),
        first_index(head + seq![c] + tail, c) == head.len(),
{
    let s = head + seq![c] + tail;
    let i = head.len() as int;
    assert forall|j: int| 0 <= j < i implies s[j] != c by {
        assert(s[j] == head[j]);
        assert(head.contains(head[j]));
    }
    assert(s[i] == c);
    lemma_first_index(s, c, i);
    assert(s.subrange(0, i) == head);
    assert(s.subrange(i + 1, s.len() as int) == tail);
}

/// The position of the first `c` in `s`, or the length of `s`.
pub fn find_char(s: &[char], c: char) -> (i: usize)
    ensures
        i == first_index(s@, c),
        i <= s@.len(),
        i < s@.len() <==> s@.contains(c),
{
    let mut i: usize = 0;
    while i < s.len() && s[i] != c
        invariant
            i <= s@.len(),
            forall|j: int| 0 <= j < i ==> s@[j] != c,
        decreases s@.len() - i,
    {
        i += 1;
    }
    proof {
        lemma_first_index(s@, c, i as int);
        if s@.contains(c) && i == s@.len() {
            let j = choose|j: int| 0 <= j < s@.len() && s@[j] == c;
            assert(s@[j] != c);
        }
    }
    i
}

/// Cuts `s` at its first `c`.
pub fn cut_once<'a>(s: &'a [char], c: char) -> (parts: Option<(&'a [char], &'a [char])>)
    ensures
        match split_once(s@, c) {
            Some((head, tail)) => parts.is_some() && parts.unwrap().0@ == head
                && parts.unwrap().1@ == tail,
            None => parts.is_none(),
        },
{
    let i = find_char(s, c);
    if i < s.len() {
        let head = slice_subrange(s, 0, i);
        let tail = slice_subrange(s, i + 1, s.len());
        Some((head, tail))
    } else {
        None
    }
}

/// Whether `s` begins with `prefix`.
pub open spec fn has_prefix(s: Seq<char>, prefix: Seq<char>) -> bool {
    s.len() >= prefix.len() && s.subrange(0, prefix.len() as int) == prefix
}

/// Whether `s` begins with `prefix`.
pub fn starts_with(s: &[char], prefix: &[char]) -> (b: bool)
    ensures
        b == has_prefix(s@, prefix@),
{
    if s.len() < prefix.len() {
        return false;
    }
    let mut i: usize = 0;
    while i < prefix.len()
        invariant
            i <= prefix@.len() <= s@.len(),
            s@.subrange(0, i as int) == prefix@.subrange(0, i as int),
        decreases prefix@.len() - i,
    {
        if s[i] != prefix[i] {
            assert(s@.subrange(0, prefix@.len() as int)[i as int] != prefix@[i as int]);
            return false;
        }
        assert(s@.subrange(0, i + 1) == s@.subrange(0, i as int).push(s@[i as int]));
        assert(prefix@.subrange(0, i + 1) == prefix@.subrange(0, i as int).push(
            prefix@[i as int],
        ));
        i += 1;
    }
    assert(prefix@.subrange(0, i as int) == prefix@);
    true
}

/// Whether two strings hold the same characters.
pub fn same_text(a: &str, b: &str) -> (same: bool)
    ensures
        same == (a@ == b@),
{
    let a = to_chars(a);
    let b = to_chars(b);
    if a.len() != b.len() {
        return false;
    }
    let same = starts_with(a.as_slice(), b.as_slice());
    assert(a@.subrange(0, b@.len() as int) == a@);
    same
}

} // verus!
