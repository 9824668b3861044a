//! Character-level helpers on strings: whitespace trimming, joining with a
//! space, and the counts of leading and trailing characters of a class.

use vstd::prelude::*;
use vstd::string::*;

verus! {

/// Unicode `White_Space`, the class that `str::trim` removes.
pub open spec fn is_ws(c: char) -> bool {
    let u = c as u32;
    (0x09 <= u && u <= 0x0D) || u == 0x20 || u == 0x85 || u == 0xA0 || u == 0x1680
        || (0x2000 <= u && u <= 0x200A) || u == 0x2028 || u == 0x2029 || u == 0x202F
        || u == 0x205F || u == 0x3000
}

pub open spec fn ws_class() -> spec_fn(char) -> bool {
    |c: char| is_ws(c)
}

/// Number of characters at the front of `s` that satisfy `p`.
pub open spec fn leading(s: Seq<char>, p: spec_fn(char) -> bool) -> nat
    decreases s.len(),
{
    if s.len() > 0 && p(s[0]) {
        1 + leading(s.drop_first(), p)
    } else {
        0
    }
}

/// Number of characters at the back of `s` that satisfy `p`.
pub open spec fn trailing(s: Seq<char>, p: spec_fn(char) -> bool) -> nat
    decreases s.len(),
{
    if s.len() > 0 && p(s.last()) {
        1 + trailing(s.drop_last(), p)
    } else {
        0
    }
}

/// `s` without leading and trailing whitespace.
pub open spec fn trimmed(s: Seq<char>) -> Seq<char> {
    let a = s.skip(leading(s, ws_class()) as int);
    a.take(a.len() - trailing(a, ws_class()))
}

/// The parts joined in order, with one space between neighbours.
pub open spec fn joined(parts: Seq<Seq<char>>) -> Seq<char>
    decreases parts.len(),
{
    if parts.len() == 0 {
        Seq::empty()
    } else if parts.len() == 1 {
        parts[0]
    } else {
        joined(parts.drop_last()) + seq![' '] + parts.last()
    }
}

pub proof fn lemma_leading(s: Seq<char>, p: spec_fn(char) -> bool, i: int)
    requires
        0 <= i <= s.len(),
        forall|k: int| 0 <= k < i ==> p(s[k]),
        i == s.len() || !p(s[i]),
    ensures
        leading(s, p) == i,
    decreases i,
{
    if i > 0 {
        let t = s.drop_first();
        assert forall|k: int| 0 <= k < i - 1 implies p(t[k]) by {
            assert(t[k] == s[k + 1]);
        }
        if i < s.len() {
            assert(t[i - 1] == s[i]);
        }
        lemma_leading(t, p, i - 1);
    }
}

pub proof fn lemma_trailing(s: Seq<char>, p: spec_fn(char) -> bool, i: int)
    requires
        0 <= i <= s.len(),
        forall|k: int| s.len() - i <= k < s.len() ==> p(s[k]),
        i == s.len() || !p(s[s.len() - 1 - i]),
    ensures
        trailing(s, p) == i,
    decreases i,
{
    if i > 0 {
        let t = s.drop_last();
        assert forall|k: int| t.len() - (i - 1) <= k < t.len() implies p(t[k]) by {
            assert(t[k] == s[k]);
        }
        if i < s.len() {
            assert(t[t.len() - 1 - (i - 1)] == s[s.len() - 1 - i]);
        }
        lemma_trailing(t, p, i - 1);
    }
}

/// `char::is_whitespace`, written out.
pub fn is_whitespace(c: char) -> (r: bool)
    ensures
        r == is_ws(c),
{
    let u = c as u32;
    (0x09 <= u && u <= 0x0D) || u == 0x20 || u == 0x85 || u == 0xA0 || u == 0x1680
        || (0x2000 <= u && u <= 0x200A) || u == 0x2028 || u == 0x2029 || u == 0x202F
        || u == 0x205F || u == 0x3000
}

/// Position of the first character of `s` that is not whitespace.
fn leading_ws(s: &str, len: usize) -> (n: usize)
    requires
        len == s@.len(),
    ensures
        n == leading(s@, ws_class()),
        n <= len,
{
    let mut i: usize = 0;
    while i < len && is_whitespace(s.get_char(i))
        invariant
            len == s@.len(),
            i <= len,
            forall|k: int| 0 <= k < i ==> is_ws(s@[k]),
        decreases len - i,
    {
        i = i + 1;
    }
    proof {
        lemma_leading(s@, ws_class(), i as int);
    }
    i
}

/// Number of whitespace characters at the back of `s`.
fn trailing_ws(s: &str, len: usize) -> (n: usize)
    requires
        len == s@.len(),
    ensures
        n == trailing(s@, ws_class()),
        n <= len,
{
    let mut i: usize = 0;
    while i < len && is_whitespace(s.get_char(len - 1 - i))
        invariant
            len == s@.len(),
            i <= len,
            forall|k: int| len - i <= k < len ==> is_ws(s@[k]),
        decreases len - i,
    {
        i = i + 1;
    }
    proof {
        lemma_trailing(s@, ws_class(), i as int);
    }
    i
}

/// `s` with leading and trailing whitespace removed, as `str::trim` does.
pub fn trim_text(s: &str) -> (r: String)
    ensures
        r@ == trimmed(s@),
{
    let len = s.unicode_len();
    let front = leading_ws(s, len);
    let a = s.substring_char(front, len);
    let alen = a.unicode_len();
    let back = trailing_ws(a, alen);
    let b = a.substring_char(0, alen - back);
    String::from_str(b)
}

/// Every character but `d`.
pub open spec fn other_than(d: char) -> spec_fn(char) -> bool {
    |c: char| c != d
}

/// The part of `s` before the first `d`; all of `s` when there is none.
pub open spec fn before_first(s: Seq<char>, d: char) -> Seq<char> {
    s.take(leading(s, other_than(d)) as int)
}

/// The part of `s` after the last `d`; all of `s` when there is none.
pub open spec fn after_last(s: Seq<char>, d: char) -> Seq<char> {
    s.skip(s.len() - trailing(s, other_than(d)))
}

/// The part of `s` before the first `d` (the first piece of `str::split`).
pub fn text_before_first(s: &str, d: char) -> (r: String)
    ensures
        r@ == before_first(s@, d),
{
    let len = s.unicode_len();
    let mut i: usize = 0;
    while i < len && s.get_char(i) != d
        invariant
            len == s@.len(),
            i <= len,
            forall|k: int| 0 <= k < i ==> s@[k] != d,
        decreases len - i,
    {
        i = i + 1;
    }
    proof {
        lemma_leading(s@, other_than(d), i as int);
    }
    String::from_str(s.substring_char(0, i))
}

/// The part of `s` after the last `d` (the last piece of `str::split`).
pub fn text_after_last(s: &str, d: char) -> (r: String)
    ensures
        r@ == after_last(s@, d),
{
    let len = s.unicode_len();
    let mut i: usize = 0;
    while i < len && s.get_char(len - 1 - i) != d
        invariant
            len == s@.len(),
            i <= len,
            forall|k: int| len - i <= k < len ==> s@[k] != d,
        decreases len - i,
    {
        i = i + 1;
    }
    proof {
        lemma_trailing(s@, other_than(d), i as int);
    }
    String::from_str(s.substring_char(len - i, len))
}

/// The parts joined with one space between neighbours, as `[String]::join(" ")`.
pub fn join_with_space(parts: &Vec<String>) -> (r: String)
    ensures
        r@ == joined(parts.deep_view()),
{
    let mut r = String::new();
    let mut i: usize = 0;
    while i < parts.len()
        invariant
            i <= parts.len(),
            r@ == joined(parts.deep_view().take(i as int)),
        decreases parts.len() - i,
    {
        let ghost before = parts.deep_view().take(i as int);
        let ghost after = parts.deep_view().take(i + 1);
        assert(after.drop_last() =~= before);
        assert(after.last() == parts[i as int]@);
        if i > 0 {
            proof {
                reveal_strlit(" ");
            }
            r.append(" ");
        }
        r.append(parts[i].as_str());
        proof {
            if i == 0 {
                assert(r@ =~= after[0]);
            } else {
                assert(r@ =~= joined(before) + seq![' '] + after.last());
            }
        }
        i = i + 1;
    }
    assert(parts.deep_view().take(parts.len() as int) =~= parts.deep_view());
    r
}

} // verus!
