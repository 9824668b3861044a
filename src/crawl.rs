//! The decisions of the crawl: which links of a page are followed and where
//! they lead, and what becomes of one sample page's extracted sections.

use vstd::prelude::*;
use vstd::string::*;
use crate::record::{
    built, convert_to_header, finish_header, finished, Header, HeaderView,
};

verus! {

/// Number of headings on a well-formed sample page.
pub const HEADING_COUNT: usize = 7;

/// Position of the boilerplate statement among a sample page's headings.
pub const BOILERPLATE_INDEX: usize = 6;

/// Which links a page visit follows.
pub enum LinkRule {
    /// Links whose href starts with the text.
    StartsWith(String),
    /// Links whose href holds the text somewhere.
    Contains(String),
}

pub open spec fn starts_with(s: Seq<char>, p: Seq<char>) -> bool {
    p.len() <= s.len() && s.take(p.len() as int) == p
}

pub open spec fn contains(s: Seq<char>, m: Seq<char>) -> bool {
    exists|i: int| 0 <= i && i + m.len() <= s.len() && #[trigger] s.subrange(i, i + m.len()) == m
}

pub open spec fn rule_holds(rule: LinkRule, href: Seq<char>) -> bool {
    match rule {
        LinkRule::StartsWith(p) => starts_with(href, p@),
        LinkRule::Contains(m) => contains(href, m@),
    }
}

/// The addresses that a page's anchors lead to under `rule`, in document
/// order: `base` followed by each href that the rule admits. Anchors without
/// an href are passed over; repeated links are kept.
pub open spec fn targets(base: Seq<char>, anchors: Seq<Option<String>>, rule: LinkRule) -> Seq<Seq<char>>
    decreases anchors.len(),
{
    if anchors.len() == 0 {
        Seq::empty()
    } else {
        let rest = targets(base, anchors.drop_last(), rule);
        match anchors.last() {
            Some(h) => if rule_holds(rule, h@) {
                rest.push(base + h@)
            } else {
                rest
            },
            None => rest,
        }
    }
}

/// The crawl keeps no record of where it has been: the targets of two runs
/// of anchors are the targets of each, one after the other, so a link met
/// twice is followed twice.
pub proof fn law_targets_concat(
    base: Seq<char>,
    first: Seq<Option<String>>,
    second: Seq<Option<String>>,
    rule: LinkRule,
)
    ensures
        targets(base, first + second, rule) == targets(base, first, rule) + targets(base, second, rule),
    decreases second.len(),
{
    if second.len() == 0 {
        assert(first + second =~= first);
        assert(targets(base, first, rule) + targets(base, second, rule) =~= targets(base, first, rule));
    } else {
        assert((first + second).drop_last() =~= first + second.drop_last());
        assert((first + second).last() == second.last());
        law_targets_concat(base, first, second.drop_last(), rule);
        let t1 = targets(base, first, rule);
        let t2 = targets(base, second.drop_last(), rule);
        match second.last() {
            Some(h) => {
                if rule_holds(rule, h@) {
                    assert((t1 + t2).push(base + h@) =~= t1 + t2.push(base + h@));
                }
            },
            None => {},
        }
    }
}

/// Whether `p` stands in `s` at position `i`.
fn matches_at(s: &str, slen: usize, p: &str, plen: usize, i: usize) -> (r: bool)
    requires
        slen == s@.len(),
        plen == p@.len(),
        i + plen <= s@.len(),
    ensures
        r == (s@.subrange(i as int, i + plen) == p@),
{
    let mut j: usize = 0;
    while j < plen && s.get_char(i + j) == p.get_char(j)
        invariant
            slen == s@.len(),
            plen == p@.len(),
            i + plen <= s@.len(),
            j <= plen,
            forall|k: int| 0 <= k < j ==> s@[i + k] == p@[k],
        decreases plen - j,
    {
        j = j + 1;
    }
    if j == plen {
        assert(s@.subrange(i as int, i + plen) =~= p@);
        true
    } else {
        assert(s@.subrange(i as int, i + plen)[j as int] != p@[j as int]);
        false
    }
}

/// Whether `rule` admits `href`.
pub fn follows(rule: &LinkRule, href: &str) -> (r: bool)
    ensures
        r == rule_holds(*rule, href@),
{
    let slen = href.unicode_len();
    match rule {
        LinkRule::StartsWith(p) => {
            let plen = p.as_str().unicode_len();
            if plen > slen {
                return false;
            }
            let r = matches_at(href, slen, p.as_str(), plen, 0);
            assert(href@.subrange(0, plen as int) == href@.take(plen as int));
            r
        },
        LinkRule::Contains(m) => {
            let mlen = m.as_str().unicode_len();
            if mlen > slen {
                return false;
            }
            if mlen == 0 {
                assert(href@.subrange(0int, 0int + m@.len()) =~= m@);
                return true;
            }
            let mut i: usize = 0;
            while i <= slen - mlen
                invariant
                    mlen == m@.len(),
                    slen == href@.len(),
                    0 < mlen <= slen,
                    rule_holds(*rule, href@) == contains(href@, m@),
                    i <= slen - mlen + 1,
                    forall|k: int| 0 <= k < i ==> #[trigger] href@.subrange(k, k + mlen) != m@,
                decreases slen - mlen + 1 - i,
            {
                if matches_at(href, slen, m.as_str(), mlen, i) {
                    assert(href@.subrange(i as int, i + m@.len()) == m@);
                    return true;
                }
                i = i + 1;
            }
            false
        },
    }
}

/// The addresses to visit next from a page whose anchors carry `anchors`:
/// `base` joined to each href that `rule` admits, in document order.
pub fn link_targets(base: &str, anchors: &Vec<Option<String>>, rule: &LinkRule) -> (r: Vec<String>)
    ensures
        r.deep_view() == targets(base@, anchors@, *rule),
{
    let mut r: Vec<String> = Vec::new();
    let mut i: usize = 0;
    while i < anchors.len()
        invariant
            i <= anchors.len(),
            r.deep_view() == targets(base@, anchors@.take(i as int), *rule),
        decreases anchors.len() - i,
    {
        assert(anchors@.take(i + 1).drop_last() =~= anchors@.take(i as int));
        match &anchors[i] {
            Some(h) => {
                if follows(rule, h.as_str()) {
                    let u = String::from_str(base).concat(h.as_str());
                    r.push(u);
                }
            },
            None => {},
        }
        assert(r.deep_view() =~= targets(base@, anchors@.take(i + 1), *rule));
        i = i + 1;
    }
    assert(anchors@.take(anchors.len() as int) =~= anchors@);
    r
}

/// What a sample page gives: a record, or the heading count that made it be
/// skipped.
pub enum SampleOutcome {
    Record(Header),
    Skipped { heading_count: usize },
}

/// The highlighted fragments without their leading header repeat.
pub open spec fn block_body(highlighted: Seq<Seq<char>>) -> Seq<Seq<char>> {
    if highlighted.len() > 0 {
        highlighted.drop_first()
    } else {
        highlighted
    }
}

/// The record of a sample page with seven headings.
pub open spec fn sample_record(headings: Seq<Seq<char>>, highlighted: Seq<Seq<char>>, url: Seq<char>) -> HeaderView {
    finished(built(headings.remove(BOILERPLATE_INDEX as int)), block_body(highlighted), url)
}

/// A sample page with seven headings hands the builder exactly six.
pub proof fn law_seven_headings_make_six(headings: Seq<Seq<char>>)
    requires
        headings.len() == HEADING_COUNT,
    ensures
        headings.remove(BOILERPLATE_INDEX as int).len() == crate::record::HEADING_FIELDS,
{
}

/// Turns one sample page's headings and highlighted fragments into a record:
/// with exactly seven headings the boilerplate one is dropped, the other six
/// are mapped by position, and the highlighted block (its first fragment, a
/// repeat of the header, dropped) gives text and keywords; `url` is recorded as
/// given. Any other heading count skips the page and reports that count.
pub fn process_sample(headings: Vec<String>, highlighted: Vec<String>, url: &str) -> (r: SampleOutcome)
    ensures
        r is Record <==> headings.len() == HEADING_COUNT,
        r matches SampleOutcome::Record(h) ==> h@ == sample_record(
            headings.deep_view(),
            highlighted.deep_view(),
            url@,
        ),
        r matches SampleOutcome::Skipped { heading_count } ==> heading_count == headings.len(),
{
    if headings.len() != HEADING_COUNT {
        return SampleOutcome::Skipped { heading_count: headings.len() };
    }
    let ghost h0 = headings.deep_view();
    let ghost b0 = highlighted.deep_view();
    let mut headings = headings;
    let mut highlighted = highlighted;
    headings.remove(BOILERPLATE_INDEX);
    assert(headings.deep_view() =~= h0.remove(BOILERPLATE_INDEX as int));
    if highlighted.len() > 0 {
        highlighted.remove(0);
    }
    assert(highlighted.deep_view() =~= block_body(b0));
    match convert_to_header(headings) {
        Ok(h) => SampleOutcome::Record(finish_header(h, &highlighted, url)),
        Err(e) => SampleOutcome::Skipped { heading_count: e.len },
    }
}

} // verus!
