//! The crawl as a state machine: the root page, then each category page in
//! document order, each followed at once by the sample pages that it links
//! to. The machine names the page to fetch next; whoever fetches it hands the
//! page's extracted content back.

use vstd::prelude::*;
use scraper::{Html, Selector};
use crate::dom::{anchor_hrefs, page_hrefs};
use crate::crawl::{rule_holds, link_targets, process_sample, sample_record, targets, LinkRule, SampleOutcome};

verus! {

/// Which kind of page a fetch is for.
#[derive(PartialEq, Eq, Structural, Clone, Copy, Debug)]
pub enum Visit {
    Root,
    Category,
    Sample,
}

/// What the crawl wants next.
pub enum Step {
    Fetch { url: String, visit: Visit },
    Finished,
}

/// The state of one crawl run. Nothing records the pages already seen: a
/// page reached by two links is visited twice.
pub struct Crawl {
    pub root: String,
    pub category_rule: LinkRule,
    pub sample_rule: LinkRule,
    pub root_done: bool,
    pub categories: Vec<String>,
    pub next_category: usize,
    pub samples: Vec<String>,
    pub next_sample: usize,
}

pub ghost struct CrawlView {
    pub root: Seq<char>,
    pub category_rule: LinkRule,
    pub sample_rule: LinkRule,
    pub root_done: bool,
    pub categories: Seq<Seq<char>>,
    pub next_category: int,
    pub samples: Seq<Seq<char>>,
    pub next_sample: int,
}

impl View for Crawl {
    type V = CrawlView;

    open spec fn view(&self) -> CrawlView {
        CrawlView {
            root: self.root@,
            category_rule: self.category_rule,
            sample_rule: self.sample_rule,
            root_done: self.root_done,
            categories: self.categories.deep_view(),
            next_category: self.next_category as int,
            samples: self.samples.deep_view(),
            next_sample: self.next_sample as int,
        }
    }
}

/// The page to fetch next: the root first; then the pending samples of the
/// current category; then the next category; nothing once all are done.
pub open spec fn pending(v: CrawlView) -> Option<(Seq<char>, Visit)> {
    if !v.root_done {
        Some((v.root, Visit::Root))
    } else if 0 <= v.next_sample < v.samples.len() {
        Some((v.samples[v.next_sample], Visit::Sample))
    } else if 0 <= v.next_category < v.categories.len() {
        Some((v.categories[v.next_category], Visit::Category))
    } else {
        None
    }
}

/// The state of a crawl that has fetched nothing yet.
pub open spec fn start(root: Seq<char>, category_rule: LinkRule, sample_rule: LinkRule) -> CrawlView {
    CrawlView {
        root,
        category_rule,
        sample_rule,
        root_done: false,
        categories: Seq::empty(),
        next_category: 0,
        samples: Seq::empty(),
        next_sample: 0,
    }
}

/// The state after the root page, whose anchors carry `anchors`.
pub open spec fn after_root(v: CrawlView, anchors: Seq<Option<String>>) -> CrawlView {
    CrawlView {
        root_done: true,
        categories: targets(v.root, anchors, v.category_rule),
        next_category: 0,
        ..v
    }
}

/// The state after the current category page, whose anchors carry `anchors`.
pub open spec fn after_category(v: CrawlView, anchors: Seq<Option<String>>) -> CrawlView {
    CrawlView {
        samples: targets(v.root, anchors, v.sample_rule),
        next_sample: 0,
        next_category: v.next_category + 1,
        ..v
    }
}

/// The state after the current sample page.
pub open spec fn after_sample(v: CrawlView) -> CrawlView {
    CrawlView { next_sample: v.next_sample + 1, ..v }
}

/// Whether `b` is strictly further along than `a`: the root done where it
/// was not, or fewer categories left, or as many and fewer of their samples.
pub open spec fn further(a: CrawlView, b: CrawlView) -> bool {
    let cats_a = a.categories.len() - a.next_category;
    let cats_b = b.categories.len() - b.next_category;
    (!a.root_done && b.root_done) || (a.root_done == b.root_done && (cats_b < cats_a || (cats_b
        == cats_a && b.samples.len() - b.next_sample < a.samples.len() - a.next_sample)))
}

/// Every page handed back moves the walk strictly further along, so a run
/// ends after finitely many fetches.
pub proof fn law_each_page_progresses(v: CrawlView, anchors: Seq<Option<String>>)
    requires
        pending(v) is Some,
    ensures
        pending(v) matches Some((_, Visit::Root)) ==> further(v, after_root(v, anchors)),
        pending(v) matches Some((_, Visit::Category)) ==> further(v, after_category(v, anchors)),
        pending(v) matches Some((_, Visit::Sample)) ==> further(v, after_sample(v)),
{
}

/// After a sample page, whatever it gave, the walk goes on: to the next
/// sample link of the same category, else to the next category, else it is
/// finished.
pub proof fn law_sample_then_next(v: CrawlView)
    requires
        pending(v) matches Some((_, Visit::Sample)),
    ensures
        pending(after_sample(v)) == (if v.next_sample + 1 < v.samples.len() {
            Some((v.samples[v.next_sample + 1], Visit::Sample))
        } else if 0 <= v.next_category < v.categories.len() {
            Some((v.categories[v.next_category], Visit::Category))
        } else {
            None::<(Seq<char>, Visit)>
        }),
{
}

/// A root page with one category link whose category page has one sample
/// link: the walk fetches the root, then `root + category`, then
/// `root + sample`, and then ends; the sample's record carries `root + sample`
/// as its address.
pub proof fn law_one_category_one_sample(
    root: Seq<char>,
    category_rule: LinkRule,
    sample_rule: LinkRule,
    category: String,
    sample: String,
    headings: Seq<Seq<char>>,
    highlighted: Seq<Seq<char>>,
)
    requires
        rule_holds(category_rule, category@),
        rule_holds(sample_rule, sample@),
    ensures
        pending(start(root, category_rule, sample_rule)) == Some((root, Visit::Root)),
        pending(after_root(start(root, category_rule, sample_rule), seq![Some(category)]))
            == Some((root + category@, Visit::Category)),
        pending(
            after_category(
                after_root(start(root, category_rule, sample_rule), seq![Some(category)]),
                seq![Some(sample)],
            ),
        ) == Some((root + sample@, Visit::Sample)),
        pending(
            after_sample(
                after_category(
                    after_root(start(root, category_rule, sample_rule), seq![Some(category)]),
                    seq![Some(sample)],
                ),
            ),
        ) is None,
        sample_record(headings, highlighted, root + sample@).url == root + sample@,
{
    let one_c = seq![Some(category)];
    let one_s = seq![Some(sample)];
    assert(one_c.drop_last() =~= Seq::<Option<String>>::empty());
    assert(one_s.drop_last() =~= Seq::<Option<String>>::empty());
    assert(one_c.last() == Some(category));
    assert(one_s.last() == Some(sample));
    assert(targets(root, Seq::<Option<String>>::empty(), category_rule) =~= Seq::empty());
    assert(targets(root, Seq::<Option<String>>::empty(), sample_rule) =~= Seq::empty());
    assert(targets(root, one_c, category_rule) =~= seq![root + category@]);
    assert(targets(root, one_s, sample_rule) =~= seq![root + sample@]);
}

impl Crawl {
    /// A crawl from `root`, following the links that `category_rule` admits on
    /// the root page and those that `sample_rule` admits on category pages.
    pub fn new(root: String, category_rule: LinkRule, sample_rule: LinkRule) -> (r: Crawl)
        ensures
            r@ == start(root@, category_rule, sample_rule),
    {
        let r = Crawl {
            root,
            category_rule,
            sample_rule,
            root_done: false,
            categories: Vec::new(),
            next_category: 0,
            samples: Vec::new(),
            next_sample: 0,
        };
        assert(r.categories.deep_view() =~= Seq::empty());
        assert(r.samples.deep_view() =~= Seq::empty());
        r
    }

    /// The page to fetch next, or `Finished`.
    pub fn next_step(&self) -> (r: Step)
        ensures
            r matches Step::Fetch { url, visit } ==> pending(self@) == Some((url@, visit)),
            r is Finished <==> pending(self@) is None,
    {
        if !self.root_done {
            Step::Fetch { url: self.root.clone(), visit: Visit::Root }
        } else if self.next_sample < self.samples.len() {
            Step::Fetch { url: self.samples[self.next_sample].clone(), visit: Visit::Sample }
        } else if self.next_category < self.categories.len() {
            Step::Fetch { url: self.categories[self.next_category].clone(), visit: Visit::Category }
        } else {
            Step::Finished
        }
    }

    /// Takes in the root page's anchors.
    pub fn root_fetched(&mut self, anchors: &Vec<Option<String>>)
        requires
            pending(old(self)@) matches Some((_, Visit::Root)),
        ensures
            final(self)@ == after_root(old(self)@, anchors@),
    {
        self.categories = link_targets(self.root.as_str(), anchors, &self.category_rule);
        self.next_category = 0;
        self.root_done = true;
    }

    /// Takes in the current category page's anchors.
    pub fn category_fetched(&mut self, anchors: &Vec<Option<String>>)
        requires
            pending(old(self)@) matches Some((_, Visit::Category)),
        ensures
            final(self)@ == after_category(old(self)@, anchors@),
    {
        assert(self.categories.deep_view().len() == self.categories.len());
        self.samples = link_targets(self.root.as_str(), anchors, &self.sample_rule);
        self.next_sample = 0;
        self.next_category = self.next_category + 1;
    }

    /// Takes in the root page: the hrefs of the nodes of `page` that `links`
    /// selects.
    pub fn root_page(&mut self, page: &Html, links: &Selector)
        requires
            pending(old(self)@) matches Some((_, Visit::Root)),
        ensures
            final(self)@ == after_root(old(self)@, page_hrefs(*page, *links)),
    {
        let anchors = anchor_hrefs(page, links);
        self.root_fetched(&anchors);
    }

    /// Takes in the current category page: the hrefs of the nodes of `page`
    /// that `links` selects.
    pub fn category_page(&mut self, page: &Html, links: &Selector)
        requires
            pending(old(self)@) matches Some((_, Visit::Category)),
        ensures
            final(self)@ == after_category(old(self)@, page_hrefs(*page, *links)),
    {
        let anchors = anchor_hrefs(page, links);
        self.category_fetched(&anchors);
    }

    /// Takes in the current sample page's headings and highlighted fragments
    /// and says what the page gives (see `process_sample`).
    pub fn sample_fetched(&mut self, headings: Vec<String>, highlighted: Vec<String>) -> (r: SampleOutcome)
        requires
            pending(old(self)@) matches Some((_, Visit::Sample)),
        ensures
            final(self)@ == after_sample(old(self)@),
            r is Record <==> headings.len() == crate::crawl::HEADING_COUNT,
            r matches SampleOutcome::Record(h) ==> h@ == sample_record(
                headings.deep_view(),
                highlighted.deep_view(),
                old(self)@.samples[old(self)@.next_sample],
            ),
            r matches SampleOutcome::Skipped { heading_count } ==> heading_count == headings.len(),
    {
        assert(self.samples.deep_view().len() == self.samples.len());
        let i = self.next_sample;
        let r = process_sample(headings, highlighted, self.samples[i].as_str());
        self.next_sample = i + 1;
        r
    }
}

} // verus!
