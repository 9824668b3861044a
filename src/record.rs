//! The record of one sample page, built from its headings and completed
//! from its highlighted block.

use vstd::prelude::*;
use crate::text::{
    after_last, before_first, join_with_space, joined, lemma_leading, lemma_trailing, other_than,
    text_after_last, text_before_first, trim_text, trimmed,
};

verus! {

/// One transcription sample, as persisted: six text fields.
#[derive(Debug)]
pub struct Header {
    pub specialty: String,
    pub name: String,
    pub description: String,
    pub text: String,
    pub keywords: String,
    pub url: String,
}

/// The six fields of a [`Header`] as character sequences.
pub ghost struct HeaderView {
    pub specialty: Seq<char>,
    pub name: Seq<char>,
    pub description: Seq<char>,
    pub text: Seq<char>,
    pub keywords: Seq<char>,
    pub url: Seq<char>,
}

impl View for Header {
    type V = HeaderView;

    open spec fn view(&self) -> HeaderView {
        HeaderView {
            specialty: self.specialty@,
            name: self.name@,
            description: self.description@,
            text: self.text@,
            keywords: self.keywords@,
            url: self.url@,
        }
    }
}

/// Number of headings the builder maps (the page's boilerplate heading already removed).
pub const HEADING_FIELDS: usize = 6;

/// Position of the specialty among the headings. The page interleaves label
/// and value headings, so the values stand at odd positions; this layout is
/// the site's, and these three positions are where to adjust it.
pub const SPECIALTY_INDEX: usize = 1;

/// Position of the sample's name among the headings.
pub const NAME_INDEX: usize = 3;

/// Position of the description among the headings.
pub const DESCRIPTION_INDEX: usize = 5;

/// Separates the body text from the keyword list in the highlighted block.
pub const KEYWORD_DELIMITER: char = '/';

/// A heading sequence of the wrong length; `len` is the length found.
#[derive(Debug)]
pub struct MalformedInput {
    pub len: usize,
}

/// The record that the builder makes of six headings.
pub open spec fn built(data: Seq<Seq<char>>) -> HeaderView {
    HeaderView {
        specialty: data[SPECIALTY_INDEX as int],
        name: data[NAME_INDEX as int],
        description: data[DESCRIPTION_INDEX as int],
        text: Seq::empty(),
        keywords: Seq::empty(),
        url: Seq::empty(),
    }
}

/// Body text of a joined highlighted block: everything before the first delimiter.
pub open spec fn body_text(block: Seq<char>) -> Seq<char> {
    before_first(block, KEYWORD_DELIMITER)
}

/// Keywords of a joined highlighted block: what follows the last delimiter, trimmed.
pub open spec fn keyword_text(block: Seq<char>) -> Seq<char> {
    trimmed(after_last(block, KEYWORD_DELIMITER))
}

/// `h` completed from the highlighted fragments and the page's address.
pub open spec fn finished(h: HeaderView, highlighted: Seq<Seq<char>>, url: Seq<char>) -> HeaderView {
    HeaderView {
        specialty: h.specialty,
        name: h.name,
        description: h.description,
        text: body_text(joined(highlighted)),
        keywords: keyword_text(joined(highlighted)),
        url: url,
    }
}

/// A highlighted block without the delimiter is all body text, and also,
/// trimmed, all keywords.
pub proof fn law_block_without_delimiter(block: Seq<char>)
    requires
        forall|i: int| 0 <= i < block.len() ==> block[i] != KEYWORD_DELIMITER,
    ensures
        body_text(block) == block,
        keyword_text(block) == trimmed(block),
{
    lemma_leading(block, other_than(KEYWORD_DELIMITER), block.len() as int);
    lemma_trailing(block, other_than(KEYWORD_DELIMITER), block.len() as int);
    assert(block.take(block.len() as int) =~= block);
    assert(block.skip(0) =~= block);
}

/// Maps six headings to a record by position; the other fields start empty.
pub fn convert_to_header(data: Vec<String>) -> (r: Result<Header, MalformedInput>)
    ensures
        r is Ok <==> data.len() == HEADING_FIELDS,
        r matches Ok(h) ==> h@ == built(data.deep_view()),
        r matches Err(e) ==> e.len == data.len(),
{
    if data.len() != HEADING_FIELDS {
        return Err(MalformedInput { len: data.len() });
    }
    let h = Header {
        specialty: data[SPECIALTY_INDEX].clone(),
        name: data[NAME_INDEX].clone(),
        description: data[DESCRIPTION_INDEX].clone(),
        text: String::new(),
        keywords: String::new(),
        url: String::new(),
    };
    assert(h@ == built(data.deep_view()));
    Ok(h)
}

/// Fills text, keywords and url from the highlighted fragments (their
/// leading header repeat already removed) and the page's address.
pub fn finish_header(header: Header, highlighted: &Vec<String>, source_url: &str) -> (r: Header)
    ensures
        r@ == finished(header@, highlighted.deep_view(), source_url@),
{
    let block = join_with_space(highlighted);
    let text = text_before_first(block.as_str(), KEYWORD_DELIMITER);
    let tail = text_after_last(block.as_str(), KEYWORD_DELIMITER);
    let keywords = trim_text(tail.as_str());
    Header {
        specialty: header.specialty,
        name: header.name,
        description: header.description,
        text: text,
        keywords: keywords,
        url: String::from_str(source_url),
    }
}

} // verus!
