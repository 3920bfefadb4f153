//! Plain text of a page's markup, and of a whole document's pages.

use vstd::prelude::*;
use vstd::string::StringExecFns;
use crate::text::{join_strings, join_with, strings_view};
use rayon::iter::{IndexedParallelIterator, IntoParallelRefIterator, ParallelIterator};

verus! {

broadcast use vstd::string::group_string_axioms;

/// The text nodes under each `body` element of the HTML document `markup`, in
/// document order: one sequence of text runs per element.
pub uninterp spec fn body_text_runs_of(markup: Seq<char>) -> Seq<Seq<Seq<char>>>;

/// The views of a vector of vectors of strings.
pub open spec fn runs_view(runs: Seq<Vec<String>>) -> Seq<Seq<Seq<char>>> {
    runs.map_values(|v: Vec<String>| strings_view(v@))
}

/// The text of the elements `runs`: the runs of each element joined by line
/// breaks, and the elements put one after another.
pub open spec fn body_text(runs: Seq<Seq<Seq<char>>>) -> Seq<char>
    decreases runs.len(),
{
    if runs.len() == 0 {
        Seq::empty()
    } else {
        body_text(runs.drop_last()) + join_with(runs.last(), seq!['\n'])
    }
}

/// The plain text of a page whose markup is `markup`.
pub open spec fn page_text(markup: Seq<char>) -> Seq<char> {
    body_text(body_text_runs_of(markup))
}

/// Relies on scraper's `Html::parse_document`, `Selector::parse("body")`, `Html::select`
/// and `ElementRef::text`: the text nodes of each `body` element, in document order.
#[verifier::external_body]
fn body_text_runs(markup: &str) -> (r: Vec<Vec<String>>)
    ensures
        runs_view(r@) == body_text_runs_of(markup@),
{
    let document = scraper::Html::parse_document(markup);
    let selector = scraper::Selector::parse("body").unwrap();
    document.select(&selector).map(|e| e.text().map(String::from).collect()).collect()
}

/// Puts the text runs of each element together: the runs of one element are
/// joined by line breaks, the elements follow one another.
pub fn join_body_text(runs: &Vec<Vec<String>>) -> (r: String)
    ensures
        r@ == body_text(runs_view(runs@)),
{
    let ghost rs = runs_view(runs@);
    let mut out = String::new();
    let mut i: usize = 0;
    proof {
        reveal_strlit("\n");
    }
    while i < runs.len()
        invariant
            i <= runs.len(),
            rs == runs_view(runs@),
            out@ == body_text(rs.subrange(0, i as int)),
            "\n"@ == seq!['\n'],
        decreases runs.len() - i,
    {
        proof {
            assert(rs.subrange(0, i + 1).drop_last() =~= rs.subrange(0, i as int));
        }
        let element = join_strings(&runs[i], "\n");
        out.append(element.as_str());
        i = i + 1;
    }
    proof {
        assert(rs.subrange(0, runs.len() as int) =~= rs);
    }
    out
}

/// The plain text of one page of XHTML markup: the text under its `body`, with a
/// line break between neighbouring text nodes.
pub fn extract_text_from_xhtml(xhtml: &str) -> (r: String)
    ensures
        r@ == page_text(xhtml@),
{
    let runs = body_text_runs(xhtml);
    join_body_text(&runs)
}

/// Relies on rayon's `par_iter`, `map` and `collect_into_vec`: the items come out
/// at the index of the item they were computed from.
#[verifier::external_body]
fn par_extract(markups: &Vec<String>) -> (r: Vec<String>)
    ensures
        r@.len() == markups@.len(),
        forall|i: int| 0 <= i < r@.len() ==> #[trigger] r@[i]@ == page_text(markups@[i]@),
{
    let mut out = Vec::new();
    markups.par_iter().map(|m| extract_text_from_xhtml(m)).collect_into_vec(&mut out);
    out
}

/// Why the pages of a document could not all be extracted.
#[derive(Debug, Clone, Copy, PartialEq, Eq)]
pub enum ExtractionError {
    /// The markup of this page (0-based) could not be read.
    PageRead { page: usize },
}

/// The plain text of every page of a document, from the markup read for each
/// page (`None` where a page could not be read). Pages are extracted in
/// parallel; page `i` of the result is always the text of markup `i`. The
/// first page that could not be read fails the whole document.
pub fn extract_pages(markups: &Vec<Option<String>>) -> (r: Result<Vec<String>, ExtractionError>)
    ensures
        (forall|i: int| 0 <= i < markups@.len() ==> #[trigger] markups@[i] is Some) <==> r is Ok,
        r matches Ok(pages) ==> pages@.len() == markups@.len() && forall|i: int|
            0 <= i < pages@.len() ==> #[trigger] pages@[i]@ == page_text(
                markups@[i]->Some_0@,
            ),
        r matches Err(ExtractionError::PageRead { page }) ==> page < markups@.len()
            && markups@[page as int] is None && forall|i: int|
            0 <= i < page ==> #[trigger] markups@[i] is Some,
{
    let ghost given = markups@;
    let mut present: Vec<String> = Vec::new();
    let mut i: usize = 0;
    while i < markups.len()
        invariant
            given == markups@,
            i <= markups.len(),
            present@.len() == i,
            forall|j: int| 0 <= j < i ==> #[trigger] given[j] is Some && given[j]->Some_0@
                == present@[j]@,
        decreases markups.len() - i,
    {
        match &markups[i] {
            Some(m) => {
                present.push(m.clone());
            },
            None => {
                return Err(ExtractionError::PageRead { page: i });
            },
        }
        i = i + 1;
    }
    let pages = par_extract(&present);
    assert forall|j: int| 0 <= j < pages@.len() implies #[trigger] pages@[j]@ == page_text(
        given[j]->Some_0@,
    ) by {
        assert(given[j]->Some_0@ == present@[j]@);
    }
    Ok(pages)
}

} // verus!
