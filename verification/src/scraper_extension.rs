use vstd::prelude::*;
use crate::result::{BoxResult, UnexpectedError};
use crate::text::{join_texts, join_with_space};

verus! {

/// scraper's reference to an element of a parsed document, carried through as it is.
#[verifier::external_type_specification]
#[verifier::external_body]
pub struct ExElementRef<'a>(scraper::ElementRef<'a>);

/// What the logic reads of an element of an HTML document: the value of the attribute
/// that the query named, the text nodes below it in document order, its HTML and its
/// inner HTML.
#[derive(Debug, Clone)]
pub struct HtmlElement {
    pub attribute: Option<String>,
    pub texts: Vec<String>,
    pub html: String,
    pub inner_html: String,
}

/// The abstract value of an [`HtmlElement`].
pub ghost struct HtmlElementView {
    pub attribute: Option<Seq<char>>,
    pub texts: Seq<Seq<char>>,
    pub html: Seq<char>,
    pub inner_html: Seq<char>,
}

impl View for HtmlElement {
    type V = HtmlElementView;

    open spec fn view(&self) -> HtmlElementView {
        HtmlElementView {
            attribute: match self.attribute {
                Some(a) => Some(a@),
                None => None,
            },
            texts: self.texts@.map_values(|t: String| t@),
            html: self.html@,
            inner_html: self.inner_html@,
        }
    }
}

pub open spec fn elements_view(v: Seq<HtmlElement>) -> Seq<HtmlElementView> {
    v.map_values(|e: HtmlElement| e@)
}

/// What scraper makes of a query on a document: `page` parsed as an HTML document and
/// `selector` as a CSS selector, the elements that match, in document order, each with
/// the value of its attribute `attribute`; nothing where the selector does not parse.
pub uninterp spec fn html_select_of(page: Seq<char>, selector: Seq<char>, attribute: Seq<char>) -> Option<Seq<HtmlElementView>>;

/// What scraper makes of a nested query on a document: for each element that matches
/// `outer`, in document order, the elements below it that match `first` and those below
/// it that match `second`, each with the value of its attribute `attribute`; nothing
/// where one of the selectors does not parse.
pub uninterp spec fn html_select_within_of(
    page: Seq<char>,
    outer: Seq<char>,
    first: Seq<char>,
    second: Seq<char>,
    attribute: Seq<char>,
) -> Option<Seq<(Seq<HtmlElementView>, Seq<HtmlElementView>)>>;

pub open spec fn pairs_view(v: Seq<(Vec<HtmlElement>, Vec<HtmlElement>)>) -> Seq<(Seq<HtmlElementView>, Seq<HtmlElementView>)> {
    v.map_values(|p: (Vec<HtmlElement>, Vec<HtmlElement>)| (elements_view(p.0@), elements_view(p.1@)))
}

/// Reads an element of scraper into an [`HtmlElement`]: `attr(attribute)`, `text()`,
/// `html()` and `inner_html()`. What it reads is not stated here; the queries that call
/// it name their results.
#[verifier::external_body]
fn element_of(e: scraper::ElementRef, attribute: &str) -> HtmlElement {
    HtmlElement {
        attribute: e.value().attr(attribute).map(|v| v.to_string()),
        texts: e.text().map(|t| t.to_string()).collect(),
        html: e.html(),
        inner_html: e.inner_html(),
    }
}

/// Calls scraper's `Selector::parse` on `selector`, `Html::parse_document` on `page` and
/// `Html::select`: the result is named [`html_select_of`].
#[verifier::external_body]
fn html_select(page: &str, selector: &str, attribute: &str) -> (r: Option<Vec<HtmlElement>>)
    ensures
        match r {
            Some(v) => html_select_of(page@, selector@, attribute@) == Some(elements_view(v@)),
            None => html_select_of(page@, selector@, attribute@) is None,
        },
{
    let parsed = scraper::Selector::parse(selector).ok()?;
    let html = scraper::Html::parse_document(page);
    Some(html.select(&parsed).map(|e| element_of(e, attribute)).collect())
}

/// Calls scraper's `Selector::parse` on the three selectors, `Html::parse_document` on
/// `page`, `Html::select` with `outer` and `ElementRef::select` with `first` and `second`
/// on each element found: the result is named [`html_select_within_of`].
#[verifier::external_body]
fn html_select_within(page: &str, outer: &str, first: &str, second: &str, attribute: &str) -> (r: Option<Vec<(Vec<HtmlElement>, Vec<HtmlElement>)>>)
    ensures
        match r {
            Some(v) => html_select_within_of(page@, outer@, first@, second@, attribute@) == Some(pairs_view(v@)),
            None => html_select_within_of(page@, outer@, first@, second@, attribute@) is None,
        },
{
    let (o, f, s) = (scraper::Selector::parse(outer).ok()?, scraper::Selector::parse(first).ok()?, scraper::Selector::parse(second).ok()?);
    let html = scraper::Html::parse_document(page);
    Some(html.select(&o).map(|n| (
        n.select(&f).map(|e| element_of(e, attribute)).collect(),
        n.select(&s).map(|e| element_of(e, attribute)).collect(),
    )).collect())
}

/// The elements of `page` that match `selector`, each with its attribute `attribute`;
/// an error where the selector does not parse.
pub fn query_selector_all_html(page: &str, selector: &str, attribute: &str) -> (r: BoxResult<Vec<HtmlElement>>)
    ensures
        match html_select_of(page@, selector@, attribute@) {
            Some(found) => r matches Ok(v) && elements_view(v@) == found,
            None => r matches Err(e) && e.message_view() == "bad css selector"@,
        },
{
    match html_select(page, selector, attribute) {
        None => UnexpectedError::new_as_box_result("bad css selector"),
        Some(v) => Ok(v),
    }
}

/// The first element of `page` that matches `selector`, where one does, with its
/// attribute `attribute`; an error where the selector does not parse.
pub fn query_selector_html(page: &str, selector: &str, attribute: &str) -> (r: BoxResult<Option<HtmlElement>>)
    ensures
        match html_select_of(page@, selector@, attribute@) {
            Some(found) => r matches Ok(first) && match first {
                Some(e) => found.len() > 0 && e@ == found[0],
                None => found.len() == 0,
            },
            None => r matches Err(e) && e.message_view() == "bad css selector"@,
        },
{
    match html_select(page, selector, attribute) {
        None => UnexpectedError::new_as_box_result("bad css selector"),
        Some(v) => {
            let mut v = v;
            if v.len() == 0 {
                Ok(None)
            } else {
                Ok(Some(v.remove(0)))
            }
        },
    }
}

/// For each element of `page` that matches `outer`, the elements below it that match
/// `first` and those that match `second`; an error where a selector does not parse.
pub fn query_selector_all_within(page: &str, outer: &str, first: &str, second: &str, attribute: &str) -> (r: BoxResult<Vec<(Vec<HtmlElement>, Vec<HtmlElement>)>>)
    ensures
        match html_select_within_of(page@, outer@, first@, second@, attribute@) {
            Some(found) => r matches Ok(v) && pairs_view(v@) == found,
            None => r matches Err(e) && e.message_view() == "bad css selector"@,
        },
{
    match html_select_within(page, outer, first, second, attribute) {
        None => UnexpectedError::new_as_box_result("bad css selector"),
        Some(v) => Ok(v),
    }
}

/// The text of an element: its text nodes joined with spaces.
pub open spec fn inner_text(e: HtmlElementView) -> Seq<char> {
    join_with_space(e.texts)
}

/// The text of `node`: its text nodes joined with spaces.
pub fn get_inner_text_element(node: &HtmlElement) -> (s: String)
    ensures
        s@ == inner_text(node@),
{
    join_texts(&node.texts)
}


/// The first element of `page` that matches `selector`, with its attribute `attribute`;
/// nothing where none does or the selector does not parse.
pub open spec fn first_match(page: Seq<char>, selector: Seq<char>, attribute: Seq<char>) -> Option<HtmlElementView> {
    match html_select_of(page, selector, attribute) {
        Some(found) => if found.len() > 0 {
            Some(found[0])
        } else {
            None
        },
        None => None,
    }
}

/// The first element of `page` that matches `selector`, with its attribute `attribute`;
/// nothing where none does or the selector does not parse.
pub fn select_first(page: &str, selector: &str, attribute: &str) -> (r: Option<HtmlElement>)
    ensures
        match r {
            Some(e) => first_match(page@, selector@, attribute@) == Some(e@),
            None => first_match(page@, selector@, attribute@) is None,
        },
{
    match query_selector_html(page, selector, attribute) {
        Ok(v) => v,
        Err(_) => None,
    }
}

/// The number of elements of `page` that match `selector`; nothing where the selector
/// does not parse.
pub fn count_matches(page: &str, selector: &str) -> (r: Option<usize>)
    ensures
        match r {
            Some(n) => html_select_of(page@, selector@, ""@) matches Some(found) && found.len() == n,
            None => html_select_of(page@, selector@, ""@) is None,
        },
{
    match query_selector_all_html(page, selector, "") {
        Ok(v) => Some(v.len()),
        Err(_) => None,
    }
}

} // verus!
