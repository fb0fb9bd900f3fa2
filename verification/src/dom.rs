use vstd::prelude::*;

verus! {

#[verifier::external_type_specification]
#[verifier::external_body]
pub struct ExHtml(scraper::Html);

#[verifier::external_type_specification]
#[verifier::external_body]
pub struct ExSelector(scraper::Selector);

#[verifier::external_type_specification]
#[verifier::external_body]
pub struct ExElementRef<'a>(scraper::ElementRef<'a>);

/// Whether a string is a valid CSS selector, as the selector engine decides
/// it; a function of the string alone.
pub uninterp spec fn css_ok(s: Seq<char>) -> bool;

/// Relies on `scraper::Selector::parse`: `Ok` exactly when the string is a
/// valid CSS selector, which depends on the string alone.
#[verifier::external_body]
pub(crate) fn parse_selector(s: &str) -> (r: Option<scraper::Selector>)
    ensures
        r is Some <==> css_ok(s@),
{
    scraper::Selector::parse(s).ok()
}

/// Relies on `scraper::Html::parse_document`: lenient HTML parsing that never
/// fails — malformed input degrades to a best-effort tree.
#[verifier::external_body]
pub(crate) fn parse_document(contents: &str) -> (r: scraper::Html) {
    scraper::Html::parse_document(contents)
}

/// Parse text as an HTML document.  Parsing is lenient and never fails.
pub fn parse_html(contents: &str) -> (r: scraper::Html) {
    parse_document(contents)
}

/// Relies on `scraper::ElementRef::select`: the descendants of the element
/// matching the selector, in document order.
#[verifier::external_body]
pub(crate) fn elem_select<'a>(
    element: &scraper::ElementRef<'a>,
    selector: &scraper::Selector,
) -> (r: Vec<scraper::ElementRef<'a>>) {
    element.select(selector).collect()
}

/// For a valid selector, the named attribute of the first element of the
/// document parsed from `page` that matches it: `None` when no element
/// matches, `Some(None)` when the first match lacks the attribute, and
/// `Some(Some(v))` its value.  Parsing and selection are deterministic, so
/// this is a function of the three texts alone.
pub uninterp spec fn first_attr_of(page: Seq<char>, selector: Seq<char>, attr: Seq<char>) -> Option<
    Option<Seq<char>>,
>;

/// How many elements of the document parsed from `page` match a valid
/// selector; a function of the two texts alone.
pub uninterp spec fn match_count_of(page: Seq<char>, selector: Seq<char>) -> nat;

/// For each element of the document parsed from `page` matching `outer`, in
/// document order: the serialised contents of its first descendant matching
/// `inner`, if it has one.  A function of the three texts alone.
pub uninterp spec fn inner_fragments_of(page: Seq<char>, outer: Seq<char>, inner: Seq<char>) -> Seq<
    Option<Seq<char>>,
>;

/// For each element of the document parsed from `page` matching `outer`, in
/// document order: `None` when no descendant matches `inner`, `Some(None)`
/// when the first such descendant lacks the attribute, `Some(Some(v))` its
/// value.  A function of the four texts alone.
pub uninterp spec fn inner_attrs_of(
    page: Seq<char>,
    outer: Seq<char>,
    inner: Seq<char>,
    attr: Seq<char>,
) -> Seq<Option<Option<Seq<char>>>>;

/// Relies on scraper (`Html::parse_document`, `Html::select`,
/// `Element::attr`): parses `page`, takes its first element matching
/// `selector`, and reads `attr` from it.  `None` exactly when the selector
/// is invalid; otherwise the named lookup result.
#[verifier::external_body]
pub(crate) fn doc_first_attr(page: &str, selector: &str, attr: &str) -> (r: Option<
    Option<Option<String>>,
>)
    ensures
        match r {
            Some(found) => css_ok(selector@) && found.deep_view() == first_attr_of(
                page@,
                selector@,
                attr@,
            ),
            None => !css_ok(selector@),
        },
{
    let sel = scraper::Selector::parse(selector).ok()?;
    let html = scraper::Html::parse_document(page);
    let found = match html.select(&sel).next() {
        Some(element) => Some(element.value().attr(attr).map(|v| v.to_string())),
        None => None,
    };
    Some(found)
}

/// Relies on scraper (`Html::parse_document`, `Html::select`,
/// `ElementRef::select`, `ElementRef::inner_html`): parses `page` and, for
/// each element matching `outer` in document order, serialises the contents
/// of its first descendant matching `inner`.  `None` exactly when a selector
/// is invalid; otherwise the named per-container fragments.
#[verifier::external_body]
pub(crate) fn doc_inner_htmls(page: &str, outer: &str, inner: &str) -> (r: Option<
    Vec<Option<String>>,
>)
    ensures
        match r {
            Some(v) => css_ok(outer@) && css_ok(inner@) && v@.len() == match_count_of(page@, outer@)
                && v.deep_view() == inner_fragments_of(page@, outer@, inner@),
            None => !(css_ok(outer@) && css_ok(inner@)),
        },
{
    let outer_sel = scraper::Selector::parse(outer).ok()?;
    let inner_sel = scraper::Selector::parse(inner).ok()?;
    let html = scraper::Html::parse_document(page);
    Some(
        html.select(&outer_sel).map(
            |el| el.select(&inner_sel).next().map(|e| e.inner_html()),
        ).collect(),
    )
}

/// Relies on scraper (`Html::parse_document`, `Html::select`,
/// `ElementRef::select`, `Element::attr`): parses `page` and, for each
/// element matching `outer` in document order, reads `attr` from its first
/// descendant matching `inner`.  `None` exactly when a selector is invalid;
/// otherwise the named per-container attribute values.
#[verifier::external_body]
pub(crate) fn doc_inner_attrs(page: &str, outer: &str, inner: &str, attr: &str) -> (r: Option<
    Vec<Option<Option<String>>>,
>)
    ensures
        match r {
            Some(v) => css_ok(outer@) && css_ok(inner@) && v@.len() == match_count_of(page@, outer@)
                && v.deep_view() == inner_attrs_of(page@, outer@, inner@, attr@),
            None => !(css_ok(outer@) && css_ok(inner@)),
        },
{
    let outer_sel = scraper::Selector::parse(outer).ok()?;
    let inner_sel = scraper::Selector::parse(inner).ok()?;
    let html = scraper::Html::parse_document(page);
    Some(
        html.select(&outer_sel).map(
            |el| el.select(&inner_sel).next().map(|e| e.value().attr(attr).map(|v| v.to_string())),
        ).collect(),
    )
}

} // verus!
