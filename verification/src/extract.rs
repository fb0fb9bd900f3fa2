use vstd::prelude::*;
use vstd::string::StringExecFns;
use crate::cache::SelectorCache;
use crate::dom::css_ok;
use crate::dom::doc_first_attr;
use crate::dom::elem_select;
use crate::dom::first_attr_of;
use crate::error::Error;

verus! {

/// The selector string that locates the Open-Graph meta tag for a property.
pub open spec fn og_selector_seq(name: Seq<char>) -> Seq<char> {
    "html > head > meta[property=\"og:"@ + name + "\"]"@
}

fn og_selector(name: &str) -> (r: String)
    ensures
        r@ == og_selector_seq(name@),
{
    let mut s = String::from_str("html > head > meta[property=\"og:");
    s.append(name);
    s.append("\"]");
    s
}

/// What the Open-Graph lookup returns for each selection outcome: the
/// content attribute when the first matching tag carries one; `NotFound`
/// when no tag matches or the tag has no content attribute.
pub fn og_content(found: Option<Option<String>>) -> (r: Result<String, Error>)
    ensures
        match found {
            Some(Some(content)) => r == Ok::<String, Error>(content),
            Some(None) => r == Err::<String, Error>(Error::NotFound),
            None => r == Err::<String, Error>(Error::NotFound),
        },
{
    match found {
        Some(attr) => {
            match attr {
                Some(content) => Ok(content),
                None => Err(Error::NotFound),
            }
        },
        None => Err(Error::NotFound),
    }
}

/// The Open-Graph lookup as a function of the page text: the content
/// attribute of the first `og:<name>` meta tag of the document parsed from
/// `page`, when that tag exists and carries one.
pub open spec fn og_of(page: Seq<char>, name: Seq<char>) -> Option<Seq<char>> {
    match first_attr_of(page, og_selector_seq(name), "content"@) {
        Some(found) => match found {
            Some(c) => Some(c),
            None => None,
        },
        None => None,
    }
}

/// Look up the `og:<name>` Open-Graph tag in the document head and return
/// its content attribute; only the first matching tag is consulted.
/// `Err(Extraction)` exactly when the built selector string is not valid
/// CSS; otherwise the result is exactly the `og_of` lookup of the page
/// text, with `Err(NotFound)` when no tag matches or it carries no content.
pub fn og(page: &str, name: &str) -> (r: Result<String, Error>)
    ensures
        r == Err::<String, Error>(Error::Extraction) <==> !css_ok(og_selector_seq(name@)),
        css_ok(og_selector_seq(name@)) ==> match r {
            Ok(c) => og_of(page@, name@) == Some(c@),
            Err(e) => e == Error::NotFound && og_of(page@, name@) is None,
        },
{
    let sel_string = og_selector(name);
    let found = match doc_first_attr(page, sel_string.as_str(), "content") {
        Some(f) => f,
        None => {
            return Err(Error::Extraction);
        },
    };
    og_content(found)
}

/// All descendants of `element` matching the selector, compiled through the
/// cache.  An empty result is not an error; `Err(Extraction)` exactly when
/// the selector string is not valid CSS, in which case the cache is
/// unchanged.  The cache only grows: a hit leaves it untouched, a miss on a
/// valid selector adds exactly that one entry, and nothing is evicted.
pub fn select_all<'a>(
    cache: &mut SelectorCache,
    element: &scraper::ElementRef<'a>,
    selector: &str,
) -> (r: Result<Vec<scraper::ElementRef<'a>>, Error>)
    requires
        old(cache).wf(),
    ensures
        final(cache).wf(),
        r is Ok <==> css_ok(selector@),
        r matches Err(e) ==> e == Error::Extraction && *final(cache) == *old(cache),
        old(cache).has_key(selector@) ==> *final(cache) == *old(cache),
        !old(cache).has_key(selector@) && css_ok(selector@) ==> final(cache).spec_len() == old(
            cache,
        ).spec_len() + 1,
        old(cache).spec_len() <= final(cache).spec_len(),
        forall|a: int|
            0 <= a < old(cache).spec_len() ==> final(cache).key_at(a) == old(cache).key_at(a),
        forall|t: Seq<char>|
            #[trigger] final(cache).has_key(t) <==> (old(cache).has_key(t) || (css_ok(selector@)
                && t == selector@)),
{
    let idx = match cache.get_or_compile(selector) {
        Ok(idx) => idx,
        Err(e) => {
            return Err(e);
        },
    };
    let sel = cache.selector_at(idx);
    Ok(elem_select(element, sel))
}

/// The first descendant of `element` matching the selector, if any, through
/// the cache; `None` is not an error.
pub fn select_first<'a>(
    cache: &mut SelectorCache,
    element: &scraper::ElementRef<'a>,
    selector: &str,
) -> (r: Result<Option<scraper::ElementRef<'a>>, Error>)
    requires
        old(cache).wf(),
    ensures
        final(cache).wf(),
        r is Ok <==> css_ok(selector@),
        r matches Err(e) ==> e == Error::Extraction && *final(cache) == *old(cache),
        old(cache).has_key(selector@) ==> *final(cache) == *old(cache),
        !old(cache).has_key(selector@) && css_ok(selector@) ==> final(cache).spec_len() == old(
            cache,
        ).spec_len() + 1,
        old(cache).spec_len() <= final(cache).spec_len(),
        forall|a: int|
            0 <= a < old(cache).spec_len() ==> final(cache).key_at(a) == old(cache).key_at(a),
        forall|t: Seq<char>|
            #[trigger] final(cache).has_key(t) <==> (old(cache).has_key(t) || (css_ok(selector@)
                && t == selector@)),
{
    let mut found = match select_all(cache, element, selector) {
        Ok(v) => v,
        Err(e) => {
            return Err(e);
        },
    };
    if found.len() > 0 {
        Ok(Some(found.remove(0)))
    } else {
        Ok(None)
    }
}

} // verus!
