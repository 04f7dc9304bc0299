//! Trusted bridge to the HTML machinery: document queries through the `tl`
//! DOM parser and character-entity decoding through `escaper`.
//!
//! Each query is deterministic in the page text and the query string alone,
//! so its result is given a name (an uninterpreted spec function) that the
//! extractors' contracts are stated over. Nothing more is assumed of the
//! names than what each wrapper's contract states.

use vstd::prelude::*;

verus! {

/// The inner text of the first element bearing the given class, in the
/// document parsed from `body`; `None` when no such element exists
/// (or the document cannot be parsed at all).
pub uninterp spec fn class_text_of(body: Seq<char>, class: Seq<char>) -> Option<Seq<char>>;

/// The inner text of the element at position `index` (in document order)
/// among those matching the given selector; `None` when there are not
/// that many (or the document or selector cannot be parsed).
pub uninterp spec fn selector_text_of(body: Seq<char>, selector: Seq<char>, index: nat) -> Option<
    Seq<char>,
>;

/// For every element matching the given selector, in document order: its
/// `href` attribute value (`None` when absent) and its inner text.
pub uninterp spec fn anchor_list_of(body: Seq<char>, selector: Seq<char>) -> Seq<
    (Option<Seq<char>>, Seq<char>),
>;

/// The entity-decoded form of `s`; `None` when `s` holds a malformed
/// character-entity reference.
pub uninterp spec fn html_decoded_of(s: Seq<char>) -> Option<Seq<char>>;

/// Relies on `tl::parse` and `VDom::get_elements_by_class_name`: yields the
/// elements bearing a class, in document order; `Node::inner_text`
/// concatenates an element's text contents.
#[verifier::external_body]
pub(crate) fn first_class_text(body: &str, class: &str) -> (r: Option<String>)
    ensures
        r matches Some(t) ==> Some(t@) == class_text_of(body@, class@),
        r is Some <==> class_text_of(body@, class@) is Some,
{
    let dom = tl::parse(body, tl::ParserOptions::default()).ok()?;
    let handle = dom.get_elements_by_class_name(class).next()?;
    let node = handle.get(dom.parser())?;
    Some(node.inner_text(dom.parser()).into_owned())
}

/// Relies on `tl::parse` and `VDom::query_selector`: yields the elements
/// matching a selector, in document order; `Node::inner_text` concatenates
/// an element's text contents.
#[verifier::external_body]
pub(crate) fn selector_text_at(body: &str, selector: &str, index: usize) -> (r: Option<String>)
    ensures
        r matches Some(t) ==> Some(t@) == selector_text_of(body@, selector@, index as nat),
        r is Some <==> selector_text_of(body@, selector@, index as nat) is Some,
{
    let dom = tl::parse(body, tl::ParserOptions::default()).ok()?;
    let handle = dom.query_selector(selector)?.nth(index)?;
    let node = handle.get(dom.parser())?;
    Some(node.inner_text(dom.parser()).into_owned())
}

/// Relies on `tl::parse` and `VDom::query_selector`: yields the elements
/// matching a selector in document order; `HTMLTag::attributes` carries an
/// element's `href` value when one is present, and `Node::inner_text`
/// concatenates its text contents.
#[verifier::external_body]
pub(crate) fn selector_anchors(body: &str, selector: &str) -> (r: Vec<(Option<String>, String)>)
    ensures
        r.deep_view() == anchor_list_of(body@, selector@),
{
    let dom = match tl::parse(body, tl::ParserOptions::default()) {
        Ok(d) => d,
        Err(_) => return Vec::new(),
    };
    let it = match dom.query_selector(selector) {
        Some(it) => it,
        None => return Vec::new(),
    };
    it.filter_map(|h| h.get(dom.parser())).map(|n| {
        let href = n.as_tag().and_then(|t| t.attributes().get("href")).flatten();
        (href.map(|b| b.as_utf8_str().into_owned()), n.inner_text(dom.parser()).into_owned())
    }).collect()
}

/// Relies on `escaper::decode_html`: replaces character-entity references
/// by the characters they denote, and fails exactly on malformed ones.
#[verifier::external_body]
pub(crate) fn decode_entities(s: &str) -> (r: Option<String>)
    ensures
        r matches Some(t) ==> Some(t@) == html_decoded_of(s@),
        r is Some <==> html_decoded_of(s@) is Some,
{
    escaper::decode_html(s).ok()
}

} // verus!
