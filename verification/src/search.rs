//! The search resolver: turns the page body of a filename-search results
//! view into an ordered list of [`ModSearch`] matches.
//!
//! Matches are the standard links with a title attribute, in document
//! order; each carries the module identifier from its link target and the
//! filename from its text. A malformed link target aborts the whole call:
//! entries are never silently dropped.

use vstd::prelude::*;

use crate::Error;
use crate::detail::ModInfo;
use crate::link::build_download_link;
use crate::link::download_link_of;
use crate::page::anchor_list_of;
use crate::page::selector_anchors;
use crate::page::selector_text_at;
use crate::page::selector_text_of;
use crate::text::after_marker_spec;
use crate::text::parse_u32;
use crate::text::parse_u32_spec;
use crate::text::text_after;

verus! {

/// Simple struct to represent a search result: the module identifier and
/// the filename shown on the results page.
#[derive(Debug, Clone, PartialEq)]
pub struct ModSearch {
    /// The module ID of the matching module.
    pub id: u32,
    /// The filename of the matching module, exactly as the results page
    /// shows it.
    pub filename: String,
}

// --- what the results page holds, as a function of its text ---------------

/// A genuine results page carries the results-page heading.
pub open spec fn has_results_heading(body: Seq<char>) -> bool {
    selector_text_of(body, "h1.site-wide-page-head-title"@, 0) is Some
}

/// The match anchors of the results page, in document order.
pub open spec fn search_anchors_of(body: Seq<char>) -> Seq<(Option<Seq<char>>, Seq<char>)> {
    anchor_list_of(body, "a.standard-link[title]"@)
}

/// The module identifier a match anchor points at: the text of its link
/// target after the query marker, read as a decimal number.
pub open spec fn anchor_id_of(a: (Option<Seq<char>>, Seq<char>)) -> Option<u32> {
    match a.0 {
        Some(h) => match after_marker_spec(h, "query="@) {
            Some(rest) => parse_u32_spec(rest),
            None => None,
        },
        None => None,
    }
}

/// Every anchor of the sequence carries a well-formed link target.
pub open spec fn anchors_wellformed(anchors: Seq<(Option<Seq<char>>, Seq<char>)>) -> bool {
    forall|i: int| 0 <= i < anchors.len() ==> anchor_id_of(#[trigger] anchors[i]) is Some
}

/// The (identifier, filename) pairs the anchors denote, in the same order.
pub open spec fn matches_of(anchors: Seq<(Option<Seq<char>>, Seq<char>)>) -> Seq<
    (u32, Seq<char>),
> {
    anchors.map_values(|a: (Option<Seq<char>>, Seq<char>)| (anchor_id_of(a)->Some_0, a.1))
}

/// The (identifier, filename) pairs a sequence of matches holds.
pub open spec fn match_views(v: Seq<ModSearch>) -> Seq<(u32, Seq<char>)> {
    v.map_values(|m: ModSearch| (m.id, m.filename@))
}

/// The full contract of search resolution: not-found on a page without the
/// results heading, malformed-input when any match anchor's link target is
/// missing or unparsable, and otherwise exactly the page's matches in
/// document order — the empty list when the heading is present but no
/// anchor is.
pub open spec fn extract_search_post(body: Seq<char>, r: Result<Vec<ModSearch>, Error>) -> bool {
    if !has_results_heading(body) {
        r == Err::<Vec<ModSearch>, Error>(Error::NotFound)
    } else if !anchors_wellformed(search_anchors_of(body)) {
        r == Err::<Vec<ModSearch>, Error>(Error::MalformedInput)
    } else {
        r matches Ok(v) && match_views(v@) == matches_of(search_anchors_of(body))
    }
}

impl ModInfo {
    /// Extracts the ordered list of search matches from the body of a
    /// filename-search results page.
    ///
    /// Returns `Error::NotFound` exactly when the page lacks the results
    /// heading, `Error::MalformedInput` when a match anchor's link target
    /// lacks the query marker or a parsable identifier, and otherwise one
    /// [`ModSearch`] per match anchor, in document order.
    pub fn extract_search(body: &str) -> (r: Result<Vec<ModSearch>, Error>)
        ensures
            extract_search_post(body@, r),
            r == Err::<Vec<ModSearch>, Error>(Error::NotFound) <==> !has_results_heading(body@),
            r matches Ok(v) ==> v@.len() == search_anchors_of(body@).len(),
    {
        if selector_text_at(body, "h1.site-wide-page-head-title", 0).is_none() {
            return Err(Error::NotFound);
        }
        let anchors = selector_anchors(body, "a.standard-link[title]");
        let ghost sa = search_anchors_of(body@);
        let mut out: Vec<ModSearch> = Vec::new();
        let mut i: usize = 0;
        while i < anchors.len()
            invariant
                0 <= i <= anchors.len(),
                anchors.deep_view() == sa,
                sa == search_anchors_of(body@),
                has_results_heading(body@),
                forall|j: int| 0 <= j < i ==> anchor_id_of(#[trigger] sa[j]) is Some,
                match_views(out@) == matches_of(sa.take(i as int)),
            decreases anchors.len() - i,
        {
            proof {
                assert(sa[i as int] == anchors.deep_view()[i as int]);
            }
            let pair = &anchors[i];
            let href = match &pair.0 {
                Some(h) => h,
                None => {
                    assert(anchor_id_of(sa[i as int]) is None);
                    return Err(Error::MalformedInput);
                },
            };
            let rest = match text_after(href.as_str(), "query=") {
                Some(t) => t,
                None => {
                    assert(anchor_id_of(sa[i as int]) is None);
                    return Err(Error::MalformedInput);
                },
            };
            let id = match parse_u32(rest) {
                Some(v) => v,
                None => {
                    assert(anchor_id_of(sa[i as int]) is None);
                    return Err(Error::MalformedInput);
                },
            };
            let ghost prev = out@;
            out.push(ModSearch { id, filename: pair.1.clone() });
            proof {
                assert(match_views(prev).len() == prev.len());
                assert(matches_of(sa.take(i as int)).len() == i);
                assert(prev.len() == i);
                assert(out@ == prev.push(out@[i as int]));
                assert(anchor_id_of(sa[i as int]) == Some(id));
                assert(sa[i as int].1 == out@[i as int].filename@);
                assert forall|j: int| 0 <= j < i + 1 implies #[trigger] match_views(out@)[j]
                    == matches_of(sa.take(i + 1))[j] by {
                    assert(sa.take(i + 1)[j] == sa[j]);
                    if j < i {
                        assert(out@[j] == prev[j]);
                        assert(match_views(prev)[j] == matches_of(sa.take(i as int))[j]);
                        assert(sa.take(i as int)[j] == sa[j]);
                    }
                }
                assert(match_views(out@) =~= matches_of(sa.take(i + 1)));
            }
            i += 1;
        }
        proof {
            assert(sa.take(i as int) =~= sa);
        }
        Ok(out)
    }
}

impl ModSearch {
    /// Get the download link of this specific module, built from its
    /// identifier and filename after the documented URL template.
    pub fn get_download_link(&self) -> (r: String)
        ensures
            r@ == download_link_of(self.id, self.filename@),
    {
        build_download_link(self.id, self.filename.as_str())
    }
}

} // verus!
