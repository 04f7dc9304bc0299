//! The detail extractor: turns the page body of a module's detail view into
//! a typed [`ModInfo`] record.
//!
//! The page is interrogated through structural queries (class and selector
//! lookups) rather than raw text offsets. The repeated "stats" list carries
//! its entries in a fixed page order, so those are read by index; when the
//! module is spotlit (editorially featured) the page holds one extra leading
//! stats entry, and every index is shifted by one — a layout quirk of the
//! upstream page that is preserved here as documented behaviour.

use vstd::prelude::*;

use crate::Error;
use crate::clock::now_iso8601;
use crate::link::build_download_link;
use crate::link::download_link_of;
use crate::page::class_text_of;
use crate::page::decode_entities;
use crate::page::first_class_text;
use crate::page::html_decoded_of;
use crate::page::selector_text_at;
use crate::page::selector_text_of;
use crate::text::after_marker_spec;
use crate::text::parse_u32;
use crate::text::parse_u32_spec;
use crate::text::remove_first;
use crate::text::remove_first_spec;
use crate::text::remove_parens;
use crate::text::sans_parens;
use crate::text::strip_prefix_spec;
use crate::text::strip_prefix_str;
use crate::text::strip_suffix_spec;
use crate::text::strip_suffix_str;
use crate::text::text_after;
use crate::text::trim_spec;
use crate::text::trim_ws;

verus! {

/// Struct containing all of the info about a module.
#[derive(Debug, Clone, PartialEq)]
pub struct ModInfo {
    /// The module ID of the module on the archive; supplied by the caller,
    /// not derived from the page.
    pub id: u32,
    /// The filename of the module, stripped of enclosing parentheses.
    pub filename: String,
    /// The title of the module, with the parenthesized filename suffix
    /// removed and character entities decoded.
    pub title: String,
    /// The file size of the module, as printed by the page.
    pub size: String,
    /// The MD5 hash of the module file as a string.
    pub md5: String,
    /// The format of the module, for example `XM`, `IT` or `MOD`,
    /// taken from the page text.
    pub format: String,
    /// Spotlit (editorially featured) module or not.
    pub spotlit: bool,
    /// Download count of the module at the time of scraping.
    pub download_count: u32,
    /// Times the module has been favourited at the time of scraping.
    pub fav_count: u32,
    /// The time when it was scraped, as an ISO-8601 timestamp.
    pub scrape_time: String,
    /// The channel count of the module.
    pub channel_count: u32,
    /// The genre of the module.
    pub genre: String,
    /// The upload date of the module, as printed by the page.
    pub upload_date: String,
    /// The instrument text of the module, entity-decoded and trimmed.
    pub instrument_text: String,
}

// --- what each field is, as a function of the page text -------------------

/// A genuine detail page carries the archive-info container.
pub open spec fn is_detail_page(body: Seq<char>) -> bool {
    class_text_of(body, "mod-page-archive-info"@) is Some
}

/// A module is spotlit when the page carries the featured marker.
pub open spec fn spotlit_of(body: Seq<char>) -> bool {
    class_text_of(body, "mod-page-featured"@) is Some
}

/// The filename: the module sub-header text with parentheses removed.
pub open spec fn filename_of(body: Seq<char>) -> Option<Seq<char>> {
    match class_text_of(body, "module-sub-header"@) {
        Some(t) => Some(sans_parens(t)),
        None => None,
    }
}

/// The title: the first heading, with the parenthesized filename suffix
/// removed, then entity-decoded.
pub open spec fn title_of(body: Seq<char>) -> Option<Seq<char>> {
    match selector_text_of(body, "h1"@, 0) {
        Some(h) => match filename_of(body) {
            Some(f) => html_decoded_of(remove_first_spec(h, " ("@ + f + ")"@)),
            None => None,
        },
        None => None,
    }
}

/// The text of the stats entry that holds field `k`: entry `k` itself, or
/// entry `k + 1` on a spotlit page, whose stats list is shifted by one.
pub open spec fn stat_of(body: Seq<char>, k: nat) -> Option<Seq<char>> {
    selector_text_of(
        body,
        "li.stats"@,
        if spotlit_of(body) {
            k + 1
        } else {
            k
        },
    )
}

/// Stats entry `k` with its label prefix stripped; `None` when the entry
/// is missing or does not carry the label.
pub open spec fn labeled_stat_of(body: Seq<char>, k: nat, label: Seq<char>) -> Option<Seq<char>> {
    match stat_of(body, k) {
        Some(t) => strip_prefix_spec(t, label),
        None => None,
    }
}

/// A labelled stats entry parsed as a non-negative count.
pub open spec fn count_stat_of(body: Seq<char>, k: nat, label: Seq<char>) -> Option<u32> {
    match labeled_stat_of(body, k, label) {
        Some(t) => parse_u32_spec(t),
        None => None,
    }
}

/// The human-readable size string (stats entry 7).
pub open spec fn size_of(body: Seq<char>) -> Option<Seq<char>> {
    labeled_stat_of(body, 7, "Uncompressed Size: "@)
}

/// The MD5 digest string (stats entry 4).
pub open spec fn md5_of(body: Seq<char>) -> Option<Seq<char>> {
    labeled_stat_of(body, 4, "MD5: "@)
}

/// The format tag (stats entry 5).
pub open spec fn format_of(body: Seq<char>) -> Option<Seq<char>> {
    labeled_stat_of(body, 5, "Format: "@)
}

/// The genre label (stats entry 8).
pub open spec fn genre_of(body: Seq<char>) -> Option<Seq<char>> {
    labeled_stat_of(body, 8, "Genre: "@)
}

/// The download count (stats entry 2).
pub open spec fn download_count_of(body: Seq<char>) -> Option<u32> {
    count_stat_of(body, 2, "Downloads: "@)
}

/// The favourite count (stats entry 3), which also carries a unit suffix.
pub open spec fn fav_count_of(body: Seq<char>) -> Option<u32> {
    match labeled_stat_of(body, 3, "Favourited: "@) {
        Some(t) => match strip_suffix_spec(t, " times"@) {
            Some(u) => parse_u32_spec(u),
            None => None,
        },
        None => None,
    }
}

/// The channel count (stats entry 6).
pub open spec fn channel_count_of(body: Seq<char>) -> Option<u32> {
    count_stat_of(body, 6, "Channels: "@)
}

/// `s` without its trailing decorative suffix, when it carries one.
pub open spec fn sans_decor_spec(s: Seq<char>) -> Seq<char> {
    match strip_suffix_spec(s, " :D"@) {
        Some(u) => u,
        None => s,
    }
}

/// The upload date: the text of stats entry 0 after the view-count marker,
/// with the decorative suffix stripped and whitespace trimmed.
pub open spec fn upload_date_of(body: Seq<char>) -> Option<Seq<char>> {
    match stat_of(body, 0) {
        Some(t) => match after_marker_spec(t, " times since "@) {
            Some(rest) => Some(trim_spec(sans_decor_spec(rest))),
            None => None,
        },
        None => None,
    }
}

/// The instrument text: the second preformatted block, entity-decoded
/// and trimmed.
pub open spec fn instrument_text_of(body: Seq<char>) -> Option<Seq<char>> {
    match selector_text_of(body, "pre"@, 1) {
        Some(t) => match html_decoded_of(t) {
            Some(d) => Some(trim_spec(d)),
            None => None,
        },
        None => None,
    }
}

/// Every field of a detail page is present and parses.
pub open spec fn detail_fields_ok(body: Seq<char>) -> bool {
    &&& filename_of(body) is Some
    &&& title_of(body) is Some
    &&& size_of(body) is Some
    &&& md5_of(body) is Some
    &&& format_of(body) is Some
    &&& download_count_of(body) is Some
    &&& fav_count_of(body) is Some
    &&& channel_count_of(body) is Some
    &&& genre_of(body) is Some
    &&& upload_date_of(body) is Some
    &&& instrument_text_of(body) is Some
}

/// The record `m` holds exactly the fields that the page `body` describes
/// for module `mod_id` — every field except the scrape timestamp.
pub open spec fn detail_matches(body: Seq<char>, mod_id: u32, m: ModInfo) -> bool {
    &&& m.id == mod_id
    &&& Some(m.filename@) == filename_of(body)
    &&& Some(m.title@) == title_of(body)
    &&& Some(m.size@) == size_of(body)
    &&& Some(m.md5@) == md5_of(body)
    &&& Some(m.format@) == format_of(body)
    &&& m.spotlit == spotlit_of(body)
    &&& Some(m.download_count) == download_count_of(body)
    &&& Some(m.fav_count) == fav_count_of(body)
    &&& Some(m.channel_count) == channel_count_of(body)
    &&& Some(m.genre@) == genre_of(body)
    &&& Some(m.upload_date@) == upload_date_of(body)
    &&& Some(m.instrument_text@) == instrument_text_of(body)
}

/// The full contract of detail extraction: not-found on a page without the
/// detail marker, malformed-input when any field is missing or unparsable,
/// and otherwise a record holding exactly the page's fields.
pub open spec fn extract_detail_post(
    body: Seq<char>,
    mod_id: u32,
    r: Result<ModInfo, Error>,
) -> bool {
    if !is_detail_page(body) {
        r == Err::<ModInfo, Error>(Error::NotFound)
    } else if !detail_fields_ok(body) {
        r == Err::<ModInfo, Error>(Error::MalformedInput)
    } else {
        r matches Ok(m) && detail_matches(body, mod_id, m)
    }
}

// --- executable helpers ---------------------------------------------------

/// Reads the stats entry holding field `k`, applying the spotlit shift.
fn stat_text(body: &str, spotlit: bool, k: usize) -> (r: Option<String>)
    requires
        spotlit == spotlit_of(body@),
        k < 100,
    ensures
        r matches Some(t) ==> Some(t@) == stat_of(body@, k as nat),
        r is Some <==> stat_of(body@, k as nat) is Some,
{
    let idx = if spotlit {
        k + 1
    } else {
        k
    };
    selector_text_at(body, "li.stats", idx)
}

/// Reads stats entry `k` and strips its label prefix.
fn labeled_stat(body: &str, spotlit: bool, k: usize, label: &str) -> (r: Option<String>)
    requires
        spotlit == spotlit_of(body@),
        k < 100,
    ensures
        r matches Some(t) ==> Some(t@) == labeled_stat_of(body@, k as nat, label@),
        r is Some <==> labeled_stat_of(body@, k as nat, label@) is Some,
{
    match stat_text(body, spotlit, k) {
        Some(t) => match strip_prefix_str(t.as_str(), label) {
            Some(u) => Some(u.to_owned()),
            None => None,
        },
        None => None,
    }
}

/// Reads stats entry `k`, strips its label, and parses the count.
fn count_stat(body: &str, spotlit: bool, k: usize, label: &str) -> (r: Option<u32>)
    requires
        spotlit == spotlit_of(body@),
        k < 100,
    ensures
        r == count_stat_of(body@, k as nat, label@),
{
    match labeled_stat(body, spotlit, k, label) {
        Some(t) => parse_u32(t.as_str()),
        None => None,
    }
}

/// Reads the favourite count, which carries a unit suffix after the label.
fn fav_stat(body: &str, spotlit: bool) -> (r: Option<u32>)
    requires
        spotlit == spotlit_of(body@),
    ensures
        r == fav_count_of(body@),
{
    match labeled_stat(body, spotlit, 3, "Favourited: ") {
        Some(t) => match strip_suffix_str(t.as_str(), " times") {
            Some(u) => parse_u32(u),
            None => None,
        },
        None => None,
    }
}

/// Reads the upload date from the text after the view-count marker.
fn upload_date_text(body: &str, spotlit: bool) -> (r: Option<String>)
    requires
        spotlit == spotlit_of(body@),
    ensures
        r matches Some(t) ==> Some(t@) == upload_date_of(body@),
        r is Some <==> upload_date_of(body@) is Some,
{
    match stat_text(body, spotlit, 0) {
        Some(t) => match text_after(t.as_str(), " times since ") {
            Some(rest) => {
                let undecorated = match strip_suffix_str(rest, " :D") {
                    Some(u) => u,
                    None => rest,
                };
                Some(trim_ws(undecorated).to_owned())
            },
            None => None,
        },
        None => None,
    }
}

/// Reads the instrument text from the second preformatted block.
fn instrument_text_read(body: &str) -> (r: Option<String>)
    ensures
        r matches Some(t) ==> Some(t@) == instrument_text_of(body@),
        r is Some <==> instrument_text_of(body@) is Some,
{
    match selector_text_at(body, "pre", 1) {
        Some(t) => match decode_entities(t.as_str()) {
            Some(d) => Some(trim_ws(d.as_str()).to_owned()),
            None => None,
        },
        None => None,
    }
}

impl ModInfo {
    /// Extracts a full [`ModInfo`] record from the body of a module's
    /// detail page.
    ///
    /// Returns `Error::NotFound` exactly when the page lacks the detail
    /// marker, `Error::MalformedInput` when any expected fragment is
    /// missing or fails to parse, and otherwise a record whose every field
    /// other than `scrape_time` is a function of the page text alone.
    /// The `scrape_time` field is stamped from the clock at call time.
    pub fn extract_detail(body: &str, mod_id: u32) -> (r: Result<ModInfo, Error>)
        ensures
            extract_detail_post(body@, mod_id, r),
            r == Err::<ModInfo, Error>(Error::NotFound) <==> !is_detail_page(body@),
            r matches Ok(m) ==> m.id == mod_id && m.spotlit == spotlit_of(body@),
    {
        if first_class_text(body, "mod-page-archive-info").is_none() {
            return Err(Error::NotFound);
        }
        let spotlit = first_class_text(body, "mod-page-featured").is_some();
        let filename = match first_class_text(body, "module-sub-header") {
            Some(t) => remove_parens(t.as_str()),
            None => return Err(Error::MalformedInput),
        };
        let title = match selector_text_at(body, "h1", 0) {
            Some(h) => {
                let pat = String::from_str(" (").concat(filename.as_str()).concat(")");
                let bare = remove_first(h.as_str(), pat.as_str());
                match decode_entities(bare.as_str()) {
                    Some(t) => t,
                    None => return Err(Error::MalformedInput),
                }
            },
            None => return Err(Error::MalformedInput),
        };
        let size = match labeled_stat(body, spotlit, 7, "Uncompressed Size: ") {
            Some(t) => t,
            None => return Err(Error::MalformedInput),
        };
        let md5 = match labeled_stat(body, spotlit, 4, "MD5: ") {
            Some(t) => t,
            None => return Err(Error::MalformedInput),
        };
        let format_tag = match labeled_stat(body, spotlit, 5, "Format: ") {
            Some(t) => t,
            None => return Err(Error::MalformedInput),
        };
        let download_count = match count_stat(body, spotlit, 2, "Downloads: ") {
            Some(v) => v,
            None => return Err(Error::MalformedInput),
        };
        let fav_count = match fav_stat(body, spotlit) {
            Some(v) => v,
            None => return Err(Error::MalformedInput),
        };
        let channel_count = match count_stat(body, spotlit, 6, "Channels: ") {
            Some(v) => v,
            None => return Err(Error::MalformedInput),
        };
        let genre = match labeled_stat(body, spotlit, 8, "Genre: ") {
            Some(t) => t,
            None => return Err(Error::MalformedInput),
        };
        let upload_date = match upload_date_text(body, spotlit) {
            Some(t) => t,
            None => return Err(Error::MalformedInput),
        };
        let instrument_text = match instrument_text_read(body) {
            Some(t) => t,
            None => return Err(Error::MalformedInput),
        };
        let scrape_time = now_iso8601();
        Ok(
            ModInfo {
                id: mod_id,
                filename,
                title,
                size,
                md5,
                format: format_tag,
                spotlit,
                download_count,
                fav_count,
                scrape_time,
                channel_count,
                genre,
                upload_date,
                instrument_text,
            },
        )
    }

    /// Returns the download link for this module, built from its identifier
    /// and filename after the documented URL template.
    pub fn get_download_link(&self) -> (r: String)
        ensures
            r@ == download_link_of(self.id, self.filename@),
    {
        build_download_link(self.id, self.filename.as_str())
    }
}

/// Two records `m1` and `m2` agree on every field except `scrape_time`.
pub open spec fn same_but_scrape_time(m1: ModInfo, m2: ModInfo) -> bool {
    &&& m1.id == m2.id
    &&& m1.filename@ == m2.filename@
    &&& m1.title@ == m2.title@
    &&& m1.size@ == m2.size@
    &&& m1.md5@ == m2.md5@
    &&& m1.format@ == m2.format@
    &&& m1.spotlit == m2.spotlit
    &&& m1.download_count == m2.download_count
    &&& m1.fav_count == m2.fav_count
    &&& m1.channel_count == m2.channel_count
    &&& m1.genre@ == m2.genre@
    &&& m1.upload_date@ == m2.upload_date@
    &&& m1.instrument_text@ == m2.instrument_text@
}

/// Extraction is deterministic in the page body: two results drawn from
/// the identical page body for the same identifier are identical except
/// for `scrape_time`, which is stamped from the clock.
pub proof fn lemma_extract_detail_idempotent(
    body: Seq<char>,
    mod_id: u32,
    r1: Result<ModInfo, Error>,
    r2: Result<ModInfo, Error>,
)
    requires
        extract_detail_post(body, mod_id, r1),
        extract_detail_post(body, mod_id, r2),
    ensures
        r1 is Ok <==> r2 is Ok,
        r1 matches Err(e1) ==> r2 matches Err(e2) && e1 == e2,
        r1 is Ok && r2 is Ok ==> same_but_scrape_time(r1->Ok_0, r2->Ok_0),
{
}

} // verus!
