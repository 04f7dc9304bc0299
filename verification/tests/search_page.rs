use trackermeta::Error;
use trackermeta::ModInfo;

/// Builds a results-page body in the upstream layout: the results heading,
/// then one standard link per match, carrying the module identifier in its
/// link target and the filename as its text.
fn results_page(entries: &[(&str, &str)]) -> String {
    let mut s = String::new();
    s.push_str("<html><body><h1 class=\"site-wide-page-head-title\">Search results</h1><ul>");
    for (href, name) in entries {
        s.push_str(&format!(
            "<li><a class=\"standard-link\" title=\"{}\" href=\"{}\">{}</a></li>",
            name, href, name
        ));
    }
    s.push_str("</ul></body></html>");
    s
}

#[test]
fn name_resolving() {
    let body = results_page(&[
        (
            "https://modarchive.org/index.php?request=view_by_moduleid&query=88676",
            "virtual-monotone.mod",
        ),
        (
            "https://modarchive.org/index.php?request=view_by_moduleid&query=88677",
            "virtual-monotone-2.mod",
        ),
    ]);
    let mod_search = ModInfo::extract_search(&body);
    let mod_search = &mod_search.unwrap()[0];
    assert_eq!(mod_search.id, 88676);
    assert_eq!(
        mod_search.get_download_link().as_str(),
        "https://api.modarchive.org/downloads.php?moduleid=88676#virtual-monotone.mod"
    );
}

#[test]
fn first_match_filename_is_query() {
    // A query with an exact upstream match lists that match first; the
    // resolver keeps the page's order and the exact filename text.
    let query = "noway.s3m";
    let body = results_page(&[
        ("x?request=view_by_moduleid&query=51", "noway.s3m"),
        ("x?request=view_by_moduleid&query=929", "noway2.s3m"),
    ]);
    let matches = ModInfo::extract_search(&body).unwrap();
    assert!(!matches.is_empty());
    assert_eq!(matches[0].filename, query);
    assert_eq!(matches[0].id, 51);
    assert_eq!(matches[1].filename, "noway2.s3m");
    assert_eq!(matches[1].id, 929);
}

#[test]
fn missing_heading_is_not_found() {
    let body = "<html><body><h1>Something else entirely</h1></body></html>";
    let r = ModInfo::extract_search(body);
    assert_eq!(r.unwrap_err(), Error::NotFound);
}

#[test]
fn zero_matches_is_empty_not_error() {
    let body = results_page(&[]);
    let matches = ModInfo::extract_search(&body).unwrap();
    assert!(matches.is_empty());
}

#[test]
fn href_without_query_marker_is_malformed() {
    let body = results_page(&[("https://modarchive.org/somewhere-else", "odd.mod")]);
    let r = ModInfo::extract_search(&body);
    assert_eq!(r.unwrap_err(), Error::MalformedInput);
}

#[test]
fn nonnumeric_identifier_is_malformed() {
    let body = results_page(&[("x?request=search&query=abc", "odd.mod")]);
    let r = ModInfo::extract_search(&body);
    assert_eq!(r.unwrap_err(), Error::MalformedInput);
}

#[test]
fn plain_links_are_ignored() {
    // Links without the standard-link class or the title attribute are not
    // search matches and must not appear in the result.
    let mut body = String::new();
    body.push_str("<html><body><h1 class=\"site-wide-page-head-title\">Search results</h1>");
    body.push_str("<a href=\"nav?query=1\">nav</a>");
    body.push_str("<a class=\"standard-link\" href=\"nav?query=2\">no title</a>");
    body.push_str(
        "<a class=\"standard-link\" title=\"hit.mod\" href=\"y?query=42\">hit.mod</a>",
    );
    body.push_str("</body></html>");
    let matches = ModInfo::extract_search(&body).unwrap();
    assert_eq!(matches.len(), 1);
    assert_eq!(matches[0].id, 42);
    assert_eq!(matches[0].filename, "hit.mod");
}
