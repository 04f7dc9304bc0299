use trackermeta::ModSearch;
use trackermeta::text::find_sub;
use trackermeta::text::parse_u32;
use trackermeta::text::remove_first;
use trackermeta::text::remove_parens;
use trackermeta::text::strip_prefix_str;
use trackermeta::text::strip_suffix_str;
use trackermeta::text::text_after;
use trackermeta::text::trim_ws;

#[test]
fn parse_u32_plain() {
    assert_eq!(parse_u32("0"), Some(0));
    assert_eq!(parse_u32("2669"), Some(2669));
    assert_eq!(parse_u32("0042"), Some(42));
}

#[test]
fn parse_u32_limits() {
    assert_eq!(parse_u32("4294967295"), Some(u32::MAX));
    assert_eq!(parse_u32("4294967296"), None);
    assert_eq!(parse_u32("99999999999999999999"), None);
}

#[test]
fn parse_u32_rejects_non_digits() {
    assert_eq!(parse_u32(""), None);
    assert_eq!(parse_u32("12a"), None);
    assert_eq!(parse_u32(" 12"), None);
    assert_eq!(parse_u32("-5"), None);
    assert_eq!(parse_u32("+5"), None);
}

#[test]
fn find_sub_first_occurrence() {
    assert_eq!(find_sub("abcabc", "bc"), Some(1));
    assert_eq!(find_sub("abcabc", "cab"), Some(2));
    assert_eq!(find_sub("abcabc", "zz"), None);
    assert_eq!(find_sub("abc", ""), Some(0));
}

#[test]
fn text_after_marker() {
    assert_eq!(
        text_after("viewed 5 times since 17th October 2004", " times since "),
        Some("17th October 2004")
    );
    assert_eq!(text_after("no marker here", " times since "), None);
}

#[test]
fn remove_first_occurrence_only() {
    assert_eq!(remove_first("a (x) b (x)", " (x)"), "a b (x)");
    assert_eq!(remove_first("plain", " (x)"), "plain");
}

#[test]
fn strip_prefix_and_suffix() {
    assert_eq!(strip_prefix_str("MD5: abc", "MD5: "), Some("abc"));
    assert_eq!(strip_prefix_str("SHA: abc", "MD5: "), None);
    assert_eq!(strip_suffix_str("4 times", " times"), Some("4"));
    assert_eq!(strip_suffix_str("4 time", " times"), None);
}

#[test]
fn trim_and_parens() {
    assert_eq!(trim_ws("  \n\thello world \r\n"), "hello world");
    assert_eq!(trim_ws(""), "");
    assert_eq!(trim_ws(" \n "), "");
    assert_eq!(remove_parens("(noway.s3m)"), "noway.s3m");
    assert_eq!(remove_parens("a(b)c(d)"), "abcd");
}

#[test]
fn download_link_template() {
    let m = ModSearch { id: 0, filename: String::from("x.mod") };
    assert_eq!(
        m.get_download_link(),
        "https://api.modarchive.org/downloads.php?moduleid=0#x.mod"
    );
    let m = ModSearch { id: 4294967295, filename: String::from("big file.it") };
    assert_eq!(
        m.get_download_link(),
        "https://api.modarchive.org/downloads.php?moduleid=4294967295#big file.it"
    );
}
