use trackermeta::Error;
use trackermeta::ModInfo;

/// Builds a detail-page body in the upstream layout. On a spotlit page the
/// featured marker is present and the stats list gains one extra leading
/// entry, shifting every stat index by one.
fn detail_page(filename: &str, title_html: &str, stats: &[&str], spotlit: bool, instr: &str) -> String {
    let mut s = String::new();
    s.push_str("<html><body>");
    if spotlit {
        s.push_str("<div class=\"mod-page-featured\">Featured module</div>");
    }
    s.push_str(&format!("<h1>{}</h1>", title_html));
    s.push_str(&format!("<h2 class=\"module-sub-header\">({})</h2>", filename));
    s.push_str("<div class=\"mod-page-archive-info\">module info</div><ul>");
    if spotlit {
        s.push_str("<li class=\"stats\">Featured banner</li>");
    }
    for st in stats {
        s.push_str(&format!("<li class=\"stats\">{}</li>", st));
    }
    s.push_str("</ul><pre>mirror notice</pre>");
    s.push_str(&format!("<pre>{}</pre>", instr));
    s.push_str("</body></html>");
    s
}

const STANDARD_STATS: [&str; 9] = [
    "This module has been viewed 1612 times since 17th October 2004 :D",
    "Rating: none",
    "Downloads: 2669",
    "Favourited: 4 times",
    "MD5: 8f3b1f82b40b448d83e3e343312ad6e1",
    "Format: MOD",
    "Channels: 4",
    "Uncompressed Size: 108.06KB",
    "Genre: Electronic - Ambient",
];

fn standard_page() -> String {
    detail_page(
        "fading_horizont.mod",
        "Fading Horizont (fading_horizont.mod)",
        &STANDARD_STATS,
        false,
        "\n  instrument text\n",
    )
}

#[test]
fn valid_modid() {
    let body = standard_page();
    let valid = ModInfo::extract_detail(&body, 99356);
    assert!(valid.is_ok());
}

#[test]
fn invalid_modid() {
    let body = "<html><body><h1>Error</h1><p>no such module</p></body></html>";
    let invalid = ModInfo::extract_detail(body, 30638);
    assert!(invalid.is_err());
    assert_eq!(invalid.unwrap_err(), Error::NotFound);
}

#[test]
fn all_fields_exact() {
    let body = standard_page();
    let info = ModInfo::extract_detail(&body, 99356).unwrap();
    assert_eq!(info.id, 99356);
    assert_eq!(info.filename, "fading_horizont.mod");
    assert_eq!(info.title, "Fading Horizont");
    assert_eq!(info.size, "108.06KB");
    assert_eq!(info.md5, "8f3b1f82b40b448d83e3e343312ad6e1");
    assert_eq!(info.format, "MOD");
    assert!(!info.spotlit);
    assert_eq!(info.download_count, 2669);
    assert_eq!(info.fav_count, 4);
    assert_eq!(info.channel_count, 4);
    assert_eq!(info.genre, "Electronic - Ambient");
    assert_eq!(info.upload_date, "17th October 2004");
    assert_eq!(info.instrument_text, "instrument text");
}

#[test]
fn dl_link_modinfo() {
    let body = standard_page();
    let modinfo = ModInfo::extract_detail(&body, 41070).unwrap();
    assert_eq!(
        modinfo.get_download_link().as_str(),
        "https://api.modarchive.org/downloads.php?moduleid=41070#fading_horizont.mod"
    );
}

#[test]
fn title_entities_decoded() {
    let body = detail_page(
        "dance.mod",
        "Dance &amp; Trance (dance.mod)",
        &STANDARD_STATS,
        false,
        "x",
    );
    let info = ModInfo::extract_detail(&body, 1).unwrap();
    assert_eq!(info.title, "Dance & Trance");
}

#[test]
fn spotlit_modid() {
    let body = detail_page(
        "spot.xm",
        "Spot (spot.xm)",
        &STANDARD_STATS,
        true,
        "credits",
    );
    let module = ModInfo::extract_detail(&body, 158263).unwrap();
    assert_eq!(module.spotlit, true);
}

#[test]
fn spotlit_shifts_stat_indices() {
    // The same stats list, but behind the extra leading entry of a spotlit
    // page: every field must still be found at its shifted position.
    let body = detail_page(
        "spot.xm",
        "Spot (spot.xm)",
        &STANDARD_STATS,
        true,
        "credits",
    );
    let info = ModInfo::extract_detail(&body, 7).unwrap();
    assert_eq!(info.download_count, 2669);
    assert_eq!(info.fav_count, 4);
    assert_eq!(info.md5, "8f3b1f82b40b448d83e3e343312ad6e1");
    assert_eq!(info.format, "MOD");
    assert_eq!(info.channel_count, 4);
    assert_eq!(info.size, "108.06KB");
    assert_eq!(info.genre, "Electronic - Ambient");
    assert_eq!(info.upload_date, "17th October 2004");
}

#[test]
fn instr_text() {
    let block = "7th  Dance

             By:
 Jari Ylamaki aka Yrde
  27.11.2000 HELSINKI

            Finland
           SITE :
  www.mp3.com/Yrde";
    let body = detail_page(
        "yrde-7th.xm",
        "7th Dance (yrde-7th.xm)",
        &STANDARD_STATS,
        false,
        &format!("\n{}\n  ", block),
    );
    let instr_text = ModInfo::extract_detail(&body, 61772).unwrap().instrument_text;
    assert_eq!(
        instr_text,
        "7th  Dance

             By:
 Jari Ylamaki aka Yrde
  27.11.2000 HELSINKI

            Finland
           SITE :
  www.mp3.com/Yrde"
    );
}

#[test]
fn canonical_spotlit_record() {
    // A spotlit page whose credits block carries character entities and
    // surrounding whitespace: checks the spotlit flag, the index shift,
    // entity decoding and trimming together.
    let body = detail_page(
        "niteride.it",
        "Nite Ride (niteride.it)",
        &STANDARD_STATS,
        true,
        "\n Credits &amp; Thanks\n   by J&#246;rg\n ",
    );
    let info = ModInfo::extract_detail(&body, 158263).unwrap();
    assert_eq!(info.spotlit, true);
    assert_eq!(info.instrument_text, "Credits & Thanks\n   by J\u{f6}rg");
}

#[test]
fn nonnumeric_count_is_malformed() {
    let mut stats = STANDARD_STATS;
    stats[2] = "Downloads: many";
    let body = detail_page("a.mod", "A (a.mod)", &stats, false, "x");
    let r = ModInfo::extract_detail(&body, 5);
    assert_eq!(r.unwrap_err(), Error::MalformedInput);
}

#[test]
fn missing_stat_label_is_malformed() {
    let mut stats = STANDARD_STATS;
    stats[4] = "Checksum: 8f3b1f82b40b448d83e3e343312ad6e1";
    let body = detail_page("a.mod", "A (a.mod)", &stats, false, "x");
    let r = ModInfo::extract_detail(&body, 5);
    assert_eq!(r.unwrap_err(), Error::MalformedInput);
}

#[test]
fn short_stat_list_is_malformed() {
    let body = detail_page("a.mod", "A (a.mod)", &STANDARD_STATS[..4], false, "x");
    let r = ModInfo::extract_detail(&body, 5);
    assert_eq!(r.unwrap_err(), Error::MalformedInput);
}

#[test]
fn bad_entity_is_malformed() {
    let body = detail_page(
        "a.mod",
        "A (a.mod)",
        &STANDARD_STATS,
        false,
        "broken &nosuchentity; reference",
    );
    let r = ModInfo::extract_detail(&body, 5);
    assert_eq!(r.unwrap_err(), Error::MalformedInput);
}

#[test]
fn extraction_idempotent_except_scrape_time() {
    let body = standard_page();
    let first = ModInfo::extract_detail(&body, 12345).unwrap();
    let second = ModInfo::extract_detail(&body, 12345).unwrap();
    assert_eq!(first.id, second.id);
    assert_eq!(first.filename, second.filename);
    assert_eq!(first.title, second.title);
    assert_eq!(first.size, second.size);
    assert_eq!(first.md5, second.md5);
    assert_eq!(first.format, second.format);
    assert_eq!(first.spotlit, second.spotlit);
    assert_eq!(first.download_count, second.download_count);
    assert_eq!(first.fav_count, second.fav_count);
    assert_eq!(first.channel_count, second.channel_count);
    assert_eq!(first.genre, second.genre);
    assert_eq!(first.upload_date, second.upload_date);
    assert_eq!(first.instrument_text, second.instrument_text);
    // The scrape timestamp never runs backwards between the two calls.
    assert!(first.scrape_time <= second.scrape_time);
}
