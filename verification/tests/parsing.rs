use radico::auth::{gen_hash_key, partial_key};
use radico::lines::{first_stream_url, medialist_urls};
use radico::quote::QuoteUtil;
use radico::text::strip_html;
use radico::timestamp::{epoch_days, parse_compact, parse_timestamp, Timestamp};
use chrono::NaiveDate;

#[test]
fn parses_stamp_from_segment_url() {
    let ts = parse_timestamp(b"https://host/path/seg_20240101_000500.aac").unwrap();
    assert_eq!(
        ts,
        Timestamp { year: 2024, month: 1, day: 1, hour: 0, minute: 5, second: 0 }
    );
    assert_eq!(ts.key(), 20240101000500);
}

#[test]
fn takes_the_last_stamp_in_the_identifier() {
    // The leading digits belong to the path; the greedy match takes the
    // last well-formed stamp.
    let ts = parse_timestamp(b"/20230101_121212/x/seg_20240202_030405.aac").unwrap();
    assert_eq!(ts.key(), 20240202030405);
}

#[test]
fn malformed_identifiers_are_rejected() {
    assert!(parse_timestamp(b"").is_none());
    assert!(parse_timestamp(b"no stamp here").is_none());
    assert!(parse_timestamp(b"short_123456").is_none());
    // Right shape, impossible date: the 30th of February.
    assert!(parse_timestamp(b"seg_20240230_101010.aac").is_none());
    // Month zero and hour 24 are equally impossible.
    assert!(parse_timestamp(b"seg_20240001_101010.aac").is_none());
    assert!(parse_timestamp(b"seg_20240101_240000.aac").is_none());
}

#[test]
fn leap_years_are_honoured() {
    assert!(parse_timestamp(b"seg_20240229_000000.aac").is_some());
    assert!(parse_timestamp(b"seg_20230229_000000.aac").is_none());
    assert!(parse_timestamp(b"seg_20000229_000000.aac").is_some());
    assert!(parse_timestamp(b"seg_19000229_000000.aac").is_none());
}

#[test]
fn compact_stamps_parse_exactly() {
    let ts = parse_compact(b"20240101000500").unwrap();
    assert_eq!(ts.key(), 20240101000500);
    assert!(parse_compact(b"2024010100050").is_none());
    assert!(parse_compact(b"20240101_00050").is_none());
    assert!(parse_compact(b"20241301000500").is_none());
}

#[test]
fn epoch_day_arithmetic_matches_the_calendar() {
    assert_eq!(epoch_days(1970, 1, 1), 0);
    assert_eq!(epoch_days(1970, 1, 2), 1);
    assert_eq!(epoch_days(1969, 12, 31), -1);
    assert_eq!(epoch_days(2024, 1, 1), 19723);
    assert_eq!(epoch_days(2000, 3, 1), 11017);
    let ts = Timestamp { year: 2024, month: 1, day: 1, hour: 0, minute: 0, second: 30 };
    assert_eq!(ts.epoch_seconds(), 19723i64 * 86400 + 30);
}

#[test]
fn epoch_days_agrees_with_the_calendar_crate() {
    let epoch = NaiveDate::from_ymd_opt(1970, 1, 1).unwrap();
    for &(y, m, d) in &[
        (1970u16, 1u8, 1u8),
        (2000, 2, 29),
        (2000, 3, 1),
        (2024, 12, 31),
        (1999, 3, 1),
        (2023, 2, 28),
        (1969, 12, 31),
        (1, 1, 1),
        (9999, 12, 31),
    ] {
        let expect = NaiveDate::from_ymd_opt(y as i32, m as u32, d as u32)
            .unwrap()
            .signed_duration_since(epoch)
            .num_days();
        assert_eq!(epoch_days(y, m, d), expect, "{}-{}-{}", y, m, d);
    }
}

#[test]
fn ordering_follows_the_packed_key() {
    let a = Timestamp { year: 2024, month: 1, day: 1, hour: 0, minute: 0, second: 0 };
    let b = Timestamp { year: 2024, month: 1, day: 1, hour: 0, minute: 5, second: 0 };
    assert!(a.before(&b));
    assert!(!b.before(&a));
    assert!(!a.before(&a));
}

#[test]
fn medialist_keeps_only_stream_lines() {
    let body = b"#EXTM3U\nhttps://cdn/seg_1.aac\ncomment\nhttps://cdn/seg_2.aac\n";
    let urls = medialist_urls(body);
    assert_eq!(urls.len(), 2);
    assert_eq!(urls[0], b"https://cdn/seg_1.aac".to_vec());
    assert_eq!(urls[1], b"https://cdn/seg_2.aac".to_vec());
}

#[test]
fn forbidden_body_yields_no_stream_url() {
    assert!(first_stream_url(b"forbidden").is_none());
    let url = first_stream_url(b"x\nhttps://cdn/a\nhttps://cdn/b").unwrap();
    assert_eq!(url, b"https://cdn/a".to_vec());
}

#[test]
fn quote_util_selects_lines_and_spans() {
    let page = b"var a = \"alpha\";\nload('/menu', '/check');\nurl = \"beta\" + \"gamma\";\n";
    let util = QuoteUtil::new(page);
    let menus = util.find_all(b"/menu");
    assert_eq!(menus.res.len(), 1);
    let spans = menus.strip_quote(b'\'');
    assert_eq!(spans, vec![vec![b"/menu".to_vec(), b"/check".to_vec()]]);
    let urls = util.find_all(b"url");
    let spans = urls.strip_quote(b'"');
    assert_eq!(spans, vec![vec![b"beta".to_vec(), b"gamma".to_vec()]]);
}

#[test]
fn unterminated_quote_captures_nothing() {
    let util = QuoteUtil::new(b"key \"one\" and \"dangling");
    let hits = util.find_all(b"key");
    let spans = hits.strip_quote(b'"');
    assert_eq!(spans, vec![vec![b"one".to_vec()]]);
}

#[test]
fn hash_key_is_the_hex_digest_of_the_alphabet() {
    let key = gen_hash_key();
    assert_eq!(
        String::from_utf8(key).unwrap(),
        "c3fcd3d76192e4007dfb496cca67e13b"
    );
}

#[test]
fn partial_key_encodes_the_announced_range() {
    assert_eq!(partial_key("abcdef", 1, 3).unwrap(), "YmNk");
    assert_eq!(partial_key("abcdef", 0, 6).unwrap(), "YWJjZGVm");
    assert_eq!(partial_key("abcdef", 0, 0).unwrap(), "");
    assert!(partial_key("abcdef", 4, 3).is_none());
    assert!(partial_key("abcdef", 7, 0).is_none());
}

#[test]
fn strip_html_condenses_and_unwraps_tags() {
    assert_eq!(strip_html("Hello   <b>world</b>"), "Hello world");
    assert_eq!(strip_html("a\n\t b"), "a b");
    assert_eq!(strip_html("<p>one</p><p>two</p>"), "onetwo");
}

#[test]
fn strip_html_folds_full_width_ascii() {
    assert_eq!(strip_html("ＡＢＣ１２３"), "ABC123");
}

#[test]
fn strip_html_marks_escaped_newlines_for_raw_mode() {
    assert_eq!(strip_html("one\\ntwo"), "one\\n\\rtwo");
}
