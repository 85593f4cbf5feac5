use bulkget::collect::file_name_for;
use bulkget::filename::{filename_hint, hint_from_parts, path_last_segment, quoted_filename};

#[test]
fn header_name_takes_precedence() {
    let hint = filename_hint(
        Some("attachment; filename=\"report.pdf\""),
        "https://example.com/images/cat.png",
    );
    assert_eq!(hint, Some("report.pdf".to_string()));
}

#[test]
fn url_segment_when_no_header() {
    let hint = filename_hint(None, "https://example.com/images/cat.png");
    assert_eq!(hint, Some("cat.png".to_string()));
}

#[test]
fn url_segment_leaves_out_query_and_fragment() {
    let hint = filename_hint(None, "https://example.com/a/b.png?size=2#top");
    assert_eq!(hint, Some("b.png".to_string()));
}

#[test]
fn no_path_segment_gives_synthesized_name() {
    let hint = filename_hint(None, "https://example.com");
    assert_eq!(hint, None);
    assert_eq!(file_name_for(&hint, 0), "file_0");
    assert_eq!(file_name_for(&hint, 7), "file_7");
}

#[test]
fn trailing_slash_gives_no_hint() {
    assert_eq!(filename_hint(None, "https://example.com/images/"), None);
}

#[test]
fn unparsable_url_gives_no_hint() {
    assert_eq!(filename_hint(None, "not a url"), None);
    assert_eq!(
        filename_hint(Some("inline; filename=\"x.txt\""), "not a url"),
        Some("x.txt".to_string())
    );
}

#[test]
fn header_without_filename_falls_back_to_url() {
    let hint = filename_hint(Some("inline"), "https://example.com/docs/a.txt");
    assert_eq!(hint, Some("a.txt".to_string()));
}

#[test]
fn empty_header_filename_falls_back_to_url() {
    let hint = filename_hint(Some("attachment; filename=\"\""), "https://example.com/docs/a.txt");
    assert_eq!(hint, Some("a.txt".to_string()));
}

#[test]
fn quoted_filename_takes_shortest_value() {
    assert_eq!(
        quoted_filename("attachment; filename=\"a.bin\"; x=\"y\""),
        Some("a.bin".to_string())
    );
    assert_eq!(quoted_filename("filename=\"\""), Some(String::new()));
    assert_eq!(quoted_filename("filename=\"unclosed"), None);
    assert_eq!(quoted_filename("filename=a.bin"), None);
    assert_eq!(quoted_filename("filename=\"a\nb\" filename=\"c\""), Some("c".to_string()));
}

#[test]
fn last_segment_of_paths() {
    assert_eq!(path_last_segment("/images/cat.png"), "cat.png");
    assert_eq!(path_last_segment("/"), "");
    assert_eq!(path_last_segment("plain"), "plain");
}

#[test]
fn hint_from_parts_precedence() {
    assert_eq!(
        hint_from_parts(Some("attachment; filename=\"h.txt\""), Some("/p/q.txt")),
        Some("h.txt".to_string())
    );
    assert_eq!(hint_from_parts(None, Some("/p/q.txt")), Some("q.txt".to_string()));
    assert_eq!(hint_from_parts(None, Some("/")), None);
    assert_eq!(hint_from_parts(None, None), None);
}

#[test]
fn hint_is_used_when_non_empty() {
    assert_eq!(file_name_for(&Some("cat.png".to_string()), 3), "cat.png");
    assert_eq!(file_name_for(&Some(String::new()), 3), "file_3");
    assert_eq!(file_name_for(&None, 1234567890), "file_1234567890");
    assert_eq!(file_name_for(&None, 10), "file_10");
}
