use embedded_updater::api_client::describe_status;
use embedded_updater::paths::{join_path, last_segment};
use embedded_updater::text::{contains, prefixed};

#[test]
fn contains_agrees_with_the_standard_search() {
    let cases = vec![
        ("bytes", "bytes"),
        ("none", "bytes"),
        ("bytes, other", "bytes"),
        ("  bytes", "bytes"),
        ("byte", "bytes"),
        ("bytebytes", "bytes"),
        ("", "bytes"),
        ("", ""),
        ("abc", ""),
        ("Bytes", "bytes"),
        ("bbytes", "bytes"),
    ];
    for (haystack, needle) in cases {
        assert_eq!(contains(haystack, needle), haystack.contains(needle), "{:?} in {:?}", needle, haystack);
    }
}

#[test]
fn describe_status_writes_number_and_reason() {
    assert_eq!(describe_status(200), "200 OK");
    assert_eq!(describe_status(206), "206 Partial Content");
    assert_eq!(describe_status(404), "404 Not Found");
    assert_eq!(describe_status(500), "500 Internal Server Error");
}

#[test]
fn describe_status_marks_codes_without_a_reason() {
    assert_eq!(describe_status(299), "299 <unknown status code>");
    assert_eq!(describe_status(0), "0 <unknown status code>");
    assert_eq!(describe_status(1000), "1000 <unknown status code>");
}

#[test]
fn last_segment_is_what_follows_the_last_slash() {
    assert_eq!(last_segment("https://host/files/app-5"), "app-5");
    assert_eq!(last_segment("app-5"), "app-5");
    assert_eq!(last_segment("https://host/files/"), "");
    assert_eq!(last_segment(""), "");
    assert_eq!(last_segment("/"), "");
    assert_eq!(last_segment("a/b\u{e9}"), "b\u{e9}");
}

#[test]
fn last_segment_agrees_with_split() {
    for url in ["http://h/a/b", "x", "", "a//", "/a", "a/b/c.tar"] {
        assert_eq!(last_segment(url), url.split('/').last().unwrap());
    }
}

#[test]
fn join_path_agrees_with_the_standard_path() {
    let cases = vec![
        ("/var/dl", "app.zip"),
        ("/var/dl/", "app.zip"),
        ("", "app.zip"),
        ("/var/dl", ""),
        ("/var/dl", "/abs/run.sh"),
        ("rel", "a/b"),
        ("/", "x"),
    ];
    for (base, name) in cases {
        let expected = std::path::Path::new(base).join(name);
        assert_eq!(join_path(base, name), expected.to_str().unwrap(), "{:?} + {:?}", base, name);
    }
}

#[test]
fn prefixed_puts_one_text_before_the_other() {
    assert_eq!(prefixed("ab", "cd"), "abcd");
    assert_eq!(prefixed("", ""), "");
}

#[test]
fn describe_status_agrees_with_the_http_library() {
    for code in 100u16..=999 {
        let status = reqwest::StatusCode::from_u16(code).unwrap();
        assert_eq!(describe_status(code), status.to_string(), "on {}", code);
    }
}
