use invoke_http::headers::header_value;
use invoke_http::path::surface_label;

fn headers(list: &[(&str, &str)]) -> Vec<(String, String)> {
    list.iter()
        .map(|(n, v)| (n.to_string(), v.to_string()))
        .collect()
}

#[test]
fn label_is_first_path_segment() {
    assert_eq!(surface_label("/main"), "main");
    assert_eq!(surface_label("/main/extra"), "main");
    assert_eq!(surface_label("/window-2/a/b"), "window-2");
}

#[test]
fn label_of_bare_or_empty_path_is_empty() {
    assert_eq!(surface_label("/"), "");
    assert_eq!(surface_label(""), "");
    assert_eq!(surface_label("no-slash"), "");
}

#[test]
fn header_lookup_ignores_ascii_case() {
    let hs = headers(&[("oRiGiN", "http://x.example"), ("Content-Type", "text/plain")]);
    assert_eq!(header_value(&hs, "Origin"), Some("http://x.example".to_string()));
    assert_eq!(header_value(&hs, "CONTENT-TYPE"), Some("text/plain".to_string()));
}

#[test]
fn header_lookup_takes_first_match_and_misses_cleanly() {
    let hs = headers(&[("X-A", "one"), ("x-a", "two")]);
    assert_eq!(header_value(&hs, "x-a"), Some("one".to_string()));
    assert_eq!(header_value(&hs, "x-b"), None);
}
