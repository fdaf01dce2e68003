use leptos_cloudflare::headers::{is_valid_name, is_valid_value, names_equal, HeaderList};
use leptos_cloudflare::parts::{redirect, ResponseParts};

fn entries(h: &HeaderList) -> Vec<(String, String)> {
    (0..h.len()).map(|i| h.entry(i)).collect()
}

fn pair(k: &str, v: &str) -> (String, String) {
    (k.to_string(), v.to_string())
}

#[test]
fn names_compare_without_ascii_case() {
    assert!(names_equal("Content-Type", "content-type"));
    assert!(names_equal("LOCATION", "Location"));
    assert!(!names_equal("Location", "Locations"));
    assert!(!names_equal("a", "b"));
    assert!(names_equal("", ""));
}

#[test]
fn append_keeps_earlier_entries_of_the_same_name() {
    let mut h = HeaderList::new();
    h.append("Set-Cookie", "a=1");
    h.append("set-cookie", "b=2");
    assert_eq!(entries(&h), vec![pair("Set-Cookie", "a=1"), pair("set-cookie", "b=2")]);
}

#[test]
fn set_replaces_every_entry_of_the_name() {
    let mut h = HeaderList::new();
    h.append("X-One", "1");
    h.append("Location", "/a");
    h.append("X-Two", "2");
    h.append("location", "/b");
    h.set("LOCATION", "/c");
    assert_eq!(
        entries(&h),
        vec![pair("X-One", "1"), pair("X-Two", "2"), pair("LOCATION", "/c")]
    );
}

#[test]
fn set_on_a_new_name_appends() {
    let mut h = HeaderList::new();
    h.append("X-One", "1");
    h.set("X-Two", "2");
    assert_eq!(entries(&h), vec![pair("X-One", "1"), pair("X-Two", "2")]);
}

#[test]
fn default_parts_are_empty() {
    let p = ResponseParts::default();
    assert_eq!(p.headers.len(), 0);
    assert_eq!(p.status, None);
}

#[test]
fn parts_insert_and_append_header() {
    let mut p = ResponseParts::default();
    p.append_header("Set-Cookie", "a=1");
    p.append_header("Set-Cookie", "b=2");
    p.insert_header("Cache-Control", "no-store");
    p.insert_header("cache-control", "max-age=60");
    assert_eq!(
        entries(&p.headers),
        vec![
            pair("Set-Cookie", "a=1"),
            pair("Set-Cookie", "b=2"),
            pair("cache-control", "max-age=60"),
        ]
    );
    assert_eq!(p.status, None);
}

#[test]
fn parts_set_status() {
    let mut p = ResponseParts::default();
    p.set_status(404);
    assert_eq!(p.status, Some(404));
    p.set_status(201);
    assert_eq!(p.status, Some(201));
}

#[test]
fn redirect_sets_found_and_location() {
    let mut p = ResponseParts::default();
    p.insert_header("location", "/old");
    p.append_header("X-Keep", "yes");
    redirect(&mut p, "/login");
    assert_eq!(p.status, Some(302));
    assert_eq!(entries(&p.headers), vec![pair("X-Keep", "yes"), pair("Location", "/login")]);
}

#[test]
fn http_names_and_values_are_checked() {
    assert!(is_valid_name("X-Request-Id"));
    assert!(is_valid_name("a!#$%&'*+-.^_`|~9"));
    assert!(!is_valid_name(""));
    assert!(!is_valid_name("Bad Name"));
    assert!(!is_valid_name("Bad:Name"));
    assert!(!is_valid_name("Naïve"));
    assert!(is_valid_value(""));
    assert!(is_valid_value("text/html; q=0.9"));
    assert!(is_valid_value("caf\u{e9}"));
    assert!(!is_valid_value("a\nb"));
    assert!(!is_valid_value("a\rb"));
    assert!(!is_valid_value("a\0b"));
    assert!(!is_valid_value("\u{20ac}"));
}

#[test]
fn invalid_value_leaves_parts_unchanged() {
    let mut p = ResponseParts::default();
    p.insert_header("X-A", "a\nb");
    assert_eq!(p.headers.len(), 0);
    p.append_header("X-A", "a\rb");
    assert_eq!(p.headers.len(), 0);
    p.append_header("Bad Name", "1");
    assert_eq!(p.headers.len(), 0);
    assert_eq!(p.status, None);
}

#[test]
fn invalid_insert_keeps_the_earlier_value() {
    let mut p = ResponseParts::default();
    p.insert_header("X-A", "1");
    p.insert_header("x-a", "bad\nvalue");
    assert_eq!(entries(&p.headers), vec![pair("X-A", "1")]);
}

#[test]
fn redirect_to_an_invalid_path_keeps_the_location() {
    let mut p = ResponseParts::default();
    p.insert_header("Location", "/old");
    redirect(&mut p, "/new\r\nX-Evil: 1");
    assert_eq!(p.status, Some(302));
    assert_eq!(entries(&p.headers), vec![pair("Location", "/old")]);
}

#[test]
fn cloned_list_has_the_same_entries() {
    let mut h = HeaderList::new();
    h.append("A", "1");
    h.append("B", "2");
    let c = h.clone();
    assert_eq!(entries(&c), entries(&h));
}
