use edge_router::key::{path_starts_with, route_key};

#[test]
fn key_drops_the_prefix() {
    assert_eq!(route_key("/api", "/api/hello"), "/hello");
}

#[test]
fn key_of_a_path_without_the_prefix_is_the_path() {
    assert_eq!(route_key("/api", "/other"), "/other");
}

#[test]
fn key_drops_the_prefix_once_only() {
    assert_eq!(route_key("/api", "/api/api/hello"), "/api/hello");
}

#[test]
fn key_of_the_prefix_itself_is_empty() {
    assert_eq!(route_key("/api", "/api"), "");
}

#[test]
fn key_keeps_a_prefix_that_is_not_at_the_front() {
    assert_eq!(route_key("/api", "/v1/api/hello"), "/v1/api/hello");
}

#[test]
fn key_of_a_path_shorter_than_the_prefix_is_the_path() {
    assert_eq!(route_key("/api", "/ap"), "/ap");
    assert_eq!(route_key("/api", ""), "");
}

#[test]
fn key_under_an_empty_prefix_is_the_path() {
    assert_eq!(route_key("", "/api/hello"), "/api/hello");
}

#[test]
fn key_counts_characters_not_bytes() {
    assert_eq!(route_key("/caf\u{e9}", "/caf\u{e9}/men\u{fc}"), "/men\u{fc}");
    assert_eq!(route_key("/caf\u{e9}", "/cafe/menu"), "/cafe/menu");
}

#[test]
fn key_agrees_with_strip_prefix() {
    let prefixes = ["/api", "/", "", "/a", "/api/"];
    let paths = ["/api/hello", "/other", "/api", "/", "", "/a/api", "/api//x", "/apix"];
    for prefix in prefixes {
        for path in paths {
            let expected = path.strip_prefix(prefix).unwrap_or(path);
            assert_eq!(route_key(prefix, path), expected);
        }
    }
}

#[test]
fn prefix_followed_by_key_is_the_path() {
    let path = "/api/users/7";
    let key = route_key("/api", path);
    assert_eq!(format!("{}{}", "/api", key), path);
    assert_eq!(key.chars().count(), path.chars().count() - 4);
}

#[test]
fn starts_with_tells_prefixes() {
    assert!(path_starts_with("/api/hello", "/api"));
    assert!(path_starts_with("/api", "/api"));
    assert!(path_starts_with("/api", ""));
    assert!(!path_starts_with("/other", "/api"));
    assert!(!path_starts_with("/ap", "/api"));
    assert!(!path_starts_with("/apx/hello", "/api"));
    assert!(!path_starts_with("", "/api"));
}
