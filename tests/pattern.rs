use shio::pattern::split_segments;
use shio::{Parameters, Pattern, Segment};

fn pairs(v: &[(&str, &str)]) -> Vec<(String, String)> {
    v.iter().map(|(a, b)| (a.to_string(), b.to_string())).collect()
}

#[test]
fn named_segment_captures_one_piece() {
    let p = Pattern::new("/users/:id");
    assert_eq!(p.match_path("/users/42"), Some(pairs(&[("id", "42")])));
    assert_eq!(p.match_path("/users"), None);
    assert_eq!(p.match_path("/users/42/x"), None);
}

#[test]
fn static_segments_compare_exactly() {
    let p = Pattern::new("/a/b");
    assert_eq!(p.match_path("/a/b"), Some(vec![]));
    assert_eq!(p.match_path("/a/B"), None);
    assert_eq!(p.match_path("/a/b/"), None);
    assert_eq!(p.match_path("/a//b"), None);
    assert_eq!(p.match_path("a/b"), None);
}

#[test]
fn several_names_in_template_order() {
    let p = Pattern::new("/:a/x/:b");
    assert_eq!(p.match_path("/1/x/2"), Some(pairs(&[("a", "1"), ("b", "2")])));
    assert_eq!(p.match_path("/1/y/2"), None);
}

#[test]
fn wildcard_takes_the_rest() {
    let p = Pattern::new("/files/*rest");
    assert_eq!(p.match_path("/files/a/b/c"), Some(pairs(&[("rest", "a/b/c")])));
    assert_eq!(p.match_path("/files/a"), Some(pairs(&[("rest", "a")])));
    assert_eq!(p.match_path("/files"), Some(pairs(&[("rest", "")])));
    assert_eq!(p.match_path("/other/a"), None);
}

#[test]
fn star_before_the_end_is_static() {
    let p = Pattern::new("/*x/y");
    assert_eq!(p.match_path("/*x/y"), Some(vec![]));
    assert_eq!(p.match_path("/a/y"), None);
}

#[test]
fn compiling_twice_matches_the_same() {
    let p = Pattern::new("/users/:id/*tail");
    let q = Pattern::new("/users/:id/*tail");
    for path in ["/users/1", "/users/1/a/b", "/users", "/x/1/2", ""] {
        assert_eq!(p.match_path(path), q.match_path(path));
    }
    assert_eq!(p.as_str(), "/users/:id/*tail");
}

#[test]
fn split_keeps_empty_pieces() {
    assert_eq!(split_segments("/a//b/"), vec!["", "a", "", "b", ""]);
    assert_eq!(split_segments(""), vec![""]);
}

#[test]
fn segments_of_a_template() {
    let p = Pattern::new("/:id");
    let seg = Segment::Named("id".to_string());
    assert!(matches!(seg, Segment::Named(_)));
    assert_eq!(p.match_path("/z"), Some(pairs(&[("id", "z")])));
}

#[test]
fn later_parameter_overrides_earlier() {
    let params = Parameters::from_pairs(pairs(&[("x", "1"), ("y", "2"), ("x", "3")]));
    assert_eq!(params.get("x"), Some("3".to_string()));
    assert_eq!(params.get("y"), Some("2".to_string()));
    assert_eq!(params.get("z"), None);
    assert_eq!(params.len(), 3);
    assert_eq!(Parameters::new().get("x"), None);
}
