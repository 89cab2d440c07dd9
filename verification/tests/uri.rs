use lume_lsp::uri::{ensure_trailing_slash, Uri};

#[test]
fn parse_finds_the_path() {
    let uri = Uri::parse("file:///ws/src/a.lm").unwrap();
    assert_eq!(uri.as_str(), "file:///ws/src/a.lm");
    assert_eq!(uri.path(), "/ws/src/a.lm");
}

#[test]
fn parse_leaves_out_query_and_fragment() {
    let uri = Uri::parse("https://example.org/a/b?x=1#top").unwrap();
    assert_eq!(uri.path(), "/a/b");
}

#[test]
fn parse_refuses_what_is_no_uri() {
    assert!(Uri::parse("file:///a b").is_none());
    assert!(Uri::parse("file:///a%zz").is_none());
}

#[test]
fn uris_are_compared_by_their_text() {
    let a = Uri::parse("file:///ws/a.lm").unwrap();
    let b = Uri::parse("file:///ws/a.lm").unwrap();
    let c = Uri::parse("file:///ws/b.lm").unwrap();
    assert!(a.same(&b));
    assert!(!a.same(&c));
    assert_eq!(a, b);
    assert_ne!(a, c);
    assert_eq!(a.clone(), a);
}

#[test]
fn trailing_slash_is_added_once() {
    let bare = Uri::parse("file:///ws").unwrap();
    assert!(!bare.is_directory());
    let slashed = ensure_trailing_slash(bare).unwrap();
    assert_eq!(slashed.as_str(), "file:///ws/");
    assert_eq!(slashed.path(), "/ws/");
    assert!(slashed.is_directory());
    let again = ensure_trailing_slash(slashed).unwrap();
    assert_eq!(again.as_str(), "file:///ws/");
}
