use lume_lsp::span::{FileName, PackageId, SourceFile, SourceFileId};
use lume_lsp::state::Vfs;
use lume_lsp::uri::Uri;

fn uri(text: &str) -> Uri {
    Uri::parse(text).unwrap()
}

fn source(index: usize, name: &str, content: &str) -> SourceFile {
    SourceFile {
        id: SourceFileId(PackageId(1), index),
        name: FileName::Real(name.to_string()),
        content: content.to_string(),
        package: PackageId(1),
    }
}

fn workspace() -> Vfs {
    Vfs::new(uri("file:///ws/"))
}

fn overrides(vfs: &Vfs) -> Vec<(String, String)> {
    vfs.build_source_overrides().into_iter().collect()
}

fn pair(name: &str, content: &str) -> (String, String) {
    (name.to_string(), content.to_string())
}

#[test]
fn new_vfs_holds_nothing() {
    let vfs = workspace();
    assert_eq!(vfs.len(), 0);
    assert_eq!(vfs.workspace_root().as_str(), "file:///ws/");
    assert!(vfs.get_document(&uri("file:///ws/a.lm")).is_none());
    assert!(overrides(&vfs).is_empty());
}

#[test]
fn added_document_is_held_under_its_uri() {
    let mut vfs = workspace();
    vfs.add_document(uri("file:///ws/a.lm"), source(0, "a.lm", "one"));
    assert_eq!(vfs.len(), 1);
    let held = vfs.get_document(&uri("file:///ws/a.lm")).unwrap();
    assert_eq!(held.uri.as_str(), "file:///ws/a.lm");
    assert_eq!(held.file.content, "one");
    assert_eq!(held.file.id, SourceFileId(PackageId(1), 0));
    assert!(vfs.get_document(&uri("file:///ws/b.lm")).is_none());
}

#[test]
fn adding_under_a_held_uri_replaces_in_place() {
    let mut vfs = workspace();
    vfs.add_document(uri("file:///ws/a.lm"), source(0, "a.lm", "one"));
    vfs.add_document(uri("file:///ws/b.lm"), source(1, "b.lm", "two"));
    vfs.add_document(uri("file:///ws/a.lm"), source(0, "a.lm", "three"));
    assert_eq!(vfs.len(), 2);
    assert_eq!(overrides(&vfs), vec![pair("a.lm", "three"), pair("b.lm", "two")]);
}

#[test]
fn document_under_the_root_is_overridden_by_its_relative_path() {
    let mut vfs = workspace();
    vfs.add_document(uri("file:///ws/src/a.lm"), source(0, "src/a.lm", "one"));
    assert_eq!(overrides(&vfs), vec![pair("src/a.lm", "one")]);
}

#[test]
fn document_outside_the_root_is_overridden_by_its_whole_path() {
    let mut vfs = workspace();
    vfs.add_document(uri("file:///other/b.lm"), source(0, "/other/b.lm", "two"));
    // A directory whose name only starts like the root is not under it.
    vfs.add_document(uri("file:///wsx/c.lm"), source(1, "/wsx/c.lm", "three"));
    assert_eq!(overrides(&vfs), vec![pair("/other/b.lm", "two"), pair("/wsx/c.lm", "three")]);
}

#[test]
fn every_document_is_in_the_overrides_with_its_current_content() {
    let mut vfs = workspace();
    vfs.add_document(uri("file:///ws/a.lm"), source(0, "a.lm", "one"));
    vfs.add_document(uri("file:///ws/b.lm"), source(1, "b.lm", "two"));
    vfs.change_document(&uri("file:///ws/a.lm"), "changed".to_string());
    let built = vfs.build_source_overrides();
    assert_eq!(built.len(), 2);
    assert_eq!(built.get("a.lm").unwrap(), "changed");
    assert_eq!(built.get("b.lm").unwrap(), "two");
}

#[test]
fn later_document_of_the_same_name_overrides_the_earlier() {
    let mut vfs = workspace();
    vfs.add_document(uri("file:///ws/a.lm"), source(0, "a.lm", "one"));
    vfs.add_document(uri("file:///ws//a.lm"), source(1, "a.lm", "two"));
    assert_eq!(vfs.len(), 2);
    assert_eq!(overrides(&vfs), vec![pair("a.lm", "two")]);
}

#[test]
fn change_keeps_the_identity_of_the_document() {
    let mut vfs = workspace();
    vfs.add_document(uri("file:///ws/a.lm"), source(4, "a.lm", "one"));
    vfs.change_document(&uri("file:///ws/a.lm"), "two".to_string());
    let held = vfs.get_document(&uri("file:///ws/a.lm")).unwrap();
    assert_eq!(held.file.content, "two");
    assert_eq!(held.file.id, SourceFileId(PackageId(1), 4));
    assert_eq!(held.file.name.as_str(), "a.lm");
    assert_eq!(held.file.package, PackageId(1));
    assert_eq!(vfs.len(), 1);
}

#[test]
fn change_of_a_document_that_is_not_held_does_nothing() {
    let mut vfs = workspace();
    vfs.add_document(uri("file:///ws/a.lm"), source(0, "a.lm", "one"));
    vfs.change_document(&uri("file:///ws/b.lm"), "two".to_string());
    assert_eq!(vfs.len(), 1);
    assert_eq!(overrides(&vfs), vec![pair("a.lm", "one")]);
}

#[test]
fn changing_twice_is_changing_once() {
    let mut once = workspace();
    once.add_document(uri("file:///ws/a.lm"), source(0, "a.lm", "one"));
    once.add_document(uri("file:///ws/b.lm"), source(1, "b.lm", "two"));
    once.change_document(&uri("file:///ws/a.lm"), "new".to_string());
    let mut twice = workspace();
    twice.add_document(uri("file:///ws/a.lm"), source(0, "a.lm", "one"));
    twice.add_document(uri("file:///ws/b.lm"), source(1, "b.lm", "two"));
    twice.change_document(&uri("file:///ws/a.lm"), "new".to_string());
    twice.change_document(&uri("file:///ws/a.lm"), "new".to_string());
    assert_eq!(overrides(&once), overrides(&twice));
    assert_eq!(twice.len(), 2);
}

#[test]
fn remove_says_whether_the_document_was_held() {
    let mut vfs = workspace();
    vfs.add_document(uri("file:///ws/a.lm"), source(0, "a.lm", "one"));
    assert!(!vfs.remove_document(&uri("file:///ws/b.lm")));
    assert!(vfs.remove_document(&uri("file:///ws/a.lm")));
    assert!(!vfs.remove_document(&uri("file:///ws/a.lm")));
    assert_eq!(vfs.len(), 0);
}

#[test]
fn removed_document_gives_its_place_to_the_last() {
    let mut vfs = workspace();
    vfs.add_document(uri("file:///ws/a.lm"), source(0, "a.lm", "one"));
    vfs.add_document(uri("file:///ws/b.lm"), source(1, "b.lm", "two"));
    vfs.add_document(uri("file:///ws/c.lm"), source(2, "c.lm", "three"));
    assert!(vfs.remove_document(&uri("file:///ws/a.lm")));
    assert_eq!(overrides(&vfs), vec![pair("c.lm", "three"), pair("b.lm", "two")]);
}

#[test]
fn open_then_close_leaves_the_overrides_as_they_were() {
    let mut vfs = workspace();
    vfs.add_document(uri("file:///ws/a.lm"), source(0, "a.lm", "one"));
    vfs.add_document(uri("file:///ws/b.lm"), source(1, "b.lm", "two"));
    let before = overrides(&vfs);
    vfs.add_document(uri("file:///ws/c.lm"), source(2, "c.lm", "three"));
    assert_ne!(overrides(&vfs), before);
    assert!(vfs.remove_document(&uri("file:///ws/c.lm")));
    assert_eq!(overrides(&vfs), before);
}

#[test]
fn moving_the_root_changes_the_names() {
    let mut vfs = workspace();
    vfs.add_document(uri("file:///ws/src/a.lm"), source(0, "src/a.lm", "one"));
    vfs.set_workspace_root(uri("file:///ws/src/"));
    assert_eq!(overrides(&vfs), vec![pair("a.lm", "one")]);
    assert_eq!(vfs.len(), 1);
}
