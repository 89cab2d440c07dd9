use lume_lsp::backend::{workspace_root_of, Backend};
use lume_lsp::diagnostics::{Diagnostic, Label, Severity, Source};
use lume_lsp::protocol::{
    ErrorCode, Message, Notification, Params, Request, RequestId, ResponseBody, Step,
};
use lume_lsp::state::CompileOutcome;
use lume_lsp::uri::Uri;

fn uri(text: &str) -> Uri {
    Uri::parse(text).unwrap()
}

fn backend() -> Backend {
    Backend::initialize(Some(vec![uri("file:///ws")]))
}

fn notification(method: &str, params: Params) -> Message {
    Message::Notification(Notification { method: method.to_string(), params })
}

fn did_open(document: &str, text: &str) -> Message {
    notification(
        "textDocument/didOpen",
        Params::DidOpen { uri: uri(document), text: text.to_string() },
    )
}

fn overrides(backend: &Backend) -> Vec<(String, String)> {
    backend.build_source_overrides().into_iter().collect()
}

fn pair(name: &str, content: &str) -> (String, String) {
    (name.to_string(), content.to_string())
}

fn type_error(name: &str) -> Diagnostic {
    Diagnostic {
        message: "mismatched types".to_string(),
        severity: Severity::Error,
        code: None,
        labels: Some(vec![Label {
            message: "expected Bool".to_string(),
            source: Some(Source { name: Some(name.to_string()), content: "let x = 1;".to_string() }),
            start: 4,
            end: 5,
        }]),
        help: None,
    }
}

#[test]
fn root_is_the_first_folder_with_a_slash() {
    assert_eq!(workspace_root_of(Some(vec![uri("file:///ws")])).unwrap().as_str(), "file:///ws/");
    assert_eq!(
        workspace_root_of(Some(vec![uri("file:///a/"), uri("file:///b")])).unwrap().as_str(),
        "file:///a/"
    );
    assert!(workspace_root_of(Some(Vec::new())).is_none());
    assert!(workspace_root_of(None).is_none());
}

#[test]
fn backend_asks_for_a_check_of_its_root() {
    let request = backend().compile_request().unwrap();
    assert_eq!(request.root, "file:///ws/");
    assert!(request.source_overrides.is_empty());
    assert!(Backend::initialize(None).compile_request().is_none());
}

#[test]
fn backend_refuses_every_request() {
    let mut backend = backend();
    let step = backend.listen(Message::Request(Request {
        id: RequestId::Number(1),
        method: "textDocument/hover".to_string(),
        params: Params::Unread,
    }));
    assert!(matches!(
        step,
        Step::Reply(response)
            if matches!(&response.body, ResponseBody::Error { code: ErrorCode::MethodNotFound, message }
                if message == "unhandled method")
    ));
}

#[test]
fn backend_shuts_down() {
    let mut backend = backend();
    let step = backend.listen(Message::Request(Request {
        id: RequestId::Number(2),
        method: "shutdown".to_string(),
        params: Params::Unread,
    }));
    assert!(matches!(step, Step::Shutdown(response) if matches!(response.body, ResponseBody::Null)));
    assert!(matches!(backend.listen(Message::Response), Step::Ignore));
}

#[test]
fn backend_holds_the_text_of_every_open_document() {
    let mut backend = backend();
    assert!(matches!(backend.listen(did_open("file:///ws/a.lm", "one")), Step::Compile));
    assert!(matches!(backend.listen(did_open("file:///other/b.lm", "two")), Step::Compile));
    assert_eq!(overrides(&backend), vec![pair("a.lm", "one"), pair("/other/b.lm", "two")]);

    let step = backend.listen(notification(
        "textDocument/didChange",
        Params::DidChange { uri: uri("file:///ws/a.lm"), content_changes: vec!["three".to_string()] },
    ));
    assert!(matches!(step, Step::Compile));
    assert_eq!(overrides(&backend), vec![pair("a.lm", "three"), pair("/other/b.lm", "two")]);

    let step = backend.listen(notification(
        "textDocument/didSave",
        Params::DidSave { uri: uri("file:///ws/c.lm"), text: Some("four".to_string()) },
    ));
    assert!(matches!(step, Step::Compile));
    assert_eq!(overrides(&backend).len(), 3);

    let step = backend.listen(notification(
        "textDocument/didClose",
        Params::DidClose { uri: uri("file:///ws/a.lm") },
    ));
    assert!(matches!(step, Step::Compile));
    assert_eq!(overrides(&backend), vec![pair("/other/b.lm", "two"), pair("c.lm", "four")]);
}

#[test]
fn backend_passes_over_what_it_does_not_know() {
    let mut backend = backend();
    assert!(matches!(backend.listen(notification("initialized", Params::Unread)), Step::Ignore));
    let step = backend.listen(notification("textDocument/didOpen", Params::Unread));
    assert!(matches!(step, Step::Failed(_)));
    assert!(overrides(&backend).is_empty());
}

#[test]
fn backend_without_a_root_cannot_check() {
    let mut backend = Backend::initialize(Some(Vec::new()));
    let step = backend.listen(did_open("file:///ws/a.lm", "one"));
    assert!(matches!(step, Step::Failed(words)
        if words == "Lume packages without a root Arcfile are not currently supported"));
    assert!(overrides(&backend).is_empty());
}

#[test]
fn backend_publishes_and_clears() {
    let mut backend = backend();
    let sent = backend
        .check_package_root(CompileOutcome { graph: None, diagnostics: vec![type_error("a.lm")] });
    assert_eq!(sent.len(), 1);
    assert_eq!(sent[0].uri.as_str(), "file:///ws/a.lm");
    assert_eq!(sent[0].diagnostics.len(), 1);
    let sent = backend.check_package_root(CompileOutcome { graph: None, diagnostics: Vec::new() });
    assert_eq!(sent.len(), 1);
    assert_eq!(sent[0].uri.as_str(), "file:///ws/a.lm");
    assert!(sent[0].diagnostics.is_empty());
    assert!(backend
        .check_package_root(CompileOutcome { graph: None, diagnostics: Vec::new() })
        .is_empty());
}
