use lume_lsp::handlers::notification::{
    adopt_workspace_root, change_document, close_document, open_document, save_document,
};
use lume_lsp::handlers::request::{err, hover_reply, ok, on_hover};
use lume_lsp::hir::{
    Expression, ExpressionKind, FunctionDefinition, Identifier, Node, NodeMap, Path, PathSegment,
    Statement, StatementKind, StructDefinition, Type, TypeDefinition,
};
use lume_lsp::protocol::{
    capabilities, is_method, notification_params, request_params, ErrorCode, Message,
    Notification, Params, ParamsKind, Request, RequestId, ResponseBody, Step,
    TextDocumentSyncKind,
};
use lume_lsp::span::{FileName, Location, NodeId, PackageId, SourceFile, SourceFileId};
use lume_lsp::state::{CheckedPackage, CheckedPackageGraph, CompileOutcome, State};
use lume_lsp::symbols::hover::{HoverFacts, TypeKind};
use lume_lsp::symbols::lookup::SymbolKind;
use lume_lsp::uri::Uri;

fn uri(text: &str) -> Uri {
    Uri::parse(text).unwrap()
}

fn at(start: usize, end: usize) -> Location {
    Location { file: SourceFileId(PackageId(1), 0), start, end }
}

fn node(index: usize) -> NodeId {
    NodeId { package: PackageId(1), index }
}

fn ident(name: &str, start: usize, end: usize) -> Identifier {
    Identifier { name: name.to_string(), location: at(start, end) }
}

fn type_segment(name: &str, start: usize, end: usize) -> PathSegment {
    PathSegment::Type {
        name: ident(name, start, end),
        type_arguments: Vec::new(),
        location: at(start, end),
    }
}

fn source(name: &str, content: &str) -> SourceFile {
    SourceFile {
        id: SourceFileId(PackageId(1), 0),
        name: FileName::Real(name.to_string()),
        content: content.to_string(),
        package: PackageId(1),
    }
}

const POINT: &str = "pub struct Point {}";

/// A workspace at `/ws/` that was checked with `a.lm`, which declares
/// `pub struct Point {}`.
fn checked_workspace() -> State {
    let mut hir = NodeMap::new();
    hir.insert(
        node(0),
        Node::Type(TypeDefinition::Struct(StructDefinition {
            id: node(0),
            name: Path { root: Vec::new(), name: type_segment("Point", 11, 16), location: at(11, 16) },
            type_parameters: Vec::new(),
            fields: Vec::new(),
        })),
    );
    let mut state = State::new(uri("file:///ws/"));
    state.compile_workspace(CompileOutcome {
        graph: Some(CheckedPackageGraph {
            packages: vec![CheckedPackage {
                package: PackageId(1),
                sources: vec![source("a.lm", POINT)],
                hir,
            }],
        }),
        diagnostics: Vec::new(),
    });
    state
}

fn request(id: i32, method: &str, params: Params) -> Message {
    Message::Request(Request { id: RequestId::Number(id), method: method.to_string(), params })
}

fn notification(method: &str, params: Params) -> Message {
    Message::Notification(Notification { method: method.to_string(), params })
}

fn did_open(document: &str, text: &str) -> Message {
    notification(
        "textDocument/didOpen",
        Params::DidOpen { uri: uri(document), text: text.to_string() },
    )
}

fn hover(id: i32, document: &str, line: u32, character: u32) -> Message {
    request(id, "textDocument/hover", Params::Hover { uri: uri(document), line, character })
}

#[test]
fn capabilities_are_those_of_the_server() {
    let offered = capabilities();
    assert!(offered.hover_provider);
    assert!(!offered.completion_resolve_provider);
    assert!(offered.open_close);
    assert_eq!(offered.change, TextDocumentSyncKind::Full);
    assert!(offered.save_include_text);
    assert_eq!(lume_lsp::capabilities(), offered);
}

#[test]
fn methods_are_told_apart_by_their_name() {
    assert!(is_method(&"shutdown".to_string(), "shutdown"));
    assert!(!is_method(&"shutdown ".to_string(), "shutdown"));
    assert_eq!(request_params(&"textDocument/hover".to_string()), ParamsKind::Hover);
    assert_eq!(request_params(&"textDocument/definition".to_string()), ParamsKind::Unread);
    assert_eq!(request_params(&"shutdown".to_string()), ParamsKind::Unread);
    assert_eq!(notification_params(&"textDocument/didOpen".to_string()), ParamsKind::DidOpen);
    assert_eq!(notification_params(&"textDocument/didClose".to_string()), ParamsKind::DidClose);
    assert_eq!(notification_params(&"textDocument/didSave".to_string()), ParamsKind::DidSave);
    assert_eq!(notification_params(&"textDocument/didChange".to_string()), ParamsKind::DidChange);
    assert_eq!(notification_params(&"initialized".to_string()), ParamsKind::Unread);
}

#[test]
fn shutdown_is_answered_and_ends_the_loop() {
    let mut state = checked_workspace();
    let step = state.listen(request(7, "shutdown", Params::Unread));
    assert!(matches!(
        step,
        Step::Shutdown(response)
            if matches!(response.id, RequestId::Number(7)) && matches!(response.body, ResponseBody::Null)
    ));
}

#[test]
fn unknown_request_is_refused() {
    let mut state = checked_workspace();
    let step = state.listen(Message::Request(Request {
        id: RequestId::Text("r1".to_string()),
        method: "textDocument/definition".to_string(),
        params: Params::Unread,
    }));
    assert!(matches!(
        step,
        Step::Reply(response)
            if matches!(&response.id, RequestId::Text(id) if id == "r1")
                && matches!(&response.body, ResponseBody::Error { code: ErrorCode::MethodNotFound, message }
                    if message == "unhandled method")
    ));
}

#[test]
fn unknown_notification_is_passed_over() {
    let mut state = checked_workspace();
    assert!(matches!(state.listen(notification("initialized", Params::Unread)), Step::Ignore));
    assert_eq!(state.vfs.len(), 0);
}

#[test]
fn stray_response_is_dropped() {
    let mut state = checked_workspace();
    assert!(matches!(state.listen(Message::Response), Step::Ignore));
}

#[test]
fn parameters_that_could_not_be_decoded_fail_the_message() {
    let mut state = checked_workspace();
    let step = state.listen(request(1, "textDocument/hover", Params::Malformed("missing field".to_string())));
    assert!(matches!(step, Step::Failed(words) if words == "missing field"));
    let step =
        state.listen(notification("textDocument/didOpen", Params::Malformed("bad uri".to_string())));
    assert!(matches!(step, Step::Failed(words) if words == "bad uri"));
    let step = state.listen(notification("textDocument/didClose", Params::Unread));
    assert!(matches!(step, Step::Failed(words) if words == "unexpected parameters"));
    assert_eq!(state.vfs.len(), 0);
}

#[test]
fn opened_document_is_held_and_checked() {
    let mut state = checked_workspace();
    let step = state.listen(did_open("file:///ws/a.lm", "pub struct Point { }"));
    assert!(matches!(step, Step::Compile));
    let held = state.vfs.get_document(&uri("file:///ws/a.lm")).unwrap();
    assert_eq!(held.file.content, "pub struct Point { }");
    assert_eq!(held.file.id, SourceFileId(PackageId(1), 0));
    assert_eq!(held.file.name.as_str(), "a.lm");
}

#[test]
fn document_that_no_package_knows_is_not_held() {
    let mut state = checked_workspace();
    let step = state.listen(did_open("file:///ws/zz.lm", "x"));
    assert!(matches!(step, Step::Ignore));
    assert_eq!(state.vfs.len(), 0);
}

#[test]
fn document_opened_before_any_package_is_known_asks_for_the_root() {
    let mut state = State::new(uri("file:///ws/"));
    let step = open_document(&mut state, uri("file:///proj/src/a.lm"), "x".to_string());
    assert!(matches!(step, Step::Discover { uri, text }
        if uri.as_str() == "file:///proj/src/a.lm" && text == "x"));
    assert_eq!(state.vfs.len(), 0);
}

#[test]
fn found_root_is_adopted() {
    let mut state = State::new(uri("file:///ws/"));
    assert!(matches!(adopt_workspace_root(&mut state, "/proj"), Step::Compile));
    assert_eq!(state.vfs.workspace_root().as_str(), "file:///proj");
    assert!(matches!(adopt_workspace_root(&mut state, "/my proj"), Step::Ignore));
    assert_eq!(state.vfs.workspace_root().as_str(), "file:///proj");
}

#[test]
fn closed_document_is_let_go_of() {
    let mut state = checked_workspace();
    state.listen(did_open("file:///ws/a.lm", POINT));
    let step = state.listen(notification(
        "textDocument/didClose",
        Params::DidClose { uri: uri("file:///ws/a.lm") },
    ));
    assert!(matches!(step, Step::Compile));
    assert_eq!(state.vfs.len(), 0);
    assert!(matches!(close_document(&mut state, &uri("file:///ws/a.lm")), Step::Compile));
}

#[test]
fn did_open_then_did_close_leaves_the_overrides_as_they_were() {
    let mut state = checked_workspace();
    let before: Vec<(String, String)> = state.vfs.build_source_overrides().into_iter().collect();
    state.listen(did_open("file:///ws/a.lm", POINT));
    assert_eq!(state.vfs.build_source_overrides().len(), 1);
    state.listen(notification(
        "textDocument/didClose",
        Params::DidClose { uri: uri("file:///ws/a.lm") },
    ));
    let after: Vec<(String, String)> = state.vfs.build_source_overrides().into_iter().collect();
    assert_eq!(after, before);
}

#[test]
fn saved_document_takes_its_text() {
    let mut state = checked_workspace();
    state.listen(did_open("file:///ws/a.lm", POINT));
    let step = state.listen(notification(
        "textDocument/didSave",
        Params::DidSave { uri: uri("file:///ws/a.lm"), text: Some("saved".to_string()) },
    ));
    assert!(matches!(step, Step::Compile));
    assert_eq!(state.vfs.get_document(&uri("file:///ws/a.lm")).unwrap().file.content, "saved");
    assert!(matches!(
        save_document(&mut state, &uri("file:///ws/a.lm"), "again".to_string()),
        Step::Compile
    ));
    assert_eq!(state.vfs.get_document(&uri("file:///ws/a.lm")).unwrap().file.content, "again");
}

#[test]
fn document_saved_without_text_fails_the_message() {
    let mut state = checked_workspace();
    state.listen(did_open("file:///ws/a.lm", POINT));
    let step = state.listen(notification(
        "textDocument/didSave",
        Params::DidSave { uri: uri("file:///ws/a.lm"), text: None },
    ));
    assert!(matches!(step, Step::Failed(words) if words == "document saved without its text"));
    assert_eq!(state.vfs.get_document(&uri("file:///ws/a.lm")).unwrap().file.content, POINT);
}

#[test]
fn changed_document_takes_the_first_change() {
    let mut state = checked_workspace();
    state.listen(did_open("file:///ws/a.lm", POINT));
    let step = state.listen(notification(
        "textDocument/didChange",
        Params::DidChange {
            uri: uri("file:///ws/a.lm"),
            content_changes: vec!["first".to_string(), "second".to_string()],
        },
    ));
    assert!(matches!(step, Step::Compile));
    assert_eq!(state.vfs.get_document(&uri("file:///ws/a.lm")).unwrap().file.content, "first");
    let step = change_document(&mut state, &uri("file:///ws/a.lm"), &vec!["direct".to_string()]);
    assert!(matches!(step, Step::Compile));
    assert_eq!(state.vfs.get_document(&uri("file:///ws/a.lm")).unwrap().file.content, "direct");
}

#[test]
fn change_without_a_change_fails_the_message() {
    let mut state = checked_workspace();
    state.listen(did_open("file:///ws/a.lm", POINT));
    let step = state.listen(notification(
        "textDocument/didChange",
        Params::DidChange { uri: uri("file:///ws/a.lm"), content_changes: Vec::new() },
    ));
    assert!(matches!(step, Step::Failed(words) if words == "document changed without a change"));
}

#[test]
fn did_change_twice_is_did_change_once() {
    let change = || {
        notification(
            "textDocument/didChange",
            Params::DidChange { uri: uri("file:///ws/a.lm"), content_changes: vec!["new".to_string()] },
        )
    };
    let mut once = checked_workspace();
    once.listen(did_open("file:///ws/a.lm", POINT));
    once.listen(change());
    let mut twice = checked_workspace();
    twice.listen(did_open("file:///ws/a.lm", POINT));
    twice.listen(change());
    twice.listen(change());
    let overrides =
        |state: &State| -> Vec<(String, String)> { state.vfs.build_source_overrides().into_iter().collect() };
    assert_eq!(overrides(&once), overrides(&twice));
    assert_eq!(overrides(&twice), vec![("a.lm".to_string(), "new".to_string())]);
}

#[test]
fn hover_on_a_document_that_is_not_held_is_refused() {
    let mut state = checked_workspace();
    let step = state.listen(hover(3, "file:///ws/a.lm", 0, 11));
    assert!(matches!(
        step,
        Step::Reply(response)
            if matches!(response.id, RequestId::Number(3))
                && matches!(&response.body, ResponseBody::Error { code: ErrorCode::InvalidParams, message }
                    if message == "document not available")
    ));
}

#[test]
fn hover_on_a_struct_name_shows_the_struct() {
    let mut state = checked_workspace();
    assert!(matches!(state.listen(did_open("file:///ws/a.lm", POINT)), Step::Compile));
    let step = state.listen(hover(4, "file:///ws/a.lm", 0, 11));
    let (id, symbol) = match step {
        Step::Hover { id, location, symbol } => {
            assert_eq!(location, at(11, 12));
            (id, symbol.unwrap())
        }
        other => panic!("unexpected step: {:?}", other),
    };
    assert!(matches!(&symbol.kind, SymbolKind::Type { name } if name.name.name().name == "Point"));
    let facts = HoverFacts::Type {
        visibility: "pub".to_string(),
        kind: TypeKind::Struct { builtin: false },
        name: "Point".to_string(),
    };
    let response = hover_reply(id, Some(&symbol), Ok(facts));
    assert!(matches!(response.id, RequestId::Number(4)));
    assert!(matches!(&response.body, ResponseBody::Hover { value }
        if value == "```lm\npub struct Point\n```"));
}

#[test]
fn hover_beside_every_symbol_shows_nothing() {
    let mut state = checked_workspace();
    state.listen(did_open("file:///ws/a.lm", POINT));
    let step = on_hover(&state, RequestId::Number(5), &uri("file:///ws/a.lm"), 0, 2);
    let (id, symbol) = match step {
        Step::Hover { id, location, symbol } => {
            assert_eq!(location, at(2, 3));
            (id, symbol)
        }
        other => panic!("unexpected step: {:?}", other),
    };
    assert!(symbol.is_none());
    let response = hover_reply(id, symbol.as_ref(), Ok(HoverFacts::Unknown));
    assert!(matches!(&response.body, ResponseBody::Hover { value } if value.is_empty()));
}

#[test]
fn hover_on_a_variant_shows_the_case() {
    let variant = Path {
        root: vec![type_segment("Opt", 66, 69)],
        name: PathSegment::Variant { name: ident("Some", 71, 75), location: at(71, 75) },
        location: at(66, 75),
    };
    let mut hir = NodeMap::new();
    hir.insert(
        node(0),
        Node::Function(FunctionDefinition {
            id: node(0),
            name: Path {
                root: Vec::new(),
                name: PathSegment::Callable {
                    name: ident("main", 45, 49),
                    type_arguments: Vec::new(),
                    location: at(45, 49),
                },
                location: at(45, 49),
            },
            type_parameters: Vec::new(),
            parameters: Vec::new(),
            block: Some(lume_lsp::hir::Block { statements: vec![node(1)] }),
            return_type: Type {
                id: node(9),
                name: Path { root: Vec::new(), name: type_segment("void", 55, 59), location: at(55, 59) },
                location: at(55, 59),
            },
        }),
    );
    hir.insert(
        node(1),
        Node::Statement(Statement {
            id: node(1),
            kind: StatementKind::Expression(node(2)),
            location: at(66, 79),
        }),
    );
    hir.insert(
        node(2),
        Node::Expression(Expression {
            id: node(2),
            kind: ExpressionKind::Variant { name: variant, arguments: vec![node(3)] },
            location: at(66, 78),
        }),
    );
    hir.insert(
        node(3),
        Node::Expression(Expression { id: node(3), kind: ExpressionKind::Literal, location: at(76, 77) }),
    );
    let content = "pub enum Opt<T> {\n    Some(T),\n    None\n}\nfn main() -> void {\n    Opt::Some(1);\n}\n";
    let mut state = State::new(uri("file:///ws/"));
    state.compile_workspace(CompileOutcome {
        graph: Some(CheckedPackageGraph {
            packages: vec![CheckedPackage {
                package: PackageId(1),
                sources: vec![source("a.lm", content)],
                hir,
            }],
        }),
        diagnostics: Vec::new(),
    });
    state.listen(did_open("file:///ws/a.lm", content));
    // Line 5 starts at byte 62; the case is written from byte 71 on.
    let step = state.listen(hover(8, "file:///ws/a.lm", 5, 10));
    let (id, symbol) = match step {
        Step::Hover { id, location, symbol } => {
            assert_eq!(location, at(72, 73));
            (id, symbol.unwrap())
        }
        other => panic!("unexpected step: {:?}", other),
    };
    assert!(matches!(&symbol.kind, SymbolKind::Variant { .. }));
    let facts = HoverFacts::Variant {
        enum_name: "Opt<T>".to_string(),
        case_name: "Some".to_string(),
        parameters: vec!["T".to_string()],
    };
    let response = hover_reply(id, Some(&symbol), Ok(facts));
    assert!(matches!(&response.body, ResponseBody::Hover { value }
        if value == "```lm\nOpt<T>::Some(T)\n```"));
}

#[test]
fn hover_that_the_type_context_fails_is_answered_with_the_failure() {
    let response = hover_reply(RequestId::Number(6), None, Err("no such type".to_string()));
    assert!(matches!(response.id, RequestId::Number(6)));
    assert!(matches!(&response.body, ResponseBody::Error { code: ErrorCode::RequestFailed, message }
        if message == "could not retrieve content: no such type"));
}

#[test]
fn answers_carry_the_id_of_the_request() {
    let response = ok(RequestId::Text("a".to_string()), "shown".to_string());
    assert!(matches!(&response.id, RequestId::Text(id) if id == "a"));
    assert!(matches!(&response.body, ResponseBody::Hover { value } if value == "shown"));
    let response = err(RequestId::Number(2), ErrorCode::InvalidParams, "no");
    assert!(matches!(response.id, RequestId::Number(2)));
    assert!(matches!(&response.body, ResponseBody::Error { code: ErrorCode::InvalidParams, message }
        if message == "no"));
    assert!(matches!(RequestId::Number(2).clone(), RequestId::Number(2)));
}
