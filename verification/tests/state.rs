use lume_lsp::diagnostics::{Diagnostic, Label, Severity, Source};
use lume_lsp::hir::{
    FunctionDefinition, Identifier, Node, NodeMap, Path, PathSegment, StructDefinition, Type,
    TypeDefinition,
};
use lume_lsp::span::{FileName, Location, NodeId, PackageId, SourceFile, SourceFileId};
use lume_lsp::state::{
    CheckedPackage, CheckedPackageGraph, CheckedWorkspace, CompileOutcome, State,
};
use lume_lsp::symbols::lookup::SymbolKind;
use lume_lsp::uri::Uri;
use lume_lsp::{initialize, InitializeError};

fn uri(text: &str) -> Uri {
    Uri::parse(text).unwrap()
}

fn file_id(index: usize) -> SourceFileId {
    SourceFileId(PackageId(1), index)
}

fn at(start: usize, end: usize) -> Location {
    Location { file: file_id(0), start, end }
}

fn node(index: usize) -> NodeId {
    NodeId { package: PackageId(1), index }
}

fn ident(name: &str, start: usize, end: usize) -> Identifier {
    Identifier { name: name.to_string(), location: at(start, end) }
}

fn source(index: usize, name: &str, content: &str) -> SourceFile {
    SourceFile {
        id: file_id(index),
        name: FileName::Real(name.to_string()),
        content: content.to_string(),
        package: PackageId(1),
    }
}

fn type_path(name: &str, start: usize, end: usize) -> Path {
    Path {
        root: Vec::new(),
        name: PathSegment::Type {
            name: ident(name, start, end),
            type_arguments: Vec::new(),
            location: at(start, end),
        },
        location: at(start, end),
    }
}

/// The package of `pub struct Point {}` in `a.lm`.
fn point_package() -> CheckedPackage {
    let mut hir = NodeMap::new();
    hir.insert(
        node(0),
        Node::Type(TypeDefinition::Struct(StructDefinition {
            id: node(0),
            name: type_path("Point", 11, 16),
            type_parameters: Vec::new(),
            fields: Vec::new(),
        })),
    );
    CheckedPackage {
        package: PackageId(1),
        sources: vec![source(0, "a.lm", "pub struct Point {}"), source(1, "src/b.lm", "")],
        hir,
    }
}

/// A package whose only function has a body that the arena does not hold.
fn broken_package() -> CheckedPackage {
    let mut hir = NodeMap::new();
    hir.insert(
        node(0),
        Node::Function(FunctionDefinition {
            id: node(0),
            name: Path {
                root: Vec::new(),
                name: PathSegment::Callable {
                    name: ident("main", 40, 44),
                    type_arguments: Vec::new(),
                    location: at(40, 44),
                },
                location: at(40, 44),
            },
            type_parameters: Vec::new(),
            parameters: Vec::new(),
            block: Some(lume_lsp::hir::Block { statements: vec![node(9)] }),
            return_type: Type { id: node(1), name: type_path("void", 50, 54), location: at(50, 54) },
        }),
    );
    CheckedPackage { package: PackageId(2), sources: Vec::new(), hir }
}

fn succeeded(packages: Vec<CheckedPackage>) -> CompileOutcome {
    CompileOutcome { graph: Some(CheckedPackageGraph { packages }), diagnostics: Vec::new() }
}

fn type_error(name: &str) -> Diagnostic {
    Diagnostic {
        message: "mismatched types".to_string(),
        severity: Severity::Error,
        code: None,
        labels: Some(vec![Label {
            message: "expected Bool".to_string(),
            source: Some(Source { name: Some(name.to_string()), content: "let x = 1;".to_string() }),
            start: 4,
            end: 5,
        }]),
        help: None,
    }
}

fn failed(diagnostics: Vec<Diagnostic>) -> CompileOutcome {
    CompileOutcome { graph: None, diagnostics }
}

fn workspace() -> State {
    State::new(uri("file:///ws/"))
}

#[test]
fn new_state_has_checked_nothing() {
    let state = workspace();
    assert_eq!(state.vfs.len(), 0);
    assert!(state.checked.graph.packages.is_empty());
    assert_eq!(state.checked.symbols.len(), 0);
    assert_eq!(state.error_files_prev.len(), 0);
    assert_eq!(state.error_files_curr.len(), 0);
}

#[test]
fn initialize_takes_the_first_folder_as_the_root() {
    let state = initialize(Some(vec![uri("file:///ws"), uri("file:///other/")])).unwrap();
    assert_eq!(state.vfs.workspace_root().as_str(), "file:///ws/");
    let state = initialize(Some(vec![uri("file:///ws/")])).unwrap();
    assert_eq!(state.vfs.workspace_root().as_str(), "file:///ws/");
}

#[test]
fn initialize_fails_without_a_folder() {
    assert!(matches!(initialize(None), Err(InitializeError::NoWorkspaceRoot)));
    assert!(matches!(initialize(Some(Vec::new())), Err(InitializeError::NoWorkspaceRoot)));
    assert_eq!(InitializeError::NoWorkspaceRoot.message(), "no workspace root defined");
}

#[test]
fn compile_request_names_the_root_and_the_overrides() {
    let mut state = workspace();
    state.vfs.add_document(uri("file:///ws/a.lm"), source(0, "a.lm", "one"));
    let request = state.compile_request();
    assert_eq!(request.root, "file:///ws/");
    assert_eq!(request.source_overrides.len(), 1);
    assert_eq!(request.source_overrides.get("a.lm").unwrap(), "one");
}

#[test]
fn successful_check_builds_the_symbols() {
    let mut state = workspace();
    let sent = state.compile_workspace(succeeded(vec![point_package()]));
    assert!(sent.is_empty());
    assert_eq!(state.checked.graph.packages.len(), 1);
    assert_eq!(state.checked.symbols.len(), 1);
    let found = state.checked.symbols.lookup_position(at(11, 12)).unwrap();
    assert!(matches!(&found.kind, SymbolKind::Type { .. }));
}

#[test]
fn package_that_cannot_be_walked_is_left_out() {
    let mut state = workspace();
    state.compile_workspace(succeeded(vec![broken_package(), point_package()]));
    assert_eq!(state.checked.graph.packages.len(), 2);
    // Only the entry of the package that could be walked.
    assert_eq!(state.checked.symbols.len(), 1);
    assert!(state.checked.symbols.lookup_position(at(41, 42)).is_none());
}

#[test]
fn update_symbol_lookup_unions_the_packages() {
    let mut checked = CheckedWorkspace::new();
    checked.update_symbol_lookup(CheckedPackageGraph {
        packages: vec![point_package(), point_package()],
    });
    assert_eq!(checked.graph.packages.len(), 2);
    assert_eq!(checked.symbols.len(), 1);
    checked.update_symbol_lookup(CheckedPackageGraph { packages: Vec::new() });
    assert_eq!(checked.symbols.len(), 0);
}

#[test]
fn failed_check_keeps_the_symbols_of_the_last_that_succeeded() {
    let mut state = workspace();
    state.compile_workspace(succeeded(vec![point_package()]));
    let sent = state.compile_workspace(failed(vec![type_error("a.lm")]));
    assert_eq!(sent.len(), 1);
    assert_eq!(state.checked.graph.packages.len(), 1);
    let found = state.checked.symbols.lookup_position(at(11, 12)).unwrap();
    assert_eq!(found.location, at(11, 16));
}

#[test]
fn error_that_comes_and_goes_is_published_and_cleared() {
    let mut state = workspace();
    let sent = state.compile_workspace(failed(vec![type_error("a.lm")]));
    assert_eq!(sent.len(), 1);
    assert_eq!(sent[0].uri.as_str(), "file:///ws/a.lm");
    assert_eq!(sent[0].diagnostics.len(), 1);
    assert_eq!(sent[0].diagnostics[0].message, "expected Bool");

    let sent = state.compile_workspace(succeeded(vec![point_package()]));
    assert_eq!(sent.len(), 1);
    assert_eq!(sent[0].uri.as_str(), "file:///ws/a.lm");
    assert!(sent[0].diagnostics.is_empty());

    // The file is cleared on the transition only.
    assert!(state.compile_workspace(succeeded(vec![point_package()])).is_empty());
}

#[test]
fn repeated_check_publishes_the_same_and_clears_nothing() {
    let mut state = workspace();
    state.compile_workspace(failed(vec![type_error("b.lm")]));
    let first = state.compile_workspace(failed(vec![type_error("a.lm")]));
    let second = state.compile_workspace(failed(vec![type_error("a.lm")]));
    let told = |sent: &Vec<lume_lsp::diagnostics::PublishDiagnostics>| -> Vec<(String, usize)> {
        sent.iter().map(|n| (n.uri.as_str().to_string(), n.diagnostics.len())).collect()
    };
    assert_eq!(
        told(&first),
        vec![("file:///ws/a.lm".to_string(), 1), ("file:///ws/b.lm".to_string(), 0)]
    );
    assert_eq!(told(&second), vec![("file:///ws/a.lm".to_string(), 1)]);
    assert_eq!(second[0].diagnostics[0].message, first[0].diagnostics[0].message);
    assert_eq!(second[0].diagnostics[0].range, first[0].diagnostics[0].range);
}

#[test]
fn error_files_are_rotated_by_each_check() {
    let mut state = workspace();
    state.compile_workspace(failed(vec![type_error("a.lm")]));
    assert_eq!(state.error_files_prev.len(), 0);
    assert_eq!(state.error_files_curr.len(), 1);
    state.compile_workspace(failed(vec![type_error("b.lm")]));
    assert_eq!(state.error_files_prev.len(), 1);
    assert_eq!(state.error_files_prev.get(0).unwrap().as_str(), "file:///ws/a.lm");
    assert_eq!(state.error_files_curr.get(0).unwrap().as_str(), "file:///ws/b.lm");
}

#[test]
fn source_is_found_by_the_end_of_the_path() {
    let mut state = workspace();
    state.compile_workspace(succeeded(vec![broken_package(), point_package()]));
    assert_eq!(state.source_of_uri(&uri("file:///ws/a.lm")).unwrap().id, file_id(0));
    assert_eq!(state.source_of_uri(&uri("file:///ws/src/b.lm")).unwrap().id, file_id(1));
    // Whole components only.
    assert!(state.source_of_uri(&uri("file:///ws/xa.lm")).is_none());
    assert!(state.source_of_uri(&uri("file:///ws/b.lm")).is_none());
    assert!(workspace().source_of_uri(&uri("file:///ws/a.lm")).is_none());
}

#[test]
fn location_is_one_byte_at_the_offset() {
    let mut state = workspace();
    state.vfs.add_document(uri("file:///ws/a.lm"), source(3, "a.lm", "ab\ncd\n"));
    let first = state.location_of(&uri("file:///ws/a.lm"), 0, 0).unwrap();
    assert_eq!(first, Location { file: file_id(3), start: 0, end: 1 });
    let second = state.location_of(&uri("file:///ws/a.lm"), 1, 1).unwrap();
    assert_eq!(second, Location { file: file_id(3), start: 4, end: 5 });
    let end = state.location_of(&uri("file:///ws/a.lm"), 2, 0).unwrap();
    assert_eq!(end, Location { file: file_id(3), start: 6, end: 7 });
    let beyond = state.location_of(&uri("file:///ws/a.lm"), 7, 7).unwrap();
    assert_eq!(beyond, Location { file: file_id(3), start: 6, end: 7 });
}

#[test]
fn location_of_a_document_that_is_not_held_is_nothing() {
    let state = workspace();
    assert!(state.location_of(&uri("file:///ws/a.lm"), 0, 0).is_none());
}
