use lume_lsp::hir::{
    Expression, ExpressionKind, FunctionDefinition, Identifier, MethodDefinition, Node, NodeMap,
    Path, PathSegment, Pattern, PatternKind, Statement, StatementKind, StructDefinition, Field,
    SwitchCase, Type, TypeDefinition,
};
use lume_lsp::span::{Location, NodeId, PackageId, SourceFileId};
use lume_lsp::symbols::lookup::{prefix, CallReference, SymbolEntry, SymbolKind, SymbolLookup};

fn file() -> SourceFileId {
    SourceFileId(PackageId(1), 7)
}

fn at(start: usize, end: usize) -> Location {
    Location { file: file(), start, end }
}

fn node(index: usize) -> NodeId {
    NodeId { package: PackageId(1), index }
}

fn ident(name: &str, start: usize, end: usize) -> Identifier {
    Identifier { name: name.to_string(), location: at(start, end) }
}

fn type_segment(name: &str, start: usize, end: usize) -> PathSegment {
    PathSegment::Type {
        name: ident(name, start, end),
        type_arguments: Vec::new(),
        location: at(start, end),
    }
}

fn callable_path(name: &str, start: usize, end: usize) -> Path {
    Path {
        root: Vec::new(),
        name: PathSegment::Callable {
            name: ident(name, start, end),
            type_arguments: Vec::new(),
            location: at(start, end),
        },
        location: at(start, end),
    }
}

fn void_type(index: usize) -> Type {
    Type {
        id: node(index),
        name: Path { root: Vec::new(), name: type_segment("void", 90, 94), location: at(90, 94) },
        location: at(90, 94),
    }
}

fn function(index: usize, name: &str, start: usize, end: usize, return_type: Type) -> Node {
    Node::Function(FunctionDefinition {
        id: node(index),
        name: callable_path(name, start, end),
        type_parameters: Vec::new(),
        parameters: Vec::new(),
        block: None,
        return_type,
    })
}

fn expression(index: usize, kind: ExpressionKind, start: usize, end: usize) -> Node {
    Node::Expression(Expression { id: node(index), kind, location: at(start, end) })
}

/// A function whose body is the one expression statement `expr`, at node 2.
fn function_around(expr: ExpressionKind, start: usize, end: usize) -> NodeMap {
    let mut hir = NodeMap::new();
    hir.insert(
        node(0),
        Node::Function(FunctionDefinition {
            id: node(0),
            name: callable_path("main", 200, 204),
            type_parameters: Vec::new(),
            parameters: Vec::new(),
            block: Some(lume_lsp::hir::Block { statements: vec![node(1)] }),
            return_type: void_type(50),
        }),
    );
    hir.insert(
        node(1),
        Node::Statement(Statement {
            id: node(1),
            kind: StatementKind::Expression(node(2)),
            location: at(start, end),
        }),
    );
    hir.insert(node(2), expression(2, expr, start, end));
    hir
}

fn three_segments() -> Path {
    Path {
        root: vec![type_segment("std", 0, 3), type_segment("io", 5, 7)],
        name: type_segment("Reader", 9, 15),
        location: at(0, 15),
    }
}

#[test]
fn struct_header_is_indexed_at_its_name() {
    let mut hir = NodeMap::new();
    hir.insert(
        node(0),
        Node::Type(TypeDefinition::Struct(StructDefinition {
            id: node(0),
            name: Path { root: Vec::new(), name: type_segment("Point", 11, 16), location: at(11, 16) },
            type_parameters: Vec::new(),
            fields: Vec::new(),
        })),
    );
    let table = SymbolLookup::from_hir(&hir).unwrap();
    // The header and the path's own segment give the same entry once.
    assert_eq!(table.len(), 1);
    let found = table.lookup_position(at(11, 12)).unwrap();
    assert_eq!(found.location, at(11, 16));
    assert!(matches!(&found.kind, SymbolKind::Type { name } if name.name.name().name == "Point"));
}

#[test]
fn lookup_holds_both_ends_of_a_range() {
    let mut hir = NodeMap::new();
    hir.insert(node(0), function(0, "main", 11, 16, void_type(1)));
    let table = SymbolLookup::from_hir(&hir).unwrap();
    assert!(table.lookup_position(at(10, 11)).is_none());
    assert!(table.lookup_position(at(11, 12)).is_some());
    assert!(table.lookup_position(at(14, 15)).is_some());
    // The cursor right behind the last byte still finds the entry.
    assert!(table.lookup_position(at(16, 17)).is_some());
    assert!(table.lookup_position(at(17, 18)).is_none());
}

#[test]
fn lookup_reads_only_the_start_of_the_query() {
    let mut hir = NodeMap::new();
    hir.insert(node(0), function(0, "main", 11, 16, void_type(1)));
    let table = SymbolLookup::from_hir(&hir).unwrap();
    assert!(table.lookup_position(at(12, 500)).is_some());
    assert!(table.lookup_position(at(5, 12)).is_none());
}

#[test]
fn lookup_keeps_to_the_file_of_the_query() {
    let mut hir = NodeMap::new();
    hir.insert(node(0), function(0, "main", 11, 16, void_type(1)));
    let table = SymbolLookup::from_hir(&hir).unwrap();
    let elsewhere = Location { file: SourceFileId(PackageId(1), 8), start: 12, end: 13 };
    assert!(table.lookup_position(elsewhere).is_none());
    let other_package = Location { file: SourceFileId(PackageId(2), 7), start: 12, end: 13 };
    assert!(table.lookup_position(other_package).is_none());
}

#[test]
fn lookup_of_an_empty_table_finds_nothing() {
    let table = SymbolLookup::new();
    assert_eq!(table.len(), 0);
    assert!(table.lookup_position(at(0, 1)).is_none());
    assert!(table.get(0).is_none());
    assert_eq!(SymbolLookup::default().len(), 0);
}

#[test]
fn function_header_refers_to_the_function() {
    let mut hir = NodeMap::new();
    hir.insert(node(0), function(0, "main", 3, 7, void_type(1)));
    let table = SymbolLookup::from_hir(&hir).unwrap();
    let found = table.lookup_position(at(4, 5)).unwrap();
    assert!(matches!(found.kind, SymbolKind::Callable { reference: CallReference::Function(id) } if id == node(0)));
    assert_eq!(found.location, at(3, 7));
}

#[test]
fn method_header_refers_to_the_method() {
    let method = |index: usize| MethodDefinition {
        id: node(index),
        name: ident("area", 30, 34),
        type_parameters: Vec::new(),
        parameters: Vec::new(),
        block: None,
        return_type: void_type(9),
    };
    let mut hir = NodeMap::new();
    hir.insert(node(0), Node::Method(method(0)));
    hir.insert(node(1), Node::TraitMethodDef(method(1)));
    hir.insert(node(2), Node::TraitMethodImpl(method(2)));
    let table = SymbolLookup::from_hir(&hir).unwrap();
    assert_eq!(table.len(), 3);
    let found = table.lookup_position(at(30, 31)).unwrap();
    assert!(matches!(found.kind, SymbolKind::Callable { reference: CallReference::Method(id) } if id == node(0)));
}

#[test]
fn field_is_indexed_at_its_name() {
    let mut hir = NodeMap::new();
    hir.insert(
        node(3),
        Node::Field(Field {
            id: node(3),
            name: ident("x", 20, 21),
            field_type: void_type(4),
            default_value: None,
        }),
    );
    let table = SymbolLookup::from_hir(&hir).unwrap();
    let found = table.lookup_position(at(20, 21)).unwrap();
    assert!(matches!(found.kind, SymbolKind::Field { id } if id == node(3)));
}

#[test]
fn three_type_segments_give_three_entries() {
    let mut hir = NodeMap::new();
    let ty = Type { id: node(1), name: three_segments(), location: at(0, 15) };
    hir.insert(node(0), function(0, "read", 100, 104, ty));
    let table = SymbolLookup::from_hir(&hir).unwrap();
    // The function, the type as a whole, and one entry for each segment.
    assert_eq!(table.len(), 5);

    let first = table.lookup_position(at(1, 2)).unwrap();
    assert_eq!(first.location, at(0, 3));
    assert!(matches!(&first.kind, SymbolKind::Type { name }
        if name.root.is_empty() && name.name.name().name == "std"));

    let middle = table.lookup_position(at(5, 6)).unwrap();
    assert_eq!(middle.location, at(5, 7));
    assert!(matches!(&middle.kind, SymbolKind::Type { name }
        if name.root.len() == 1 && name.root[0].name().name == "std" && name.name.name().name == "io"));

    let last = table.lookup_position(at(9, 10)).unwrap();
    assert_eq!(last.location, at(9, 15));
    assert!(matches!(&last.kind, SymbolKind::Type { name }
        if name.root.len() == 2 && name.name.name().name == "Reader"));
}

#[test]
fn entries_are_kept_in_the_order_of_the_index() {
    let mut hir = NodeMap::new();
    let ty = Type { id: node(1), name: three_segments(), location: at(0, 15) };
    hir.insert(node(0), function(0, "read", 100, 104, ty));
    let table = SymbolLookup::from_hir(&hir).unwrap();
    let places: Vec<Location> = (0..table.len()).map(|i| table.get(i).unwrap().location).collect();
    // By start, and among those of one start by length.
    assert_eq!(places, vec![at(0, 3), at(0, 15), at(5, 7), at(9, 15), at(100, 104)]);
}

#[test]
fn entries_are_ordered_by_package_then_file() {
    let place = |package: u64, file: usize, start: usize| Location {
        file: SourceFileId(PackageId(package), file),
        start,
        end: start + 1,
    };
    let method = |index: usize, at: Location| {
        Node::Method(MethodDefinition {
            id: node(index),
            name: Identifier { name: "m".to_string(), location: at },
            type_parameters: Vec::new(),
            parameters: Vec::new(),
            block: None,
            return_type: void_type(9),
        })
    };
    let mut hir = NodeMap::new();
    hir.insert(node(0), method(0, place(2, 0, 5)));
    hir.insert(node(1), method(1, place(1, 3, 50)));
    hir.insert(node(2), method(2, place(1, 2, 70)));
    hir.insert(node(3), method(3, place(1, 3, 10)));
    let table = SymbolLookup::from_hir(&hir).unwrap();
    let places: Vec<Location> = (0..table.len()).map(|i| table.get(i).unwrap().location).collect();
    assert_eq!(places, vec![place(1, 2, 70), place(1, 3, 10), place(1, 3, 50), place(2, 0, 5)]);
}

#[test]
fn entries_at_one_place_stay_in_the_order_they_were_found_in() {
    let mut hir = NodeMap::new();
    hir.insert(node(0), function(0, "f", 4, 8, void_type(1)));
    hir.insert(node(1), function(1, "g", 4, 8, void_type(2)));
    hir.insert(node(2), function(2, "h", 4, 8, void_type(3)));
    let table = SymbolLookup::from_hir(&hir).unwrap();
    let ids: Vec<_> = (0..3)
        .map(|i| match &table.get(i).unwrap().kind {
            SymbolKind::Callable { reference: CallReference::Function(id) } => id.index,
            other => panic!("unexpected entry: {:?}", other),
        })
        .collect();
    assert_eq!(ids, vec![0, 1, 2]);
}

#[test]
fn namespace_segments_give_no_entry() {
    let path = Path {
        root: vec![PathSegment::Namespace { name: ident("std", 0, 3) }],
        name: type_segment("Int", 5, 8),
        location: at(0, 8),
    };
    let mut hir = NodeMap::new();
    hir.insert(node(0), function(0, "f", 100, 101, Type { id: node(1), name: path, location: at(0, 8) }));
    let table = SymbolLookup::from_hir(&hir).unwrap();
    assert_eq!(table.len(), 3);
    let on_namespace = table.lookup_position(at(1, 2)).unwrap();
    assert_eq!(on_namespace.location, at(0, 8));
}

#[test]
fn prefix_ends_with_the_segment_it_is_asked_for() {
    let path = three_segments();
    let short = prefix(&path, 0);
    assert!(short.root.is_empty());
    assert_eq!(short.name.name().name, "std");
    assert_eq!(short.location, at(0, 15));
    let whole = prefix(&path, 2);
    assert_eq!(whole, path);
    assert_eq!(prefix(&path, 7), path);
}

#[test]
fn shortest_range_wins() {
    let whole = Type {
        id: node(1),
        name: Path { root: Vec::new(), name: type_segment("Vec", 10, 13), location: at(10, 18) },
        location: at(10, 18),
    };
    let mut hir = NodeMap::new();
    hir.insert(node(0), function(0, "f", 100, 101, whole));
    let table = SymbolLookup::from_hir(&hir).unwrap();
    // The type covers 10..18, the segment of its name 10..13.
    assert_eq!(table.lookup_position(at(11, 12)).unwrap().location, at(10, 13));
    assert_eq!(table.lookup_position(at(15, 16)).unwrap().location, at(10, 18));
}

#[test]
fn among_ranges_of_one_length_the_earlier_start_wins() {
    let mut hir = NodeMap::new();
    hir.insert(node(0), function(0, "later", 4, 8, void_type(1)));
    hir.insert(node(1), function(1, "earlier", 2, 6, void_type(2)));
    let table = SymbolLookup::from_hir(&hir).unwrap();
    let found = table.lookup_position(at(5, 6)).unwrap();
    assert_eq!(found.location, at(2, 6));
    assert_eq!(table.lookup_position(at(7, 8)).unwrap().location, at(4, 8));
}

#[test]
fn among_entries_at_one_place_the_first_found_wins() {
    let mut hir = NodeMap::new();
    hir.insert(node(0), function(0, "f", 4, 8, void_type(1)));
    hir.insert(node(1), function(1, "g", 4, 8, void_type(2)));
    let table = SymbolLookup::from_hir(&hir).unwrap();
    let found = table.lookup_position(at(5, 6)).unwrap();
    assert!(matches!(found.kind, SymbolKind::Callable { reference: CallReference::Function(id) } if id == node(0)));
}

#[test]
fn equal_entries_collapse() {
    let mut hir = NodeMap::new();
    hir.insert(node(0), function(0, "f", 4, 8, void_type(1)));
    hir.insert(node(1), function(0, "f", 4, 8, void_type(1)));
    let table = SymbolLookup::from_hir(&hir).unwrap();
    // One callable, the return type and the segment of its name.
    assert_eq!(table.len(), 2);
    for i in 0..table.len() {
        for j in (i + 1)..table.len() {
            assert_ne!(table.get(i).unwrap(), table.get(j).unwrap());
        }
    }
}

#[test]
fn entries_that_differ_in_kind_only_are_kept_apart() {
    let a = SymbolEntry { location: at(1, 2), kind: SymbolKind::Pattern { id: node(1) } };
    let b = SymbolEntry { location: at(1, 2), kind: SymbolKind::Call { id: node(1) } };
    let c = SymbolEntry { location: at(1, 3), kind: SymbolKind::Pattern { id: node(1) } };
    assert!(!a.same(&b));
    assert!(!a.same(&c));
    assert!(a.same(&a.duplicate()));
    assert_eq!(a.clone(), a);
}

#[test]
fn extend_adds_what_is_new() {
    let mut hir = NodeMap::new();
    hir.insert(node(0), function(0, "f", 4, 8, void_type(1)));
    let mut other = NodeMap::new();
    other.insert(node(0), function(0, "f", 4, 8, void_type(1)));
    other.insert(node(5), function(5, "g", 20, 21, void_type(1)));
    let mut table = SymbolLookup::from_hir(&hir).unwrap();
    assert_eq!(table.len(), 2);
    table.extend(SymbolLookup::from_hir(&other).unwrap());
    assert_eq!(table.len(), 3);
    let places: Vec<Location> = (0..table.len()).map(|i| table.get(i).unwrap().location).collect();
    assert_eq!(places, vec![at(4, 8), at(20, 21), at(90, 94)]);
    table.extend(SymbolLookup::new());
    assert_eq!(table.len(), 3);
}

#[test]
fn construct_refers_to_the_type_at_its_name() {
    let path = Path {
        root: vec![PathSegment::Namespace { name: ident("geo", 10, 13) }],
        name: type_segment("Point", 15, 20),
        location: at(10, 20),
    };
    let hir = function_around(ExpressionKind::Construct { path, fields: Vec::new() }, 10, 30);
    let table = SymbolLookup::from_hir(&hir).unwrap();
    let found = table.lookup_position(at(16, 17)).unwrap();
    assert_eq!(found.location, at(15, 20));
    assert!(matches!(&found.kind, SymbolKind::Type { name } if name.root.len() == 1));
    assert!(table.lookup_position(at(25, 26)).is_none());
}

#[test]
fn static_call_is_indexed_at_its_name() {
    let name = Path {
        root: vec![PathSegment::Namespace { name: ident("io", 10, 12) }],
        name: PathSegment::Callable {
            name: ident("print", 14, 19),
            type_arguments: Vec::new(),
            location: at(14, 19),
        },
        location: at(10, 19),
    };
    let hir = function_around(ExpressionKind::StaticCall { name, arguments: Vec::new() }, 10, 21);
    let table = SymbolLookup::from_hir(&hir).unwrap();
    let found = table.lookup_position(at(15, 16)).unwrap();
    assert!(matches!(found.kind, SymbolKind::Call { id } if id == node(2)));
    assert_eq!(found.location, at(14, 19));
}

#[test]
fn instance_call_is_indexed_at_its_segment() {
    let mut hir = function_around(
        ExpressionKind::InstanceCall {
            callee: node(3),
            name: PathSegment::Callable {
                name: ident("len", 12, 15),
                type_arguments: Vec::new(),
                location: at(12, 17),
            },
            arguments: Vec::new(),
        },
        10,
        17,
    );
    hir.insert(node(3), expression(3, ExpressionKind::Variable { name: ident("v", 10, 11) }, 10, 11));
    let table = SymbolLookup::from_hir(&hir).unwrap();
    let call = table.lookup_position(at(16, 17)).unwrap();
    assert!(matches!(call.kind, SymbolKind::Call { id } if id == node(2)));
    assert_eq!(call.location, at(12, 17));
    let variable = table.lookup_position(at(10, 11)).unwrap();
    assert!(matches!(variable.kind, SymbolKind::VariableReference { id } if id == node(3)));
}

#[test]
fn intrinsic_call_is_indexed_at_the_expression() {
    let hir = function_around(ExpressionKind::IntrinsicCall { arguments: Vec::new() }, 10, 15);
    let table = SymbolLookup::from_hir(&hir).unwrap();
    let found = table.lookup_position(at(12, 13)).unwrap();
    assert!(matches!(found.kind, SymbolKind::Call { id } if id == node(2)));
    assert_eq!(found.location, at(10, 15));
}

#[test]
fn member_is_indexed_at_the_field() {
    let mut hir =
        function_around(ExpressionKind::Member { callee: node(3), name: ident("x", 12, 13) }, 10, 13);
    hir.insert(node(3), expression(3, ExpressionKind::Literal, 10, 11));
    let table = SymbolLookup::from_hir(&hir).unwrap();
    let found = table.lookup_position(at(12, 13)).unwrap();
    assert!(matches!(&found.kind, SymbolKind::Member { callee, field }
        if *callee == node(3) && field.name == "x"));
}

#[test]
fn variant_is_indexed_in_expressions_and_patterns() {
    let variant = |start: usize| Path {
        root: vec![type_segment("Opt", start, start + 3)],
        name: PathSegment::Variant {
            name: ident("Some", start + 5, start + 9),
            location: at(start + 5, start + 9),
        },
        location: at(start, start + 9),
    };
    let pattern = Pattern {
        id: node(7),
        kind: PatternKind::Variant {
            name: variant(40),
            fields: vec![
                Pattern { id: node(8), kind: PatternKind::Wildcard, location: at(50, 51) },
                Pattern {
                    id: node(9),
                    kind: PatternKind::Identifier { name: ident("n", 53, 54) },
                    location: at(53, 54),
                },
            ],
        },
        location: at(40, 55),
    };
    let mut hir = function_around(
        ExpressionKind::Switch {
            operand: node(3),
            cases: vec![SwitchCase { pattern, branch: node(4) }],
        },
        10,
        70,
    );
    hir.insert(node(3), expression(3, ExpressionKind::Variant { name: variant(20), arguments: Vec::new() }, 20, 29));
    hir.insert(node(4), expression(4, ExpressionKind::Literal, 60, 61));
    let table = SymbolLookup::from_hir(&hir).unwrap();

    let used = table.lookup_position(at(26, 27)).unwrap();
    assert!(matches!(&used.kind, SymbolKind::Variant { name } if name.name.name().name == "Some"));
    assert_eq!(used.location, at(20, 29));
    // On the enum itself the segment is tighter than the variant.
    assert!(matches!(&table.lookup_position(at(21, 22)).unwrap().kind, SymbolKind::Type { .. }));

    let matched = table.lookup_position(at(46, 47)).unwrap();
    assert!(matches!(&matched.kind, SymbolKind::Variant { .. }));
    assert_eq!(matched.location, at(40, 49));

    let wildcard = table.lookup_position(at(50, 51)).unwrap();
    assert!(matches!(wildcard.kind, SymbolKind::Pattern { id } if id == node(8)));
    let binding = table.lookup_position(at(53, 54)).unwrap();
    assert!(matches!(binding.kind, SymbolKind::Pattern { id } if id == node(9)));
}

#[test]
fn missing_expression_fails_the_build() {
    let hir = function_around(ExpressionKind::Member { callee: node(9), name: ident("x", 2, 3) }, 0, 3);
    assert!(SymbolLookup::from_hir(&hir).is_err());
}

#[test]
fn top_level_expression_is_not_descended_into() {
    let mut hir = NodeMap::new();
    hir.insert(node(0), expression(0, ExpressionKind::Member { callee: node(9), name: ident("x", 2, 3) }, 0, 3));
    let table = SymbolLookup::from_hir(&hir).unwrap();
    assert_eq!(table.len(), 0);
}

#[test]
fn type_reference_is_indexed_at_its_name() {
    // The reference covers 10..20, the path that names the type 12..17.
    let ty = Type {
        id: node(1),
        name: Path {
            root: vec![PathSegment::Namespace { name: ident("a", 12, 13) }],
            name: PathSegment::Callable {
                name: ident("b", 15, 16),
                type_arguments: Vec::new(),
                location: at(15, 17),
            },
            location: at(12, 17),
        },
        location: at(10, 20),
    };
    let mut hir = NodeMap::new();
    hir.insert(node(0), function(0, "f", 100, 101, ty));
    let table = SymbolLookup::from_hir(&hir).unwrap();
    assert_eq!(table.len(), 2);
    assert_eq!(table.get(0).unwrap().location, at(12, 17));
    assert!(table.lookup_position(at(10, 11)).is_none());
    assert!(table.lookup_position(at(19, 20)).is_none());
    assert!(table.lookup_position(at(13, 14)).is_some());
}
