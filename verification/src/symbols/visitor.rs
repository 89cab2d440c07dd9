//! A walk over every shape of the high-level representation.
//!
//! The walk is described by the sequence of visits it makes, its trace. A
//! visitor is a state machine over those visits: driving one over a package
//! feeds it the trace in order and stops at the first visit that fails.

use crate::hir::Block;
use crate::hir::Condition;
use crate::hir::ConstructorField;
use crate::hir::EnumCase;
use crate::hir::Expression;
use crate::hir::ExpressionKind;
use crate::hir::Field;
use crate::hir::Identifier;
use crate::hir::MethodDefinition;
use crate::hir::Node;
use crate::hir::NodeMap;
use crate::hir::Parameter;
use crate::hir::Path;
use crate::hir::PathSegment;
use crate::hir::Pattern;
use crate::hir::PatternKind;
use crate::hir::Statement;
use crate::hir::StatementKind;
use crate::hir::SwitchCase;
use crate::hir::Type;
use crate::hir::TypeDefinition;
use crate::hir::TypeParameter;
use crate::span::NodeId;
use vstd::prelude::*;

verus! {

/// Why a walk stopped early.
#[derive(Debug)]
pub enum VisitError {
    /// A body names a statement that the arena does not hold.
    ExpectedStatement(NodeId),
    /// A body names an expression that the arena does not hold.
    ExpectedExpression(NodeId),
    /// Bodies are nested deeper than the arena has nodes: some body holds itself.
    DepthExceeded,
    /// The visitor refused a visit.
    Rejected(String),
}

/// One step of a walk: a visit, or the failure to resolve a body.
pub enum Event {
    Node(Node),
    Type(Type),
    Statement(Statement),
    Expression(Expression),
    Pattern(Pattern),
    Path(Path),
    Identifier(Identifier),
    Fail(VisitError),
}

/// The hooks that a walk calls, one for each kind of visit.
///
/// What a visitor has gathered is its model; `step` says how one visit
/// changes the model and whether the visit fails.
pub trait Visitor: Sized {
    type Model;

    spec fn model(&self) -> Self::Model;

    spec fn step(model: Self::Model, event: Event) -> (Self::Model, Result<(), VisitError>);

    fn visit_node(&mut self, node: &Node) -> (r: Result<(), VisitError>)
        ensures
            (final(self).model(), r) == Self::step(old(self).model(), Event::Node(*node)),
    ;

    fn visit_type(&mut self, ty: &Type) -> (r: Result<(), VisitError>)
        ensures
            (final(self).model(), r) == Self::step(old(self).model(), Event::Type(*ty)),
    ;

    fn visit_stmt(&mut self, stmt: &Statement) -> (r: Result<(), VisitError>)
        ensures
            (final(self).model(), r) == Self::step(old(self).model(), Event::Statement(*stmt)),
    ;

    fn visit_expr(&mut self, expr: &Expression) -> (r: Result<(), VisitError>)
        ensures
            (final(self).model(), r) == Self::step(old(self).model(), Event::Expression(*expr)),
    ;

    fn visit_pattern(&mut self, pattern: &Pattern) -> (r: Result<(), VisitError>)
        ensures
            (final(self).model(), r) == Self::step(old(self).model(), Event::Pattern(*pattern)),
    ;

    fn visit_path(&mut self, path: &Path) -> (r: Result<(), VisitError>)
        ensures
            (final(self).model(), r) == Self::step(old(self).model(), Event::Path(*path)),
    ;

    fn visit_identifier(&mut self, ident: &Identifier) -> (r: Result<(), VisitError>)
        ensures
            (final(self).model(), r) == Self::step(old(self).model(), Event::Identifier(*ident)),
    ;
}

/// What one event does to a model: a failure to resolve stops the walk
/// whatever the visitor is, a visit is the visitor's to decide.
pub open spec fn apply<V: Visitor>(model: V::Model, event: Event) -> (
    V::Model,
    Result<(), VisitError>,
) {
    match event {
        Event::Fail(error) => (model, Err(error)),
        _ => V::step(model, event),
    }
}

/// Feeds `events` to a visitor in order, up to the first that fails.
pub open spec fn run<V: Visitor>(model: V::Model, events: Seq<Event>) -> (
    V::Model,
    Result<(), VisitError>,
)
    decreases events.len(),
{
    if events.len() == 0 {
        (model, Ok(()))
    } else {
        let first = apply::<V>(model, events[0]);
        if first.1.is_err() {
            first
        } else {
            run::<V>(first.0, events.skip(1))
        }
    }
}

/// Goes on with `events` from where an earlier run ended, unless that run
/// failed.
pub open spec fn run_on<V: Visitor>(
    before: (V::Model, Result<(), VisitError>),
    events: Seq<Event>,
) -> (V::Model, Result<(), VisitError>) {
    if before.1.is_err() {
        before
    } else {
        run::<V>(before.0, events)
    }
}

/// Running two traces one after the other is running their concatenation.
pub broadcast proof fn lemma_run_concat<V: Visitor>(model: V::Model, a: Seq<Event>, b: Seq<Event>)
    ensures
        #[trigger] run::<V>(model, a + b) == run_on::<V>(run::<V>(model, a), b),
    decreases a.len(),
{
    if a.len() == 0 {
        assert(a + b =~= b);
    } else {
        let first = apply::<V>(model, a[0]);
        assert((a + b)[0] == a[0]);
        assert((a + b).skip(1) =~= a.skip(1) + b);
        if first.1.is_ok() {
            lemma_run_concat::<V>(first.0, a.skip(1), b);
        }
    }
}

/// Running a single event applies it.
pub broadcast proof fn lemma_run_one<V: Visitor>(model: V::Model, event: Event)
    ensures
        #[trigger] run::<V>(model, seq![event]) == apply::<V>(model, event),
{
    let s = seq![event];
    assert(s.len() == 1);
    assert(s[0] == event);
    assert(s.skip(1) =~= Seq::<Event>::empty());
    let first = apply::<V>(model, event);
    assert(run::<V>(first.0, Seq::<Event>::empty()) == (first.0, Ok::<(), VisitError>(())));
    if first.1.is_ok() {
        let unit: () = first.1->Ok_0;
        assert(unit == ());
        assert(first.1 == Ok::<(), VisitError>(unit));
    }
}


/// The visits made for the types of `types` from position `from` on.
pub open spec fn trace_types(types: Seq<Type>, from: nat) -> Seq<Event>
    decreases types, types.len() - from,
{
    if from >= types.len() {
        Seq::empty()
    } else {
        trace_type(types[from as int]) + trace_types(types, from + 1)
    }
}

/// The visits made for a type: the type, then its name.
pub open spec fn trace_type(ty: Type) -> Seq<Event>
    decreases ty, 0nat,
{
    seq![Event::Type(ty)] + trace_path(ty.name)
}

/// The visits made for a path: the path, then each segment in order.
pub open spec fn trace_path(path: Path) -> Seq<Event>
    decreases path, 0nat,
{
    seq![Event::Path(path)] + (trace_segments(path.root@, 0) + trace_segment(path.name))
}

/// The visits made for the segments of `segments` from position `from` on.
pub open spec fn trace_segments(segments: Seq<PathSegment>, from: nat) -> Seq<Event>
    decreases segments, segments.len() - from,
{
    if from >= segments.len() {
        Seq::empty()
    } else {
        trace_segment(segments[from as int]) + trace_segments(segments, from + 1)
    }
}

/// The visits made for a segment: its name, then its type arguments where it
/// can carry any.
pub open spec fn trace_segment(segment: PathSegment) -> Seq<Event>
    decreases segment, 0nat,
{
    match segment {
        PathSegment::Namespace { name } => seq![Event::Identifier(name)],
        PathSegment::Variant { name, .. } => seq![Event::Identifier(name)],
        PathSegment::Callable { name, type_arguments, .. } => seq![Event::Identifier(name)]
            + trace_types(type_arguments@, 0),
        PathSegment::Type { name, type_arguments, .. } => seq![Event::Identifier(name)]
            + trace_types(type_arguments@, 0),
    }
}

/// The visits made for the type parameters of `params` from position `from` on.
pub open spec fn trace_type_params(params: Seq<TypeParameter>, from: nat) -> Seq<Event>
    decreases params.len() - from,
{
    if from >= params.len() {
        Seq::empty()
    } else {
        trace_type_param(params[from as int]) + trace_type_params(params, from + 1)
    }
}

/// The visits made for the parameters of `params` from position `from` on.
pub open spec fn trace_params(params: Seq<Parameter>, from: nat) -> Seq<Event>
    decreases params.len() - from,
{
    if from >= params.len() {
        Seq::empty()
    } else {
        trace_param(params[from as int]) + trace_params(params, from + 1)
    }
}

/// The visits made for the cases of `cases` from position `from` on.
pub open spec fn trace_enum_cases(cases: Seq<EnumCase>, from: nat) -> Seq<Event>
    decreases cases.len() - from,
{
    if from >= cases.len() {
        Seq::empty()
    } else {
        trace_enum_case(cases[from as int]) + trace_enum_cases(cases, from + 1)
    }
}

/// The visits made for the statements that `ids` names from position `from` on.
pub open spec fn trace_stmt_ids(hir: NodeMap, ids: Seq<NodeId>, from: nat, fuel: nat) -> Seq<Event>
    decreases fuel, 1nat, hir, ids.len() - from,
{
    if from >= ids.len() {
        Seq::empty()
    } else {
        trace_stmt_id(hir, ids[from as int], fuel) + trace_stmt_ids(hir, ids, from + 1, fuel)
    }
}

/// The visits made for the expressions that `ids` names from position `from` on.
pub open spec fn trace_expr_ids(hir: NodeMap, ids: Seq<NodeId>, from: nat, fuel: nat) -> Seq<Event>
    decreases fuel, 1nat, hir, ids.len() - from,
{
    if from >= ids.len() {
        Seq::empty()
    } else {
        trace_expr_id(hir, ids[from as int], fuel) + trace_expr_ids(hir, ids, from + 1, fuel)
    }
}

/// The visits made for the patterns of `patterns` from position `from` on.
pub open spec fn trace_patterns(hir: NodeMap, patterns: Seq<Pattern>, from: nat, fuel: nat) -> Seq<Event>
    decreases fuel, 3nat, patterns, patterns.len() - from,
{
    if from >= patterns.len() {
        Seq::empty()
    } else {
        trace_pattern(hir, patterns[from as int], fuel)
            + trace_patterns(hir, patterns, from + 1, fuel)
    }
}

/// The visits made for the branches of `cases` from position `from` on.
pub open spec fn trace_conditions(hir: NodeMap, cases: Seq<Condition>, from: nat, fuel: nat) -> Seq<Event>
    decreases fuel, 5nat, hir, cases.len() - from,
{
    if from >= cases.len() {
        Seq::empty()
    } else {
        trace_condition(hir, cases[from as int], fuel)
            + trace_conditions(hir, cases, from + 1, fuel)
    }
}

/// The visits made for the arms of `cases` from position `from` on.
pub open spec fn trace_switch_cases(hir: NodeMap, cases: Seq<SwitchCase>, from: nat, fuel: nat) -> Seq<Event>
    decreases fuel, 5nat, hir, cases.len() - from,
{
    if from >= cases.len() {
        Seq::empty()
    } else {
        trace_switch_case(hir, cases[from as int], fuel)
            + trace_switch_cases(hir, cases, from + 1, fuel)
    }
}

/// The visits made for the values of `fields` from position `from` on.
pub open spec fn trace_constructor_fields(hir: NodeMap, fields: Seq<ConstructorField>, from: nat, fuel: nat) -> Seq<Event>
    decreases fuel, 5nat, hir, fields.len() - from,
{
    if from >= fields.len() {
        Seq::empty()
    } else {
        trace_expr_id(hir, fields[from as int].value, fuel)
            + trace_constructor_fields(hir, fields, from + 1, fuel)
    }
}

/// The visits made for the fields of `fields` from position `from` on.
pub open spec fn trace_fields(hir: NodeMap, fields: Seq<Field>, from: nat, fuel: nat) -> Seq<Event>
    decreases fields.len() - from,
{
    if from >= fields.len() {
        Seq::empty()
    } else {
        trace_field(hir, fields[from as int], fuel) + trace_fields(hir, fields, from + 1, fuel)
    }
}

/// The visits made for the methods of `methods` from position `from` on.
pub open spec fn trace_methods(hir: NodeMap, methods: Seq<MethodDefinition>, from: nat, fuel: nat) -> Seq<Event>
    decreases methods.len() - from,
{
    if from >= methods.len() {
        Seq::empty()
    } else {
        trace_method(hir, methods[from as int], fuel) + trace_methods(hir, methods, from + 1, fuel)
    }
}

/// The visits made for a type parameter: its name, then its bounds.
pub open spec fn trace_type_param(param: TypeParameter) -> Seq<Event> {
    seq![Event::Identifier(param.name)] + trace_types(param.constraints@, 0)
}

/// The visits made for a parameter: its name, then its type.
pub open spec fn trace_param(param: Parameter) -> Seq<Event> {
    seq![Event::Identifier(param.name)] + trace_type(param.param_type)
}

/// The visits made for a case of an enumeration: its name, then the types
/// of its parameters.
pub open spec fn trace_enum_case(case: EnumCase) -> Seq<Event> {
    trace_path(case.name) + trace_types(case.parameters@, 0)
}

/// The visits made for the statement that `id` names, with `fuel` levels of
/// bodies left to descend.
pub open spec fn trace_stmt_id(hir: NodeMap, id: NodeId, fuel: nat) -> Seq<Event>
    decreases fuel, 0nat, hir, 0nat,
{
    match hir.node(id) {
        Some(Node::Statement(stmt)) => if fuel == 0 {
            seq![Event::Fail(VisitError::DepthExceeded)]
        } else {
            trace_stmt(hir, stmt, (fuel - 1) as nat)
        },
        _ => seq![Event::Fail(VisitError::ExpectedStatement(id))],
    }
}

/// The visits made for the expression that `id` names, with `fuel` levels of
/// bodies left to descend.
pub open spec fn trace_expr_id(hir: NodeMap, id: NodeId, fuel: nat) -> Seq<Event>
    decreases fuel, 0nat, hir, 0nat,
{
    match hir.node(id) {
        Some(Node::Expression(expr)) => if fuel == 0 {
            seq![Event::Fail(VisitError::DepthExceeded)]
        } else {
            trace_expr(hir, expr, (fuel - 1) as nat)
        },
        _ => seq![Event::Fail(VisitError::ExpectedExpression(id))],
    }
}

/// The visits made for an expression that may be absent.
pub open spec fn trace_optional_expr(hir: NodeMap, id: Option<NodeId>, fuel: nat) -> Seq<Event> {
    match id {
        Some(id) => trace_expr_id(hir, id, fuel),
        None => Seq::empty(),
    }
}

/// The visits made for a type that may be absent.
pub open spec fn trace_optional_type(ty: Option<Type>) -> Seq<Event> {
    match ty {
        Some(ty) => trace_type(ty),
        None => Seq::empty(),
    }
}

/// The visits made for a body that may be absent.
pub open spec fn trace_body(hir: NodeMap, block: Option<Block>, fuel: nat) -> Seq<Event> {
    match block {
        Some(block) => trace_stmt_ids(hir, block.statements@, 0, fuel),
        None => Seq::empty(),
    }
}

/// The visits made for a statement: the statement, then what it holds.
pub open spec fn trace_stmt(hir: NodeMap, stmt: Statement, fuel: nat) -> Seq<Event>
    decreases fuel, 2nat, hir, 0nat,
{
    seq![Event::Statement(stmt)] + match stmt.kind {
        StatementKind::Variable(decl) => seq![Event::Identifier(decl.name)] + (trace_optional_type(
            decl.declared_type,
        ) + trace_expr_id(hir, decl.value, fuel)),
        StatementKind::Break => Seq::empty(),
        StatementKind::Continue => Seq::empty(),
        StatementKind::Final { value } => trace_expr_id(hir, value, fuel),
        StatementKind::Return { value } => match value {
            Some(id) => trace_expr_id(hir, id, fuel),
            None => Seq::empty(),
        },
        StatementKind::InfiniteLoop { block } => trace_stmt_ids(hir, block.statements@, 0, fuel),
        StatementKind::IteratorLoop { collection, block } => trace_expr_id(hir, collection, fuel)
            + trace_stmt_ids(hir, block.statements@, 0, fuel),
        StatementKind::Expression(id) => trace_expr_id(hir, id, fuel),
    }
}

/// The visits made for one branch of an `if`: its condition, then its body.
pub open spec fn trace_condition(hir: NodeMap, case: Condition, fuel: nat) -> Seq<Event>
    decreases fuel, 4nat, hir, 0nat,
{
    (match case.condition {
        Some(id) => trace_expr_id(hir, id, fuel),
        None => Seq::empty(),
    }) + trace_stmt_ids(hir, case.block.statements@, 0, fuel)
}

/// The visits made for one arm of a `switch`: its pattern, then its branch.
pub open spec fn trace_switch_case(hir: NodeMap, case: SwitchCase, fuel: nat) -> Seq<Event>
    decreases fuel, 4nat, hir, 0nat,
{
    trace_pattern(hir, case.pattern, fuel) + trace_expr_id(hir, case.branch, fuel)
}

/// The visits made for an expression: the expression, then what it holds.
pub open spec fn trace_expr(hir: NodeMap, expr: Expression, fuel: nat) -> Seq<Event>
    decreases fuel, 6nat, hir, 0nat,
{
    seq![Event::Expression(expr)] + match expr.kind {
        ExpressionKind::Assignment { target, value } => trace_expr_id(hir, target, fuel)
            + trace_expr_id(hir, value, fuel),
        ExpressionKind::Cast { source, target } => trace_expr_id(hir, source, fuel) + trace_type(
            target,
        ),
        ExpressionKind::Construct { path, fields } => trace_path(path) + trace_constructor_fields(
            hir,
            fields@,
            0,
            fuel,
        ),
        ExpressionKind::StaticCall { name, arguments, .. } => trace_path(name) + trace_expr_ids(
            hir,
            arguments@,
            0,
            fuel,
        ),
        ExpressionKind::InstanceCall { callee, name, arguments, .. } => trace_segment(name) + (
        trace_expr_id(hir, callee, fuel) + trace_expr_ids(hir, arguments@, 0, fuel)),
        ExpressionKind::IntrinsicCall { arguments, .. } => trace_expr_ids(hir, arguments@, 0, fuel),
        ExpressionKind::If { cases } => trace_conditions(hir, cases@, 0, fuel),
        ExpressionKind::Is { target, pattern } => trace_expr_id(hir, target, fuel) + trace_pattern(
            hir,
            pattern,
            fuel,
        ),
        ExpressionKind::Member { callee, .. } => trace_expr_id(hir, callee, fuel),
        ExpressionKind::Scope { body } => trace_stmt_ids(hir, body@, 0, fuel),
        ExpressionKind::Switch { operand, cases } => trace_expr_id(hir, operand, fuel)
            + trace_switch_cases(hir, cases@, 0, fuel),
        ExpressionKind::Variant { name, arguments } => trace_path(name) + trace_expr_ids(
            hir,
            arguments@,
            0,
            fuel,
        ),
        ExpressionKind::Literal => Seq::empty(),
        ExpressionKind::Variable { .. } => Seq::empty(),
    }
}

/// The visits made for a pattern: the pattern, then what it holds.
pub open spec fn trace_pattern(hir: NodeMap, pattern: Pattern, fuel: nat) -> Seq<Event>
    decreases fuel, 3nat, pattern, 0nat,
{
    seq![Event::Pattern(pattern)] + match pattern.kind {
        PatternKind::Identifier { name } => seq![Event::Identifier(name)],
        PatternKind::Literal { literal } => trace_expr_id(hir, literal, fuel),
        PatternKind::Variant { name, fields } => trace_path(name) + trace_patterns(
            hir,
            fields@,
            0,
            fuel,
        ),
        PatternKind::Wildcard => Seq::empty(),
    }
}

/// The visits made for what follows the name of a callable: its type
/// parameters, its parameters, its body, then its return type.
pub open spec fn trace_signature(
    hir: NodeMap,
    type_parameters: Seq<TypeParameter>,
    parameters: Seq<Parameter>,
    block: Option<Block>,
    return_type: Type,
    fuel: nat,
) -> Seq<Event> {
    trace_type_params(type_parameters, 0) + (trace_params(parameters, 0) + (trace_body(
        hir,
        block,
        fuel,
    ) + trace_type(return_type)))
}

/// The visits made for a method: its name, then its signature and body.
pub open spec fn trace_method(hir: NodeMap, method: MethodDefinition, fuel: nat) -> Seq<Event> {
    seq![Event::Identifier(method.name)] + trace_signature(
        hir,
        method.type_parameters@,
        method.parameters@,
        method.block,
        method.return_type,
        fuel,
    )
}

/// The visits made for a field: its name, its type, then its default value.
pub open spec fn trace_field(hir: NodeMap, field: Field, fuel: nat) -> Seq<Event> {
    seq![Event::Identifier(field.name)] + (trace_type(field.field_type) + trace_optional_expr(
        hir,
        field.default_value,
        fuel,
    ))
}

/// The visits made for one entry of the arena: the node, then, for a
/// definition or an implementation, its header and its members.
pub open spec fn trace_node(hir: NodeMap, node: Node, fuel: nat) -> Seq<Event> {
    seq![Event::Node(node)] + match node {
        Node::Function(function) => trace_path(function.name) + trace_signature(
            hir,
            function.type_parameters@,
            function.parameters@,
            function.block,
            function.return_type,
            fuel,
        ),
        Node::Type(TypeDefinition::Struct(def)) => trace_path(def.name) + (trace_type_params(
            def.type_parameters@,
            0,
        ) + trace_fields(hir, def.fields@, 0, fuel)),
        Node::Type(TypeDefinition::Trait(def)) => trace_path(def.name) + (trace_type_params(
            def.type_parameters@,
            0,
        ) + trace_methods(hir, def.methods@, 0, fuel)),
        Node::Type(TypeDefinition::Enum(def)) => trace_path(def.name) + (trace_type_params(
            def.type_parameters@,
            0,
        ) + trace_enum_cases(def.cases@, 0)),
        Node::TraitImpl(imp) => trace_type(imp.name) + (trace_type(imp.target) + (
        trace_type_params(imp.type_parameters@, 0) + trace_methods(hir, imp.methods@, 0, fuel))),
        Node::Impl(imp) => trace_type(imp.target) + (trace_type_params(imp.type_parameters@, 0)
            + trace_methods(hir, imp.methods@, 0, fuel)),
        _ => Seq::empty(),
    }
}

/// The visits made for the entries of the arena from position `from` on.
/// Bodies are followed as many levels deep as the arena has nodes.
pub open spec fn trace_nodes(hir: NodeMap, from: nat) -> Seq<Event>
    decreases hir@.len() - from,
{
    if from >= hir@.len() {
        Seq::empty()
    } else {
        trace_node(hir, hir@[from as int].1, hir@.len()) + trace_nodes(hir, from + 1)
    }
}

/// The visits that a walk over the whole arena makes, in order.
pub open spec fn trace(hir: NodeMap) -> Seq<Event> {
    trace_nodes(hir, 0)
}

pub fn traverse_types<V: Visitor>(visitor: &mut V, types: &Vec<Type>) -> (r: Result<
    (),
    VisitError,
>)
    ensures
        (final(visitor).model(), r) == run::<V>(old(visitor).model(), trace_types(types@, 0)),
    decreases types,
{
    broadcast use {lemma_run_concat, lemma_run_one};

    let mut i: usize = 0;
    while i < types.len()
        invariant
            0 <= i <= types.len(),
            run::<V>(old(visitor).model(), trace_types(types@, 0)) == run::<V>(
                visitor.model(),
                trace_types(types@, i as nat),
            ),
        decreases types.len() - i,
    {
        broadcast use {lemma_run_concat, lemma_run_one};

        traverse_type(visitor, &types[i])?;
        i = i + 1;
    }
    Ok(())
}

pub fn traverse_type<V: Visitor>(visitor: &mut V, ty: &Type) -> (r: Result<(), VisitError>)
    ensures
        (final(visitor).model(), r) == run::<V>(old(visitor).model(), trace_type(*ty)),
    decreases ty,
{
    broadcast use {lemma_run_concat, lemma_run_one};

    visitor.visit_type(ty)?;
    traverse_path(visitor, &ty.name)
}

pub fn traverse_path<V: Visitor>(visitor: &mut V, path: &Path) -> (r: Result<(), VisitError>)
    ensures
        (final(visitor).model(), r) == run::<V>(old(visitor).model(), trace_path(*path)),
    decreases path,
{
    broadcast use {lemma_run_concat, lemma_run_one};

    visitor.visit_path(path)?;
    let mut i: usize = 0;
    while i < path.root.len()
        invariant
            0 <= i <= path.root.len(),
            run::<V>(old(visitor).model(), trace_path(*path)) == run::<V>(
                visitor.model(),
                trace_segments(path.root@, i as nat) + trace_segment(path.name),
            ),
        decreases path.root.len() - i,
    {
        broadcast use {lemma_run_concat, lemma_run_one};

        traverse_path_segment(visitor, &path.root[i])?;
        i = i + 1;
    }
    traverse_path_segment(visitor, &path.name)
}

pub fn traverse_path_segment<V: Visitor>(visitor: &mut V, segment: &PathSegment) -> (r: Result<
    (),
    VisitError,
>)
    ensures
        (final(visitor).model(), r) == run::<V>(old(visitor).model(), trace_segment(*segment)),
    decreases segment,
{
    broadcast use {lemma_run_concat, lemma_run_one};

    match segment {
        PathSegment::Namespace { name } => {
            visitor.visit_identifier(name)
        },
        PathSegment::Variant { name, .. } => {
            visitor.visit_identifier(name)
        },
        PathSegment::Callable { name, type_arguments, .. } => {
            visitor.visit_identifier(name)?;
            traverse_types(visitor, type_arguments)
        },
        PathSegment::Type { name, type_arguments, .. } => {
            visitor.visit_identifier(name)?;
            traverse_types(visitor, type_arguments)
        },
    }
}

pub fn traverse_type_params<V: Visitor>(
    visitor: &mut V,
    params: &Vec<TypeParameter>,
) -> (r: Result<(), VisitError>)
    ensures
        (final(visitor).model(), r) == run::<V>(
            old(visitor).model(),
            trace_type_params(params@, 0),
        ),
{
    let mut i: usize = 0;
    while i < params.len()
        invariant
            0 <= i <= params.len(),
            run::<V>(old(visitor).model(), trace_type_params(params@, 0)) == run::<V>(
                visitor.model(),
                trace_type_params(params@, i as nat),
            ),
        decreases params.len() - i,
    {
        broadcast use {lemma_run_concat, lemma_run_one};

        traverse_type_param(visitor, &params[i])?;
        i = i + 1;
    }
    Ok(())
}

pub fn traverse_params<V: Visitor>(
    visitor: &mut V,
    params: &Vec<Parameter>,
) -> (r: Result<(), VisitError>)
    ensures
        (final(visitor).model(), r) == run::<V>(old(visitor).model(), trace_params(params@, 0)),
{
    let mut i: usize = 0;
    while i < params.len()
        invariant
            0 <= i <= params.len(),
            run::<V>(old(visitor).model(), trace_params(params@, 0)) == run::<V>(
                visitor.model(),
                trace_params(params@, i as nat),
            ),
        decreases params.len() - i,
    {
        broadcast use {lemma_run_concat, lemma_run_one};

        traverse_param(visitor, &params[i])?;
        i = i + 1;
    }
    Ok(())
}

pub fn traverse_enum_cases<V: Visitor>(
    visitor: &mut V,
    cases: &Vec<EnumCase>,
) -> (r: Result<(), VisitError>)
    ensures
        (final(visitor).model(), r) == run::<V>(old(visitor).model(), trace_enum_cases(cases@, 0)),
{
    let mut i: usize = 0;
    while i < cases.len()
        invariant
            0 <= i <= cases.len(),
            run::<V>(old(visitor).model(), trace_enum_cases(cases@, 0)) == run::<V>(
                visitor.model(),
                trace_enum_cases(cases@, i as nat),
            ),
        decreases cases.len() - i,
    {
        broadcast use {lemma_run_concat, lemma_run_one};

        traverse_enum_case(visitor, &cases[i])?;
        i = i + 1;
    }
    Ok(())
}

pub fn traverse_stmt_ids<V: Visitor>(
    hir: &NodeMap,
    visitor: &mut V,
    ids: &Vec<NodeId>,
    fuel: usize,
) -> (r: Result<(), VisitError>)
    ensures
        (final(visitor).model(), r) == run::<V>(
            old(visitor).model(),
            trace_stmt_ids(*hir, ids@, 0, fuel as nat),
        ),
    decreases fuel, 1nat, hir, 0nat,
{
    let mut i: usize = 0;
    while i < ids.len()
        invariant
            0 <= i <= ids.len(),
            run::<V>(old(visitor).model(), trace_stmt_ids(*hir, ids@, 0, fuel as nat)) == run::<V>(
                visitor.model(),
                trace_stmt_ids(*hir, ids@, i as nat, fuel as nat),
            ),
        decreases ids.len() - i,
    {
        broadcast use {lemma_run_concat, lemma_run_one};

        traverse_stmt_id(hir, visitor, ids[i], fuel)?;
        i = i + 1;
    }
    Ok(())
}

pub fn traverse_expr_ids<V: Visitor>(
    hir: &NodeMap,
    visitor: &mut V,
    ids: &Vec<NodeId>,
    fuel: usize,
) -> (r: Result<(), VisitError>)
    ensures
        (final(visitor).model(), r) == run::<V>(
            old(visitor).model(),
            trace_expr_ids(*hir, ids@, 0, fuel as nat),
        ),
    decreases fuel, 1nat, hir, 0nat,
{
    let mut i: usize = 0;
    while i < ids.len()
        invariant
            0 <= i <= ids.len(),
            run::<V>(old(visitor).model(), trace_expr_ids(*hir, ids@, 0, fuel as nat)) == run::<V>(
                visitor.model(),
                trace_expr_ids(*hir, ids@, i as nat, fuel as nat),
            ),
        decreases ids.len() - i,
    {
        broadcast use {lemma_run_concat, lemma_run_one};

        traverse_expr_id(hir, visitor, ids[i], fuel)?;
        i = i + 1;
    }
    Ok(())
}

pub fn traverse_patterns<V: Visitor>(
    hir: &NodeMap,
    visitor: &mut V,
    patterns: &Vec<Pattern>,
    fuel: usize,
) -> (r: Result<(), VisitError>)
    ensures
        (final(visitor).model(), r) == run::<V>(
            old(visitor).model(),
            trace_patterns(*hir, patterns@, 0, fuel as nat),
        ),
    decreases fuel, 3nat, patterns, 0nat,
{
    let mut i: usize = 0;
    while i < patterns.len()
        invariant
            0 <= i <= patterns.len(),
            run::<V>(
                old(visitor).model(),
                trace_patterns(*hir, patterns@, 0, fuel as nat),
            ) == run::<V>(
                visitor.model(),
                trace_patterns(*hir, patterns@, i as nat, fuel as nat),
            ),
        decreases patterns.len() - i,
    {
        broadcast use {lemma_run_concat, lemma_run_one};

        traverse_pattern(hir, visitor, &patterns[i], fuel)?;
        i = i + 1;
    }
    Ok(())
}

pub fn traverse_conditions<V: Visitor>(
    hir: &NodeMap,
    visitor: &mut V,
    cases: &Vec<Condition>,
    fuel: usize,
) -> (r: Result<(), VisitError>)
    ensures
        (final(visitor).model(), r) == run::<V>(
            old(visitor).model(),
            trace_conditions(*hir, cases@, 0, fuel as nat),
        ),
    decreases fuel, 5nat, hir, 0nat,
{
    let mut i: usize = 0;
    while i < cases.len()
        invariant
            0 <= i <= cases.len(),
            run::<V>(
                old(visitor).model(),
                trace_conditions(*hir, cases@, 0, fuel as nat),
            ) == run::<V>(
                visitor.model(),
                trace_conditions(*hir, cases@, i as nat, fuel as nat),
            ),
        decreases cases.len() - i,
    {
        broadcast use {lemma_run_concat, lemma_run_one};

        traverse_condition(hir, visitor, &cases[i], fuel)?;
        i = i + 1;
    }
    Ok(())
}

pub fn traverse_switch_cases<V: Visitor>(
    hir: &NodeMap,
    visitor: &mut V,
    cases: &Vec<SwitchCase>,
    fuel: usize,
) -> (r: Result<(), VisitError>)
    ensures
        (final(visitor).model(), r) == run::<V>(
            old(visitor).model(),
            trace_switch_cases(*hir, cases@, 0, fuel as nat),
        ),
    decreases fuel, 5nat, hir, 0nat,
{
    let mut i: usize = 0;
    while i < cases.len()
        invariant
            0 <= i <= cases.len(),
            run::<V>(
                old(visitor).model(),
                trace_switch_cases(*hir, cases@, 0, fuel as nat),
            ) == run::<V>(
                visitor.model(),
                trace_switch_cases(*hir, cases@, i as nat, fuel as nat),
            ),
        decreases cases.len() - i,
    {
        broadcast use {lemma_run_concat, lemma_run_one};

        traverse_switch_case(hir, visitor, &cases[i], fuel)?;
        i = i + 1;
    }
    Ok(())
}

pub fn traverse_constructor_fields<V: Visitor>(
    hir: &NodeMap,
    visitor: &mut V,
    fields: &Vec<ConstructorField>,
    fuel: usize,
) -> (r: Result<(), VisitError>)
    ensures
        (final(visitor).model(), r) == run::<V>(
            old(visitor).model(),
            trace_constructor_fields(*hir, fields@, 0, fuel as nat),
        ),
    decreases fuel, 5nat, hir, 0nat,
{
    let mut i: usize = 0;
    while i < fields.len()
        invariant
            0 <= i <= fields.len(),
            run::<V>(
                old(visitor).model(),
                trace_constructor_fields(*hir, fields@, 0, fuel as nat),
            ) == run::<V>(
                visitor.model(),
                trace_constructor_fields(*hir, fields@, i as nat, fuel as nat),
            ),
        decreases fields.len() - i,
    {
        broadcast use {lemma_run_concat, lemma_run_one};

        traverse_expr_id(hir, visitor, fields[i].value, fuel)?;
        i = i + 1;
    }
    Ok(())
}

pub fn traverse_fields<V: Visitor>(
    hir: &NodeMap,
    visitor: &mut V,
    fields: &Vec<Field>,
    fuel: usize,
) -> (r: Result<(), VisitError>)
    ensures
        (final(visitor).model(), r) == run::<V>(
            old(visitor).model(),
            trace_fields(*hir, fields@, 0, fuel as nat),
        ),
{
    let mut i: usize = 0;
    while i < fields.len()
        invariant
            0 <= i <= fields.len(),
            run::<V>(old(visitor).model(), trace_fields(*hir, fields@, 0, fuel as nat)) == run::<V>(
                visitor.model(),
                trace_fields(*hir, fields@, i as nat, fuel as nat),
            ),
        decreases fields.len() - i,
    {
        broadcast use {lemma_run_concat, lemma_run_one};

        traverse_field(hir, visitor, &fields[i], fuel)?;
        i = i + 1;
    }
    Ok(())
}

pub fn traverse_methods<V: Visitor>(
    hir: &NodeMap,
    visitor: &mut V,
    methods: &Vec<MethodDefinition>,
    fuel: usize,
) -> (r: Result<(), VisitError>)
    ensures
        (final(visitor).model(), r) == run::<V>(
            old(visitor).model(),
            trace_methods(*hir, methods@, 0, fuel as nat),
        ),
{
    let mut i: usize = 0;
    while i < methods.len()
        invariant
            0 <= i <= methods.len(),
            run::<V>(
                old(visitor).model(),
                trace_methods(*hir, methods@, 0, fuel as nat),
            ) == run::<V>(
                visitor.model(),
                trace_methods(*hir, methods@, i as nat, fuel as nat),
            ),
        decreases methods.len() - i,
    {
        broadcast use {lemma_run_concat, lemma_run_one};

        traverse_method(hir, visitor, &methods[i], fuel)?;
        i = i + 1;
    }
    Ok(())
}

pub fn traverse_type_param<V: Visitor>(visitor: &mut V, param: &TypeParameter) -> (r: Result<
    (),
    VisitError,
>)
    ensures
        (final(visitor).model(), r) == run::<V>(old(visitor).model(), trace_type_param(*param)),
{
    broadcast use {lemma_run_concat, lemma_run_one};

    visitor.visit_identifier(&param.name)?;
    traverse_types(visitor, &param.constraints)
}

pub fn traverse_param<V: Visitor>(visitor: &mut V, param: &Parameter) -> (r: Result<
    (),
    VisitError,
>)
    ensures
        (final(visitor).model(), r) == run::<V>(old(visitor).model(), trace_param(*param)),
{
    broadcast use {lemma_run_concat, lemma_run_one};

    visitor.visit_identifier(&param.name)?;
    traverse_type(visitor, &param.param_type)
}

pub fn traverse_enum_case<V: Visitor>(visitor: &mut V, case: &EnumCase) -> (r: Result<
    (),
    VisitError,
>)
    ensures
        (final(visitor).model(), r) == run::<V>(old(visitor).model(), trace_enum_case(*case)),
{
    broadcast use {lemma_run_concat, lemma_run_one};

    traverse_path(visitor, &case.name)?;
    traverse_types(visitor, &case.parameters)
}

/// Resolves `id` to a statement and walks it.
pub fn traverse_stmt_id<V: Visitor>(hir: &NodeMap, visitor: &mut V, id: NodeId, fuel: usize) -> (r:
    Result<(), VisitError>)
    ensures
        (final(visitor).model(), r) == run::<V>(
            old(visitor).model(),
            trace_stmt_id(*hir, id, fuel as nat),
        ),
    decreases fuel, 0nat, hir, 0nat,
{
    broadcast use {lemma_run_concat, lemma_run_one};

    match hir.get(id) {
        Some(Node::Statement(stmt)) => {
            if fuel == 0 {
                Err(VisitError::DepthExceeded)
            } else {
                traverse_stmt(hir, visitor, stmt, fuel - 1)
            }
        },
        _ => Err(VisitError::ExpectedStatement(id)),
    }
}

/// Resolves `id` to an expression and walks it.
pub fn traverse_expr_id<V: Visitor>(hir: &NodeMap, visitor: &mut V, id: NodeId, fuel: usize) -> (r:
    Result<(), VisitError>)
    ensures
        (final(visitor).model(), r) == run::<V>(
            old(visitor).model(),
            trace_expr_id(*hir, id, fuel as nat),
        ),
    decreases fuel, 0nat, hir, 0nat,
{
    broadcast use {lemma_run_concat, lemma_run_one};

    match hir.get(id) {
        Some(Node::Expression(expr)) => {
            if fuel == 0 {
                Err(VisitError::DepthExceeded)
            } else {
                traverse_expr(hir, visitor, expr, fuel - 1)
            }
        },
        _ => Err(VisitError::ExpectedExpression(id)),
    }
}

pub fn traverse_body<V: Visitor>(
    hir: &NodeMap,
    visitor: &mut V,
    block: &Option<Block>,
    fuel: usize,
) -> (r: Result<(), VisitError>)
    ensures
        (final(visitor).model(), r) == run::<V>(
            old(visitor).model(),
            trace_body(*hir, *block, fuel as nat),
        ),
{
    broadcast use {lemma_run_concat, lemma_run_one};

    match block {
        Some(block) => traverse_stmt_ids(hir, visitor, &block.statements, fuel),
        None => Ok(()),
    }
}

pub fn traverse_stmt<V: Visitor>(hir: &NodeMap, visitor: &mut V, stmt: &Statement, fuel: usize) -> (r:
    Result<(), VisitError>)
    ensures
        (final(visitor).model(), r) == run::<V>(
            old(visitor).model(),
            trace_stmt(*hir, *stmt, fuel as nat),
        ),
    decreases fuel, 2nat, hir, 0nat,
{
    broadcast use {lemma_run_concat, lemma_run_one};

    visitor.visit_stmt(stmt)?;
    match &stmt.kind {
        StatementKind::Variable(decl) => {
            visitor.visit_identifier(&decl.name)?;
            if let Some(declared_type) = &decl.declared_type {
                traverse_type(visitor, declared_type)?;
            }
            traverse_expr_id(hir, visitor, decl.value, fuel)
        },
        StatementKind::Break => Ok(()),
        StatementKind::Continue => Ok(()),
        StatementKind::Final { value } => traverse_expr_id(hir, visitor, *value, fuel),
        StatementKind::Return { value } => {
            match value {
                Some(id) => traverse_expr_id(hir, visitor, *id, fuel),
                None => Ok(()),
            }
        },
        StatementKind::InfiniteLoop { block } => {
            traverse_stmt_ids(hir, visitor, &block.statements, fuel)
        },
        StatementKind::IteratorLoop { collection, block } => {
            traverse_expr_id(hir, visitor, *collection, fuel)?;
            traverse_stmt_ids(hir, visitor, &block.statements, fuel)
        },
        StatementKind::Expression(id) => traverse_expr_id(hir, visitor, *id, fuel),
    }
}

pub fn traverse_condition<V: Visitor>(
    hir: &NodeMap,
    visitor: &mut V,
    case: &Condition,
    fuel: usize,
) -> (r: Result<(), VisitError>)
    ensures
        (final(visitor).model(), r) == run::<V>(
            old(visitor).model(),
            trace_condition(*hir, *case, fuel as nat),
        ),
    decreases fuel, 4nat, hir, 0nat,
{
    broadcast use {lemma_run_concat, lemma_run_one};

    if let Some(condition) = case.condition {
        traverse_expr_id(hir, visitor, condition, fuel)?;
    }
    traverse_stmt_ids(hir, visitor, &case.block.statements, fuel)
}

pub fn traverse_switch_case<V: Visitor>(
    hir: &NodeMap,
    visitor: &mut V,
    case: &SwitchCase,
    fuel: usize,
) -> (r: Result<(), VisitError>)
    ensures
        (final(visitor).model(), r) == run::<V>(
            old(visitor).model(),
            trace_switch_case(*hir, *case, fuel as nat),
        ),
    decreases fuel, 4nat, hir, 0nat,
{
    broadcast use {lemma_run_concat, lemma_run_one};

    traverse_pattern(hir, visitor, &case.pattern, fuel)?;
    traverse_expr_id(hir, visitor, case.branch, fuel)
}

pub fn traverse_expr<V: Visitor>(hir: &NodeMap, visitor: &mut V, expr: &Expression, fuel: usize) -> (r:
    Result<(), VisitError>)
    ensures
        (final(visitor).model(), r) == run::<V>(
            old(visitor).model(),
            trace_expr(*hir, *expr, fuel as nat),
        ),
    decreases fuel, 6nat, hir, 0nat,
{
    broadcast use {lemma_run_concat, lemma_run_one};

    visitor.visit_expr(expr)?;
    match &expr.kind {
        ExpressionKind::Assignment { target, value } => {
            traverse_expr_id(hir, visitor, *target, fuel)?;
            traverse_expr_id(hir, visitor, *value, fuel)
        },
        ExpressionKind::Cast { source, target } => {
            traverse_expr_id(hir, visitor, *source, fuel)?;
            traverse_type(visitor, target)
        },
        ExpressionKind::Construct { path, fields } => {
            traverse_path(visitor, path)?;
            traverse_constructor_fields(hir, visitor, fields, fuel)
        },
        ExpressionKind::StaticCall { name, arguments, .. } => {
            traverse_path(visitor, name)?;
            traverse_expr_ids(hir, visitor, arguments, fuel)
        },
        ExpressionKind::InstanceCall { callee, name, arguments, .. } => {
            traverse_path_segment(visitor, name)?;
            traverse_expr_id(hir, visitor, *callee, fuel)?;
            traverse_expr_ids(hir, visitor, arguments, fuel)
        },
        ExpressionKind::IntrinsicCall { arguments, .. } => {
            traverse_expr_ids(hir, visitor, arguments, fuel)
        },
        ExpressionKind::If { cases } => traverse_conditions(hir, visitor, cases, fuel),
        ExpressionKind::Is { target, pattern } => {
            traverse_expr_id(hir, visitor, *target, fuel)?;
            traverse_pattern(hir, visitor, pattern, fuel)
        },
        ExpressionKind::Member { callee, .. } => traverse_expr_id(hir, visitor, *callee, fuel),
        ExpressionKind::Scope { body } => traverse_stmt_ids(hir, visitor, body, fuel),
        ExpressionKind::Switch { operand, cases } => {
            traverse_expr_id(hir, visitor, *operand, fuel)?;
            traverse_switch_cases(hir, visitor, cases, fuel)
        },
        ExpressionKind::Variant { name, arguments } => {
            traverse_path(visitor, name)?;
            traverse_expr_ids(hir, visitor, arguments, fuel)
        },
        ExpressionKind::Literal => Ok(()),
        ExpressionKind::Variable { .. } => Ok(()),
    }
}

pub fn traverse_pattern<V: Visitor>(
    hir: &NodeMap,
    visitor: &mut V,
    pattern: &Pattern,
    fuel: usize,
) -> (r: Result<(), VisitError>)
    ensures
        (final(visitor).model(), r) == run::<V>(
            old(visitor).model(),
            trace_pattern(*hir, *pattern, fuel as nat),
        ),
    decreases fuel, 3nat, pattern, 0nat,
{
    broadcast use {lemma_run_concat, lemma_run_one};

    visitor.visit_pattern(pattern)?;
    match &pattern.kind {
        PatternKind::Identifier { name } => visitor.visit_identifier(name),
        PatternKind::Literal { literal } => traverse_expr_id(hir, visitor, *literal, fuel),
        PatternKind::Variant { name, fields } => {
            traverse_path(visitor, name)?;
            traverse_patterns(hir, visitor, fields, fuel)
        },
        PatternKind::Wildcard => Ok(()),
    }
}

pub fn traverse_signature<V: Visitor>(
    hir: &NodeMap,
    visitor: &mut V,
    type_parameters: &Vec<TypeParameter>,
    parameters: &Vec<Parameter>,
    block: &Option<Block>,
    return_type: &Type,
    fuel: usize,
) -> (r: Result<(), VisitError>)
    ensures
        (final(visitor).model(), r) == run::<V>(
            old(visitor).model(),
            trace_signature(
                *hir,
                type_parameters@,
                parameters@,
                *block,
                *return_type,
                fuel as nat,
            ),
        ),
{
    broadcast use {lemma_run_concat, lemma_run_one};

    traverse_type_params(visitor, type_parameters)?;
    traverse_params(visitor, parameters)?;
    traverse_body(hir, visitor, block, fuel)?;
    traverse_type(visitor, return_type)
}

pub fn traverse_method<V: Visitor>(
    hir: &NodeMap,
    visitor: &mut V,
    method: &MethodDefinition,
    fuel: usize,
) -> (r: Result<(), VisitError>)
    ensures
        (final(visitor).model(), r) == run::<V>(
            old(visitor).model(),
            trace_method(*hir, *method, fuel as nat),
        ),
{
    broadcast use {lemma_run_concat, lemma_run_one};

    visitor.visit_identifier(&method.name)?;
    traverse_signature(
        hir,
        visitor,
        &method.type_parameters,
        &method.parameters,
        &method.block,
        &method.return_type,
        fuel,
    )
}

pub fn traverse_field<V: Visitor>(hir: &NodeMap, visitor: &mut V, field: &Field, fuel: usize) -> (r:
    Result<(), VisitError>)
    ensures
        (final(visitor).model(), r) == run::<V>(
            old(visitor).model(),
            trace_field(*hir, *field, fuel as nat),
        ),
{
    broadcast use {lemma_run_concat, lemma_run_one};

    visitor.visit_identifier(&field.name)?;
    traverse_type(visitor, &field.field_type)?;
    match field.default_value {
        Some(id) => traverse_expr_id(hir, visitor, id, fuel),
        None => Ok(()),
    }
}

/// Walks one entry of the arena, following bodies at most `fuel` levels deep.
pub fn traverse_node<V: Visitor>(hir: &NodeMap, visitor: &mut V, node: &Node, fuel: usize) -> (r:
    Result<(), VisitError>)
    ensures
        (final(visitor).model(), r) == run::<V>(
            old(visitor).model(),
            trace_node(*hir, *node, fuel as nat),
        ),
{
    broadcast use {lemma_run_concat, lemma_run_one};

    visitor.visit_node(node)?;
    match node {
        Node::Function(function) => {
            traverse_path(visitor, &function.name)?;
            traverse_signature(
                hir,
                visitor,
                &function.type_parameters,
                &function.parameters,
                &function.block,
                &function.return_type,
                fuel,
            )
        },
        Node::Type(TypeDefinition::Struct(def)) => {
            traverse_path(visitor, &def.name)?;
            traverse_type_params(visitor, &def.type_parameters)?;
            traverse_fields(hir, visitor, &def.fields, fuel)
        },
        Node::Type(TypeDefinition::Trait(def)) => {
            traverse_path(visitor, &def.name)?;
            traverse_type_params(visitor, &def.type_parameters)?;
            traverse_methods(hir, visitor, &def.methods, fuel)
        },
        Node::Type(TypeDefinition::Enum(def)) => {
            traverse_path(visitor, &def.name)?;
            traverse_type_params(visitor, &def.type_parameters)?;
            traverse_enum_cases(visitor, &def.cases)
        },
        Node::TraitImpl(imp) => {
            traverse_type(visitor, &imp.name)?;
            traverse_type(visitor, &imp.target)?;
            traverse_type_params(visitor, &imp.type_parameters)?;
            traverse_methods(hir, visitor, &imp.methods, fuel)
        },
        Node::Impl(imp) => {
            traverse_type(visitor, &imp.target)?;
            traverse_type_params(visitor, &imp.type_parameters)?;
            traverse_methods(hir, visitor, &imp.methods, fuel)
        },
        _ => Ok(()),
    }
}

/// Walks every entry of the arena in order, and stops at the first visit
/// that fails or the first body that cannot be resolved.
pub fn traverse<V: Visitor>(hir: &NodeMap, visitor: &mut V) -> (r: Result<(), VisitError>)
    ensures
        (final(visitor).model(), r) == run::<V>(old(visitor).model(), trace(*hir)),
{
    let fuel = hir.len();
    let mut i: usize = 0;
    while i < hir.len()
        invariant
            0 <= i <= hir@.len(),
            fuel == hir@.len(),
            run::<V>(old(visitor).model(), trace(*hir)) == run::<V>(
                visitor.model(),
                trace_nodes(*hir, i as nat),
            ),
        decreases hir@.len() - i,
    {
        broadcast use {lemma_run_concat, lemma_run_one};

        match hir.entry(i) {
            Some(entry) => {
                traverse_node(hir, visitor, entry.1, fuel)?;
            },
            None => {},
        }
        i = i + 1;
    }
    Ok(())
}

} // verus!
