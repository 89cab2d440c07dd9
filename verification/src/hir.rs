//! The checked high-level representation of a package, as the index reads it.
//!
//! Nodes live in an arena, the [`NodeMap`], and reference the statements and
//! expressions of their bodies by id. Names, types and patterns are held
//! inline.

use crate::span::Location;
use crate::span::NodeId;
use vstd::prelude::*;
use vstd::std_specs::cmp::PartialEqSpecImpl;

verus! {

/// A name as written in the source, with the place it was written at.
#[derive(Debug, Hash)]
pub struct Identifier {
    pub name: String,
    pub location: Location,
}

/// One segment of a qualified name.
#[derive(Debug, Hash)]
pub enum PathSegment {
    Namespace { name: Identifier },
    Type { name: Identifier, type_arguments: Vec<Type>, location: Location },
    Callable { name: Identifier, type_arguments: Vec<Type>, location: Location },
    Variant { name: Identifier, location: Location },
}

/// A qualified name: the segments that lead to it, then its own segment.
#[derive(Debug, Hash)]
pub struct Path {
    pub root: Vec<PathSegment>,
    pub name: PathSegment,
    pub location: Location,
}

/// A reference to a type, by its qualified name.
#[derive(Debug, Hash)]
pub struct Type {
    pub id: NodeId,
    pub name: Path,
    pub location: Location,
}

/// What an [`Identifier`] holds.
pub struct IdentifierView {
    pub name: Seq<char>,
    pub location: Location,
}

/// What a [`PathSegment`] holds.
pub enum PathSegmentView {
    Namespace { name: IdentifierView },
    Type { name: IdentifierView, type_arguments: Seq<TypeView>, location: Location },
    Callable { name: IdentifierView, type_arguments: Seq<TypeView>, location: Location },
    Variant { name: IdentifierView, location: Location },
}

/// What a [`Path`] holds.
pub struct PathView {
    pub root: Seq<PathSegmentView>,
    pub name: PathSegmentView,
    pub location: Location,
}

/// What a [`Type`] holds.
pub struct TypeView {
    pub id: NodeId,
    pub name: PathView,
    pub location: Location,
}

impl View for Identifier {
    type V = IdentifierView;

    open spec fn view(&self) -> IdentifierView {
        IdentifierView { name: self.name@, location: self.location }
    }
}

/// The views of the first `n` types of `types`.
pub open spec fn types_view(types: Seq<Type>, n: nat) -> Seq<TypeView>
    decreases types, n,
{
    if n == 0 || n > types.len() {
        Seq::empty()
    } else {
        types_view(types, (n - 1) as nat).push(type_view(types[n - 1]))
    }
}

/// The views of the first `n` segments of `segments`.
pub open spec fn segments_view(segments: Seq<PathSegment>, n: nat) -> Seq<PathSegmentView>
    decreases segments, n,
{
    if n == 0 || n > segments.len() {
        Seq::empty()
    } else {
        segments_view(segments, (n - 1) as nat).push(segment_view(segments[n - 1]))
    }
}

pub open spec fn segment_view(segment: PathSegment) -> PathSegmentView
    decreases segment, 0nat,
{
    match segment {
        PathSegment::Namespace { name } => PathSegmentView::Namespace { name: name@ },
        PathSegment::Type { name, type_arguments, location } => PathSegmentView::Type {
            name: name@,
            type_arguments: types_view(type_arguments@, type_arguments@.len()),
            location,
        },
        PathSegment::Callable { name, type_arguments, location } => PathSegmentView::Callable {
            name: name@,
            type_arguments: types_view(type_arguments@, type_arguments@.len()),
            location,
        },
        PathSegment::Variant { name, location } => PathSegmentView::Variant { name: name@, location },
    }
}

pub open spec fn path_view(path: Path) -> PathView
    decreases path, 0nat,
{
    PathView {
        root: segments_view(path.root@, path.root@.len()),
        name: segment_view(path.name),
        location: path.location,
    }
}

pub open spec fn type_view(ty: Type) -> TypeView
    decreases ty, 0nat,
{
    TypeView { id: ty.id, name: path_view(ty.name), location: ty.location }
}

impl View for PathSegment {
    type V = PathSegmentView;

    open spec fn view(&self) -> PathSegmentView {
        segment_view(*self)
    }
}

impl View for Path {
    type V = PathView;

    open spec fn view(&self) -> PathView {
        path_view(*self)
    }
}

impl View for Type {
    type V = TypeView;

    open spec fn view(&self) -> TypeView {
        type_view(*self)
    }
}

/// The first `n` views of `types` are the views of its first `n` items.
pub proof fn lemma_types_view(types: Seq<Type>, n: nat)
    requires
        n <= types.len(),
    ensures
        types_view(types, n).len() == n,
        forall|j: int| 0 <= j < n ==> #[trigger] types_view(types, n)[j] == type_view(types[j]),
    decreases n,
{
    if n > 0 {
        lemma_types_view(types, (n - 1) as nat);
    }
}

/// The first `n` views of `segments` are the views of its first `n` items.
pub proof fn lemma_segments_view(segments: Seq<PathSegment>, n: nat)
    requires
        n <= segments.len(),
    ensures
        segments_view(segments, n).len() == n,
        forall|j: int|
            0 <= j < n ==> #[trigger] segments_view(segments, n)[j] == segment_view(segments[j]),
    decreases n,
{
    if n > 0 {
        lemma_segments_view(segments, (n - 1) as nat);
    }
}

impl PathSegment {
    /// The identifier that the segment is written with.
    pub open spec fn identifier(self) -> Identifier {
        match self {
            PathSegment::Namespace { name } => name,
            PathSegment::Type { name, .. } => name,
            PathSegment::Callable { name, .. } => name,
            PathSegment::Variant { name, .. } => name,
        }
    }

    /// The place of the whole segment, type arguments included.
    pub open spec fn place(self) -> Location {
        match self {
            PathSegment::Namespace { name } => name.location,
            PathSegment::Type { location, .. } => location,
            PathSegment::Callable { location, .. } => location,
            PathSegment::Variant { location, .. } => location,
        }
    }

    pub fn name(&self) -> (r: &Identifier)
        ensures
            *r == self.identifier(),
    {
        match self {
            PathSegment::Namespace { name } => name,
            PathSegment::Type { name, .. } => name,
            PathSegment::Callable { name, .. } => name,
            PathSegment::Variant { name, .. } => name,
        }
    }

    pub fn location(&self) -> (r: Location)
        ensures
            r == self.place(),
    {
        match self {
            PathSegment::Namespace { name } => name.location,
            PathSegment::Type { location, .. } => *location,
            PathSegment::Callable { location, .. } => *location,
            PathSegment::Variant { location, .. } => *location,
        }
    }
}

impl Path {
    /// The place at which the last name of the path is written.
    pub open spec fn name_place(self) -> Location {
        self.name.identifier().location
    }

    pub fn name_location(&self) -> (r: Location)
        ensures
            r == self.name_place(),
    {
        self.name.name().location
    }
}

impl Identifier {
    /// A copy that holds the same name and location.
    pub fn duplicate(&self) -> (r: Identifier)
        ensures
            r@ == self@,
    {
        Identifier { name: self.name.clone(), location: self.location }
    }

    /// Whether both hold the same name and location.
    pub fn same(&self, other: &Identifier) -> (b: bool)
        ensures
            b == (self@ == other@),
    {
        self.name == other.name && self.location == other.location
    }
}

/// A copy of `types` that holds the same types in the same order.
pub fn clone_types(types: &Vec<Type>) -> (r: Vec<Type>)
    ensures
        types_view(r@, r@.len()) == types_view(types@, types@.len()),
    decreases types,
{
    let mut out: Vec<Type> = Vec::new();
    let mut i: usize = 0;
    while i < types.len()
        invariant
            0 <= i <= types.len(),
            out@.len() == i,
            forall|j: int| 0 <= j < i ==> type_view(#[trigger] out@[j]) == type_view(types@[j]),
        decreases types.len() - i,
    {
        let item = clone_type(&types[i]);
        out.push(item);
        i = i + 1;
    }
    proof {
        lemma_types_view(out@, out@.len());
        lemma_types_view(types@, types@.len());
        assert(types_view(out@, out@.len()) =~= types_view(types@, types@.len()));
    }
    out
}

/// A copy of `segments` that holds the same segments in the same order.
pub fn clone_segments(segments: &Vec<PathSegment>) -> (r: Vec<PathSegment>)
    ensures
        segments_view(r@, r@.len()) == segments_view(segments@, segments@.len()),
    decreases segments,
{
    let mut out: Vec<PathSegment> = Vec::new();
    let mut i: usize = 0;
    while i < segments.len()
        invariant
            0 <= i <= segments.len(),
            out@.len() == i,
            forall|j: int|
                0 <= j < i ==> segment_view(#[trigger] out@[j]) == segment_view(segments@[j]),
        decreases segments.len() - i,
    {
        let item = clone_segment(&segments[i]);
        out.push(item);
        i = i + 1;
    }
    proof {
        lemma_segments_view(out@, out@.len());
        lemma_segments_view(segments@, segments@.len());
        assert(segments_view(out@, out@.len()) =~= segments_view(segments@, segments@.len()));
    }
    out
}

/// A copy of `segment`.
pub fn clone_segment(segment: &PathSegment) -> (r: PathSegment)
    ensures
        r@ == segment@,
    decreases segment,
{
    match segment {
        PathSegment::Namespace { name } => PathSegment::Namespace { name: name.duplicate() },
        PathSegment::Type { name, type_arguments, location } => PathSegment::Type {
            name: name.duplicate(),
            type_arguments: clone_types(type_arguments),
            location: *location,
        },
        PathSegment::Callable { name, type_arguments, location } => PathSegment::Callable {
            name: name.duplicate(),
            type_arguments: clone_types(type_arguments),
            location: *location,
        },
        PathSegment::Variant { name, location } => PathSegment::Variant {
            name: name.duplicate(),
            location: *location,
        },
    }
}

/// A copy of `path`.
pub fn clone_path(path: &Path) -> (r: Path)
    ensures
        r@ == path@,
    decreases path,
{
    Path {
        root: clone_segments(&path.root),
        name: clone_segment(&path.name),
        location: path.location,
    }
}

/// A copy of `ty`.
pub fn clone_type(ty: &Type) -> (r: Type)
    ensures
        r@ == ty@,
    decreases ty,
{
    Type { id: ty.id, name: clone_path(&ty.name), location: ty.location }
}

/// Whether both lists hold the same types in the same order.
pub fn same_types(a: &Vec<Type>, b: &Vec<Type>) -> (r: bool)
    ensures
        r == (types_view(a@, a@.len()) == types_view(b@, b@.len())),
    decreases a,
{
    proof {
        lemma_types_view(a@, a@.len());
        lemma_types_view(b@, b@.len());
    }
    if a.len() != b.len() {
        return false;
    }
    let mut i: usize = 0;
    while i < a.len()
        invariant
            0 <= i <= a.len(),
            a.len() == b.len(),
            forall|j: int| 0 <= j < i ==> type_view(a@[j]) == type_view(b@[j]),
            forall|j: int|
                0 <= j < a@.len() ==> #[trigger] types_view(a@, a@.len())[j] == type_view(a@[j]),
            forall|j: int|
                0 <= j < b@.len() ==> #[trigger] types_view(b@, b@.len())[j] == type_view(b@[j]),
        decreases a.len() - i,
    {
        if !same_type(&a[i], &b[i]) {
            assert(types_view(a@, a@.len())[i as int] != types_view(b@, b@.len())[i as int]);
            return false;
        }
        i = i + 1;
    }
    assert(types_view(a@, a@.len()) =~= types_view(b@, b@.len()));
    true
}

/// Whether both lists hold the same segments in the same order.
pub fn same_segments(a: &Vec<PathSegment>, b: &Vec<PathSegment>) -> (r: bool)
    ensures
        r == (segments_view(a@, a@.len()) == segments_view(b@, b@.len())),
    decreases a,
{
    proof {
        lemma_segments_view(a@, a@.len());
        lemma_segments_view(b@, b@.len());
    }
    if a.len() != b.len() {
        return false;
    }
    let mut i: usize = 0;
    while i < a.len()
        invariant
            0 <= i <= a.len(),
            a.len() == b.len(),
            forall|j: int| 0 <= j < i ==> segment_view(a@[j]) == segment_view(b@[j]),
            forall|j: int|
                0 <= j < a@.len() ==> #[trigger] segments_view(a@, a@.len())[j] == segment_view(
                    a@[j],
                ),
            forall|j: int|
                0 <= j < b@.len() ==> #[trigger] segments_view(b@, b@.len())[j] == segment_view(
                    b@[j],
                ),
        decreases a.len() - i,
    {
        if !same_segment(&a[i], &b[i]) {
            assert(segments_view(a@, a@.len())[i as int] != segments_view(b@, b@.len())[i as int]);
            return false;
        }
        i = i + 1;
    }
    assert(segments_view(a@, a@.len()) =~= segments_view(b@, b@.len()));
    true
}

/// Whether both segments are of one kind and hold the same.
pub fn same_segment(a: &PathSegment, b: &PathSegment) -> (r: bool)
    ensures
        r == (a@ == b@),
    decreases a,
{
    match a {
        PathSegment::Namespace { name } => match b {
            PathSegment::Namespace { name: other } => name.same(other),
            _ => false,
        },
        PathSegment::Type { name, type_arguments, location } => match b {
            PathSegment::Type { name: other, type_arguments: other_arguments, location: at } => {
                name.same(other) && same_types(type_arguments, other_arguments) && *location == *at
            },
            _ => false,
        },
        PathSegment::Callable { name, type_arguments, location } => match b {
            PathSegment::Callable {
                name: other,
                type_arguments: other_arguments,
                location: at,
            } => {
                name.same(other) && same_types(type_arguments, other_arguments) && *location == *at
            },
            _ => false,
        },
        PathSegment::Variant { name, location } => match b {
            PathSegment::Variant { name: other, location: at } => {
                name.same(other) && *location == *at
            },
            _ => false,
        },
    }
}

/// Whether both paths hold the same segments at the same location.
pub fn same_path(a: &Path, b: &Path) -> (r: bool)
    ensures
        r == (a@ == b@),
    decreases a,
{
    same_segments(&a.root, &b.root) && same_segment(&a.name, &b.name) && a.location == b.location
}

/// Whether both types carry the same id, name and location.
pub fn same_type(a: &Type, b: &Type) -> (r: bool)
    ensures
        r == (a@ == b@),
    decreases a,
{
    a.id == b.id && same_path(&a.name, &b.name) && a.location == b.location
}

impl Clone for Identifier {
    fn clone(&self) -> (r: Self)
        ensures
            r@ == self@,
    {
        self.duplicate()
    }
}

impl Clone for PathSegment {
    fn clone(&self) -> (r: Self)
        ensures
            r@ == self@,
    {
        clone_segment(self)
    }
}

impl Clone for Path {
    fn clone(&self) -> (r: Self)
        ensures
            r@ == self@,
    {
        clone_path(self)
    }
}

impl Clone for Type {
    fn clone(&self) -> (r: Self)
        ensures
            r@ == self@,
    {
        clone_type(self)
    }
}

impl PartialEq for Identifier {
    fn eq(&self, other: &Self) -> (r: bool) {
        self.same(other)
    }
}

impl PartialEqSpecImpl for Identifier {
    open spec fn obeys_eq_spec() -> bool {
        true
    }

    open spec fn eq_spec(&self, other: &Self) -> bool {
        self@ == other@
    }
}

impl Eq for Identifier {

}

impl PartialEq for Path {
    fn eq(&self, other: &Self) -> (r: bool) {
        same_path(self, other)
    }
}

impl PartialEqSpecImpl for Path {
    open spec fn obeys_eq_spec() -> bool {
        true
    }

    open spec fn eq_spec(&self, other: &Self) -> bool {
        self@ == other@
    }
}

impl Eq for Path {

}

impl PartialEq for PathSegment {
    fn eq(&self, other: &Self) -> (r: bool) {
        same_segment(self, other)
    }
}

impl PartialEqSpecImpl for PathSegment {
    open spec fn obeys_eq_spec() -> bool {
        true
    }

    open spec fn eq_spec(&self, other: &Self) -> bool {
        self@ == other@
    }
}

impl Eq for PathSegment {

}

impl PartialEq for Type {
    fn eq(&self, other: &Self) -> (r: bool) {
        same_type(self, other)
    }
}

impl PartialEqSpecImpl for Type {
    open spec fn obeys_eq_spec() -> bool {
        true
    }

    open spec fn eq_spec(&self, other: &Self) -> bool {
        self@ == other@
    }
}

impl Eq for Type {

}

/// The type parameter of a definition, with the types that bound it.
#[derive(Debug)]
pub struct TypeParameter {
    pub name: Identifier,
    pub constraints: Vec<Type>,
}

/// The parameter of a callable.
#[derive(Debug)]
pub struct Parameter {
    pub name: Identifier,
    pub param_type: Type,
}

/// The statements of a body, by id.
#[derive(Debug)]
pub struct Block {
    pub statements: Vec<NodeId>,
}

/// A free function.
#[derive(Debug)]
pub struct FunctionDefinition {
    pub id: NodeId,
    pub name: Path,
    pub type_parameters: Vec<TypeParameter>,
    pub parameters: Vec<Parameter>,
    pub block: Option<Block>,
    pub return_type: Type,
}

/// A method: of an implementation, of a trait, or of a trait implementation.
#[derive(Debug)]
pub struct MethodDefinition {
    pub id: NodeId,
    pub name: Identifier,
    pub type_parameters: Vec<TypeParameter>,
    pub parameters: Vec<Parameter>,
    pub block: Option<Block>,
    pub return_type: Type,
}

/// The field of a structure.
#[derive(Debug)]
pub struct Field {
    pub id: NodeId,
    pub name: Identifier,
    pub field_type: Type,
    pub default_value: Option<NodeId>,
}

#[derive(Debug)]
pub struct StructDefinition {
    pub id: NodeId,
    pub name: Path,
    pub type_parameters: Vec<TypeParameter>,
    pub fields: Vec<Field>,
}

#[derive(Debug)]
pub struct TraitDefinition {
    pub id: NodeId,
    pub name: Path,
    pub type_parameters: Vec<TypeParameter>,
    pub methods: Vec<MethodDefinition>,
}

/// One case of an enumeration, with the types of its parameters.
#[derive(Debug)]
pub struct EnumCase {
    pub name: Path,
    pub parameters: Vec<Type>,
}

#[derive(Debug)]
pub struct EnumDefinition {
    pub id: NodeId,
    pub name: Path,
    pub type_parameters: Vec<TypeParameter>,
    pub cases: Vec<EnumCase>,
}

#[derive(Debug)]
pub enum TypeDefinition {
    Struct(StructDefinition),
    Trait(TraitDefinition),
    Enum(EnumDefinition),
}

/// The implementation of the trait `name` for the type `target`.
#[derive(Debug)]
pub struct TraitImplementation {
    pub id: NodeId,
    pub name: Type,
    pub target: Type,
    pub type_parameters: Vec<TypeParameter>,
    pub methods: Vec<MethodDefinition>,
}

/// The methods implemented on the type `target`.
#[derive(Debug)]
pub struct Implementation {
    pub id: NodeId,
    pub target: Type,
    pub type_parameters: Vec<TypeParameter>,
    pub methods: Vec<MethodDefinition>,
}

#[derive(Debug)]
pub struct VariableDeclaration {
    pub id: NodeId,
    pub name: Identifier,
    pub declared_type: Option<Type>,
    pub value: NodeId,
}

#[derive(Debug)]
pub enum StatementKind {
    Variable(VariableDeclaration),
    Break,
    Continue,
    Final { value: NodeId },
    Return { value: Option<NodeId> },
    InfiniteLoop { block: Block },
    IteratorLoop { collection: NodeId, block: Block },
    Expression(NodeId),
}

#[derive(Debug)]
pub struct Statement {
    pub id: NodeId,
    pub kind: StatementKind,
    pub location: Location,
}

/// One field of a construct expression.
#[derive(Debug)]
pub struct ConstructorField {
    pub name: Identifier,
    pub value: NodeId,
}

/// One branch of an `if`: its condition, absent for the last `else`, and
/// its body.
#[derive(Debug)]
pub struct Condition {
    pub condition: Option<NodeId>,
    pub block: Block,
}

/// One arm of a `switch`.
#[derive(Debug)]
pub struct SwitchCase {
    pub pattern: Pattern,
    pub branch: NodeId,
}

#[derive(Debug)]
pub enum ExpressionKind {
    Assignment { target: NodeId, value: NodeId },
    Cast { source: NodeId, target: Type },
    Construct { path: Path, fields: Vec<ConstructorField> },
    StaticCall { name: Path, arguments: Vec<NodeId> },
    InstanceCall { callee: NodeId, name: PathSegment, arguments: Vec<NodeId> },
    IntrinsicCall { arguments: Vec<NodeId> },
    If { cases: Vec<Condition> },
    Is { target: NodeId, pattern: Pattern },
    Member { callee: NodeId, name: Identifier },
    Scope { body: Vec<NodeId> },
    Switch { operand: NodeId, cases: Vec<SwitchCase> },
    Variant { name: Path, arguments: Vec<NodeId> },
    Literal,
    Variable { name: Identifier },
}

#[derive(Debug)]
pub struct Expression {
    pub id: NodeId,
    pub kind: ExpressionKind,
    pub location: Location,
}

#[derive(Debug)]
pub enum PatternKind {
    Identifier { name: Identifier },
    Literal { literal: NodeId },
    Variant { name: Path, fields: Vec<Pattern> },
    Wildcard,
}

#[derive(Debug)]
pub struct Pattern {
    pub id: NodeId,
    pub kind: PatternKind,
    pub location: Location,
}

/// One entry of the arena.
#[derive(Debug)]
pub enum Node {
    Function(FunctionDefinition),
    Type(TypeDefinition),
    TraitImpl(TraitImplementation),
    Impl(Implementation),
    Field(Field),
    Method(MethodDefinition),
    TraitMethodDef(MethodDefinition),
    TraitMethodImpl(MethodDefinition),
    Pattern(Pattern),
    Statement(Statement),
    Expression(Expression),
}

/// The arena of one package: its nodes by id, in the order they were added.
#[derive(Debug)]
pub struct NodeMap {
    nodes: Vec<(NodeId, Node)>,
}

/// The position of the first entry of `nodes` with the id `id`, counted from
/// `from`; the length of `nodes` where there is none.
pub open spec fn position_of(nodes: Seq<(NodeId, Node)>, id: NodeId, from: int) -> int
    decreases nodes.len() - from,
{
    if from < 0 || from >= nodes.len() {
        nodes.len() as int
    } else if nodes[from].0 == id {
        from
    } else {
        position_of(nodes, id, from + 1)
    }
}

pub proof fn lemma_position_of(nodes: Seq<(NodeId, Node)>, id: NodeId, from: int)
    requires
        0 <= from <= nodes.len(),
    ensures
        from <= position_of(nodes, id, from) <= nodes.len(),
        position_of(nodes, id, from) < nodes.len() ==> nodes[position_of(nodes, id, from)].0 == id,
        forall|j: int| from <= j < position_of(nodes, id, from) ==> (#[trigger] nodes[j]).0 != id,
    decreases nodes.len() - from,
{
    if from < nodes.len() && nodes[from].0 != id {
        lemma_position_of(nodes, id, from + 1);
    }
}

impl View for NodeMap {
    type V = Seq<(NodeId, Node)>;

    closed spec fn view(&self) -> Seq<(NodeId, Node)> {
        self.nodes@
    }
}

impl NodeMap {
    /// The node registered under `id`, where there is one.
    pub open spec fn node(self, id: NodeId) -> Option<Node> {
        let at = position_of(self@, id, 0);
        if at < self@.len() {
            Some(self@[at].1)
        } else {
            None
        }
    }

    /// Whether no two entries carry the same id.
    pub open spec fn distinct(self) -> bool {
        forall|i: int, j: int|
            0 <= i < j < self@.len() ==> (#[trigger] self@[i]).0 != (#[trigger] self@[j]).0
    }

    pub fn new() -> (map: NodeMap)
        ensures
            map@ == Seq::<(NodeId, Node)>::empty(),
            map.distinct(),
    {
        NodeMap { nodes: Vec::new() }
    }

    pub fn len(&self) -> (n: usize)
        ensures
            n == self@.len(),
    {
        self.nodes.len()
    }

    fn find(&self, id: NodeId) -> (at: usize)
        ensures
            at == position_of(self@, id, 0),
            at <= self@.len(),
    {
        let mut i: usize = 0;
        while i < self.nodes.len()
            invariant
                0 <= i <= self.nodes@.len(),
                position_of(self.nodes@, id, 0) == position_of(self.nodes@, id, i as int),
            decreases self.nodes@.len() - i,
        {
            if self.nodes[i].0 == id {
                return i;
            }
            i = i + 1;
        }
        i
    }

    /// Registers `node` under `id`: in place of the node that carried the id
    /// before, else as the last entry.
    pub fn insert(&mut self, id: NodeId, node: Node)
        ensures
            final(self)@ == if position_of(old(self)@, id, 0) < old(self)@.len() {
                old(self)@.update(position_of(old(self)@, id, 0), (id, node))
            } else {
                old(self)@.push((id, node))
            },
            old(self).distinct() ==> final(self).distinct(),
            final(self).node(id) == Some(node),
    {
        let at = self.find(id);
        proof {
            lemma_position_of(self@, id, 0);
        }
        if at < self.nodes.len() {
            self.nodes[at] = (id, node);
        } else {
            self.nodes.push((id, node));
        }
        proof {
            lemma_position_of(self@, id, 0);
            assert(self@[at as int].0 == id);
        }
    }

    /// The node registered under `id`.
    pub fn get(&self, id: NodeId) -> (r: Option<&Node>)
        ensures
            match r {
                Some(node) => self.node(id) == Some(*node),
                None => self.node(id).is_none(),
            },
    {
        let at = self.find(id);
        if at < self.nodes.len() {
            Some(&self.nodes[at].1)
        } else {
            None
        }
    }

    /// The entry at position `at`, in the order of insertion; none at or
    /// beyond the length.
    pub fn entry(&self, at: usize) -> (r: Option<(NodeId, &Node)>)
        ensures
            match r {
                Some(entry) => at < self@.len() && entry.0 == self@[at as int].0 && *entry.1
                    == self@[at as int].1,
                None => at >= self@.len(),
            },
    {
        if at < self.nodes.len() {
            Some((self.nodes[at].0, &self.nodes[at].1))
        } else {
            None
        }
    }
}

} // verus!
