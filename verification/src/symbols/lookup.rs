//! The symbol table: what was declared or used where, queried by position.
//!
//! The table is a set, kept in order: by package, then by file, then by the
//! start of the place, then by its length. Entries at one place stand in the
//! order in which they were found.

use crate::hir::clone_path;
use crate::hir::clone_segment;
use crate::hir::lemma_segments_view;
use crate::hir::segments_view;
use crate::hir::Expression;
use crate::hir::ExpressionKind;
use crate::hir::Node;
use crate::hir::NodeMap;
use crate::hir::PathSegment;
use crate::hir::PathSegmentView;
use crate::hir::Pattern;
use crate::hir::PatternKind;
use crate::hir::Statement;
use crate::hir::Type;
use crate::hir::TypeDefinition;
use crate::symbols::visitor::run;
use crate::symbols::visitor::trace;
use crate::symbols::visitor::traverse;
use crate::symbols::visitor::Event;
use crate::symbols::visitor::VisitError;
use crate::symbols::visitor::Visitor;
use crate::hir::same_path;
use crate::hir::Identifier;
use crate::hir::IdentifierView;
use crate::hir::Path;
use crate::hir::PathView;
use crate::span::Location;
use crate::span::NodeId;
use indexmap::IndexSet;
use vstd::prelude::*;
use vstd::std_specs::cmp::PartialEqSpecImpl;

verus! {

/// A callable, told apart by whether it is a free function or a method.
#[derive(Clone, Copy, Debug, PartialEq, Eq, Hash, Structural)]
pub enum CallReference {
    Function(NodeId),
    Method(NodeId),
}

/// What a place in the source refers to.
#[derive(Debug, Hash)]
pub enum SymbolKind {
    /// Symbol refers to a generic type with a pathed name.
    Type { name: Path },
    /// Symbol refers to some callable - method, function or intrinsic.
    Callable { reference: CallReference },
    /// Symbol refers to a field within a structure.
    Field { id: NodeId },
    /// Symbol refers to a variant, modelled after some enum case.
    Variant { name: Path },
    /// Symbol refers to a generic pattern.
    Pattern { id: NodeId },
    /// Symbol refers to a call expression.
    Call { id: NodeId },
    /// Symbol refers to a member expression.
    Member { callee: NodeId, field: Identifier },
    /// Symbol refers to a variable reference.
    VariableReference { id: NodeId },
}

/// One entry of the symbol table: a place and what it refers to.
#[derive(Debug, Hash)]
pub struct SymbolEntry {
    pub location: Location,
    pub kind: SymbolKind,
}

/// What a [`SymbolKind`] holds.
pub enum SymbolKindView {
    Type { name: PathView },
    Callable { reference: CallReference },
    Field { id: NodeId },
    Variant { name: PathView },
    Pattern { id: NodeId },
    Call { id: NodeId },
    Member { callee: NodeId, field: IdentifierView },
    VariableReference { id: NodeId },
}

/// What a [`SymbolEntry`] holds.
pub struct SymbolEntryView {
    pub location: Location,
    pub kind: SymbolKindView,
}

impl View for SymbolKind {
    type V = SymbolKindView;

    open spec fn view(&self) -> SymbolKindView {
        match *self {
            SymbolKind::Type { name } => SymbolKindView::Type { name: name@ },
            SymbolKind::Callable { reference } => SymbolKindView::Callable { reference },
            SymbolKind::Field { id } => SymbolKindView::Field { id },
            SymbolKind::Variant { name } => SymbolKindView::Variant { name: name@ },
            SymbolKind::Pattern { id } => SymbolKindView::Pattern { id },
            SymbolKind::Call { id } => SymbolKindView::Call { id },
            SymbolKind::Member { callee, field } => SymbolKindView::Member { callee, field: field@ },
            SymbolKind::VariableReference { id } => SymbolKindView::VariableReference { id },
        }
    }
}

impl View for SymbolEntry {
    type V = SymbolEntryView;

    open spec fn view(&self) -> SymbolEntryView {
        SymbolEntryView { location: self.location, kind: self.kind@ }
    }
}

impl SymbolKind {
    /// A copy that refers to the same.
    pub fn duplicate(&self) -> (r: SymbolKind)
        ensures
            r@ == self@,
    {
        match self {
            SymbolKind::Type { name } => SymbolKind::Type { name: clone_path(name) },
            SymbolKind::Callable { reference } => SymbolKind::Callable { reference: *reference },
            SymbolKind::Field { id } => SymbolKind::Field { id: *id },
            SymbolKind::Variant { name } => SymbolKind::Variant { name: clone_path(name) },
            SymbolKind::Pattern { id } => SymbolKind::Pattern { id: *id },
            SymbolKind::Call { id } => SymbolKind::Call { id: *id },
            SymbolKind::Member { callee, field } => SymbolKind::Member {
                callee: *callee,
                field: field.duplicate(),
            },
            SymbolKind::VariableReference { id } => SymbolKind::VariableReference { id: *id },
        }
    }

    /// Whether both are of one kind and refer to the same.
    pub fn same(&self, other: &SymbolKind) -> (r: bool)
        ensures
            r == (self@ == other@),
    {
        match self {
            SymbolKind::Type { name } => match other {
                SymbolKind::Type { name: other_name } => same_path(name, other_name),
                _ => false,
            },
            SymbolKind::Callable { reference } => match other {
                SymbolKind::Callable { reference: other_reference } => *reference
                    == *other_reference,
                _ => false,
            },
            SymbolKind::Field { id } => match other {
                SymbolKind::Field { id: other_id } => *id == *other_id,
                _ => false,
            },
            SymbolKind::Variant { name } => match other {
                SymbolKind::Variant { name: other_name } => same_path(name, other_name),
                _ => false,
            },
            SymbolKind::Pattern { id } => match other {
                SymbolKind::Pattern { id: other_id } => *id == *other_id,
                _ => false,
            },
            SymbolKind::Call { id } => match other {
                SymbolKind::Call { id: other_id } => *id == *other_id,
                _ => false,
            },
            SymbolKind::Member { callee, field } => match other {
                SymbolKind::Member { callee: other_callee, field: other_field } => *callee
                    == *other_callee && field.same(other_field),
                _ => false,
            },
            SymbolKind::VariableReference { id } => match other {
                SymbolKind::VariableReference { id: other_id } => *id == *other_id,
                _ => false,
            },
        }
    }
}

impl SymbolEntry {
    /// A copy at the same place that refers to the same.
    pub fn duplicate(&self) -> (r: SymbolEntry)
        ensures
            r@ == self@,
    {
        SymbolEntry { location: self.location, kind: self.kind.duplicate() }
    }

    /// Whether both lie at the same place and refer to the same.
    pub fn same(&self, other: &SymbolEntry) -> (r: bool)
        ensures
            r == (self@ == other@),
    {
        self.location == other.location && self.kind.same(&other.kind)
    }
}

impl Clone for SymbolKind {
    fn clone(&self) -> (r: Self)
        ensures
            r@ == self@,
    {
        self.duplicate()
    }
}

impl Clone for SymbolEntry {
    fn clone(&self) -> (r: Self)
        ensures
            r@ == self@,
    {
        self.duplicate()
    }
}

impl PartialEq for SymbolKind {
    fn eq(&self, other: &Self) -> (r: bool) {
        self.same(other)
    }
}

impl PartialEqSpecImpl for SymbolKind {
    open spec fn obeys_eq_spec() -> bool {
        true
    }

    open spec fn eq_spec(&self, other: &Self) -> bool {
        self@ == other@
    }
}

impl Eq for SymbolKind {

}

impl PartialEq for SymbolEntry {
    fn eq(&self, other: &Self) -> (r: bool) {
        self.same(other)
    }
}

impl PartialEqSpecImpl for SymbolEntry {
    open spec fn obeys_eq_spec() -> bool {
        true
    }

    open spec fn eq_spec(&self, other: &Self) -> bool {
        self@ == other@
    }
}

impl Eq for SymbolEntry {

}

/// `indexmap::IndexSet`, of which nothing is known but what [`symbols_of`]
/// names.
#[verifier::external_type_specification]
#[verifier::external_body]
#[verifier::reject_recursive_types(T)]
#[verifier::reject_recursive_types(S)]
pub struct ExIndexSet<T, S>(IndexSet<T, S>);

/// The entries that a set holds, in the order in which they were inserted.
pub uninterp spec fn symbols_of(set: IndexSet<SymbolEntry>) -> Seq<SymbolEntry>;

/// Whether `entries` holds an entry at the place and of the kind of `entry`.
pub open spec fn holds_entry(entries: Seq<SymbolEntry>, entry: SymbolEntryView) -> bool {
    exists|i: int| 0 <= i < entries.len() && (#[trigger] entries[i])@ == entry
}

/// Whether the first place comes before the second in the order of the
/// index: by package, then by file, then by start, then by length.
pub open spec fn before(a: Location, b: Location) -> bool {
    ||| a.file.0.0 < b.file.0.0
    ||| a.file.0.0 == b.file.0.0 && a.file.1 < b.file.1
    ||| a.file == b.file && a.start < b.start
    ||| a.file == b.file && a.start == b.start && a.span() < b.span()
}

/// What each entry of `entries` holds.
pub open spec fn views(entries: Seq<SymbolEntry>) -> Seq<SymbolEntryView> {
    entries.map_values(|entry: SymbolEntry| entry@)
}

/// The position at which an entry at `place` goes into `table`: that of the
/// first entry from `from` on that `place` comes before, or the end.
pub open spec fn slot(table: Seq<SymbolEntryView>, place: Location, from: int) -> int
    decreases table.len() - from,
{
    if from < 0 || from >= table.len() {
        table.len() as int
    } else if before(place, table[from].location) {
        from
    } else {
        slot(table, place, from + 1)
    }
}

/// `entries` with `entry` in its place, unless it holds the like already.
pub open spec fn insert_one(entries: Seq<SymbolEntry>, entry: SymbolEntry) -> Seq<SymbolEntry> {
    if holds_entry(entries, entry@) {
        entries
    } else {
        entries.insert(slot(views(entries), entry.location, 0), entry)
    }
}

/// `IndexSet::new`: the new set holds nothing.
#[verifier::external_body]
fn symbols_new() -> (set: IndexSet<SymbolEntry>)
    ensures
        symbols_of(set) == Seq::<SymbolEntry>::empty(),
{
    IndexSet::new()
}

/// `IndexSet::contains`: whether the set holds an entry equal to `entry`.
/// Entries are equal where `==` says so, which compares place and kind.
#[verifier::external_body]
fn symbols_contains(set: &IndexSet<SymbolEntry>, entry: &SymbolEntry) -> (held: bool)
    ensures
        held == holds_entry(symbols_of(*set), entry@),
{
    set.contains(entry)
}

/// `IndexSet::shift_insert` of an entry that the set does not hold: the
/// entry stands at `index`, and the entries from there on stand one
/// further. An index beyond the length is left out, and so is an entry that
/// the set holds, which would be moved.
#[verifier::external_body]
fn symbols_shift_insert(set: &mut IndexSet<SymbolEntry>, index: usize, entry: SymbolEntry)
    requires
        index <= symbols_of(*old(set)).len(),
        !holds_entry(symbols_of(*old(set)), entry@),
    ensures
        symbols_of(*final(set)) == symbols_of(*old(set)).insert(index as int, entry),
{
    set.shift_insert(index, entry);
}

/// `IndexSet::len`: the number of entries held.
#[verifier::external_body]
fn symbols_len(set: &IndexSet<SymbolEntry>) -> (n: usize)
    ensures
        n == symbols_of(*set).len(),
{
    set.len()
}

/// `IndexSet::get_index`: the entry at a position in the order of insertion,
/// none at or beyond the length.
#[verifier::external_body]
fn symbols_get(set: &IndexSet<SymbolEntry>, index: usize) -> (r: Option<&SymbolEntry>)
    ensures
        index < symbols_of(*set).len() ==> r == Some(&symbols_of(*set)[index as int]),
        index >= symbols_of(*set).len() ==> r.is_none(),
{
    set.get_index(index)
}

/// Whether no two entries lie at the same place and are of the same kind.
pub open spec fn distinct(table: Seq<SymbolEntryView>) -> bool {
    forall|i: int, j: int| 0 <= i < j < table.len() ==> table[i] != table[j]
}

/// Whether the entries stand in the order of the index, see [`before`].
pub open spec fn sorted(table: Seq<SymbolEntryView>) -> bool {
    forall|i: int, j: int|
        0 <= i < j < table.len() ==> !before(
            (#[trigger] table[j]).location,
            (#[trigger] table[i]).location,
        )
}

/// `table` with `entry` in its place, behind the entries that do not come
/// after it, unless it holds `entry` already.
pub open spec fn add_view(table: Seq<SymbolEntryView>, entry: SymbolEntryView) -> Seq<
    SymbolEntryView,
> {
    if table.contains(entry) {
        table
    } else {
        table.insert(slot(table, entry.location, 0), entry)
    }
}

pub proof fn lemma_slot(table: Seq<SymbolEntryView>, place: Location, from: int)
    requires
        0 <= from <= table.len(),
    ensures
        from <= slot(table, place, from) <= table.len(),
        slot(table, place, from) < table.len() ==> before(
            place,
            table[slot(table, place, from)].location,
        ),
        forall|j: int|
            from <= j < slot(table, place, from) ==> !before(place, (#[trigger] table[j]).location),
    decreases table.len() - from,
{
    if from < table.len() && !before(place, table[from].location) {
        lemma_slot(table, place, from + 1);
    }
}

/// `table` after each entry of `more` was added, in order.
pub open spec fn add_views(table: Seq<SymbolEntryView>, more: Seq<SymbolEntryView>) -> Seq<
    SymbolEntryView,
>
    decreases more.len(),
{
    if more.len() == 0 {
        table
    } else {
        add_views(add_view(table, more[0]), more.skip(1))
    }
}

/// Inserting an entry adds what it holds.
pub proof fn lemma_insert_one(entries: Seq<SymbolEntry>, entry: SymbolEntry)
    ensures
        views(insert_one(entries, entry)) == add_view(views(entries), entry@),
        holds_entry(entries, entry@) == views(entries).contains(entry@),
{
    let table = views(entries);
    if holds_entry(entries, entry@) {
        let i = choose|i: int| 0 <= i < entries.len() && (#[trigger] entries[i])@ == entry@;
        assert(table[i] == entry@);
    }
    if table.contains(entry@) {
        let i = choose|i: int| 0 <= i < table.len() && table[i] == entry@;
        assert(entries[i]@ == entry@);
    }
    lemma_slot(table, entry.location, 0);
    let at = slot(table, entry.location, 0);
    assert(views(entries.insert(at, entry)) =~= table.insert(at, entry@));
}

/// Adding an entry keeps the entries distinct and in order.
pub proof fn lemma_add_view_kept(table: Seq<SymbolEntryView>, entry: SymbolEntryView)
    requires
        distinct(table),
        sorted(table),
    ensures
        distinct(add_view(table, entry)),
        sorted(add_view(table, entry)),
{
    if !table.contains(entry) {
        lemma_slot(table, entry.location, 0);
        let at = slot(table, entry.location, 0);
        let after = table.insert(at, entry);
        assert forall|i: int, j: int| 0 <= i < j < after.len() implies after[i] != after[j]
            && !before((#[trigger] after[j]).location, (#[trigger] after[i]).location) by {
            let source = |k: int|
                if k < at {
                    k
                } else {
                    k - 1
                };
            if i != at && j != at {
                assert(after[i] == table[source(i)]);
                assert(after[j] == table[source(j)]);
            } else if i == at {
                assert(after[j] == table[j - 1]);
                assert(table.contains(table[j - 1]));
                assert(!before(table[j - 1].location, table[at].location) || j - 1 == at);
            } else {
                assert(after[i] == table[i]);
                assert(table.contains(table[i]));
            }
        }
    }
}

/// Adding entries keeps the entries distinct and in order.
pub proof fn lemma_add_views_kept(table: Seq<SymbolEntryView>, more: Seq<SymbolEntryView>)
    requires
        distinct(table),
        sorted(table),
    ensures
        distinct(add_views(table, more)),
        sorted(add_views(table, more)),
    decreases more.len(),
{
    if more.len() > 0 {
        lemma_add_view_kept(table, more[0]);
        lemma_add_views_kept(add_view(table, more[0]), more.skip(1));
    }
}

/// Adding two lists one after the other is adding their concatenation.
pub broadcast proof fn lemma_add_views_concat(
    table: Seq<SymbolEntryView>,
    a: Seq<SymbolEntryView>,
    b: Seq<SymbolEntryView>,
)
    ensures
        #[trigger] add_views(table, a + b) == add_views(add_views(table, a), b),
    decreases a.len(),
{
    if a.len() == 0 {
        assert(a + b =~= b);
    } else {
        assert((a + b)[0] == a[0]);
        assert((a + b).skip(1) =~= a.skip(1) + b);
        lemma_add_views_concat(add_view(table, a[0]), a.skip(1), b);
    }
}

/// Adding a list of one entry adds that entry.
pub broadcast proof fn lemma_add_views_one(table: Seq<SymbolEntryView>, entry: SymbolEntryView)
    ensures
        #[trigger] add_views(table, seq![entry]) == add_view(table, entry),
{
    let s = seq![entry];
    assert(s.skip(1) =~= Seq::<SymbolEntryView>::empty());
    assert(add_views(add_view(table, entry), Seq::<SymbolEntryView>::empty()) == add_view(
        table,
        entry,
    ));
}

/// The first `count` segments of a path and the segment that follows them,
/// as a path of its own at the same location.
pub open spec fn prefix_view(path: PathView, count: int) -> PathView {
    if 0 <= count < path.root.len() {
        PathView { root: path.root.take(count), name: path.root[count], location: path.location }
    } else {
        path
    }
}

/// The segment of `path` at position `at`; its own segment lies behind the
/// last of those that lead to it.
pub open spec fn segment_at(path: PathView, at: int) -> PathSegmentView {
    if 0 <= at < path.root.len() {
        path.root[at]
    } else {
        path.name
    }
}

/// The entries that the segments of `path` up to position `last` give, the
/// longest prefix first: each segment that names a type gives one, at the
/// place of that segment, for the path that ends with it.
pub open spec fn path_entries(path: PathView, last: int) -> Seq<SymbolEntryView>
    decreases last + 1,
{
    if last < 0 {
        Seq::empty()
    } else {
        (match segment_at(path, last) {
            PathSegmentView::Type { location, .. } => seq![
                SymbolEntryView {
                    location,
                    kind: SymbolKindView::Type { name: prefix_view(path, last) },
                },
            ],
            _ => Seq::empty(),
        }) + path_entries(path, last - 1)
    }
}

/// The entries that the visit of a node gives: the header of a callable, of
/// a type definition or of a field, at the place of its name.
pub open spec fn node_entries(node: Node) -> Seq<SymbolEntryView> {
    match node {
        Node::Function(function) => seq![
            SymbolEntryView {
                location: function.name.location,
                kind: SymbolKindView::Callable { reference: CallReference::Function(function.id) },
            },
        ],
        Node::Method(method) => seq![
            SymbolEntryView {
                location: method.name.location,
                kind: SymbolKindView::Callable { reference: CallReference::Method(method.id) },
            },
        ],
        Node::TraitMethodDef(method) => seq![
            SymbolEntryView {
                location: method.name.location,
                kind: SymbolKindView::Callable { reference: CallReference::Method(method.id) },
            },
        ],
        Node::TraitMethodImpl(method) => seq![
            SymbolEntryView {
                location: method.name.location,
                kind: SymbolKindView::Callable { reference: CallReference::Method(method.id) },
            },
        ],
        Node::Type(TypeDefinition::Struct(def)) => seq![
            SymbolEntryView {
                location: def.name.name_place(),
                kind: SymbolKindView::Type { name: def.name@ },
            },
        ],
        Node::Type(TypeDefinition::Trait(def)) => seq![
            SymbolEntryView {
                location: def.name.name_place(),
                kind: SymbolKindView::Type { name: def.name@ },
            },
        ],
        Node::Type(TypeDefinition::Enum(def)) => seq![
            SymbolEntryView {
                location: def.name.name_place(),
                kind: SymbolKindView::Type { name: def.name@ },
            },
        ],
        Node::Field(field) => seq![
            SymbolEntryView {
                location: field.name.location,
                kind: SymbolKindView::Field { id: field.id },
            },
        ],
        _ => Seq::empty(),
    }
}

/// The entries that the visit of an expression gives.
pub open spec fn expr_entries(expr: Expression) -> Seq<SymbolEntryView> {
    match expr.kind {
        ExpressionKind::Construct { path, .. } => seq![
            SymbolEntryView {
                location: path.name_place(),
                kind: SymbolKindView::Type { name: path@ },
            },
        ],
        ExpressionKind::StaticCall { name, .. } => seq![
            SymbolEntryView {
                location: name.name_place(),
                kind: SymbolKindView::Call { id: expr.id },
            },
        ],
        ExpressionKind::InstanceCall { name, .. } => seq![
            SymbolEntryView { location: name.place(), kind: SymbolKindView::Call { id: expr.id } },
        ],
        ExpressionKind::IntrinsicCall { .. } => seq![
            SymbolEntryView { location: expr.location, kind: SymbolKindView::Call { id: expr.id } },
        ],
        ExpressionKind::Member { callee, name } => seq![
            SymbolEntryView {
                location: name.location,
                kind: SymbolKindView::Member { callee, field: name@ },
            },
        ],
        ExpressionKind::Variant { name, .. } => seq![
            SymbolEntryView {
                location: name.location,
                kind: SymbolKindView::Variant { name: name@ },
            },
        ],
        ExpressionKind::Variable { .. } => seq![
            SymbolEntryView {
                location: expr.location,
                kind: SymbolKindView::VariableReference { id: expr.id },
            },
        ],
        _ => Seq::empty(),
    }
}

/// The entry that the visit of a pattern gives: a variant at the place of
/// its name, any other pattern at its own place.
pub open spec fn pattern_entries(pattern: Pattern) -> Seq<SymbolEntryView> {
    match pattern.kind {
        PatternKind::Variant { name, .. } => seq![
            SymbolEntryView {
                location: name.location,
                kind: SymbolKindView::Variant { name: name@ },
            },
        ],
        _ => seq![
            SymbolEntryView {
                location: pattern.location,
                kind: SymbolKindView::Pattern { id: pattern.id },
            },
        ],
    }
}

/// The entries that one visit gives. A reference to a type gives one at the
/// place of its name; statements and identifiers give none.
pub open spec fn entries_of(event: Event) -> Seq<SymbolEntryView> {
    match event {
        Event::Node(node) => node_entries(node),
        Event::Type(ty) => seq![
            SymbolEntryView {
                location: ty.name.location,
                kind: SymbolKindView::Type { name: ty.name@ },
            },
        ],
        Event::Expression(expr) => expr_entries(expr),
        Event::Pattern(pattern) => pattern_entries(pattern),
        Event::Path(path) => path_entries(path@, path.root@.len() as int),
        _ => Seq::empty(),
    }
}

/// A copy of the first `count` segments of `segments`.
fn clone_leading(segments: &Vec<PathSegment>, count: usize) -> (r: Vec<PathSegment>)
    requires
        count <= segments@.len(),
    ensures
        segments_view(r@, r@.len()) == segments_view(segments@, segments@.len()).take(
            count as int,
        ),
{
    let mut out: Vec<PathSegment> = Vec::new();
    let mut i: usize = 0;
    while i < count
        invariant
            0 <= i <= count <= segments@.len(),
            out@.len() == i,
            forall|j: int| 0 <= j < i ==> (#[trigger] out@[j])@ == segments@[j]@,
        decreases count - i,
    {
        let item = clone_segment(&segments[i]);
        out.push(item);
        i = i + 1;
    }
    proof {
        lemma_segments_view(out@, out@.len());
        lemma_segments_view(segments@, segments@.len());
        assert(segments_view(out@, out@.len()) =~= segments_view(segments@, segments@.len()).take(
            count as int,
        ));
    }
    out
}

/// The path that ends with the segment at position `count` of `path`.
pub fn prefix(path: &Path, count: usize) -> (r: Path)
    ensures
        r@ == prefix_view(path@, count as int),
{
    proof {
        lemma_segments_view(path.root@, path.root@.len());
    }
    if count < path.root.len() {
        let root = clone_leading(&path.root, count);
        let name = clone_segment(&path.root[count]);
        let r = Path { root, name, location: path.location };
        proof {
            assert(path@.root == segments_view(path.root@, path.root@.len()));
            assert(r@.root == segments_view(r.root@, r.root@.len()));
            assert(r@.name == path@.root[count as int]);
        }
        r
    } else {
        clone_path(path)
    }
}

/// Whether the first place comes before the second in the order of the
/// index.
pub fn is_before(a: &Location, b: &Location) -> (r: bool)
    ensures
        r == before(*a, *b),
{
    if a.file.0.0 != b.file.0.0 {
        a.file.0.0 < b.file.0.0
    } else if a.file.1 != b.file.1 {
        a.file.1 < b.file.1
    } else if a.start != b.start {
        a.start < b.start
    } else {
        a.len() < b.len()
    }
}

/// Puts `entry` in its place in the set, unless the set holds the like
/// already.
fn insert_entry(set: &mut IndexSet<SymbolEntry>, entry: SymbolEntry)
    ensures
        symbols_of(*final(set)) == insert_one(symbols_of(*old(set)), entry),
        views(symbols_of(*final(set))) == add_view(views(symbols_of(*old(set))), entry@),
{
    proof {
        lemma_insert_one(symbols_of(*set), entry);
    }
    if symbols_contains(set, &entry) {
        return ;
    }
    let count = symbols_len(set);
    let mut at: usize = 0;
    while at < count
        invariant_except_break
            slot(views(symbols_of(*set)), entry.location, 0) == slot(
                views(symbols_of(*set)),
                entry.location,
                at as int,
            ),
        invariant
            0 <= at <= count,
            count == symbols_of(*set).len(),
            *set == *old(set),
        ensures
            slot(views(symbols_of(*set)), entry.location, 0) == at,
        decreases count - at,
    {
        match symbols_get(set, at) {
            Some(held) => {
                assert(views(symbols_of(*set))[at as int] == held@);
                if is_before(&entry.location, &held.location) {
                    break ;
                }
            },
            None => {},
        }
        at = at + 1;
    }
    symbols_shift_insert(set, at, entry);
}

/// Gathers the entries of a package while it is walked.
pub struct LocationVisitor {
    symbols: IndexSet<SymbolEntry>,
}

impl LocationVisitor {
    /// The entries gathered so far, in the order in which they were found.
    pub closed spec fn entries(&self) -> Seq<SymbolEntry> {
        symbols_of(self.symbols)
    }

    pub fn new() -> (visitor: LocationVisitor)
        ensures
            visitor.entries() == Seq::<SymbolEntry>::empty(),
    {
        LocationVisitor { symbols: symbols_new() }
    }

    fn add(&mut self, entry: SymbolEntry)
        ensures
            views(final(self).entries()) == add_view(views(old(self).entries()), entry@),
    {
        insert_entry(&mut self.symbols, entry);
    }
}

impl Visitor for LocationVisitor {
    type Model = Seq<SymbolEntryView>;

    open spec fn model(&self) -> Seq<SymbolEntryView> {
        views(self.entries())
    }

    open spec fn step(model: Seq<SymbolEntryView>, event: Event) -> (
        Seq<SymbolEntryView>,
        Result<(), VisitError>,
    ) {
        (add_views(model, entries_of(event)), Ok(()))
    }

    fn visit_node(&mut self, node: &Node) -> (r: Result<(), VisitError>) {
        broadcast use lemma_add_views_one;

        match node {
            Node::Function(function) => {
                self.add(
                    SymbolEntry {
                        kind: SymbolKind::Callable {
                            reference: CallReference::Function(function.id),
                        },
                        location: function.name.location,
                    },
                );
            },
            Node::Method(method) => {
                self.add(
                    SymbolEntry {
                        kind: SymbolKind::Callable { reference: CallReference::Method(method.id) },
                        location: method.name.location,
                    },
                );
            },
            Node::TraitMethodDef(method) => {
                self.add(
                    SymbolEntry {
                        kind: SymbolKind::Callable { reference: CallReference::Method(method.id) },
                        location: method.name.location,
                    },
                );
            },
            Node::TraitMethodImpl(method) => {
                self.add(
                    SymbolEntry {
                        kind: SymbolKind::Callable { reference: CallReference::Method(method.id) },
                        location: method.name.location,
                    },
                );
            },
            Node::Type(TypeDefinition::Struct(def)) => {
                self.add(
                    SymbolEntry {
                        kind: SymbolKind::Type { name: clone_path(&def.name) },
                        location: def.name.name_location(),
                    },
                );
            },
            Node::Type(TypeDefinition::Trait(def)) => {
                self.add(
                    SymbolEntry {
                        kind: SymbolKind::Type { name: clone_path(&def.name) },
                        location: def.name.name_location(),
                    },
                );
            },
            Node::Type(TypeDefinition::Enum(def)) => {
                self.add(
                    SymbolEntry {
                        kind: SymbolKind::Type { name: clone_path(&def.name) },
                        location: def.name.name_location(),
                    },
                );
            },
            Node::Field(field) => {
                self.add(
                    SymbolEntry {
                        kind: SymbolKind::Field { id: field.id },
                        location: field.name.location,
                    },
                );
            },
            _ => {},
        }
        Ok(())
    }

    fn visit_type(&mut self, ty: &Type) -> (r: Result<(), VisitError>) {
        broadcast use lemma_add_views_one;

        self.add(
            SymbolEntry {
                kind: SymbolKind::Type { name: clone_path(&ty.name) },
                location: ty.name.location,
            },
        );
        Ok(())
    }

    fn visit_stmt(&mut self, stmt: &Statement) -> (r: Result<(), VisitError>) {
        Ok(())
    }

    fn visit_expr(&mut self, expr: &Expression) -> (r: Result<(), VisitError>) {
        broadcast use lemma_add_views_one;

        match &expr.kind {
            ExpressionKind::Construct { path, .. } => {
                self.add(
                    SymbolEntry {
                        kind: SymbolKind::Type { name: clone_path(path) },
                        location: path.name_location(),
                    },
                );
            },
            ExpressionKind::StaticCall { name, .. } => {
                self.add(
                    SymbolEntry {
                        kind: SymbolKind::Call { id: expr.id },
                        location: name.name_location(),
                    },
                );
            },
            ExpressionKind::InstanceCall { name, .. } => {
                self.add(
                    SymbolEntry { kind: SymbolKind::Call { id: expr.id }, location: name.location() },
                );
            },
            ExpressionKind::IntrinsicCall { .. } => {
                self.add(
                    SymbolEntry { kind: SymbolKind::Call { id: expr.id }, location: expr.location },
                );
            },
            ExpressionKind::Member { callee, name } => {
                self.add(
                    SymbolEntry {
                        location: name.location,
                        kind: SymbolKind::Member { callee: *callee, field: name.duplicate() },
                    },
                );
            },
            ExpressionKind::Variant { name, .. } => {
                self.add(
                    SymbolEntry {
                        location: name.location,
                        kind: SymbolKind::Variant { name: clone_path(name) },
                    },
                );
            },
            ExpressionKind::Variable { .. } => {
                self.add(
                    SymbolEntry {
                        kind: SymbolKind::VariableReference { id: expr.id },
                        location: expr.location,
                    },
                );
            },
            _ => {},
        }
        Ok(())
    }

    fn visit_pattern(&mut self, pattern: &Pattern) -> (r: Result<(), VisitError>) {
        broadcast use lemma_add_views_one;

        match &pattern.kind {
            PatternKind::Variant { name, .. } => {
                self.add(
                    SymbolEntry {
                        location: name.location,
                        kind: SymbolKind::Variant { name: clone_path(name) },
                    },
                );
            },
            _ => {
                self.add(
                    SymbolEntry {
                        location: pattern.location,
                        kind: SymbolKind::Pattern { id: pattern.id },
                    },
                );
            },
        }
        Ok(())
    }

    fn visit_path(&mut self, path: &Path) -> (r: Result<(), VisitError>) {
        broadcast use lemma_add_views_one, lemma_add_views_concat;

        let count = path.root.len();
        proof {
            lemma_segments_view(path.root@, path.root@.len());
        }
        if let PathSegment::Type { location, .. } = &path.name {
            self.add(
                SymbolEntry { kind: SymbolKind::Type { name: clone_path(path) }, location: *location },
            );
        }
        let mut left: usize = count;
        while left > 0
            invariant
                0 <= left <= count,
                count == path.root@.len(),
                path@.root.len() == count,
                forall|j: int| 0 <= j < count ==> #[trigger] path@.root[j] == path.root@[j]@,
                add_views(
                    old(self).model(),
                    path_entries(path@, count as int),
                ) == add_views(self.model(), path_entries(path@, left - 1)),
            decreases left,
        {
            broadcast use lemma_add_views_one, lemma_add_views_concat;

            left = left - 1;
            if let PathSegment::Type { location, .. } = &path.root[left] {
                self.add(
                    SymbolEntry {
                        kind: SymbolKind::Type { name: prefix(path, left) },
                        location: *location,
                    },
                );
            }
        }
        Ok(())
    }

    fn visit_identifier(&mut self, ident: &Identifier) -> (r: Result<(), VisitError>) {
        Ok(())
    }
}

/// The table that walking `hir` builds, with how the walk ended.
pub open spec fn built_from(hir: NodeMap) -> (Seq<SymbolEntryView>, Result<(), VisitError>) {
    run::<LocationVisitor>(Seq::empty(), trace(hir))
}

/// Gathering entries keeps them distinct and in order, whatever is visited.
pub proof fn lemma_gather_kept(table: Seq<SymbolEntryView>, events: Seq<Event>)
    requires
        distinct(table),
        sorted(table),
    ensures
        distinct(run::<LocationVisitor>(table, events).0),
        sorted(run::<LocationVisitor>(table, events).0),
    decreases events.len(),
{
    if events.len() > 0 {
        match events[0] {
            Event::Fail(_) => {},
            _ => {
                lemma_add_views_kept(table, entries_of(events[0]));
                lemma_gather_kept(add_views(table, entries_of(events[0])), events.skip(1));
            },
        }
    }
}

/// The table built from a package is in the order of the index, and no two
/// of its entries lie at the same place and are of the same kind.
pub proof fn lemma_built_well_formed(hir: NodeMap)
    ensures
        distinct(built_from(hir).0),
        sorted(built_from(hir).0),
{
    lemma_gather_kept(Seq::empty(), trace(hir));
}

/// Whether the first place is tighter than the second: shorter, or as long
/// and starting earlier.
pub open spec fn tighter(a: Location, b: Location) -> bool {
    a.span() < b.span() || (a.span() == b.span() && a.start < b.start)
}

/// Whether the first place is tighter than the second, see [`tighter`].
pub fn is_tighter(a: &Location, b: &Location) -> (r: bool)
    ensures
        r == tighter(*a, *b),
{
    let first = a.len();
    let second = b.len();
    first < second || (first == second && a.start < b.start)
}

/// Whether the entry at position `at` answers the query `query`: it holds
/// the first byte of the query, no entry that does is tighter, and none as
/// tight stands before it.
pub open spec fn answers(entries: Seq<SymbolEntry>, query: Location, at: int) -> bool {
    &&& 0 <= at < entries.len()
    &&& entries[at].location.holds(query.file, query.start)
    &&& forall|j: int|
        0 <= j < entries.len() && (#[trigger] entries[j]).location.holds(query.file, query.start)
            ==> !tighter(entries[j].location, entries[at].location) && (j < at ==> tighter(
            entries[at].location,
            entries[j].location,
        ))
}

/// The symbols of a workspace, queried by position.
pub struct SymbolLookup {
    symbols: IndexSet<SymbolEntry>,
}

impl SymbolLookup {
    /// The entries of the table, in the order in which they were found.
    pub closed spec fn entries(&self) -> Seq<SymbolEntry> {
        symbols_of(self.symbols)
    }

    /// Whether the entries stand in the order of the index, and no two lie at
    /// the same place and are of the same kind.
    pub open spec fn well_formed(&self) -> bool {
        distinct(views(self.entries())) && sorted(views(self.entries()))
    }

    /// The empty table.
    pub fn new() -> (table: SymbolLookup)
        ensures
            table.entries() == Seq::<SymbolEntry>::empty(),
            table.well_formed(),
    {
        SymbolLookup { symbols: symbols_new() }
    }

    /// Walks the package and gathers an entry for every place that refers to
    /// something. Fails where the walk does.
    pub fn from_hir(hir: &NodeMap) -> (r: Result<SymbolLookup, VisitError>)
        ensures
            match r {
                Ok(table) => built_from(*hir) == (views(table.entries()), Ok::<(), VisitError>(()))
                    && table.well_formed(),
                Err(error) => built_from(*hir).1 == Err::<(), VisitError>(error),
            },
    {
        let mut visitor = LocationVisitor::new();
        assert(views(visitor.entries()) =~= Seq::<SymbolEntryView>::empty());
        proof {
            lemma_built_well_formed(*hir);
        }
        let walked = traverse(hir, &mut visitor);
        match walked {
            Ok(unit) => {
                assert(unit == ());
                assert(built_from(*hir).0 == views(visitor.entries()));
                assert(built_from(*hir).1 == Ok::<(), VisitError>(()));
                Ok(SymbolLookup { symbols: visitor.symbols })
            },
            Err(error) => Err(error),
        }
    }

    /// Puts every entry of `other` in its place, in the order of `other`; an
    /// entry that the table holds already changes nothing.
    pub fn extend(&mut self, other: SymbolLookup)
        ensures
            views(final(self).entries()) == add_views(
                views(old(self).entries()),
                views(other.entries()),
            ),
            old(self).well_formed() ==> final(self).well_formed(),
    {
        proof {
            if self.well_formed() {
                lemma_add_views_kept(views(self.entries()), views(other.entries()));
            }
        }
        let count = symbols_len(&other.symbols);
        let ghost more = views(other.entries());
        let mut i: usize = 0;
        assert(more.skip(0) =~= more);
        while i < count
            invariant
                0 <= i <= count,
                count == other.entries().len(),
                more == views(other.entries()),
                add_views(views(old(self).entries()), more) == add_views(
                    views(self.entries()),
                    more.skip(i as int),
                ),
            decreases count - i,
        {
            assert(more.skip(i as int).skip(1) =~= more.skip(i + 1));
            match symbols_get(&other.symbols, i) {
                Some(entry) => {
                    insert_entry(&mut self.symbols, entry.duplicate());
                },
                None => {},
            }
            i = i + 1;
        }
    }

    /// The number of entries.
    pub fn len(&self) -> (n: usize)
        ensures
            n == self.entries().len(),
    {
        symbols_len(&self.symbols)
    }

    /// The entry at position `at`, in the order in which entries were found.
    pub fn get(&self, at: usize) -> (r: Option<&SymbolEntry>)
        ensures
            at < self.entries().len() ==> r == Some(&self.entries()[at as int]),
            at >= self.entries().len() ==> r.is_none(),
    {
        symbols_get(&self.symbols, at)
    }

    /// The tightest entry that holds the first byte of `location`: among the
    /// entries of the same file whose range holds that byte, both ends
    /// included, the one with the shortest range; among those of one length
    /// the one that starts first, and among those at one place the one found
    /// first. None where no entry holds the byte.
    pub fn lookup_position(&self, location: Location) -> (r: Option<&SymbolEntry>)
        ensures
            match r {
                Some(entry) => exists|at: int|
                    answers(self.entries(), location, at) && *entry == self.entries()[at],
                None => forall|j: int|
                    0 <= j < self.entries().len() ==> !(#[trigger] self.entries()[j]).location.holds(
                        location.file,
                        location.start,
                    ),
            },
    {
        let count = symbols_len(&self.symbols);
        let mut best: Option<&SymbolEntry> = None;
        let ghost mut best_at: int = 0;
        let mut i: usize = 0;
        while i < count
            invariant
                0 <= i <= count,
                count == self.entries().len(),
                match best {
                    Some(entry) => 0 <= best_at < i && *entry == self.entries()[best_at]
                        && entry.location.holds(location.file, location.start) && forall|j: int|
                        0 <= j < i && (#[trigger] self.entries()[j]).location.holds(
                            location.file,
                            location.start,
                        ) ==> !tighter(self.entries()[j].location, entry.location) && (j < best_at
                            ==> tighter(entry.location, self.entries()[j].location)),
                    None => forall|j: int|
                        0 <= j < i ==> !(#[trigger] self.entries()[j]).location.holds(
                            location.file,
                            location.start,
                        ),
                },
            decreases count - i,
        {
            match symbols_get(&self.symbols, i) {
                Some(entry) => {
                    if entry.location.contains(location.file, location.start) {
                        let better = match best {
                            Some(held) => is_tighter(&entry.location, &held.location),
                            None => true,
                        };
                        if better {
                            best = Some(entry);
                            proof {
                                best_at = i as int;
                            }
                        }
                    }
                },
                None => {},
            }
            i = i + 1;
        }
        proof {
            if best.is_some() {
                assert(answers(self.entries(), location, best_at));
            }
        }
        best
    }
}

impl Default for SymbolLookup {
    fn default() -> (table: SymbolLookup)
        ensures
            table.entries() == Seq::<SymbolEntry>::empty(),
            table.well_formed(),
    {
        SymbolLookup::new()
    }
}

/// What a query finds lies around the first byte of the query, and no entry
/// that does so is shorter.
pub proof fn lemma_answer_is_tightest(entries: Seq<SymbolEntry>, query: Location, at: int)
    requires
        answers(entries, query, at),
    ensures
        entries[at].location.file == query.file,
        entries[at].location.start <= query.start <= entries[at].location.end,
        forall|j: int|
            0 <= j < entries.len() && (#[trigger] entries[j]).location.holds(
                query.file,
                query.start,
            ) ==> entries[at].location.span() <= entries[j].location.span(),
{
}

/// At most one position answers a query.
pub proof fn lemma_answer_is_unique(entries: Seq<SymbolEntry>, query: Location, a: int, b: int)
    requires
        answers(entries, query, a),
        answers(entries, query, b),
    ensures
        a == b,
{
}

} // verus!
