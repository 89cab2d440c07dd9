//! What the server holds between two messages: the documents that the editor
//! has open, the last checked package graph with its symbols, and the files
//! that diagnostics were last published for.

use crate::diagnostics::drain_diagnostics;
use crate::diagnostics::drained;
use crate::diagnostics::files_after;
use crate::diagnostics::publish_views;
use crate::diagnostics::Diagnostic;
use crate::diagnostics::PublishDiagnostics;
use crate::diagnostics::UriSet;
use crate::hir::NodeMap;
use crate::paths::ends_with;
use crate::paths::path_suffix;
use crate::paths::strip_prefix;
use crate::span::Location;
use crate::span::PackageId;
use crate::symbols::lookup::add_views;
use crate::symbols::lookup::built_from;
use crate::symbols::lookup::distinct;
use crate::symbols::lookup::views;
use crate::symbols::lookup::SymbolEntry;
use crate::symbols::lookup::SymbolEntryView;
use crate::symbols::lookup::SymbolLookup;
use crate::text::offset_from_position;
use crate::text::offset_of;
use crate::paths::stripped_path;
use crate::span::SourceFile;
use crate::uri::Uri;
use indexmap::IndexMap;
use vstd::prelude::*;
use vstd::utf8::encode_utf8;

verus! {

/// `indexmap::IndexMap`, of which nothing is known but what
/// [`documents_of`] and [`texts_of`] name.
#[verifier::external_type_specification]
#[verifier::external_body]
#[verifier::reject_recursive_types(K)]
#[verifier::reject_recursive_types(V)]
#[verifier::reject_recursive_types(S)]
pub struct ExIndexMap<K, V, S>(IndexMap<K, V, S>);

/// A document of the editor, with the compiler's identity for it.
#[derive(Debug)]
pub struct MappedSourceFile {
    pub uri: Uri,
    pub file: SourceFile,
}

impl MappedSourceFile {
    /// A copy of the same document.
    pub fn duplicate(&self) -> (r: MappedSourceFile)
        ensures
            r == *self,
    {
        MappedSourceFile { uri: self.uri.duplicate(), file: self.file.duplicate() }
    }
}

impl Clone for MappedSourceFile {
    fn clone(&self) -> (r: Self)
        ensures
            r == *self,
    {
        self.duplicate()
    }
}

/// The position of the first pair of `entries` with the key `key`, counted
/// from `from`; the length of `entries` where there is none.
pub open spec fn key_index<V>(entries: Seq<(Seq<char>, V)>, key: Seq<char>, from: int) -> int
    decreases entries.len() - from,
{
    if from < 0 || from >= entries.len() {
        entries.len() as int
    } else if entries[from].0 == key {
        from
    } else {
        key_index(entries, key, from + 1)
    }
}

/// Whether `entries` holds a pair with the key `key`.
pub open spec fn has_key<V>(entries: Seq<(Seq<char>, V)>, key: Seq<char>) -> bool {
    key_index(entries, key, 0) < entries.len()
}

/// `entries` with `value` under `key`: in place of the value that the key
/// had, or as the last pair.
pub open spec fn put<V>(entries: Seq<(Seq<char>, V)>, key: Seq<char>, value: V) -> Seq<
    (Seq<char>, V),
> {
    if has_key(entries, key) {
        entries.update(key_index(entries, key, 0), (key, value))
    } else {
        entries.push((key, value))
    }
}

/// `entries` without the pair of `key`: the last pair takes its place.
pub open spec fn swap_take<V>(entries: Seq<(Seq<char>, V)>, key: Seq<char>) -> Seq<
    (Seq<char>, V),
> {
    if has_key(entries, key) {
        entries.update(key_index(entries, key, 0), entries.last()).drop_last()
    } else {
        entries
    }
}

/// Whether no two pairs have the same key.
pub open spec fn distinct_keys<V>(entries: Seq<(Seq<char>, V)>) -> bool {
    forall|i: int, j: int|
        0 <= i < j < entries.len() ==> (#[trigger] entries[i]).0 != (#[trigger] entries[j]).0
}

pub proof fn lemma_key_index<V>(entries: Seq<(Seq<char>, V)>, key: Seq<char>, from: int)
    requires
        0 <= from <= entries.len(),
    ensures
        from <= key_index(entries, key, from) <= entries.len(),
        key_index(entries, key, from) < entries.len() ==> entries[key_index(
            entries,
            key,
            from,
        )].0 == key,
        forall|j: int|
            from <= j < key_index(entries, key, from) ==> (#[trigger] entries[j]).0 != key,
    decreases entries.len() - from,
{
    if from < entries.len() && entries[from].0 != key {
        lemma_key_index(entries, key, from + 1);
    }
}

/// Putting and taking keep keys distinct.
pub proof fn lemma_distinct_kept<V>(entries: Seq<(Seq<char>, V)>, key: Seq<char>, value: V)
    requires
        distinct_keys(entries),
    ensures
        distinct_keys(put(entries, key, value)),
        distinct_keys(swap_take(entries, key)),
        has_key(put(entries, key, value), key),
        !has_key(swap_take(entries, key), key),
{
    lemma_key_index(entries, key, 0);
    lemma_key_index(put(entries, key, value), key, 0);
    lemma_key_index(swap_take(entries, key), key, 0);
    let at = key_index(entries, key, 0);
    if at < entries.len() {
        assert(put(entries, key, value)[at].0 == key);
    } else {
        assert(put(entries, key, value)[entries.len() as int].0 == key);
    }
}

/// The value that `entries` holds under `key`.
pub open spec fn value_of<V>(entries: Seq<(Seq<char>, V)>, key: Seq<char>) -> Option<V> {
    if has_key(entries, key) {
        Some(entries[key_index(entries, key, 0)].1)
    } else {
        None
    }
}

/// What is put under a key is held under it, and what is held under any
/// other key stays.
pub proof fn lemma_put_value<V>(
    entries: Seq<(Seq<char>, V)>,
    key: Seq<char>,
    value: V,
    other: Seq<char>,
)
    ensures
        value_of(put(entries, key, value), key) == Some(value),
        other != key ==> value_of(put(entries, key, value), other) == value_of(entries, other),
{
    lemma_key_index(entries, key, 0);
    lemma_key_index(entries, other, 0);
    let after = put(entries, key, value);
    lemma_key_index(after, key, 0);
    lemma_key_index(after, other, 0);
    let at = key_index(entries, key, 0);
    if at < entries.len() {
        assert(after[at].0 == key);
    } else {
        assert(after[entries.len() as int].0 == key);
    }
    if other != key {
        let was = key_index(entries, other, 0);
        if was < entries.len() {
            assert(after[was].0 == other);
        }
        let now = key_index(after, other, 0);
        if now < after.len() {
            assert(now < entries.len());
            assert(entries[now].0 == other);
        }
    }
}

/// The pair that is put last under a new key and then taken leaves what
/// was there.
pub proof fn lemma_put_then_take<V>(entries: Seq<(Seq<char>, V)>, key: Seq<char>, value: V)
    requires
        !has_key(entries, key),
    ensures
        swap_take(put(entries, key, value), key) == entries,
{
    lemma_key_index(entries, key, 0);
    let after = put(entries, key, value);
    lemma_key_index(after, key, 0);
    assert(after[entries.len() as int].0 == key);
    assert(key_index(after, key, 0) == entries.len());
    assert(swap_take(after, key) =~= entries);
}

/// Putting the same pair twice is putting it once.
pub proof fn lemma_put_twice<V>(entries: Seq<(Seq<char>, V)>, key: Seq<char>, value: V)
    ensures
        put(put(entries, key, value), key, value) == put(entries, key, value),
{
    lemma_key_index(entries, key, 0);
    let after = put(entries, key, value);
    lemma_key_index(after, key, 0);
    let at = key_index(entries, key, 0);
    if at < entries.len() {
        assert(after[at].0 == key);
    } else {
        assert(after[entries.len() as int].0 == key);
    }
    assert(put(after, key, value) =~= after);
}

/// The documents that a map holds under the text of their URI, in the order
/// in which they were inserted.
pub uninterp spec fn documents_of(map: IndexMap<String, MappedSourceFile>) -> Seq<
    (Seq<char>, MappedSourceFile),
>;

/// `IndexMap::new`: the new map holds nothing.
#[verifier::external_body]
fn documents_new() -> (map: IndexMap<String, MappedSourceFile>)
    ensures
        documents_of(map) == Seq::<(Seq<char>, MappedSourceFile)>::empty(),
{
    IndexMap::new()
}

/// `IndexMap::insert`: where the key is held, its value is replaced and the
/// pair stays at its place; else the pair becomes the last.
#[verifier::external_body]
fn documents_insert(
    map: &mut IndexMap<String, MappedSourceFile>,
    key: String,
    value: MappedSourceFile,
)
    ensures
        documents_of(*final(map)) == put(documents_of(*old(map)), key@, value),
{
    map.insert(key, value);
}

/// `IndexMap::swap_remove`: the pair of the key is removed and the last
/// pair takes its place. The result says whether the key was held.
#[verifier::external_body]
fn documents_swap_remove(map: &mut IndexMap<String, MappedSourceFile>, key: &str) -> (held: bool)
    ensures
        documents_of(*final(map)) == swap_take(documents_of(*old(map)), key@),
        held == has_key(documents_of(*old(map)), key@),
{
    map.swap_remove(key).is_some()
}

/// `IndexMap::len`: the number of pairs held.
#[verifier::external_body]
fn documents_len(map: &IndexMap<String, MappedSourceFile>) -> (n: usize)
    ensures
        n == documents_of(*map).len(),
{
    map.len()
}

/// `IndexMap::get_index`: the value at a position in the order of the map,
/// none at or beyond the length.
#[verifier::external_body]
fn documents_get(map: &IndexMap<String, MappedSourceFile>, index: usize) -> (r: Option<
    &MappedSourceFile,
>)
    ensures
        index < documents_of(*map).len() ==> r == Some(&documents_of(*map)[index as int].1),
        index >= documents_of(*map).len() ==> r.is_none(),
{
    match map.get_index(index) {
        Some((_, value)) => Some(value),
        None => None,
    }
}

/// The texts that a map holds under a path, in the order in which they were
/// inserted.
pub uninterp spec fn texts_of(map: IndexMap<String, String>) -> Seq<(Seq<char>, Seq<char>)>;

/// `IndexMap::new`: the new map holds nothing.
#[verifier::external_body]
pub(crate) fn texts_new() -> (map: IndexMap<String, String>)
    ensures
        texts_of(map) == Seq::<(Seq<char>, Seq<char>)>::empty(),
{
    IndexMap::new()
}

/// `IndexMap::insert`: where the key is held, its value is replaced and the
/// pair stays at its place; else the pair becomes the last.
#[verifier::external_body]
pub(crate) fn texts_insert(map: &mut IndexMap<String, String>, key: String, value: String)
    ensures
        texts_of(*final(map)) == put(texts_of(*old(map)), key@, value@),
{
    map.insert(key, value);
}

/// The position of the first document of `entries` with the URI `uri`,
/// counted from `from`; the length of `entries` where there is none.
pub open spec fn document_index(
    entries: Seq<(Seq<char>, MappedSourceFile)>,
    uri: Seq<char>,
    from: int,
) -> int
    decreases entries.len() - from,
{
    if from < 0 || from >= entries.len() {
        entries.len() as int
    } else if entries[from].1.uri@ == uri {
        from
    } else {
        document_index(entries, uri, from + 1)
    }
}

pub proof fn lemma_document_index(
    entries: Seq<(Seq<char>, MappedSourceFile)>,
    uri: Seq<char>,
    from: int,
)
    requires
        0 <= from <= entries.len(),
    ensures
        from <= document_index(entries, uri, from) <= entries.len(),
        document_index(entries, uri, from) < entries.len() ==> entries[document_index(
            entries,
            uri,
            from,
        )].1.uri@ == uri,
        forall|j: int|
            from <= j < document_index(entries, uri, from) ==> (#[trigger] entries[j]).1.uri@
                != uri,
    decreases entries.len() - from,
{
    if from < entries.len() && entries[from].1.uri@ != uri {
        lemma_document_index(entries, uri, from + 1);
    }
}

/// The name under which a document at `path` overrides what is on disk:
/// its path from the workspace root on where it lies under the root, else
/// its whole path.
pub open spec fn override_name(root: Seq<char>, path: Seq<char>) -> Seq<char> {
    match stripped_path(path, root) {
        Some(rest) => rest,
        None => path,
    }
}

/// The name under which a document at `path` overrides what is on disk,
/// given what is left of the path once the workspace root is taken from its
/// front: that rest where there is one, else the whole path.
pub fn name_override(path: &str, stripped: Option<String>) -> (name: String)
    ensures
        name@ == match stripped {
            Some(rest) => rest@,
            None => path@,
        },
{
    match stripped {
        Some(rest) => rest,
        None => path.to_owned(),
    }
}

/// The overrides that the first `count` documents of `entries` give.
pub open spec fn overrides_of(
    root: Seq<char>,
    entries: Seq<(Seq<char>, MappedSourceFile)>,
    count: nat,
) -> Seq<(Seq<char>, Seq<char>)>
    decreases count,
{
    if count == 0 || count > entries.len() {
        Seq::empty()
    } else {
        put(
            overrides_of(root, entries, (count - 1) as nat),
            override_name(root, entries[count - 1].1.uri.path_view()),
            entries[count - 1].1.file.content@,
        )
    }
}

/// Every document is named in the overrides, and with its own content
/// unless a later document overrides the same name.
pub proof fn lemma_overrides_hold(
    root: Seq<char>,
    entries: Seq<(Seq<char>, MappedSourceFile)>,
    count: nat,
    at: int,
)
    requires
        0 <= at < count <= entries.len(),
    ensures
        has_key(
            overrides_of(root, entries, count),
            override_name(root, entries[at].1.uri.path_view()),
        ),
        (forall|j: int|
            at < j < count ==> override_name(root, (#[trigger] entries[j]).1.uri.path_view())
                != override_name(root, entries[at].1.uri.path_view())) ==> value_of(
            overrides_of(root, entries, count),
            override_name(root, entries[at].1.uri.path_view()),
        ) == Some(entries[at].1.file.content@),
    decreases count,
{
    let name = override_name(root, entries[at].1.uri.path_view());
    let last = override_name(root, entries[count - 1].1.uri.path_view());
    let before = overrides_of(root, entries, (count - 1) as nat);
    lemma_put_value(before, last, entries[count - 1].1.file.content@, name);
    if at < count - 1 {
        lemma_overrides_hold(root, entries, (count - 1) as nat, at);
    }
}

/// The documents that the editor has open, which stand in for what is on
/// disk.
pub struct Vfs {
    workspace_root: Uri,
    source_files: IndexMap<String, MappedSourceFile>,
}

impl Vfs {
    /// The URI of the workspace root.
    pub closed spec fn root(&self) -> Uri {
        self.workspace_root
    }

    /// The documents held, each under the text of a URI, in the order of the
    /// map.
    pub closed spec fn entries(&self) -> Seq<(Seq<char>, MappedSourceFile)> {
        documents_of(self.source_files)
    }

    /// Whether every document is held under the text of its own URI, and no
    /// two under the same.
    pub open spec fn well_formed(&self) -> bool {
        &&& distinct_keys(self.entries())
        &&& forall|i: int|
            0 <= i < self.entries().len() ==> (#[trigger] self.entries()[i]).0
                == self.entries()[i].1.uri@
    }

    /// The overrides that the documents held give, see `build_source_overrides`.
    pub open spec fn overrides(&self) -> Seq<(Seq<char>, Seq<char>)> {
        overrides_of(self.root().path_view(), self.entries(), self.entries().len())
    }

    pub fn new(root: Uri) -> (vfs: Vfs)
        ensures
            vfs.root() == root,
            vfs.entries() == Seq::<(Seq<char>, MappedSourceFile)>::empty(),
            vfs.well_formed(),
    {
        Vfs { workspace_root: root, source_files: documents_new() }
    }

    pub fn workspace_root(&self) -> (root: &Uri)
        ensures
            *root == self.root(),
    {
        &self.workspace_root
    }

    /// Moves the workspace root; the documents stay as they are.
    pub fn set_workspace_root(&mut self, root: Uri)
        ensures
            final(self).root() == root,
            final(self).entries() == old(self).entries(),
    {
        self.workspace_root = root;
    }

    /// The number of documents held.
    pub fn len(&self) -> (n: usize)
        ensures
            n == self.entries().len(),
    {
        documents_len(&self.source_files)
    }

    /// The first document held whose URI is `uri`.
    pub fn get_document(&self, uri: &Uri) -> (r: Option<&MappedSourceFile>)
        ensures
            match r {
                Some(document) => document_index(self.entries(), uri@, 0) < self.entries().len()
                    && *document == self.entries()[document_index(self.entries(), uri@, 0)].1,
                None => document_index(self.entries(), uri@, 0) == self.entries().len(),
            },
    {
        let count = documents_len(&self.source_files);
        let mut i: usize = 0;
        while i < count
            invariant
                0 <= i <= count,
                count == self.entries().len(),
                document_index(self.entries(), uri@, 0) == document_index(
                    self.entries(),
                    uri@,
                    i as int,
                ),
            decreases count - i,
        {
            match documents_get(&self.source_files, i) {
                Some(document) => {
                    if document.uri.same(uri) {
                        return Some(document);
                    }
                },
                None => {},
            }
            i = i + 1;
        }
        None
    }

    /// Holds `file` under `uri`: in place of the document held under that
    /// URI, or as the last document.
    pub fn add_document(&mut self, uri: Uri, file: SourceFile)
        ensures
            final(self).root() == old(self).root(),
            final(self).entries() == put(old(self).entries(), uri@, MappedSourceFile { uri, file }),
            old(self).well_formed() ==> final(self).well_formed(),
    {
        let key = uri.as_str().to_owned();
        proof {
            lemma_key_index(self.entries(), uri@, 0);
            if self.well_formed() {
                lemma_distinct_kept(self.entries(), uri@, MappedSourceFile { uri, file });
            }
        }
        documents_insert(&mut self.source_files, key, MappedSourceFile { uri, file });
    }

    /// Lets go of the document held under `uri`; the last document takes its
    /// place. The result says whether one was held.
    pub fn remove_document(&mut self, uri: &Uri) -> (held: bool)
        ensures
            final(self).root() == old(self).root(),
            final(self).entries() == swap_take(old(self).entries(), uri@),
            held == has_key(old(self).entries(), uri@),
            old(self).well_formed() ==> final(self).well_formed(),
    {
        proof {
            lemma_key_index(self.entries(), uri@, 0);
            if self.well_formed() {
                lemma_distinct_kept(self.entries(), uri@, self.entries()[0].1);
            }
        }
        documents_swap_remove(&mut self.source_files, uri.as_str())
    }

    /// Gives the document of `uri` the content `content` and leaves the
    /// compiler's identity for it as it is. Where no document has that URI,
    /// nothing changes.
    pub fn change_document(&mut self, uri: &Uri, content: String)
        ensures
            final(self).root() == old(self).root(),
            final(self).entries() == changed(old(self).entries(), *uri, content),
            old(self).well_formed() ==> final(self).well_formed(),
    {
        let file = match self.get_document(uri) {
            Some(document) => SourceFile {
                id: document.file.id,
                name: document.file.name.duplicate(),
                content,
                package: document.file.package,
            },
            None => {
                return ;
            },
        };
        self.add_document(uri.duplicate(), file);
    }

    /// Builds the overrides of source files which we currently have in-memory
    /// in the language server: each document's content under its
    /// [`override_name`], in the order of the documents. A later document of
    /// the same name takes the place of an earlier one.
    pub fn build_source_overrides(&self) -> (r: IndexMap<String, String>)
        ensures
            texts_of(r) == self.overrides(),
    {
        let mut overrides = texts_new();
        let count = documents_len(&self.source_files);
        let mut i: usize = 0;
        while i < count
            invariant
                0 <= i <= count,
                count == self.entries().len(),
                texts_of(overrides) == overrides_of(
                    self.workspace_root.path_view(),
                    self.entries(),
                    i as nat,
                ),
            decreases count - i,
        {
            match documents_get(&self.source_files, i) {
                Some(document) => {
                    let path = document.uri.path();
                    let name = name_override(
                        path,
                        strip_prefix(path, self.workspace_root.path()),
                    );
                    texts_insert(&mut overrides, name, document.file.content.clone());
                },
                None => {},
            }
            i = i + 1;
        }
        overrides
    }
}

/// The documents after the one of `uri` was given the content `content`.
pub open spec fn changed(
    entries: Seq<(Seq<char>, MappedSourceFile)>,
    uri: Uri,
    content: String,
) -> Seq<(Seq<char>, MappedSourceFile)> {
    let at = document_index(entries, uri@, 0);
    if at < entries.len() {
        put(
            entries,
            uri@,
            MappedSourceFile {
                uri,
                file: SourceFile {
                    id: entries[at].1.file.id,
                    name: entries[at].1.file.name,
                    content,
                    package: entries[at].1.file.package,
                },
            },
        )
    } else {
        entries
    }
}

/// One package of a checked workspace: its sources and its checked
/// high-level representation.
#[derive(Debug)]
pub struct CheckedPackage {
    pub package: PackageId,
    pub sources: Vec<SourceFile>,
    pub hir: NodeMap,
}

/// What the compiler hands back when a check succeeds.
#[derive(Debug)]
pub struct CheckedPackageGraph {
    pub packages: Vec<CheckedPackage>,
}

/// The table that the packages from position `from` on add to `table`: the
/// entries of each package that can be walked, in order. A package whose walk
/// fails adds nothing.
pub open spec fn gathered(
    packages: Seq<CheckedPackage>,
    table: Seq<SymbolEntryView>,
    from: nat,
) -> Seq<SymbolEntryView>
    decreases packages.len() - from,
{
    if from >= packages.len() {
        table
    } else {
        gathered(
            packages,
            if built_from(packages[from as int].hir).1.is_ok() {
                add_views(table, built_from(packages[from as int].hir).0)
            } else {
                table
            },
            from + 1,
        )
    }
}

/// The position of the first source of `sources` whose name ends the path
/// `path`, counted from `from`; the length of `sources` where there is none.
pub open spec fn source_index(sources: Seq<SourceFile>, path: Seq<char>, from: int) -> int
    decreases sources.len() - from,
{
    if from < 0 || from >= sources.len() {
        sources.len() as int
    } else if path_suffix(path, sources[from].name.path()) {
        from
    } else {
        source_index(sources, path, from + 1)
    }
}

/// The position of the first package of `packages` with a source whose name
/// ends the path `path`, counted from `from`; the length of `packages` where
/// there is none.
pub open spec fn package_index(packages: Seq<CheckedPackage>, path: Seq<char>, from: int) -> int
    decreases packages.len() - from,
{
    if from < 0 || from >= packages.len() {
        packages.len() as int
    } else if source_index(packages[from].sources@, path, 0) < packages[from].sources@.len() {
        from
    } else {
        package_index(packages, path, from + 1)
    }
}

/// The last graph that checked, with the symbols found in it.
pub struct CheckedWorkspace {
    pub graph: CheckedPackageGraph,
    pub symbols: SymbolLookup,
}

impl CheckedWorkspace {
    /// A workspace that nothing was checked in yet.
    pub fn new() -> (r: CheckedWorkspace)
        ensures
            r.graph.packages@.len() == 0,
            r.symbols.entries() == Seq::<SymbolEntry>::empty(),
            r.symbols.well_formed(),
    {
        CheckedWorkspace {
            graph: CheckedPackageGraph { packages: Vec::new() },
            symbols: SymbolLookup::new(),
        }
    }

    /// Takes `graph` as the last that checked and builds the symbols anew
    /// from its packages, in order. A package that cannot be walked is
    /// left out.
    pub fn update_symbol_lookup(&mut self, graph: CheckedPackageGraph)
        ensures
            final(self).graph == graph,
            views(final(self).symbols.entries()) == gathered(graph.packages@, Seq::empty(), 0),
            final(self).symbols.well_formed(),
    {
        let mut symbols = SymbolLookup::new();
        assert(views(symbols.entries()) =~= Seq::<SymbolEntryView>::empty());
        let mut i: usize = 0;
        while i < graph.packages.len()
            invariant
                0 <= i <= graph.packages.len(),
                symbols.well_formed(),
                gathered(graph.packages@, Seq::empty(), 0) == gathered(
                    graph.packages@,
                    views(symbols.entries()),
                    i as nat,
                ),
            decreases graph.packages.len() - i,
        {
            match SymbolLookup::from_hir(&graph.packages[i].hir) {
                Ok(package_symbols) => {
                    symbols.extend(package_symbols);
                },
                Err(_) => {},
            }
            i = i + 1;
        }
        self.graph = graph;
        self.symbols = symbols;
    }
}

/// What the compiler is asked to check: the root of the workspace, and the
/// sources that stand in for what is on disk.
pub struct CompileRequest {
    pub root: String,
    pub source_overrides: IndexMap<String, String>,
}

/// How a check ended: the checked graph where it succeeded, and every
/// diagnostic that was raised on the way.
pub struct CompileOutcome {
    pub graph: Option<CheckedPackageGraph>,
    pub diagnostics: Vec<Diagnostic>,
}

/// Everything that the server holds between two messages.
pub struct State {
    pub vfs: Vfs,
    pub checked: CheckedWorkspace,
    pub error_files_prev: UriSet,
    pub error_files_curr: UriSet,
}

/// The place that `line` and `column` name in a document: one byte at the
/// offset that they give, clipped to the end of the content.
pub open spec fn place_of(document: MappedSourceFile, line: nat, column: nat) -> Location {
    let at = offset_of(encode_utf8(document.file.content@), line, column);
    Location {
        file: document.file.id,
        start: at as usize,
        end: if at < usize::MAX {
            (at + 1) as usize
        } else {
            at as usize
        },
    }
}

impl State {
    /// The state of a server that has checked nothing yet.
    pub fn new(root: Uri) -> (state: State)
        ensures
            state.vfs.root() == root,
            state.vfs.entries().len() == 0,
            state.vfs.well_formed(),
            state.checked.graph.packages@.len() == 0,
            state.checked.symbols.entries().len() == 0,
            state.error_files_prev@.len() == 0,
            state.error_files_curr@.len() == 0,
    {
        State {
            vfs: Vfs::new(root),
            checked: CheckedWorkspace::new(),
            error_files_prev: UriSet::new(),
            error_files_curr: UriSet::new(),
        }
    }

    /// What the compiler is to check next: the workspace as it is on disk,
    /// with the documents that the editor has open in place of their files.
    pub fn compile_request(&self) -> (request: CompileRequest)
        ensures
            request.root@ == self.vfs.root()@,
            texts_of(request.source_overrides) == self.vfs.overrides(),
    {
        CompileRequest {
            root: self.vfs.workspace_root().as_str().to_owned(),
            source_overrides: self.vfs.build_source_overrides(),
        }
    }

    /// Takes in how a check of the current workspace ended, and hands back
    /// what is to be sent to the client.
    ///
    /// The files that diagnostics were published for by the check before
    /// become the previous ones. Where the check succeeded, its graph and the
    /// symbols built from it take the place of the last; where it failed,
    /// they stay. Then the diagnostics are drained.
    pub fn compile_workspace(&mut self, outcome: CompileOutcome) -> (r: Vec<PublishDiagnostics>)
        ensures
            final(self).vfs == old(self).vfs,
            final(self).error_files_prev@ == old(self).error_files_curr@,
            final(self).error_files_curr@ == files_after(
                old(self).vfs.root()@,
                Seq::empty(),
                outcome.diagnostics@,
                0,
            ),
            publish_views(r@) == drained(
                old(self).vfs.root()@,
                old(self).error_files_curr@,
                Seq::empty(),
                outcome.diagnostics@,
            ),
            match outcome.graph {
                Some(graph) => final(self).checked.graph == graph && views(
                    final(self).checked.symbols.entries(),
                ) == gathered(graph.packages@, Seq::empty(), 0),
                None => final(self).checked == old(self).checked,
            },
    {
        let mut fresh = UriSet::new();
        core::mem::swap(&mut self.error_files_curr, &mut fresh);
        self.error_files_prev = fresh;
        match outcome.graph {
            Some(graph) => {
                self.checked.update_symbol_lookup(graph);
            },
            None => {},
        }
        drain_diagnostics(
            self.vfs.workspace_root(),
            &self.error_files_prev,
            &mut self.error_files_curr,
            &outcome.diagnostics,
        )
    }

    /// The source of the last checked graph that `uri` names: the first, in
    /// the order of packages and of their sources, whose name ends the path
    /// of the URI.
    pub fn source_of_uri(&self, uri: &Uri) -> (r: Option<&SourceFile>)
        ensures
            ({
                let packages = self.checked.graph.packages@;
                let at = package_index(packages, uri.path_view(), 0);
                match r {
                    Some(source) => at < packages.len() && *source == packages[at].sources@[source_index(
                        packages[at].sources@,
                        uri.path_view(),
                        0,
                    )],
                    None => at == packages.len(),
                }
            }),
    {
        let path = uri.path();
        let packages = &self.checked.graph.packages;
        let mut i: usize = 0;
        while i < packages.len()
            invariant
                0 <= i <= packages.len(),
                path@ == uri.path_view(),
                packages == &self.checked.graph.packages,
                package_index(packages@, path@, 0) == package_index(packages@, path@, i as int),
            decreases packages.len() - i,
        {
            let sources = &packages[i].sources;
            let mut j: usize = 0;
            while j < sources.len()
                invariant
                    0 <= j <= sources.len(),
                    0 <= i < packages.len(),
                    sources == &packages[i as int].sources,
                    path@ == uri.path_view(),
                    packages == &self.checked.graph.packages,
                    package_index(packages@, path@, 0) == package_index(packages@, path@, i as int),
                    source_index(sources@, path@, 0) == source_index(sources@, path@, j as int),
                decreases sources.len() - j,
            {
                if ends_with(path, sources[j].name.as_str()) {
                    return Some(&sources[j]);
                }
                j = j + 1;
            }
            i = i + 1;
        }
        None
    }

    /// The place in the document of `uri` that `line` and `column` name;
    /// nothing where no document of that URI is held.
    pub fn location_of(&self, uri: &Uri, line: usize, column: usize) -> (r: Option<Location>)
        ensures
            ({
                let at = document_index(self.vfs.entries(), uri@, 0);
                match r {
                    Some(location) => at < self.vfs.entries().len() && location == place_of(
                        self.vfs.entries()[at].1,
                        line as nat,
                        column as nat,
                    ),
                    None => at == self.vfs.entries().len(),
                }
            }),
    {
        let document = match self.vfs.get_document(uri) {
            Some(document) => document,
            None => {
                return None;
            },
        };
        let at = offset_from_position(document.file.content.as_str(), line, column);
        let end = if at < usize::MAX {
            at + 1
        } else {
            at
        };
        Some(Location { file: document.file.id, start: at, end })
    }
}

/// For every document that the editor has open, the overrides built next
/// hold an entry under its name; the entry is the current content of the
/// document unless a document further on has the same name.
pub proof fn lemma_overrides_include(vfs: Vfs, at: int)
    requires
        0 <= at < vfs.entries().len(),
    ensures
        has_key(
            vfs.overrides(),
            override_name(vfs.root().path_view(), vfs.entries()[at].1.uri.path_view()),
        ),
        (forall|j: int|
            at < j < vfs.entries().len() ==> override_name(
                vfs.root().path_view(),
                (#[trigger] vfs.entries()[j]).1.uri.path_view(),
            ) != override_name(vfs.root().path_view(), vfs.entries()[at].1.uri.path_view()))
            ==> value_of(
            vfs.overrides(),
            override_name(vfs.root().path_view(), vfs.entries()[at].1.uri.path_view()),
        ) == Some(vfs.entries()[at].1.file.content@),
{
    lemma_overrides_hold(vfs.root().path_view(), vfs.entries(), vfs.entries().len(), at);
}

/// Changing a document to the same content twice is changing it once.
pub proof fn lemma_changed_twice(
    entries: Seq<(Seq<char>, MappedSourceFile)>,
    uri: Uri,
    content: String,
)
    ensures
        changed(changed(entries, uri, content), uri, content) == changed(entries, uri, content),
{
    lemma_document_index(entries, uri@, 0);
    lemma_key_index(entries, uri@, 0);
    let once = changed(entries, uri, content);
    lemma_document_index(once, uri@, 0);
    lemma_key_index(once, uri@, 0);
    let at = document_index(entries, uri@, 0);
    if at < entries.len() {
        let document = MappedSourceFile {
            uri,
            file: SourceFile {
                id: entries[at].1.file.id,
                name: entries[at].1.file.name,
                content,
                package: entries[at].1.file.package,
            },
        };
        let key_at = key_index(entries, uri@, 0);
        if key_at < entries.len() {
            assert(once[key_at] == (uri@, document));
        } else {
            assert(once[entries.len() as int] == (uri@, document));
        }
        let again = document_index(once, uri@, 0);
        assert(again < once.len());
        assert(again <= at) by {
            assert(once[at].1.uri@ == uri@);
        }
        if again < at {
            if key_at == again {
                assert(once[again].1 == document);
            } else {
                assert(once[again] == entries[again]);
            }
        }
        assert(once[again].1.file.id == entries[at].1.file.id);
        assert(once[again].1.file.name == entries[at].1.file.name);
        assert(once[again].1.file.package == entries[at].1.file.package);
        lemma_put_twice(entries, uri@, document);
    }
}

} // verus!
