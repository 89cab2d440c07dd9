//! The notifications that keep the documents in step with the editor.

use crate::protocol::Step;
use crate::span::SourceFile;
use crate::state::changed;
use crate::state::has_key;
use crate::state::lemma_changed_twice;
use crate::state::lemma_put_then_take;
use crate::state::package_index;
use crate::state::put;
use crate::state::source_index;
use crate::state::swap_take;
use crate::state::MappedSourceFile;
use crate::state::State;
use crate::uri::reads_as_uri;
use crate::uri::Uri;
use vstd::prelude::*;
use vstd::string::StringExecFns;

verus! {

/// The document that opening `uri` with `text` holds: the source that the
/// compiler knows under the URI, with `text` as its content.
pub open spec fn opened(source: SourceFile, uri: Uri, text: String) -> MappedSourceFile {
    MappedSourceFile {
        uri,
        file: SourceFile {
            id: source.id,
            name: source.name,
            content: text,
            package: source.package,
        },
    }
}

/// Whether only the documents may differ between the two states.
pub open spec fn documents_only(before: State, after: State) -> bool {
    &&& after.checked == before.checked
    &&& after.error_files_prev == before.error_files_prev
    &&& after.error_files_curr == before.error_files_curr
    &&& after.vfs.root() == before.vfs.root()
    &&& before.vfs.well_formed() ==> after.vfs.well_formed()
}

/// What opening the document `uri` with the content `text` does.
pub open spec fn opens(before: State, uri: Uri, text: String, after: State, step: Step) -> bool {
    let packages = before.checked.graph.packages@;
    let at = package_index(packages, uri.path_view(), 0);
    &&& documents_only(before, after)
    &&& if at < packages.len() {
        &&& step is Compile
        &&& after.vfs.entries() == put(
            before.vfs.entries(),
            uri@,
            opened(
                packages[at].sources@[source_index(packages[at].sources@, uri.path_view(), 0)],
                uri,
                text,
            ),
        )
    } else {
        &&& after.vfs.entries() == before.vfs.entries()
        &&& if packages.len() == 0 {
            step == (Step::Discover { uri, text })
        } else {
            step is Ignore
        }
    }
}

/// What closing the document `uri` does.
pub open spec fn closes(before: State, uri: Uri, after: State, step: Step) -> bool {
    &&& documents_only(before, after)
    &&& step is Compile
    &&& after.vfs.entries() == swap_take(before.vfs.entries(), uri@)
}

/// What giving the document `uri` the content `text` does.
pub open spec fn changes(before: State, uri: Uri, text: String, after: State, step: Step) -> bool {
    &&& documents_only(before, after)
    &&& step is Compile
    &&& after.vfs.entries() == changed(before.vfs.entries(), uri, text)
}

/// The editor opened a document.
///
/// Where the last checked graph knows a source under the URI, the document
/// is held with the identity of that source, and the workspace is to be
/// checked. Where it knows none and holds no package at all, the root of
/// the workspace is to be looked for. Otherwise nothing changes.
pub fn open_document(state: &mut State, uri: Uri, text: String) -> (step: Step)
    ensures
        opens(*old(state), uri, text, *final(state), step),
{
    let file = match state.source_of_uri(&uri) {
        Some(source) => SourceFile {
            id: source.id,
            name: source.name.duplicate(),
            content: text,
            package: source.package,
        },
        None => {
            if state.checked.graph.packages.len() == 0 {
                return Step::Discover { uri, text };
            }
            return Step::Ignore;
        },
    };
    state.vfs.add_document(uri, file);
    Step::Compile
}

/// The editor closed a document: it is let go of, and the workspace is to
/// be checked.
pub fn close_document(state: &mut State, uri: &Uri) -> (step: Step)
    ensures
        closes(*old(state), *uri, *final(state), step),
{
    state.vfs.remove_document(uri);
    Step::Compile
}

/// The editor saved a document with the content `text`: the document takes
/// it, and the workspace is to be checked.
pub fn save_document(state: &mut State, uri: &Uri, text: String) -> (step: Step)
    ensures
        changes(*old(state), *uri, text, *final(state), step),
{
    state.vfs.change_document(uri, text);
    Step::Compile
}

/// What the changes `content_changes` to the document `uri` do. Documents
/// are sent in full, so the first change holds the whole content; without a
/// change nothing is done.
pub open spec fn edits(
    before: State,
    uri: Uri,
    content_changes: Seq<String>,
    after: State,
    step: Step,
) -> bool {
    if content_changes.len() > 0 {
        changes(before, uri, content_changes[0], after, step)
    } else {
        after == before && (step matches Step::Failed(words) && words@
            == "document changed without a change"@)
    }
}

/// The editor changed a document. Documents are sent in full, so the first
/// change holds the whole content: the document takes it, and the workspace
/// is to be checked.
pub fn change_document(state: &mut State, uri: &Uri, content_changes: &Vec<String>) -> (step: Step)
    ensures
        edits(*old(state), *uri, content_changes@, *final(state), step),
{
    if content_changes.len() == 0 {
        return Step::Failed(String::from_str("document changed without a change"));
    }
    let source = content_changes[0].clone();
    state.vfs.change_document(uri, source);
    Step::Compile
}

/// A directory that holds the Arcfile of a project was found above a
/// document: it becomes the root of the workspace, which is to be checked.
/// Nothing changes where the directory cannot be named by a URI.
pub fn adopt_workspace_root(state: &mut State, directory: &str) -> (step: Step)
    ensures
        final(state).checked == old(state).checked,
        final(state).error_files_prev == old(state).error_files_prev,
        final(state).error_files_curr == old(state).error_files_curr,
        final(state).vfs.entries() == old(state).vfs.entries(),
        if reads_as_uri("file://"@ + directory@) {
            step is Compile && final(state).vfs.root()@ == "file://"@ + directory@
        } else {
            step is Ignore && final(state).vfs.root() == old(state).vfs.root()
        },
{
    let text = String::from_str("file://").concat(directory);
    match Uri::parse(text.as_str()) {
        Some(root) => {
            state.vfs.set_workspace_root(root);
            Step::Compile
        },
        None => Step::Ignore,
    }
}

/// Opening a document that is not held and closing it again leaves the
/// documents, and with them the overrides that the compiler is given, as
/// they were.
pub proof fn lemma_open_then_close(
    before: State,
    uri: Uri,
    text: String,
    open: State,
    first: Step,
    closed: State,
    second: Step,
)
    requires
        !has_key(before.vfs.entries(), uri@),
        opens(before, uri, text, open, first),
        closes(open, uri, closed, second),
    ensures
        closed.vfs.entries() == before.vfs.entries(),
        closed.vfs.overrides() == before.vfs.overrides(),
        closed.checked == before.checked,
{
    let packages = before.checked.graph.packages@;
    let at = package_index(packages, uri.path_view(), 0);
    if at < packages.len() {
        let source = packages[at].sources@[source_index(packages[at].sources@, uri.path_view(), 0)];
        lemma_put_then_take(before.vfs.entries(), uri@, opened(source, uri, text));
    }
}

/// Changing a document to the same content twice leaves the documents as
/// changing it once does.
pub proof fn lemma_change_twice(
    before: State,
    uri: Uri,
    text: String,
    once: State,
    first: Step,
    twice: State,
    second: Step,
)
    requires
        changes(before, uri, text, once, first),
        changes(once, uri, text, twice, second),
    ensures
        twice.vfs.entries() == once.vfs.entries(),
        twice.vfs.overrides() == once.vfs.overrides(),
        twice.checked == once.checked,
        twice.error_files_prev == once.error_files_prev,
        twice.error_files_curr == once.error_files_curr,
        second == first,
{
    lemma_changed_twice(before.vfs.entries(), uri, text);
}

} // verus!
