//! A server that keeps the text of every open document and checks the
//! workspace on every change, without an index of symbols.

use crate::diagnostics::drain_diagnostics;
use crate::diagnostics::drained;
use crate::diagnostics::files_after;
use crate::diagnostics::publish_views;
use crate::diagnostics::PublishDiagnostics;
use crate::diagnostics::UriSet;
use crate::handlers::request::err;
use crate::listen::complain;
use crate::listen::complaint;
use crate::listen::fails_with;
use crate::listen::refuses_method;
use crate::paths::strip_prefix;
use crate::protocol::did_change_method;
use crate::protocol::did_close_method;
use crate::protocol::did_open_method;
use crate::protocol::did_save_method;
use crate::protocol::is_method;
use crate::protocol::shutdown_method;
use crate::protocol::ErrorCode;
use crate::protocol::Message;
use crate::protocol::Notification;
use crate::protocol::Params;
use crate::protocol::Request;
use crate::protocol::Response;
use crate::protocol::ResponseBody;
use crate::protocol::Step;
use crate::state::name_override;
use crate::state::override_name;
use crate::state::put;
use crate::state::texts_insert;
use crate::state::texts_new;
use crate::state::texts_of;
use crate::state::CheckedPackageGraph;
use crate::state::CompileOutcome;
use crate::state::CompileRequest;
use crate::uri::ensure_trailing_slash;
use crate::uri::ends_with_slash;
use crate::uri::reads_as_uri;
use crate::uri::Uri;
use indexmap::IndexMap;
use vstd::prelude::*;
use vstd::string::StringExecFns;

verus! {

/// An open document: its URI and its text.
#[derive(Debug)]
pub struct OpenDocument {
    pub uri: Uri,
    pub text: String,
}

/// The position of the first document of `sources` with the URI `uri`,
/// counted from `from`; the length of `sources` where there is none.
pub open spec fn open_index(sources: Seq<OpenDocument>, uri: Seq<char>, from: int) -> int
    decreases sources.len() - from,
{
    if from < 0 || from >= sources.len() {
        sources.len() as int
    } else if sources[from].uri@ == uri {
        from
    } else {
        open_index(sources, uri, from + 1)
    }
}

/// `sources` with the text `text` for `uri`: in place of the document of
/// that URI, or as the last document.
pub open spec fn with_text(sources: Seq<OpenDocument>, uri: Uri, text: String) -> Seq<OpenDocument> {
    let at = open_index(sources, uri@, 0);
    if at < sources.len() {
        sources.update(at, OpenDocument { uri, text })
    } else {
        sources.push(OpenDocument { uri, text })
    }
}

/// `sources` without the first document of `uri`.
pub open spec fn without(sources: Seq<OpenDocument>, uri: Seq<char>) -> Seq<OpenDocument> {
    let at = open_index(sources, uri, 0);
    if at < sources.len() {
        sources.remove(at)
    } else {
        sources
    }
}

/// The overrides that the first `count` documents of `sources` give: the
/// text of each under its [`override_name`].
pub open spec fn source_overrides(root: Seq<char>, sources: Seq<OpenDocument>, count: nat) -> Seq<
    (Seq<char>, Seq<char>),
>
    decreases count,
{
    if count == 0 || count > sources.len() {
        Seq::empty()
    } else {
        put(
            source_overrides(root, sources, (count - 1) as nat),
            override_name(root, sources[count - 1].uri.path_view()),
            sources[count - 1].text@,
        )
    }
}

/// The first folder of `folders`, with a slash behind it; nothing where
/// there is no folder, or where the folder with the slash is no URI.
pub open spec fn root_of(folders: Option<Vec<Uri>>) -> Option<Seq<char>> {
    match folders {
        Some(folders) => if folders@.len() == 0 {
            None
        } else if ends_with_slash(folders@[0].path_bytes()) {
            Some(folders@[0]@)
        } else if reads_as_uri(folders@[0]@ + "/"@) {
            Some(folders@[0]@ + "/"@)
        } else {
            None
        },
        None => None,
    }
}

/// The first folder of the workspace, made to end with a slash.
pub fn workspace_root_of(folders: Option<Vec<Uri>>) -> (r: Option<Uri>)
    ensures
        match r {
            Some(root) => root_of(folders) == Some(root@) && root.valid(),
            None => root_of(folders).is_none(),
        },
{
    match folders {
        Some(mut folders) => {
            if folders.len() == 0 {
                None
            } else {
                let first = folders.remove(0);
                ensure_trailing_slash(first)
            }
        },
        None => None,
    }
}

/// The state of a server that holds the text of the open documents and
/// nothing else of the workspace.
pub struct Backend {
    /// The URL of the workspace root, where the Arcfile should be located.
    workspace_root: Option<Uri>,
    checked_graph: Option<CheckedPackageGraph>,
    /// The open documents, each with its content.
    sources: Vec<OpenDocument>,
    error_files_prev: UriSet,
    error_files_curr: UriSet,
}

impl Backend {
    /// The URI of the workspace root, where the client named one.
    pub closed spec fn root(&self) -> Option<Uri> {
        self.workspace_root
    }

    /// The open documents, in the order in which they were opened.
    pub closed spec fn documents(&self) -> Seq<OpenDocument> {
        self.sources@
    }

    /// The last graph that checked.
    pub closed spec fn graph(&self) -> Option<CheckedPackageGraph> {
        self.checked_graph
    }

    /// The files that had diagnostics after the check before the last.
    pub closed spec fn files_before(&self) -> Seq<Seq<char>> {
        self.error_files_prev@
    }

    /// The files that had diagnostics after the last check.
    pub closed spec fn files_now(&self) -> Seq<Seq<char>> {
        self.error_files_curr@
    }

    /// Initializes a new [`Backend`] instance with the workspace folders
    /// that the client named. The first folder is the root of the workspace.
    pub fn initialize(workspace_folders: Option<Vec<Uri>>) -> (backend: Backend)
        ensures
            match backend.root() {
                Some(root) => root_of(workspace_folders) == Some(root@) && root.valid(),
                None => root_of(workspace_folders).is_none(),
            },
            backend.documents().len() == 0,
            backend.graph().is_none(),
            backend.files_before().len() == 0,
            backend.files_now().len() == 0,
    {
        Backend {
            workspace_root: workspace_root_of(workspace_folders),
            checked_graph: None,
            sources: Vec::new(),
            error_files_prev: UriSet::new(),
            error_files_curr: UriSet::new(),
        }
    }

    fn find(&self, uri: &Uri) -> (at: usize)
        ensures
            at == open_index(self.documents(), uri@, 0),
            at <= self.documents().len(),
    {
        let mut i: usize = 0;
        while i < self.sources.len()
            invariant
                0 <= i <= self.sources@.len(),
                open_index(self.sources@, uri@, 0) == open_index(self.sources@, uri@, i as int),
            decreases self.sources@.len() - i,
        {
            if self.sources[i].uri.same(uri) {
                return i;
            }
            i = i + 1;
        }
        i
    }

    fn insert(&mut self, uri: Uri, text: String)
        ensures
            final(self).documents() == with_text(old(self).documents(), uri, text),
            final(self).root() == old(self).root(),
            final(self).graph() == old(self).graph(),
            final(self).files_before() == old(self).files_before(),
            final(self).files_now() == old(self).files_now(),
    {
        let at = self.find(&uri);
        if at < self.sources.len() {
            self.sources[at] = OpenDocument { uri, text };
        } else {
            self.sources.push(OpenDocument { uri, text });
        }
    }

    fn remove(&mut self, uri: &Uri)
        ensures
            final(self).documents() == without(old(self).documents(), uri@),
            final(self).root() == old(self).root(),
            final(self).graph() == old(self).graph(),
            final(self).files_before() == old(self).files_before(),
            final(self).files_now() == old(self).files_now(),
    {
        let at = self.find(uri);
        if at < self.sources.len() {
            self.sources.remove(at);
        }
    }

    /// Builds the overrides of source files which we currently have in-memory
    /// in the language server. Without a workspace root there are none.
    pub fn build_source_overrides(&self) -> (r: IndexMap<String, String>)
        ensures
            texts_of(r) == match self.root() {
                Some(root) => source_overrides(
                    root.path_view(),
                    self.documents(),
                    self.documents().len(),
                ),
                None => Seq::empty(),
            },
    {
        let mut overrides = texts_new();
        let root = match &self.workspace_root {
            Some(root) => root,
            None => {
                return overrides;
            },
        };
        let mut i: usize = 0;
        while i < self.sources.len()
            invariant
                0 <= i <= self.sources@.len(),
                texts_of(overrides) == source_overrides(root.path_view(), self.sources@, i as nat),
            decreases self.sources@.len() - i,
        {
            let path = self.sources[i].uri.path();
            let name = name_override(path, strip_prefix(path, root.path()));
            texts_insert(&mut overrides, name, self.sources[i].text.clone());
            i = i + 1;
        }
        overrides
    }

    /// What the compiler is to check next; nothing where the workspace has
    /// no root.
    pub fn compile_request(&self) -> (r: Option<CompileRequest>)
        ensures
            match (r, self.root()) {
                (Some(request), Some(root)) => request.root@ == root@ && texts_of(
                    request.source_overrides,
                ) == source_overrides(root.path_view(), self.documents(), self.documents().len()),
                (None, None) => true,
                _ => false,
            },
    {
        match &self.workspace_root {
            Some(root) => Some(
                CompileRequest {
                    root: root.as_str().to_owned(),
                    source_overrides: self.build_source_overrides(),
                },
            ),
            None => None,
        }
    }

    /// Takes in how a check of the workspace ended, and hands back what is
    /// to be sent to the client. The graph of the check takes the place of
    /// the last, also where the check gave none.
    pub fn check_package_root(&mut self, outcome: CompileOutcome) -> (r: Vec<PublishDiagnostics>)
        requires
            old(self).root().is_some(),
        ensures
            final(self).root() == old(self).root(),
            final(self).documents() == old(self).documents(),
            final(self).graph() == outcome.graph,
            final(self).files_before() == old(self).files_now(),
            final(self).files_now() == files_after(
                old(self).root().unwrap()@,
                Seq::empty(),
                outcome.diagnostics@,
                0,
            ),
            publish_views(r@) == drained(
                old(self).root().unwrap()@,
                old(self).files_now(),
                Seq::empty(),
                outcome.diagnostics@,
            ),
    {
        let mut fresh = UriSet::new();
        core::mem::swap(&mut self.error_files_curr, &mut fresh);
        self.error_files_prev = fresh;
        self.checked_graph = outcome.graph;
        match &self.workspace_root {
            Some(root) => drain_diagnostics(
                root,
                &self.error_files_prev,
                &mut self.error_files_curr,
                &outcome.diagnostics,
            ),
            None => Vec::new(),
        }
    }

    /// Whether only the documents differ between the two.
    pub open spec fn documents_only(before: Backend, after: Backend) -> bool {
        &&& after.root() == before.root()
        &&& after.graph() == before.graph()
        &&& after.files_before() == before.files_before()
        &&& after.files_now() == before.files_now()
    }

    /// What is to be done after the documents changed: check the workspace,
    /// or give up where it has no root.
    pub open spec fn checks(backend: Backend, step: Step) -> bool {
        if backend.root().is_some() {
            step is Compile
        } else {
            fails_with(step, "Lume packages without a root Arcfile are not currently supported"@)
        }
    }

    /// Whether the documents became `documents` and the workspace is to be
    /// checked.
    pub open spec fn stores(
        before: Backend,
        documents: Seq<OpenDocument>,
        after: Backend,
        step: Step,
    ) -> bool {
        &&& Self::documents_only(before, after)
        &&& after.documents() == documents
        &&& Self::checks(before, step)
    }

    /// What a notification leads to. One of a method that the server does
    /// not know is passed over.
    pub open spec fn notifies(
        before: Backend,
        notification: Notification,
        after: Backend,
        step: Step,
    ) -> bool {
        let method = notification.method@;
        if method == did_open_method() {
            match notification.params {
                Params::DidOpen { uri, text } => Self::stores(
                    before,
                    with_text(before.documents(), uri, text),
                    after,
                    step,
                ),
                _ => after == before && fails_with(step, complaint(notification.params)),
            }
        } else if method == did_close_method() {
            match notification.params {
                Params::DidClose { uri } => Self::stores(
                    before,
                    without(before.documents(), uri@),
                    after,
                    step,
                ),
                _ => after == before && fails_with(step, complaint(notification.params)),
            }
        } else if method == did_save_method() {
            match notification.params {
                Params::DidSave { uri, text: Some(text) } => Self::stores(
                    before,
                    with_text(before.documents(), uri, text),
                    after,
                    step,
                ),
                Params::DidSave { uri, text: None } => after == before && fails_with(
                    step,
                    "document saved without its text"@,
                ),
                _ => after == before && fails_with(step, complaint(notification.params)),
            }
        } else if method == did_change_method() {
            match notification.params {
                Params::DidChange { uri, content_changes } => if content_changes@.len() > 0 {
                    Self::stores(
                        before,
                        with_text(before.documents(), uri, content_changes@[0]),
                        after,
                        step,
                    )
                } else {
                    after == before && fails_with(step, "document changed without a change"@)
                },
                _ => after == before && fails_with(step, complaint(notification.params)),
            }
        } else {
            after == before && step is Ignore
        }
    }

    /// What a message leads to: a request to shut down ends the loop, any
    /// other request is refused, a notification is handled, a response is
    /// dropped.
    pub open spec fn listens(before: Backend, message: Message, after: Backend, step: Step) -> bool {
        match message {
            Message::Request(request) => after == before && if request.method@
                == shutdown_method() {
                step == Step::Shutdown(Response { id: request.id, body: ResponseBody::Null })
            } else {
                refuses_method(request.id, step)
            },
            Message::Notification(notification) => Self::notifies(
                before,
                notification,
                after,
                step,
            ),
            Message::Response => after == before && step is Ignore,
        }
    }

    /// Takes in the next message of the client and says what is to be done.
    pub fn listen(&mut self, message: Message) -> (step: Step)
        ensures
            Self::listens(*old(self), message, *final(self), step),
    {
        match message {
            Message::Request(request) => {
                if is_method(&request.method, "shutdown") {
                    Step::Shutdown(Response { id: request.id, body: ResponseBody::Null })
                } else {
                    self.handle_request(request)
                }
            },
            Message::Notification(notification) => self.handle_notification(notification),
            Message::Response => Step::Ignore,
        }
    }

    /// Refuses the request: this server answers none.
    pub fn handle_request(&self, request: Request) -> (step: Step)
        ensures
            refuses_method(request.id, step),
    {
        Step::Reply(err(request.id, ErrorCode::MethodNotFound, "unhandled method"))
    }

    fn check(&self) -> (step: Step)
        ensures
            Self::checks(*self, step),
    {
        match &self.workspace_root {
            Some(_) => Step::Compile,
            None => Step::Failed(
                String::from_str("Lume packages without a root Arcfile are not currently supported"),
            ),
        }
    }

    /// Handles a notification: a document that was opened, saved or changed
    /// is held with its new text, one that was closed is let go of, and the
    /// workspace is to be checked.
    pub fn handle_notification(&mut self, notification: Notification) -> (step: Step)
        ensures
            Self::notifies(*old(self), notification, *final(self), step),
    {
        if is_method(&notification.method, "textDocument/didOpen") {
            match notification.params {
                Params::DidOpen { uri, text } => {
                    self.insert(uri, text);
                    self.check()
                },
                params => complain(params),
            }
        } else if is_method(&notification.method, "textDocument/didClose") {
            match notification.params {
                Params::DidClose { uri } => {
                    self.remove(&uri);
                    self.check()
                },
                params => complain(params),
            }
        } else if is_method(&notification.method, "textDocument/didSave") {
            match notification.params {
                Params::DidSave { uri, text: Some(text) } => {
                    self.insert(uri, text);
                    self.check()
                },
                Params::DidSave { uri, text: None } => Step::Failed(
                    String::from_str("document saved without its text"),
                ),
                params => complain(params),
            }
        } else if is_method(&notification.method, "textDocument/didChange") {
            match notification.params {
                Params::DidChange { uri, content_changes } => {
                    if content_changes.len() > 0 {
                        self.insert(uri, content_changes[0].clone());
                        self.check()
                    } else {
                        Step::Failed(String::from_str("document changed without a change"))
                    }
                },
                params => complain(params),
            }
        } else {
            Step::Ignore
        }
    }
}

} // verus!
