//! The messages of the client and the answers of the server, as the
//! dispatcher reads and writes them.

use crate::span::Location;
use crate::symbols::lookup::SymbolEntry;
use crate::uri::Uri;
use vstd::prelude::*;

verus! {

/// The id that the client gave a request.
#[derive(Debug)]
pub enum RequestId {
    Number(i32),
    Text(String),
}

/// What each [`RequestId`] holds.
pub enum RequestIdView {
    Number(i32),
    Text(Seq<char>),
}

impl View for RequestId {
    type V = RequestIdView;

    open spec fn view(&self) -> RequestIdView {
        match *self {
            RequestId::Number(number) => RequestIdView::Number(number),
            RequestId::Text(text) => RequestIdView::Text(text@),
        }
    }
}

impl RequestId {
    pub fn duplicate(&self) -> (r: RequestId)
        ensures
            r == *self,
    {
        match self {
            RequestId::Number(number) => RequestId::Number(*number),
            RequestId::Text(text) => RequestId::Text(text.clone()),
        }
    }
}

impl Clone for RequestId {
    fn clone(&self) -> (r: Self)
        ensures
            r == *self,
    {
        self.duplicate()
    }
}

/// Why a request is refused.
#[derive(Clone, Copy, Debug, PartialEq, Eq, Hash, Structural)]
pub enum ErrorCode {
    MethodNotFound,
    InvalidParams,
    RequestFailed,
}

/// What a request is answered with.
#[derive(Debug)]
pub enum ResponseBody {
    /// Success, with nothing to say.
    Null,
    /// Success, with the content to show as Markdown.
    Hover { value: String },
    /// Failure.
    Error { code: ErrorCode, message: String },
}

/// The answer to the request of the same id.
#[derive(Debug)]
pub struct Response {
    pub id: RequestId,
    pub body: ResponseBody,
}

/// The parameters of a message, decoded as its method asks.
#[derive(Debug)]
pub enum Params {
    Hover { uri: Uri, line: u32, character: u32 },
    DidOpen { uri: Uri, text: String },
    DidClose { uri: Uri },
    DidSave { uri: Uri, text: Option<String> },
    DidChange { uri: Uri, content_changes: Vec<String> },
    /// The parameters could not be decoded; the words say why.
    Malformed(String),
    /// The method asks for no parameters that the server reads.
    Unread,
}

/// How the parameters of a method are to be decoded.
#[derive(Clone, Copy, Debug, PartialEq, Eq, Hash, Structural)]
pub enum ParamsKind {
    Hover,
    DidOpen,
    DidClose,
    DidSave,
    DidChange,
    Unread,
}

#[derive(Debug)]
pub struct Request {
    pub id: RequestId,
    pub method: String,
    pub params: Params,
}

#[derive(Debug)]
pub struct Notification {
    pub method: String,
    pub params: Params,
}

#[derive(Debug)]
pub enum Message {
    Request(Request),
    Notification(Notification),
    Response,
}

/// What is to be done once a message was taken in.
#[derive(Debug)]
pub enum Step {
    /// Send the response, then leave the loop.
    Shutdown(Response),
    /// Send the response.
    Reply(Response),
    /// Ask the type context about `symbol`, the entry under the cursor at
    /// `location`, and answer the request `id` with what is shown for it.
    Hover { id: RequestId, location: Location, symbol: Option<SymbolEntry> },
    /// Check the workspace and publish what the check gives.
    Compile,
    /// No package is known yet: look for the root of the workspace above
    /// the document.
    Discover { uri: Uri, text: String },
    /// The message could not be handled; the words say why.
    Failed(String),
    /// Nothing is to be done.
    Ignore,
}

pub open spec fn shutdown_method() -> Seq<char> {
    "shutdown"@
}

pub open spec fn hover_method() -> Seq<char> {
    "textDocument/hover"@
}

pub open spec fn did_open_method() -> Seq<char> {
    "textDocument/didOpen"@
}

pub open spec fn did_close_method() -> Seq<char> {
    "textDocument/didClose"@
}

pub open spec fn did_save_method() -> Seq<char> {
    "textDocument/didSave"@
}

pub open spec fn did_change_method() -> Seq<char> {
    "textDocument/didChange"@
}

/// Whether `method` is the method named `name`.
pub fn is_method(method: &String, name: &str) -> (r: bool)
    ensures
        r == (method@ == name@),
{
    let wanted = name.to_owned();
    *method == wanted
}

/// How the parameters of a request of the method `method` are read.
pub open spec fn request_kind(method: Seq<char>) -> ParamsKind {
    if method == hover_method() {
        ParamsKind::Hover
    } else {
        ParamsKind::Unread
    }
}

/// How the parameters of a notification of the method `method` are read.
pub open spec fn notification_kind(method: Seq<char>) -> ParamsKind {
    if method == did_open_method() {
        ParamsKind::DidOpen
    } else if method == did_close_method() {
        ParamsKind::DidClose
    } else if method == did_save_method() {
        ParamsKind::DidSave
    } else if method == did_change_method() {
        ParamsKind::DidChange
    } else {
        ParamsKind::Unread
    }
}

/// How the parameters of a request are to be decoded.
pub fn request_params(method: &String) -> (kind: ParamsKind)
    ensures
        kind == request_kind(method@),
{
    if is_method(method, "textDocument/hover") {
        ParamsKind::Hover
    } else {
        ParamsKind::Unread
    }
}

/// How the parameters of a notification are to be decoded.
pub fn notification_params(method: &String) -> (kind: ParamsKind)
    ensures
        kind == notification_kind(method@),
{
    if is_method(method, "textDocument/didOpen") {
        ParamsKind::DidOpen
    } else if is_method(method, "textDocument/didClose") {
        ParamsKind::DidClose
    } else if is_method(method, "textDocument/didSave") {
        ParamsKind::DidSave
    } else if is_method(method, "textDocument/didChange") {
        ParamsKind::DidChange
    } else {
        ParamsKind::Unread
    }
}

/// How documents are kept in step with the editor.
#[derive(Clone, Copy, Debug, PartialEq, Eq, Hash, Structural)]
pub enum TextDocumentSyncKind {
    Disabled,
    Full,
    Incremental,
}

/// What the server tells the client it can do.
#[derive(Clone, Copy, Debug, PartialEq, Eq, Hash, Structural)]
pub struct ServerCapabilities {
    pub hover_provider: bool,
    pub completion_resolve_provider: bool,
    pub open_close: bool,
    pub change: TextDocumentSyncKind,
    pub save_include_text: bool,
}

/// The capabilities of this server: hover; completion without resolving;
/// documents opened and closed, sent in full on every change, and sent with
/// their text when saved.
pub fn capabilities() -> (r: ServerCapabilities)
    ensures
        r == (ServerCapabilities {
            hover_provider: true,
            completion_resolve_provider: false,
            open_close: true,
            change: TextDocumentSyncKind::Full,
            save_include_text: true,
        }),
{
    ServerCapabilities {
        hover_provider: true,
        completion_resolve_provider: false,
        open_close: true,
        change: TextDocumentSyncKind::Full,
        save_include_text: true,
    }
}

} // verus!
