//! The dispatcher: what each message of the client leads to.
//!
//! Messages are taken in one at a time, in the order in which they arrive.
//! Each is handled to the end before the next is read.

use crate::handlers::notification::change_document;
use crate::handlers::notification::changes;
use crate::handlers::notification::close_document;
use crate::handlers::notification::closes;
use crate::handlers::notification::edits;
use crate::handlers::notification::open_document;
use crate::handlers::notification::opens;
use crate::handlers::notification::save_document;
use crate::handlers::request::err;
use crate::handlers::request::hovers;
use crate::handlers::request::on_hover;
use crate::protocol::did_change_method;
use crate::protocol::did_close_method;
use crate::protocol::did_open_method;
use crate::protocol::did_save_method;
use crate::protocol::hover_method;
use crate::protocol::is_method;
use crate::protocol::shutdown_method;
use crate::protocol::ErrorCode;
use crate::protocol::Message;
use crate::protocol::Notification;
use crate::protocol::Params;
use crate::protocol::Request;
use crate::protocol::RequestId;
use crate::protocol::Response;
use crate::protocol::ResponseBody;
use crate::protocol::Step;
use crate::state::State;
use vstd::prelude::*;
use vstd::string::StringExecFns;

verus! {

/// Whether `step` refuses the request `id` because its method is not known.
pub open spec fn refuses_method(id: RequestId, step: Step) -> bool {
    step matches Step::Reply(response) && response.id == id && (
    response.body matches ResponseBody::Error { code, message } && code
        == ErrorCode::MethodNotFound && message@ == "unhandled method"@)
}

/// Whether `step` gives up on a message with the words `words`.
pub open spec fn fails_with(step: Step, words: Seq<char>) -> bool {
    step matches Step::Failed(said) && said@ == words
}

/// What the parameters that a message came with fail with, where they are
/// not those that its method asks for: the words of the decoder where it
/// failed, else a fixed complaint.
pub open spec fn complaint(params: Params) -> Seq<char> {
    match params {
        Params::Malformed(words) => words@,
        _ => "unexpected parameters"@,
    }
}

/// What a request other than the one to shut down leads to.
pub open spec fn requests(state: State, request: Request, step: Step) -> bool {
    if request.method@ == hover_method() {
        match request.params {
            Params::Hover { uri, line, character } => hovers(
                state,
                request.id,
                uri,
                line,
                character,
                step,
            ),
            _ => fails_with(step, complaint(request.params)),
        }
    } else {
        refuses_method(request.id, step)
    }
}

/// What a notification leads to. One of a method that the server does not
/// know is passed over.
pub open spec fn notifies(before: State, notification: Notification, after: State, step: Step) -> bool {
    let method = notification.method@;
    if method == did_open_method() {
        match notification.params {
            Params::DidOpen { uri, text } => opens(before, uri, text, after, step),
            _ => after == before && fails_with(step, complaint(notification.params)),
        }
    } else if method == did_close_method() {
        match notification.params {
            Params::DidClose { uri } => closes(before, uri, after, step),
            _ => after == before && fails_with(step, complaint(notification.params)),
        }
    } else if method == did_save_method() {
        match notification.params {
            Params::DidSave { uri, text: Some(text) } => changes(before, uri, text, after, step),
            Params::DidSave { uri, text: None } => after == before && fails_with(
                step,
                "document saved without its text"@,
            ),
            _ => after == before && fails_with(step, complaint(notification.params)),
        }
    } else if method == did_change_method() {
        match notification.params {
            Params::DidChange { uri, content_changes } => edits(
                before,
                uri,
                content_changes@,
                after,
                step,
            ),
            _ => after == before && fails_with(step, complaint(notification.params)),
        }
    } else {
        after == before && step is Ignore
    }
}

/// What a message leads to.
pub open spec fn listens(before: State, message: Message, after: State, step: Step) -> bool {
    match message {
        Message::Request(request) => after == before && if request.method@ == shutdown_method() {
            step == Step::Shutdown(Response { id: request.id, body: ResponseBody::Null })
        } else {
            requests(before, request, step)
        },
        Message::Notification(notification) => notifies(before, notification, after, step),
        Message::Response => after == before && step is Ignore,
    }
}

/// The words that parameters of the wrong kind fail with.
pub(crate) fn complain(params: Params) -> (step: Step)
    ensures
        fails_with(step, complaint(params)),
{
    match params {
        Params::Malformed(words) => Step::Failed(words),
        _ => Step::Failed(String::from_str("unexpected parameters")),
    }
}

impl State {
    /// Takes in the next message of the client and says what is to be done.
    ///
    /// A request to shut down is answered with success, and the loop is to
    /// be left. Any other request is answered as `handle_request` says, a
    /// notification is handled as `handle_notification` says, and a response
    /// is dropped.
    pub fn listen(&mut self, message: Message) -> (step: Step)
        ensures
            listens(*old(self), message, *final(self), step),
    {
        match message {
            Message::Request(request) => {
                if is_method(&request.method, "shutdown") {
                    Step::Shutdown(Response { id: request.id, body: ResponseBody::Null })
                } else {
                    self.handle_request(request)
                }
            },
            Message::Notification(notification) => self.handle_notification(notification),
            Message::Response => Step::Ignore,
        }
    }

    /// Answers a request: a hover request as `on_hover` says, any other with
    /// the refusal that its method is not known.
    pub fn handle_request(&self, request: Request) -> (step: Step)
        ensures
            requests(*self, request, step),
    {
        if is_method(&request.method, "textDocument/hover") {
            match request.params {
                Params::Hover { uri, line, character } => on_hover(
                    self,
                    request.id,
                    &uri,
                    line,
                    character,
                ),
                params => complain(params),
            }
        } else {
            Step::Reply(err(request.id, ErrorCode::MethodNotFound, "unhandled method"))
        }
    }

    /// Handles a notification: the four that keep the documents in step with
    /// the editor as their handlers say; any other is passed over.
    pub fn handle_notification(&mut self, notification: Notification) -> (step: Step)
        ensures
            notifies(*old(self), notification, *final(self), step),
    {
        if is_method(&notification.method, "textDocument/didOpen") {
            match notification.params {
                Params::DidOpen { uri, text } => open_document(self, uri, text),
                params => complain(params),
            }
        } else if is_method(&notification.method, "textDocument/didClose") {
            match notification.params {
                Params::DidClose { uri } => close_document(self, &uri),
                params => complain(params),
            }
        } else if is_method(&notification.method, "textDocument/didSave") {
            match notification.params {
                Params::DidSave { uri, text: Some(text) } => save_document(self, &uri, text),
                Params::DidSave { uri, text: None } => Step::Failed(
                    String::from_str("document saved without its text"),
                ),
                params => complain(params),
            }
        } else if is_method(&notification.method, "textDocument/didChange") {
            match notification.params {
                Params::DidChange { uri, content_changes } => change_document(
                    self,
                    &uri,
                    &content_changes,
                ),
                params => complain(params),
            }
        } else {
            Step::Ignore
        }
    }
}

} // verus!
