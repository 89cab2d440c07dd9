//! The requests that the server answers.

use crate::protocol::ErrorCode;
use crate::protocol::RequestId;
use crate::protocol::Response;
use crate::protocol::ResponseBody;
use crate::protocol::Step;
use crate::state::document_index;
use crate::state::place_of;
use crate::state::State;
use crate::symbols::hover::hover_content;
use crate::symbols::hover::hover_content_of;
use crate::symbols::hover::HoverFacts;
use crate::symbols::lookup::answers;
use crate::symbols::lookup::SymbolEntry;
use crate::uri::Uri;
use vstd::prelude::*;
use vstd::string::StringExecFns;

verus! {

/// The answer that a request succeeded, with `value` to show.
pub fn ok(id: RequestId, value: String) -> (r: Response)
    ensures
        r == (Response { id, body: ResponseBody::Hover { value } }),
{
    Response { id, body: ResponseBody::Hover { value } }
}

/// The answer that a request failed.
pub fn err(id: RequestId, code: ErrorCode, message: &str) -> (r: Response)
    ensures
        r.id == id,
        r.body matches ResponseBody::Error { code: c, message: m } && c == code && m@ == message@,
{
    Response { id, body: ResponseBody::Error { code, message: message.to_owned() } }
}

/// What a hover request at `line` and `character` of the document `uri`
/// leads to: a refusal where the document is not held, else the question
/// about the symbol that the index finds there.
pub open spec fn hovers(
    state: State,
    id: RequestId,
    uri: Uri,
    line: u32,
    character: u32,
    step: Step,
) -> bool {
    let at = document_index(state.vfs.entries(), uri@, 0);
    if at == state.vfs.entries().len() {
        step matches Step::Reply(response) && response.id == id && (
        response.body matches ResponseBody::Error { code, message } && code
            == ErrorCode::InvalidParams && message@ == "document not available"@)
    } else {
        let place = place_of(state.vfs.entries()[at].1, line as nat, character as nat);
        step matches Step::Hover { id: asked, location, symbol } && asked == id && location == place
            && match symbol {
            Some(entry) => exists|k: int|
                answers(state.checked.symbols.entries(), place, k) && entry@
                    == state.checked.symbols.entries()[k]@,
            None => forall|k: int|
                0 <= k < state.checked.symbols.entries().len() ==> !(
                #[trigger] state.checked.symbols.entries()[k]).location.holds(
                    place.file,
                    place.start,
                ),
        }
    }
}

/// The client asks what is at a position of a document.
///
/// Where the document is not held, the request is refused. Otherwise the
/// tightest symbol around the position is handed out, for the type context
/// to be asked about; where there is none, nothing will be shown.
pub fn on_hover(state: &State, id: RequestId, uri: &Uri, line: u32, character: u32) -> (step: Step)
    ensures
        hovers(*state, id, *uri, line, character, step),
{
    let location = match state.location_of(uri, line as usize, character as usize) {
        Some(location) => location,
        None => {
            return Step::Reply(err(id, ErrorCode::InvalidParams, "document not available"));
        },
    };
    let symbol = match state.checked.symbols.lookup_position(location) {
        Some(entry) => Some(entry.duplicate()),
        None => None,
    };
    Step::Hover { id, location, symbol }
}

/// Answers a hover request with what the type context made of the symbol:
/// the content shown for the facts it has, or the words of its failure.
pub fn hover_reply(id: RequestId, symbol: Option<&SymbolEntry>, facts: Result<HoverFacts, String>) -> (r:
    Response)
    ensures
        r.id == id,
        match facts {
            Ok(facts) => r.body matches ResponseBody::Hover { value } && value@ == hover_content(
                symbol,
                facts,
            ),
            Err(message) => r.body matches ResponseBody::Error { code, message: words } && code
                == ErrorCode::RequestFailed && words@ == "could not retrieve content: "@
                + message@,
        },
{
    match facts {
        Ok(facts) => ok(id, hover_content_of(symbol, &facts)),
        Err(message) => {
            let words = String::from_str("could not retrieve content: ").concat(message.as_str());
            err(id, ErrorCode::RequestFailed, words.as_str())
        },
    }
}

} // verus!
