//! The semantic index of a language server for the Lume language.
//!
//! The crate keeps an in-memory view of the workspace's sources in step with
//! the editor, walks the checked high-level representation of every package
//! into a symbol table that can be queried by position, routes compiler
//! diagnostics to the files they belong to, and decides what each message of
//! the client leads to. Reading and writing messages and running the
//! compiler are left to the program around it.

pub mod backend;
pub mod diagnostics;
pub mod handlers;
pub mod hir;
pub mod listen;
pub mod paths;
pub mod protocol;
pub mod span;
pub mod state;
pub mod symbols;
pub mod text;
pub mod uri;

use crate::backend::root_of;
use crate::backend::workspace_root_of;
use crate::state::State;
use crate::uri::Uri;
use vstd::prelude::*;

pub use crate::protocol::capabilities;

verus! {

/// Why the server could not start.
#[derive(Clone, Copy, Debug, PartialEq, Eq, Hash, Structural)]
pub enum InitializeError {
    /// The client named no workspace folder that can serve as the root.
    NoWorkspaceRoot,
}

impl InitializeError {
    pub open spec fn words(self) -> Seq<char> {
        "no workspace root defined"@
    }

    /// The words that the failure is reported with.
    pub fn message(&self) -> (r: &'static str)
        ensures
            r@ == self.words(),
    {
        "no workspace root defined"
    }
}

/// Starts a server for the workspace that the client named: its first
/// folder, made to end with a slash, is the root. Nothing is open and
/// nothing was checked yet; the first thing to do is to check the workspace.
/// Fails where the client named no folder.
pub fn initialize(workspace_folders: Option<Vec<Uri>>) -> (r: Result<State, InitializeError>)
    ensures
        match r {
            Ok(state) => root_of(workspace_folders) == Some(state.vfs.root()@)
                && state.vfs.entries().len() == 0 && state.checked.graph.packages@.len() == 0
                && state.checked.symbols.entries().len() == 0 && state.error_files_prev@.len()
                == 0 && state.error_files_curr@.len() == 0,
            Err(error) => root_of(workspace_folders).is_none() && error
                == InitializeError::NoWorkspaceRoot,
        },
{
    match workspace_root_of(workspace_folders) {
        Some(root) => Ok(State::new(root)),
        None => Err(InitializeError::NoWorkspaceRoot),
    }
}

} // verus!
