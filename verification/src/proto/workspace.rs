//! Workspace messages.

use vstd::prelude::*;

verus! {

/// A workspace, as far as the library reads it.
#[derive(Debug)]
pub struct Workspace {
    pub workspace_id: String,
}

} // verus!
