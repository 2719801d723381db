//! Operation identifiers.

use vstd::prelude::*;

use crate::id::uuid::{hyphenated_uuid_text, is_v4_bits, is_v4_uuid_text, new_uuid_v4_text};
use crate::proto::workspace::Workspace;
use crate::text::concat4;

verus! {

/// A fresh operation identifier for a workspace: `workspace/{workspace_id}/operations/{uuid}`
/// with a random UUID in hyphenated form.
pub fn generate_for_workspace(w: &Workspace) -> (r: String)
    ensures
        exists|bits: u128| is_v4_bits(bits) && r@ == "workspace/"@ + w.workspace_id@ + "/operations/"@ + hyphenated_uuid_text(bits),
        exists|u: Seq<char>| is_v4_uuid_text(u) && r@ == "workspace/"@ + w.workspace_id@ + "/operations/"@ + u,
{
    let u = new_uuid_v4_text();
    concat4("workspace/", w.workspace_id.as_str(), "/operations/", u.as_str())
}

} // verus!
