//! Telling a broken connection from other failures.

use crate::text::{contains, has_substring};
use vstd::prelude::*;

verus! {

/// A failure counts as a connection failure when its description mentions
/// `connection` or `timeout`, in lower case.
pub open spec fn connection_like(description: Seq<char>) -> bool {
    has_substring(description, "connection"@) || has_substring(description, "timeout"@)
}

/// Whether a failure with this description calls for a new session.
pub fn is_connection_like(description: &str) -> (b: bool)
    ensures
        b == connection_like(description@),
{
    contains(description, "connection") || contains(description, "timeout")
}

} // verus!
