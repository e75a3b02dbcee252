//! Request payload models.

use vstd::prelude::*;

verus! {

/// The credential pair sent to the login endpoint.
#[derive(Clone, Debug, PartialEq, Eq)]
pub struct Login {
    /// Login username.
    pub alias: String,

    /// Login password.
    pub pass: String,
}

} // verus!
