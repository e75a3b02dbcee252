//! Response payload models.

use vstd::prelude::*;

use crate::models::User;

verus! {

/// The payload of a successful login: the issued token and the user it
/// belongs to.
#[derive(Clone, Debug, PartialEq, Eq)]
pub struct Login {
    /// The issued access token.
    pub access_token: String,

    /// The authenticated user.
    pub user: User,
}

/// The envelope the server wraps every successful JSON payload in.
#[derive(Debug)]
pub struct ResponseModel {
    /// The status code the server reports inside the body.
    pub code: u16,

    /// The payload, still undecoded.
    pub data: serde_json::Value,
}

} // verus!
