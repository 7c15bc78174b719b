//! What the service is configured with.

use vstd::prelude::*;

verus! {

/// The pair of keys with which access tokens are signed and checked, each
/// as the text the configuration holds.
#[derive(Debug, Clone)]
pub struct JWTKeyPair {
    pub public_key: String,
    pub private_key: String,
}

} // verus!
