//! What stands between a request and its handler: the session store and
//! the check of access tokens.

pub mod auth;
pub mod session;
