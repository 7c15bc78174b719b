//! The session of a logged-in player.

use crate::repository::RepositoryItem;
use vstd::prelude::*;

verus! {

/// A session: the player, the token that stands for it and the instant, in
/// milliseconds, at which it expires.
#[derive(Debug)]
pub struct Session {
    pub user_id: i64,
    pub session_token: String,
    pub expires_in: i64,
}

impl RepositoryItem for Session {
    fn masked_columns(_is_admin: bool) -> (columns: Vec<String>)
        ensures
            columns@.len() == 0,
    {
        Vec::new()
    }

    fn saved_columns() -> (columns: Vec<String>)
        ensures
            columns.deep_view() == seq!["user_id"@, "session_token"@, "expires_in"@],
    {
        let columns = vec![
            "user_id".to_string(),
            "session_token".to_string(),
            "expires_in".to_string(),
        ];
        assert(columns.deep_view() =~= seq!["user_id"@, "session_token"@, "expires_in"@]);
        columns
    }

    fn all_columns() -> (columns: Vec<String>)
        ensures
            columns.deep_view() == seq!["id"@, "user_id"@, "session_token"@, "expires_in"@],
    {
        let columns = vec![
            "id".to_string(),
            "user_id".to_string(),
            "session_token".to_string(),
            "expires_in".to_string(),
        ];
        assert(columns.deep_view() =~= seq!["id"@, "user_id"@, "session_token"@, "expires_in"@]);
        columns
    }

    fn table_name() -> (name: String)
        ensures
            name@ == "sessions"@,
    {
        "sessions".to_string()
    }
}

} // verus!
