//! Mail: the credentials of the relay and the text of what is sent.

use crate::repository::RepositoryItem;
use vstd::prelude::*;

verus! {

/// The credentials under which mail is handed to the relay.
#[derive(Debug, Clone)]
pub struct EmailRepository {
    smtp_username: String,
    smtp_token: String,
    smtp_domain: String,
}

/// The state of the mailer.
#[derive(Clone, Copy, Debug, PartialEq, Eq, Structural)]
pub enum MailerStatus {
    Idle,
    Error,
}

/// The text of the mail that carries a login link.
pub open spec fn auth_link_text(email: Seq<char>, token: Seq<char>) -> Seq<char> {
    "Your auth link is: https://dross-manager.shuttleapp.rs/api/auth/player/"@ + email + "/"@
        + token
}

impl EmailRepository {
    /// The user name at the relay.
    pub closed spec fn user(&self) -> Seq<char> {
        self.smtp_username@
    }

    /// The token that authenticates the user at the relay.
    pub closed spec fn secret(&self) -> Seq<char> {
        self.smtp_token@
    }

    /// The domain that mail is sent for.
    pub closed spec fn domain(&self) -> Seq<char> {
        self.smtp_domain@
    }

    pub fn new(smtp_username: String, smtp_token: String, smtp_domain: String) -> (repository: Self)
        ensures
            repository.user() == smtp_username@,
            repository.secret() == smtp_token@,
            repository.domain() == smtp_domain@,
    {
        EmailRepository { smtp_username, smtp_token, smtp_domain }
    }

    /// The user name at the relay.
    pub fn smtp_username(&self) -> (name: &str)
        ensures
            name@ == self.user(),
    {
        self.smtp_username.as_str()
    }

    /// The token that authenticates the user at the relay.
    pub fn smtp_token(&self) -> (token: &str)
        ensures
            token@ == self.secret(),
    {
        self.smtp_token.as_str()
    }

    /// The domain that mail is sent for.
    pub fn smtp_domain(&self) -> (domain: &str)
        ensures
            domain@ == self.domain(),
    {
        self.smtp_domain.as_str()
    }

    /// The subject of the mail that carries a login link.
    pub fn auth_token_subject() -> (subject: String)
        ensures
            subject@ == "Fe-Vault Login Token"@,
    {
        "Fe-Vault Login Token".to_string()
    }

    /// The text of the mail that carries the login link of a player.
    pub fn auth_token_message(email: &str, token: &str) -> (message: String)
        ensures
            message@ == auth_link_text(email@, token@),
    {
        let mut message =
            "Your auth link is: https://dross-manager.shuttleapp.rs/api/auth/player/".to_string();
        message.append(email);
        message.append("/");
        message.append(token);
        message
    }
}

impl RepositoryItem for MailerStatus {
    fn masked_columns(_is_admin: bool) -> (columns: Vec<String>)
        ensures
            columns@.len() == 0,
    {
        Vec::new()
    }

    fn saved_columns() -> (columns: Vec<String>)
        ensures
            columns@.len() == 0,
    {
        Vec::new()
    }

    /// The mailer keeps no table of its own.
    fn all_columns() -> (columns: Vec<String>)
        ensures
            columns@.len() == 0,
    {
        Vec::new()
    }

    fn table_name() -> (name: String)
        ensures
            name@ == "email_manager"@,
    {
        "email_manager".to_string()
    }
}

} // verus!
