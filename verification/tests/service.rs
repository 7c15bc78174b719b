use dross_manager::email::{EmailRepository, MailerStatus};
use dross_manager::endpoints::{names_same_faery, Endpoint};
use dross_manager::middleware::auth::{
    access_token, bearer_token, JWTErrorResponse, TokenDetails,
};
use dross_manager::middleware::session::{is_valid_table_name, LibSqlStore, LibSqlStoreError};
use dross_manager::repository::{BodyRejection, RepositoryError, RepositoryItem, StorageFault};
use dross_manager::service::JWTKeyPair;
use dross_manager::session::Session;
use dross_manager::version::Version;

#[test]
fn email_repository_keeps_its_credentials() {
    let repository = EmailRepository::new(
        "postmaster".to_string(),
        "key-123".to_string(),
        "mail.example.com".to_string(),
    );
    assert_eq!(repository.smtp_username(), "postmaster");
    assert_eq!(repository.smtp_token(), "key-123");
    assert_eq!(repository.smtp_domain(), "mail.example.com");
}

#[test]
fn auth_mail_carries_the_link() {
    assert_eq!(EmailRepository::auth_token_subject(), "Fe-Vault Login Token");
    assert_eq!(
        EmailRepository::auth_token_message("me@example.com", "abc-token"),
        "Your auth link is: https://dross-manager.shuttleapp.rs/api/auth/player/me@example.com/abc-token"
    );
    assert_eq!(
        EmailRepository::auth_token_message("", ""),
        "Your auth link is: https://dross-manager.shuttleapp.rs/api/auth/player//"
    );
}

#[test]
fn mailer_has_no_columns() {
    assert!(MailerStatus::masked_columns(false).is_empty());
    assert!(MailerStatus::saved_columns().is_empty());
    assert!(MailerStatus::all_columns().is_empty());
    assert_eq!(MailerStatus::table_name(), "email_manager");
    assert_ne!(MailerStatus::Idle, MailerStatus::Error);
}

#[test]
fn session_columns() {
    assert!(Session::masked_columns(true).is_empty());
    assert_eq!(
        Session::saved_columns(),
        vec![
            "user_id".to_string(),
            "session_token".to_string(),
            "expires_in".to_string()
        ]
    );
    assert_eq!(
        Session::all_columns(),
        vec![
            "id".to_string(),
            "user_id".to_string(),
            "session_token".to_string(),
            "expires_in".to_string()
        ]
    );
    assert_eq!(Session::table_name(), "sessions");
}

#[test]
fn table_names_are_letters_digits_hyphens_and_underscores() {
    assert!(is_valid_table_name("tower_sessions"));
    assert!(is_valid_table_name("a"));
    assert!(is_valid_table_name("A-z_09"));
    assert!(is_valid_table_name("-"));
    assert!(!is_valid_table_name(""));
    assert!(!is_valid_table_name("my table"));
    assert!(!is_valid_table_name("sessions;drop"));
    assert!(!is_valid_table_name("séssions"));
    assert!(!is_valid_table_name("a`"));
    assert!(!is_valid_table_name("a{"));
    assert!(!is_valid_table_name("a@"));
    assert!(!is_valid_table_name("a["));
    assert!(!is_valid_table_name("a/"));
    assert!(!is_valid_table_name("a:"));
}

#[test]
fn store_takes_a_valid_name_only() {
    let store = LibSqlStore::new();
    assert_eq!(store.table_name(), "tower_sessions");
    let renamed = store.clone().with_table_name("web-sessions").unwrap();
    assert_eq!(renamed.table_name(), "web-sessions");
    assert_eq!(
        store.with_table_name("web sessions").unwrap_err(),
        "Invalid table name 'web sessions'. Table names must be alphanumeric and may contain hyphens or underscores."
    );
}

#[test]
fn store_statements_name_the_table() {
    let store = LibSqlStore::new().with_table_name("s1").unwrap();
    assert_eq!(
        store.migrate(),
        "create table if not exists s1 (id text primary key not null, data blob not null, expiry_date integer not null)"
    );
    assert_eq!(
        store.delete_expired(),
        "delete from s1 where expiry_date < unixepoch('now')"
    );
    assert_eq!(
        store.save(),
        "insert into s1 (id, data, expiry_date) values (?, ?, ?) on conflict(id) do update set data = excluded.data, expiry_date = excluded.expiry_date"
    );
    assert_eq!(store.load(), "select data from s1 where id = ? and expiry_date > ?");
    assert_eq!(store.delete(), "delete from s1 where id = ?");
}

#[test]
fn store_errors_have_their_words() {
    assert_eq!(LibSqlStoreError::LibSql.label(), "libsql");
    assert_eq!(LibSqlStoreError::Encode.label(), "encode");
    assert_eq!(LibSqlStoreError::Decode.label(), "decode");
}

#[test]
fn bearer_token_follows_the_word() {
    assert_eq!(bearer_token("Bearer abc.def"), Some("abc.def".to_string()));
    assert_eq!(bearer_token("Bearer "), Some("".to_string()));
    assert_eq!(bearer_token("Bearer é✓"), Some("é✓".to_string()));
    assert_eq!(bearer_token("bearer abc"), None);
    assert_eq!(bearer_token("Bearer"), None);
    assert_eq!(bearer_token("Basic abc"), None);
    assert_eq!(bearer_token(""), None);
    assert_eq!(bearer_token("BearerX abc"), None);
}

#[test]
fn access_token_prefers_the_cookie() {
    assert_eq!(
        access_token(Some("cookie".to_string()), Some("Bearer header")).unwrap(),
        "cookie"
    );
    assert_eq!(access_token(None, Some("Bearer header")).unwrap(), "header");
    assert_eq!(access_token(Some("cookie".to_string()), None).unwrap(), "cookie");
    let missing = access_token(None, None).unwrap_err();
    assert_eq!(missing.status, "fail");
    assert_eq!(missing.message, "You are not logged in, please provide token");
    let wrong = access_token(None, Some("Basic abc")).unwrap_err();
    assert_eq!(wrong.status, "fail");
}

#[test]
fn error_responses_have_their_status() {
    let failed = JWTErrorResponse::fail("Invalid token".to_string());
    assert_eq!(failed.status, "fail");
    assert_eq!(failed.message, "Invalid token");
    let broken = JWTErrorResponse::error("InvalidSignature".to_string());
    assert_eq!(broken.status, "error");
    assert_eq!(broken.message, "InvalidSignature");
}

#[test]
fn token_details_and_claims() {
    let details = TokenDetails::pending(42, "uuid-1".to_string(), 1_000, 60).unwrap();
    assert_eq!(details.token, None);
    assert_eq!(details.token_uuid, "uuid-1");
    assert_eq!(details.user_id, 42);
    assert_eq!(details.expires_in, Some(4_600));
    let claims = details.claims(1_000);
    assert_eq!(claims.sub, "42");
    assert_eq!(claims.token_uuid, "uuid-1");
    assert_eq!(claims.exp, 4_600);
    assert_eq!(claims.iat, 1_000);
    assert_eq!(claims.nbf, 1_000);
    let signed = details.signed("a.b.c".to_string());
    assert_eq!(signed.token, Some("a.b.c".to_string()));
    assert_eq!(signed.expires_in, Some(4_600));
    assert_eq!(signed.user_id, 42);
    let negative = TokenDetails::pending(-7, "u".to_string(), 0, -1).unwrap();
    assert_eq!(negative.expires_in, Some(-60));
    assert_eq!(negative.claims(0).sub, "-7");
    assert_eq!(
        TokenDetails::pending(i64::MIN, "u".to_string(), 0, 1).unwrap().claims(0).sub,
        "-9223372036854775808"
    );
    assert!(TokenDetails::pending(1, "u".to_string(), i64::MAX, 1).is_none());
    assert!(TokenDetails::pending(1, "u".to_string(), 0, i64::MAX).is_none());
    assert!(TokenDetails::pending(1, "u".to_string(), i64::MAX - 60, 1).is_some());
    let verified = TokenDetails::verified(42, "uuid-1".to_string());
    assert_eq!(verified.token, None);
    assert_eq!(verified.expires_in, None);
    assert_eq!(verified.user_id, 42);
    assert_eq!(verified.token_uuid, "uuid-1");
}

#[test]
fn key_pair_holds_both_keys() {
    let pair = JWTKeyPair { public_key: "pub".to_string(), private_key: "priv".to_string() };
    assert_eq!(pair.public_key, "pub");
    assert_eq!(pair.private_key, "priv");
}

#[test]
fn endpoints_answer_with_their_status() {
    assert_eq!(Endpoint::ListFaeries.success_status(), 200);
    assert_eq!(Endpoint::GetFaery.success_status(), 200);
    assert_eq!(Endpoint::UpdateFaery.success_status(), 200);
    assert_eq!(Endpoint::CreateFaery.success_status(), 201);
    assert_eq!(Endpoint::DeleteFaery.success_status(), 204);
    assert_eq!(Endpoint::AuthenticateUser.success_status(), 200);
    assert_eq!(Endpoint::SendLoginEmail.success_status(), 200);
    assert_eq!(Endpoint::GetFaery.failure_status(&RepositoryError::NotFound), 404);
    assert_eq!(Endpoint::GetFaery.failure_status(&RepositoryError::Other), 500);
    assert_eq!(Endpoint::AuthenticateUser.failure_status(&RepositoryError::NotFound), 404);
    assert_eq!(
        Endpoint::AuthenticateUser.failure_status(&RepositoryError::ExpiredGuard),
        500
    );
    assert_eq!(Endpoint::DeleteFaery.failure_status(&RepositoryError::Other), 404);
    assert_eq!(Endpoint::ListFaeries.failure_status(&RepositoryError::NotFound), 500);
    assert_eq!(Endpoint::UpdateFaery.failure_status(&RepositoryError::NotFound), 500);
    assert_eq!(Endpoint::CreateFaery.failure_status(&RepositoryError::AlreadyExists), 500);
    assert_eq!(Endpoint::SendLoginEmail.failure_status(&RepositoryError::NotFound), 500);
    assert!(names_same_faery(Some(3), 3));
    assert!(!names_same_faery(Some(3), 4));
    assert!(!names_same_faery(None, 3));
}

#[test]
fn faults_surface_as_repository_errors() {
    assert_eq!(
        RepositoryError::from_fault(StorageFault::QueryReturnedNoRows),
        RepositoryError::NotFound
    );
    assert_eq!(
        RepositoryError::from_fault(StorageFault::ExecuteReturnedRows),
        RepositoryError::AlreadyExists
    );
    assert_eq!(RepositoryError::from_fault(StorageFault::Unclassified), RepositoryError::Other);
    assert_eq!(
        RepositoryError::from_rejection(BodyRejection::DataError),
        RepositoryError::InvalidModel
    );
    assert_eq!(
        RepositoryError::from_rejection(BodyRejection::SyntaxError),
        RepositoryError::InvalidModel
    );
    assert_eq!(
        RepositoryError::from_rejection(BodyRejection::Unclassified),
        RepositoryError::Other
    );
    assert_ne!(
        RepositoryError::MigrationFailed(Version::new(0, 0, 0), Version::new(0, 2, 1)),
        RepositoryError::MigrationFailed(Version::new(0, 2, 1), Version::new(0, 2, 2))
    );
}

#[test]
fn storage_errors_surface_by_their_kind() {
    assert_eq!(
        RepositoryError::from_storage(&libsql::Error::QueryReturnedNoRows),
        RepositoryError::NotFound
    );
    assert_eq!(
        RepositoryError::from_storage(&libsql::Error::ExecuteReturnedRows),
        RepositoryError::AlreadyExists
    );
    assert_eq!(
        RepositoryError::from_storage(&libsql::Error::ConnectionFailed("down".to_string())),
        RepositoryError::Other
    );
    assert_eq!(
        RepositoryError::from_storage(&libsql::Error::NullValue),
        RepositoryError::Other
    );
}
