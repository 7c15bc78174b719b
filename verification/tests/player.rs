use dross_manager::player::{
    conclude_login, token_belongs_to, token_is_live, validate_token_age, LoginResponse, Model,
    PlayerClaim, PlayerData, PlayerRequest, PlayerResponse, PlayerUpdateRequest, TokenData,
    TOKEN_LIFETIME_MILLIS,
};
use dross_manager::repository::{RepositoryError, RepositoryItem};

fn player(id: Option<i64>, token: Option<&str>, expires: Option<i64>) -> Model {
    Model::new(
        id,
        "Wendy".to_string(),
        "Darling".to_string(),
        "wendy@example.com".to_string(),
        token.map(|t| t.to_string()),
        expires,
        "14 Kensington Gardens".to_string(),
        false,
    )
}

#[test]
fn token_is_sixty_four_letters_and_digits_and_a_suffix() {
    let data = TokenData::issued(7, 1_000);
    assert_eq!(data.token.len(), 70);
    assert!(data.token.ends_with("-token"));
    assert!(data.token[..64].chars().all(|c| c.is_ascii_alphanumeric()));
    assert_eq!(data.expires, 901_000);
}

#[test]
fn token_depends_on_the_player_alone() {
    let first = TokenData::issued(7, 1_000);
    let again = TokenData::issued(7, 2_000_000);
    let other = TokenData::issued(8, 1_000);
    assert_eq!(first.token, again.token);
    assert_ne!(first.token, other.token);
    assert_ne!(first.token, "7-token");
    assert_eq!(TokenData::new(7).token, first.token);
    assert_eq!(TokenData::issued(-1, 0).token.len(), 70);
}

#[test]
fn token_expires_a_quarter_of_an_hour_later() {
    assert_eq!(TOKEN_LIFETIME_MILLIS, 15 * 60 * 1000);
    assert_eq!(TokenData::issued(1, 0).expires, 900_000);
    assert_eq!(TokenData::issued(1, -900_000).expires, 0);
    assert_eq!(TokenData::issued(1, i64::MAX - 900_000).expires, i64::MAX);
    assert_eq!(TokenData::issued(1, i64::MAX).expires, i64::MAX);
}

#[test]
fn new_token_is_live() {
    let data = TokenData::new(3);
    assert!(validate_token_age(data.expires));
    assert!(!validate_token_age(0));
}

#[test]
fn token_is_live_before_its_expiry() {
    assert!(token_is_live(1_000, 999));
    assert!(!token_is_live(1_000, 1_000));
    assert!(!token_is_live(1_000, 1_001));
}

#[test]
fn login_needs_a_row_a_token_and_an_expiry() {
    let response = LoginResponse::from_model(player(Some(5), Some("abc"), Some(99)));
    assert_eq!(response.id, 5);
    assert_eq!(response.auth_token, "abc");
    assert_eq!(response.auth_token_expires, 99);
    assert!(!response.is_admin);
    assert!(LoginResponse::try_from_model(player(Some(5), Some("abc"), Some(99))).is_some());
    assert!(LoginResponse::try_from_model(player(None, Some("abc"), Some(99))).is_none());
    assert!(LoginResponse::try_from_model(player(Some(5), None, Some(99))).is_none());
    assert!(LoginResponse::try_from_model(player(Some(5), Some("abc"), None)).is_none());
}

#[test]
fn login_is_concluded_from_the_row() {
    let outcome = conclude_login(Some(player(Some(5), Some("abc"), Some(100))), 99);
    let response = outcome.unwrap();
    assert_eq!(response.id, 5);
    assert_eq!(response.auth_token, "abc");
    assert_eq!(response.auth_token_expires, 100);
    let expired = conclude_login(Some(player(Some(5), Some("abc"), Some(100))), 100);
    assert_eq!(expired.unwrap_err(), RepositoryError::ExpiredGuard);
    assert_eq!(conclude_login(None, 0).unwrap_err(), RepositoryError::NotFound);
}

#[test]
fn token_belongs_to_its_player() {
    assert!(token_belongs_to(Some(4), 4));
    assert!(!token_belongs_to(Some(4), 5));
    assert!(!token_belongs_to(None, 4));
}

#[test]
fn player_converts() {
    let claim = PlayerClaim::from(LoginResponse {
        id: 9,
        auth_token: "t".to_string(),
        auth_token_expires: 1,
        is_admin: true,
    });
    assert_eq!(claim, PlayerClaim { id: 9, is_admin: true });

    let data = PlayerData::from(player(Some(2), Some("t"), Some(1)));
    assert_eq!(data.id, Some(2));
    assert_eq!(data.first_name, "Wendy");
    assert_eq!(data.last_name, "Darling");
    assert_eq!(data.auth_email, "wendy@example.com");
    assert_eq!(data.mailing_address, "14 Kensington Gardens");
    assert!(!data.is_admin);

    let response = PlayerResponse::from(player(Some(2), None, None));
    assert_eq!(response.player.id, Some(2));
    assert_eq!(response.player.first_name, "Wendy");

    let request = PlayerRequest::from(player(Some(2), None, None));
    assert_eq!(request.first_name, "Wendy");
    assert_eq!(request.auth_email, "wendy@example.com");

    let model = Model::from(request);
    assert_eq!(model.id, None);
    assert_eq!(model.auth_token, None);
    assert_eq!(model.auth_token_expires, None);
    assert_eq!(model.last_name, "Darling");
    assert!(!model.is_admin);

    let changed = Model::from(PlayerUpdateRequest {
        first_name: "Peter".to_string(),
        last_name: "Pan".to_string(),
        auth_email: "peter@example.com".to_string(),
        mailing_address: "Neverland".to_string(),
        is_admin: true,
    });
    assert_eq!(changed.id, None);
    assert_eq!(changed.first_name, "Peter");
    assert_eq!(changed.mailing_address, "Neverland");
    assert!(changed.is_admin);
}

#[test]
fn player_columns() {
    assert!(Model::masked_columns(false).is_empty());
    assert!(Model::masked_columns(true).is_empty());
    assert_eq!(
        Model::saved_columns(),
        vec![
            "id".to_string(),
            "first_name".to_string(),
            "last_name".to_string(),
            "auth_email".to_string(),
            "mailing_address".to_string(),
            "is_admin".to_string()
        ]
    );
    assert_eq!(
        Model::all_columns(),
        vec![
            "id".to_string(),
            "first_name".to_string(),
            "last_name".to_string(),
            "auth_email".to_string(),
            "auth_token".to_string(),
            "auth_token_expires".to_string(),
            "mailing_address".to_string(),
            "is_admin".to_string()
        ]
    );
    assert_eq!(Model::table_name(), "players");
}
