//! The player: an account of the service, its login token, and the forms in
//! which it is handed to clients.

use crate::repository::{RepositoryError, RepositoryItem, RepositoryResult};
use vstd::prelude::*;
use vstd::std_specs::convert::FromSpecImpl;

verus! {

/// A player as the table of players holds it.
#[derive(Debug, Clone)]
pub struct Model {
    pub id: Option<i64>,
    pub first_name: String,
    pub last_name: String,
    pub auth_email: String,
    pub auth_token: Option<String>,
    pub auth_token_expires: Option<i64>,
    pub mailing_address: String,
    pub is_admin: bool,
}

/// A player without its login token.
#[derive(Debug, Clone)]
pub struct PlayerData {
    pub id: Option<i64>,
    pub first_name: String,
    pub last_name: String,
    pub auth_email: String,
    pub mailing_address: String,
    pub is_admin: bool,
}

/// What a successful login hands out.
#[derive(Debug, Clone)]
pub struct LoginResponse {
    pub id: i64,
    pub auth_token: String,
    pub auth_token_expires: i64,
    pub is_admin: bool,
}

/// What a session claims of its player.
#[derive(Clone, Copy, Debug, PartialEq, Eq, Structural)]
pub struct PlayerClaim {
    pub id: i64,
    pub is_admin: bool,
}

/// A player as the body of a response.
#[derive(Debug, Clone)]
pub struct PlayerResponse {
    pub player: PlayerData,
}

/// What a client submits to have a player created.
#[derive(Debug, Clone)]
pub struct PlayerRequest {
    pub first_name: String,
    pub last_name: String,
    pub auth_email: String,
    pub mailing_address: String,
}

/// What a client submits to have a player changed.
#[derive(Debug, Clone)]
pub struct PlayerUpdateRequest {
    pub first_name: String,
    pub last_name: String,
    pub auth_email: String,
    pub mailing_address: String,
    pub is_admin: bool,
}

/// A login token and the instant, in milliseconds, at which it expires.
#[derive(Debug)]
pub struct TokenData {
    pub token: String,
    pub expires: i64,
}

/// For how many milliseconds a login token is good: a quarter of an hour.
pub const TOKEN_LIFETIME_MILLIS: i64 = 900000;

/// How many letters and digits a login token starts with.
pub const TOKEN_LENGTH: usize = 64;

/// The first `length` letters and digits that `rand`'s `Alphanumeric`
/// distribution draws from a `ChaCha8Rng` seeded with `seed`.
pub uninterp spec fn chacha8_alphanumeric(seed: u64, length: nat) -> Seq<char>;

/// Seeds a `rand_chacha::ChaCha8Rng` through `seed_from_u64` and collects the
/// first `length` samples that `Rng::sample_iter` draws with `Alphanumeric`.
/// The generator is reproducible, so the text is a function of the seed and
/// the length; it is only named here, besides its length.
#[verifier::external_body]
fn seeded_alphanumeric(seed: u64, length: usize) -> (text: String)
    ensures
        text@ == chacha8_alphanumeric(seed, length as nat),
        text@.len() == length,
{
    let generator: rand_chacha::ChaCha8Rng = rand::SeedableRng::seed_from_u64(seed);
    let sampled: Vec<u8> = rand::Rng::sample_iter(generator, &rand::distributions::Alphanumeric)
        .take(length)
        .collect();
    String::from_utf8_lossy(&sampled).to_string()
}

/// Reads the clock through `chrono::Utc::now` and hands out
/// `timestamp_millis`. Nothing is promised of the instant. A system clock
/// that stands before 1970 stops the process; no argument decides that.
#[verifier::external_body]
fn now_millis() -> (instant: i64) {
    chrono::Utc::now().timestamp_millis()
}

/// The instant at which a token issued at `now` expires: a quarter of an
/// hour later, or the last instant there is.
pub open spec fn expiry(now: i64) -> i64 {
    if now <= i64::MAX - TOKEN_LIFETIME_MILLIS {
        (now + TOKEN_LIFETIME_MILLIS) as i64
    } else {
        i64::MAX
    }
}

/// The text of the login token of a player.
pub open spec fn token_text(user_id: i64) -> Seq<char> {
    chacha8_alphanumeric(user_id as u64, TOKEN_LENGTH as nat) + "-token"@
}

/// Whether a token that expires at `expiration` is still good at `now`.
pub open spec fn is_live(expiration: i64, now: i64) -> bool {
    now < expiration
}

impl TokenData {
    /// The token of a player, issued at the instant `now`, in milliseconds.
    pub fn issued(user_id: i64, now: i64) -> (data: TokenData)
        ensures
            data.token@ == token_text(user_id),
            data.expires == expiry(now),
    {
        let mut token = seeded_alphanumeric(user_id as u64, TOKEN_LENGTH);
        token.append("-token");
        let expires = if now <= i64::MAX - TOKEN_LIFETIME_MILLIS {
            now + TOKEN_LIFETIME_MILLIS
        } else {
            i64::MAX
        };
        TokenData { token, expires }
    }

    /// The token of a player, issued now. The text of the token depends on
    /// the player alone; it expires as one issued at the instant the clock
    /// shows, whichever instant that is.
    pub fn new(user_id: i64) -> (data: TokenData)
        ensures
            data.token@ == token_text(user_id),
            exists|now: i64| data.expires == expiry(now),
    {
        let now = now_millis();
        let data = TokenData::issued(user_id, now);
        assert(data.expires == expiry(now));
        data
    }
}

/// Whether a token that expires at the instant `expiration`, in
/// milliseconds, is still good at the instant `now`.
pub fn token_is_live(expiration: i64, now: i64) -> (live: bool)
    ensures
        live == is_live(expiration, now),
{
    now < expiration
}

/// Whether a token that expires at the instant `expiration` is still good
/// by the clock: the answer is that of `token_is_live` at the instant the
/// clock shows, whichever instant that is.
pub fn validate_token_age(expiration: i64) -> (live: bool)
    ensures
        exists|now: i64| live == is_live(expiration, now),
{
    let now = now_millis();
    let live = token_is_live(expiration, now);
    assert(live == is_live(expiration, now));
    live
}

impl Model {
    pub fn new(
        id: Option<i64>,
        first_name: String,
        last_name: String,
        auth_email: String,
        auth_token: Option<String>,
        auth_token_expires: Option<i64>,
        mailing_address: String,
        is_admin: bool,
    ) -> (model: Model)
        ensures
            model == (Model {
                id,
                first_name,
                last_name,
                auth_email,
                auth_token,
                auth_token_expires,
                mailing_address,
                is_admin,
            }),
    {
        Model {
            id,
            first_name,
            last_name,
            auth_email,
            auth_token,
            auth_token_expires,
            mailing_address,
            is_admin,
        }
    }

    /// Whether the player can be handed out as a login: it has a row, a
    /// token and an expiry.
    pub open spec fn has_login(self) -> bool {
        self.id.is_some() && self.auth_token.is_some() && self.auth_token_expires.is_some()
    }

    /// The login of a player that has one.
    pub open spec fn login(self) -> LoginResponse
        recommends
            self.has_login(),
    {
        LoginResponse {
            id: self.id.unwrap(),
            auth_token: self.auth_token.unwrap(),
            auth_token_expires: self.auth_token_expires.unwrap(),
            is_admin: self.is_admin,
        }
    }
}

impl LoginResponse {
    /// The login of a player. The player must have a row, a token and an expiry.
    pub fn from_model(model: Model) -> (response: LoginResponse)
        requires
            model.has_login(),
        ensures
            response == model.login(),
    {
        LoginResponse {
            id: model.id.unwrap(),
            auth_token: model.auth_token.unwrap(),
            auth_token_expires: model.auth_token_expires.unwrap(),
            is_admin: model.is_admin,
        }
    }

    /// The login of a player, or `None` where it lacks a row, a token or an expiry.
    pub fn try_from_model(model: Model) -> (response: Option<LoginResponse>)
        ensures
            response == if model.has_login() {
                Some(model.login())
            } else {
                None
            },
    {
        if model.id.is_some() && model.auth_token.is_some() && model.auth_token_expires.is_some() {
            Some(LoginResponse::from_model(model))
        } else {
            None
        }
    }
}

/// What a login comes to once the row that matches the player, the address
/// and the token was looked up: no row is no login; a row whose token has
/// expired at `now` is refused as expired; any other row is the login.
pub open spec fn login_outcome(found: Option<Model>, now: i64) -> RepositoryResult<LoginResponse>
    recommends
        found matches Some(model) ==> model.has_login(),
{
    match found {
        None => Err(RepositoryError::NotFound),
        Some(model) => if is_live(model.auth_token_expires.unwrap(), now) {
            Ok(model.login())
        } else {
            Err(RepositoryError::ExpiredGuard)
        },
    }
}

/// Concludes a login from the row found, at the instant `now`.
pub fn conclude_login(found: Option<Model>, now: i64) -> (outcome: RepositoryResult<LoginResponse>)
    requires
        found matches Some(model) ==> model.has_login(),
    ensures
        outcome == login_outcome(found, now),
{
    match found {
        None => Err(RepositoryError::NotFound),
        Some(model) => {
            let expires = match model.auth_token_expires {
                Some(instant) => instant,
                None => 0,
            };
            if token_is_live(expires, now) {
                Ok(LoginResponse::from_model(model))
            } else {
                Err(RepositoryError::ExpiredGuard)
            }
        },
    }
}

/// Whether the player that an address belongs to is the one that a token
/// belongs to. An address that belongs to nobody matches no token.
pub fn token_belongs_to(player: Option<i64>, token_owner: i64) -> (matches: bool)
    ensures
        matches == (player == Some(token_owner)),
{
    match player {
        Some(id) => id == token_owner,
        None => false,
    }
}

impl From<LoginResponse> for PlayerClaim {
    fn from(response: LoginResponse) -> (claim: PlayerClaim) {
        PlayerClaim { id: response.id, is_admin: response.is_admin }
    }
}

impl FromSpecImpl<LoginResponse> for PlayerClaim {
    open spec fn obeys_from_spec() -> bool {
        true
    }

    open spec fn from_spec(response: LoginResponse) -> PlayerClaim {
        PlayerClaim { id: response.id, is_admin: response.is_admin }
    }
}

impl From<Model> for PlayerData {
    fn from(model: Model) -> (data: PlayerData) {
        PlayerData {
            id: model.id,
            first_name: model.first_name,
            last_name: model.last_name,
            auth_email: model.auth_email,
            mailing_address: model.mailing_address,
            is_admin: model.is_admin,
        }
    }
}

impl FromSpecImpl<Model> for PlayerData {
    open spec fn obeys_from_spec() -> bool {
        true
    }

    open spec fn from_spec(model: Model) -> PlayerData {
        PlayerData {
            id: model.id,
            first_name: model.first_name,
            last_name: model.last_name,
            auth_email: model.auth_email,
            mailing_address: model.mailing_address,
            is_admin: model.is_admin,
        }
    }
}

impl From<Model> for PlayerResponse {
    fn from(model: Model) -> (response: PlayerResponse) {
        PlayerResponse { player: PlayerData::from(model) }
    }
}

impl FromSpecImpl<Model> for PlayerResponse {
    open spec fn obeys_from_spec() -> bool {
        true
    }

    open spec fn from_spec(model: Model) -> PlayerResponse {
        PlayerResponse {
            player: PlayerData {
                id: model.id,
                first_name: model.first_name,
                last_name: model.last_name,
                auth_email: model.auth_email,
                mailing_address: model.mailing_address,
                is_admin: model.is_admin,
            },
        }
    }
}

impl From<Model> for PlayerRequest {
    fn from(model: Model) -> (request: PlayerRequest) {
        PlayerRequest {
            first_name: model.first_name,
            last_name: model.last_name,
            auth_email: model.auth_email,
            mailing_address: model.mailing_address,
        }
    }
}

impl FromSpecImpl<Model> for PlayerRequest {
    open spec fn obeys_from_spec() -> bool {
        true
    }

    open spec fn from_spec(model: Model) -> PlayerRequest {
        PlayerRequest {
            first_name: model.first_name,
            last_name: model.last_name,
            auth_email: model.auth_email,
            mailing_address: model.mailing_address,
        }
    }
}

impl From<PlayerRequest> for Model {
    /// A requested player has no row and no token, and is no administrator.
    fn from(request: PlayerRequest) -> (model: Model) {
        Model {
            id: None,
            first_name: request.first_name,
            last_name: request.last_name,
            auth_email: request.auth_email,
            auth_token: None,
            auth_token_expires: None,
            mailing_address: request.mailing_address,
            is_admin: false,
        }
    }
}

impl FromSpecImpl<PlayerRequest> for Model {
    open spec fn obeys_from_spec() -> bool {
        true
    }

    open spec fn from_spec(request: PlayerRequest) -> Model {
        Model {
            id: None,
            first_name: request.first_name,
            last_name: request.last_name,
            auth_email: request.auth_email,
            auth_token: None,
            auth_token_expires: None,
            mailing_address: request.mailing_address,
            is_admin: false,
        }
    }
}

impl From<PlayerUpdateRequest> for Model {
    /// A change carries no row and no token.
    fn from(request: PlayerUpdateRequest) -> (model: Model) {
        Model {
            id: None,
            first_name: request.first_name,
            last_name: request.last_name,
            auth_email: request.auth_email,
            auth_token: None,
            auth_token_expires: None,
            mailing_address: request.mailing_address,
            is_admin: request.is_admin,
        }
    }
}

impl FromSpecImpl<PlayerUpdateRequest> for Model {
    open spec fn obeys_from_spec() -> bool {
        true
    }

    open spec fn from_spec(request: PlayerUpdateRequest) -> Model {
        Model {
            id: None,
            first_name: request.first_name,
            last_name: request.last_name,
            auth_email: request.auth_email,
            auth_token: None,
            auth_token_expires: None,
            mailing_address: request.mailing_address,
            is_admin: request.is_admin,
        }
    }
}

impl RepositoryItem for Model {
    fn masked_columns(_is_admin: bool) -> (columns: Vec<String>)
        ensures
            columns.deep_view() == Seq::<Seq<char>>::empty(),
    {
        let columns: Vec<String> = Vec::new();
        assert(columns.deep_view() =~= Seq::<Seq<char>>::empty());
        columns
    }

    fn saved_columns() -> (columns: Vec<String>)
        ensures
            columns.deep_view() == seq![
                "id"@,
                "first_name"@,
                "last_name"@,
                "auth_email"@,
                "mailing_address"@,
                "is_admin"@,
            ],
    {
        let columns = vec![
            "id".to_string(),
            "first_name".to_string(),
            "last_name".to_string(),
            "auth_email".to_string(),
            "mailing_address".to_string(),
            "is_admin".to_string(),
        ];
        assert(columns.deep_view() =~= seq![
            "id"@,
            "first_name"@,
            "last_name"@,
            "auth_email"@,
            "mailing_address"@,
            "is_admin"@,
        ]);
        columns
    }

    fn all_columns() -> (columns: Vec<String>)
        ensures
            columns.deep_view() == seq![
                "id"@,
                "first_name"@,
                "last_name"@,
                "auth_email"@,
                "auth_token"@,
                "auth_token_expires"@,
                "mailing_address"@,
                "is_admin"@,
            ],
    {
        let columns = vec![
            "id".to_string(),
            "first_name".to_string(),
            "last_name".to_string(),
            "auth_email".to_string(),
            "auth_token".to_string(),
            "auth_token_expires".to_string(),
            "mailing_address".to_string(),
            "is_admin".to_string(),
        ];
        assert(columns.deep_view() =~= seq![
            "id"@,
            "first_name"@,
            "last_name"@,
            "auth_email"@,
            "auth_token"@,
            "auth_token_expires"@,
            "mailing_address"@,
            "is_admin"@,
        ]);
        columns
    }

    fn table_name() -> (name: String)
        ensures
            name@ == "players"@,
    {
        "players".to_string()
    }
}

} // verus!
