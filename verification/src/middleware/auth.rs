//! Access tokens: where a request carries one, what a token claims, and
//! what is answered when it is missing or wrong.

use crate::player::PlayerData;
use crate::version::decimal;
use vstd::prelude::*;

verus! {

/// An access token and what is known of it.
#[derive(Debug)]
pub struct TokenDetails {
    /// The signed token, once it was signed.
    pub token: Option<String>,
    /// The identifier of the token, as text.
    pub token_uuid: String,
    /// The player the token was issued to.
    pub user_id: i64,
    /// The instant, in seconds, at which the token expires, where known.
    pub expires_in: Option<i64>,
}

/// What a token claims.
#[derive(Debug)]
pub struct TokenClaims {
    /// The player, as a decimal numeral.
    pub sub: String,
    /// The identifier of the token, as text.
    pub token_uuid: String,
    /// The instant, in seconds, at which the token expires.
    pub exp: i64,
    /// The instant at which the token was issued.
    pub iat: i64,
    /// The instant before which the token is not good.
    pub nbf: i64,
}

/// What the handlers behind the check are told of the caller.
#[derive(Debug, Clone)]
pub struct JWTAuthMiddleware {
    pub user: PlayerData,
    pub access_token_uuid: String,
}

/// What is answered to a request whose token is missing or wrong.
#[derive(Debug)]
pub struct JWTErrorResponse {
    pub status: &'static str,
    pub message: String,
}

/// The decimal numeral of an integer, with a minus sign where it is negative.
pub open spec fn signed_decimal(n: int) -> Seq<char> {
    if n < 0 {
        seq!['-'] + decimal((-n) as nat)
    } else {
        decimal(n as nat)
    }
}

/// Formats through the `Display` of `i64`, which writes the decimal numeral
/// of the number, after a minus sign where it is negative.
#[verifier::external_body]
fn integer_text(n: i64) -> (text: String)
    ensures
        text@ == signed_decimal(n as int),
{
    n.to_string()
}

/// The token that the value of an `Authorization` header carries: what
/// follows `Bearer `, where the value starts with it.
pub open spec fn bearer_of(value: Seq<char>) -> Option<Seq<char>> {
    if value.len() >= 7 && value.subrange(0, 7) == "Bearer "@ {
        Some(value.subrange(7, value.len() as int))
    } else {
        None
    }
}

/// The token that a request carries: that of its cookie, else that of its
/// `Authorization` header.
pub open spec fn token_of(cookie: Option<Seq<char>>, authorization: Option<Seq<char>>) -> Option<
    Seq<char>,
> {
    match cookie {
        Some(token) => Some(token),
        None => match authorization {
            Some(value) => bearer_of(value),
            None => None,
        },
    }
}

/// The instant at which a token issued at `now`, in seconds, expires when
/// it is good for `ttl` minutes, where that instant can be told.
pub open spec fn expiry_of(now: i64, ttl: i64) -> Option<i64> {
    if i64::MIN <= now + ttl * 60 <= i64::MAX {
        Some((now + ttl * 60) as i64)
    } else {
        None
    }
}

/// The token that the value of an `Authorization` header carries.
pub fn bearer_token(value: &str) -> (token: Option<String>)
    ensures
        match token {
            Some(text) => bearer_of(value@) == Some(text@),
            None => bearer_of(value@).is_none(),
        },
{
    proof {
        reveal_strlit("Bearer ");
    }
    let length = value.unicode_len();
    if length < 7 {
        return None;
    }
    if value.get_char(0) == 'B' && value.get_char(1) == 'e' && value.get_char(2) == 'a'
        && value.get_char(3) == 'r' && value.get_char(4) == 'e' && value.get_char(5) == 'r'
        && value.get_char(6) == ' ' {
        assert(value@.subrange(0, 7) =~= "Bearer "@);
        Some(value.substring_char(7, length).to_string())
    } else {
        assert(value@.subrange(0, 7) != "Bearer "@) by {
            let head = value@.subrange(0, 7);
            if head == "Bearer "@ {
                assert(head[0] == 'B' && head[1] == 'e' && head[2] == 'a' && head[3] == 'r'
                    && head[4] == 'e' && head[5] == 'r' && head[6] == ' ');
            }
        }
        None
    }
}

impl JWTErrorResponse {
    /// The answer to a request that failed the check.
    pub fn fail(message: String) -> (response: JWTErrorResponse)
        ensures
            response.status@ == "fail"@,
            response.message == message,
    {
        JWTErrorResponse { status: "fail", message }
    }

    /// The answer to a request on which the check itself went wrong.
    pub fn error(message: String) -> (response: JWTErrorResponse)
        ensures
            response.status@ == "error"@,
            response.message == message,
    {
        JWTErrorResponse { status: "error", message }
    }
}

/// The token that a request carries, given the value of its cookie and that
/// of its `Authorization` header. A request without one is answered that
/// the caller is not logged in.
pub fn access_token(cookie: Option<String>, authorization: Option<&str>) -> (token: Result<
    String,
    JWTErrorResponse,
>)
    ensures
        match token {
            Ok(text) => token_of(
                match cookie {
                    Some(c) => Some(c@),
                    None => None,
                },
                match authorization {
                    Some(a) => Some(a@),
                    None => None,
                },
            ) == Some(text@),
            Err(response) => {
                &&& cookie.is_none()
                &&& authorization matches Some(a) ==> bearer_of(a@).is_none()
                &&& response.status@ == "fail"@
                &&& response.message@ == "You are not logged in, please provide token"@
            },
        },
{
    let found = match cookie {
        Some(token) => Some(token),
        None => match authorization {
            Some(value) => bearer_token(value),
            None => None,
        },
    };
    match found {
        Some(token) => Ok(token),
        None => Err(
            JWTErrorResponse::fail("You are not logged in, please provide token".to_string()),
        ),
    }
}

impl TokenDetails {
    /// The details of a token that is about to be signed: issued to a
    /// player at `now`, in seconds, and good for `ttl` minutes. `None` where
    /// the instant of its expiry cannot be told.
    pub fn pending(user_id: i64, token_uuid: String, now: i64, ttl: i64) -> (details: Option<
        TokenDetails,
    >)
        ensures
            details == match expiry_of(now, ttl) {
                Some(instant) => Some(
                    TokenDetails { token: None, token_uuid, user_id, expires_in: Some(instant) },
                ),
                None => None,
            },
    {
        let instant: i128 = now as i128 + ttl as i128 * 60;
        if instant < i64::MIN as i128 || instant > i64::MAX as i128 {
            None
        } else {
            Some(
                TokenDetails {
                    token: None,
                    token_uuid,
                    user_id,
                    expires_in: Some(instant as i64),
                },
            )
        }
    }

    /// The details with the signed token.
    pub fn signed(self, token: String) -> (details: TokenDetails)
        ensures
            details == (TokenDetails { token: Some(token), ..self }),
    {
        TokenDetails {
            token: Some(token),
            token_uuid: self.token_uuid,
            user_id: self.user_id,
            expires_in: self.expires_in,
        }
    }

    /// The details of a token that was checked: the player and the
    /// identifier that it claims, and nothing else.
    pub fn verified(user_id: i64, token_uuid: String) -> (details: TokenDetails)
        ensures
            details == (TokenDetails { token: None, token_uuid, user_id, expires_in: None }),
    {
        TokenDetails { token: None, token_uuid, user_id, expires_in: None }
    }

    /// What the token claims when it is issued at `now`: the player as a
    /// numeral, the identifier, the expiry, and `now` as the instant from
    /// which it is good. The expiry of the token must be known.
    pub fn claims(&self, now: i64) -> (claims: TokenClaims)
        requires
            self.expires_in.is_some(),
        ensures
            claims.sub@ == signed_decimal(self.user_id as int),
            claims.token_uuid == self.token_uuid,
            claims.exp == self.expires_in.unwrap(),
            claims.iat == now,
            claims.nbf == now,
    {
        TokenClaims {
            sub: integer_text(self.user_id),
            token_uuid: self.token_uuid.clone(),
            exp: self.expires_in.unwrap(),
            iat: now,
            nbf: now,
        }
    }
}

} // verus!
