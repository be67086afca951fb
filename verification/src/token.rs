//! Login tokens: the claims they carry, how a request presents them, and when the
//! claims of a token still match the account they name.

use vstd::prelude::*;
use crate::text::{decimal, has_prefix, push_decimal, starts_with, trim_start_matches, trim_start_spec};

verus! {

/// Why a request's token was not accepted.
#[derive(Debug, Clone, Copy, PartialEq, Eq, Structural)]
pub enum TokenError {
    /// The `Authorization` header is missing, unreadable or not a `Bearer` token.
    NoBearer,
    /// The token does not verify or read as claims, names an account whose e-mail or
    /// password differ, or has expired.
    Rejected,
    /// The claims could not be signed into a token.
    SigningFailed,
}

/// The key that signs and verifies login tokens (HMAC with SHA-256).
pub const JWT_SECRET: &'static str = "my name is zyl";

/// How long a token stays valid: sixty minutes, in seconds.
pub const TOKEN_LIFETIME_SECS: i64 = 3600;

/// The claims carried by a login token.
#[derive(Debug)]
pub struct Claims {
    pub id: u32,
    pub user_email: String,
    pub password: String,
    /// Expiry, in seconds since the Unix epoch.
    pub exp: i64,
}

/// The current time in seconds since the Unix epoch (`chrono::Utc::now().timestamp()`).
/// chrono panics on a clock before the epoch and cannot represent dates past the year
/// 262142, so every value it returns lies in the stated range; which value comes back
/// depends on the clock and is not stated.
#[verifier::external_body]
fn now_timestamp() -> (t: i64)
    ensures
        is_clock_reading(t),
{
    chrono::Utc::now().timestamp()
}

/// A time the clock can report, in seconds since the Unix epoch.
pub open spec fn is_clock_reading(t: i64) -> bool {
    0 <= t < 10_000_000_000_000
}

/// The token that `jsonwebtoken::encode` makes of the claims, written as the JSON object
/// `{id, user_email, password, exp}` in that order, with the default header (HS256) and
/// the key `secret`.
pub uninterp spec fn jwt_token(secret: Seq<char>, id: u32, user_email: Seq<char>, password: Seq<char>, exp: i64) -> Seq<char>;

/// `c` is what any token signed with `secret` that equals `token` carries: a token
/// made of some claims reads back as exactly those claims.
pub open spec fn reads_as(secret: Seq<char>, token: Seq<char>, c: Claims) -> bool {
    forall|id: u32, user_email: Seq<char>, password: Seq<char>, exp: i64|
        #[trigger] jwt_token(secret, id, user_email, password, exp) == token ==> c.id == id
            && c.user_email@ == user_email && c.password@ == password && c.exp == exp
}

/// Signs the claims with `jsonwebtoken::encode`: the default header (HS256), the claims
/// as a JSON object and the HMAC key `secret`. HMAC signing and JSON writing are
/// deterministic, so the token is named by the claims and the key. With the default
/// header and an HMAC key `encode` cannot fail (the algorithm matches the key, writing a
/// JSON object of strings and numbers cannot fail, and HMAC signing returns `Ok`), so a
/// token always comes back. It begins with the base64 writing of the header's JSON,
/// whose first character is `{`, so it begins with `e`.
#[verifier::external_body]
fn sign_claims(c: &Claims, secret: &str) -> (r: Option<String>)
    ensures
        r is Some,
        r->Some_0@ == jwt_token(secret@, c.id, c.user_email@, c.password@, c.exp),
        r->Some_0@.len() > 0 && r->Some_0@[0] == 'e',
{
    let mut payload = serde_json::Map::new();
    payload.insert(String::from("id"), serde_json::Value::from(c.id));
    payload.insert(String::from("user_email"), serde_json::Value::from(c.user_email.clone()));
    payload.insert(String::from("password"), serde_json::Value::from(c.password.clone()));
    payload.insert(String::from("exp"), serde_json::Value::from(c.exp));
    let key = jsonwebtoken::EncodingKey::from_secret(secret.as_bytes());
    jsonwebtoken::encode(&jsonwebtoken::Header::default(), &payload, &key).ok()
}

/// Reads the claims of a token with `jsonwebtoken::decode` under `Validation::default()`:
/// the HS256 signature must verify with the key `secret`, the token must carry `exp`,
/// and `exp` must not lie more than 60 seconds in the past of the machine's clock; the
/// payload's `id`, `user_email`, `password` and `exp` are then read as JSON values of
/// their types. Whether a token passes depends on the clock, so success is not stated;
/// what holds of every outcome is that a token made of some claims reads back as exactly
/// those claims. A payload that repeats a key is read with that key's last value (a
/// reader derived for the claims would refuse it); only tokens signed with the key pass,
/// and `sign_claims` never repeats a key.
#[verifier::external_body]
fn decode_claims(token: &str, secret: &str) -> (r: Result<Claims, TokenError>)
    ensures
        r is Err ==> r->Err_0 == TokenError::Rejected,
        r is Ok ==> reads_as(secret@, token@, r->Ok_0),
{
    let key = jsonwebtoken::DecodingKey::from_secret(secret.as_bytes());
    match jsonwebtoken::decode::<serde_json::Value>(token, &key, &jsonwebtoken::Validation::default()) {
        Err(_) => Err(TokenError::Rejected),
        Ok(data) => match (
            serde_json::from_value(data.claims["id"].clone()),
            serde_json::from_value(data.claims["user_email"].clone()),
            serde_json::from_value(data.claims["password"].clone()),
            serde_json::from_value(data.claims["exp"].clone()),
        ) {
            (Ok(id), Ok(user_email), Ok(password), Ok(exp)) => Ok(Claims { id, user_email, password, exp }),
            _ => Err(TokenError::Rejected),
        },
    }
}

pub open spec fn verify_query_spec(id: u32) -> Seq<char> {
    "\n            select user_id, email, password\n            from login \n            where user_id = "@
        + decimal(id as nat)
}

/// The claims are still good against the stored login `(user_id, email, password)` at time `now`.
pub open spec fn claims_match(c: Claims, row: (u32, String, String), now: int) -> bool {
    row.1@ == c.user_email@ && row.2@ == c.password@ && now <= c.exp
}

impl Claims {
    /// Claims for account `id` that expire sixty minutes after `now`.
    pub fn new_at(id: u32, user_email: &str, password: &str, now: i64) -> (c: Claims)
        requires
            now <= i64::MAX - TOKEN_LIFETIME_SECS,
        ensures
            c.id == id,
            c.user_email@ == user_email@,
            c.password@ == password@,
            c.exp == now + TOKEN_LIFETIME_SECS,
    {
        Claims {
            id,
            user_email: String::from_str(user_email),
            password: String::from_str(password),
            exp: now + TOKEN_LIFETIME_SECS,
        }
    }

    /// Claims for account `id` that expire sixty minutes from now (which time that is,
    /// within the clock's range, is not stated).
    pub fn new(id: u32, user_email: &str, password: &str) -> (c: Claims)
        ensures
            c.id == id,
            c.user_email@ == user_email@,
            c.password@ == password@,
            exists|now: i64| #[trigger] is_clock_reading(now) && c.exp == now + TOKEN_LIFETIME_SECS,
    {
        let now = now_timestamp();
        assert(is_clock_reading(now));
        Claims::new_at(id, user_email, password, now)
    }

    pub fn get_id(&self) -> (id: u32)
        ensures
            id == self.id,
    {
        self.id
    }

    /// The statement that reads the stored login of the account the claims name.
    pub fn verify_query(&self) -> (q: String)
        ensures
            q@ == verify_query_spec(self.id),
    {
        let mut q = String::from_str("\n            select user_id, email, password\n            from login \n            where user_id = ");
        push_decimal(&mut q, self.id as u64);
        q
    }

    /// Checks the claims against the first stored login `users[0]` at time `now`: the
    /// e-mail and the password must be the stored ones and `now` must not be past `exp`.
    pub fn verify_at(&self, users: &Vec<(u32, String, String)>, now: i64) -> (r: Result<(), TokenError>)
        requires
            users.len() > 0,
        ensures
            r is Ok <==> claims_match(*self, users[0], now as int),
            r is Err ==> r == Err::<(), TokenError>(TokenError::Rejected),
    {
        let user = &users[0];
        if !(user.1 == self.user_email) || !(user.2 == self.password) || now > self.exp {
            return Err(TokenError::Rejected);
        }
        Ok(())
    }

    /// The statement that reads whether the account the claims name is banned.
    pub fn ban_query(&self) -> (q: String)
        ensures
            q@ == "select is_ban from login where user_id = "@ + decimal(self.id as nat),
    {
        let mut q = String::from_str("select is_ban from login where user_id = ");
        push_decimal(&mut q, self.id as u64);
        q
    }

    /// Fails when the first stored ban flag of the account is set.
    pub fn is_ban(&self, flags: &Vec<bool>) -> (r: Result<(), TokenError>)
        ensures
            r is Err <==> (flags.len() > 0 && flags@[0]),
            r is Err ==> r == Err::<(), TokenError>(TokenError::Rejected),
    {
        if flags.len() > 0 && flags[0] {
            Err(TokenError::Rejected)
        } else {
            Ok(())
        }
    }

    /// Fails unless the account the claims name is an administrator, that is unless the
    /// `admin` table lists it (`admin_rows` are the rows read by `admin_query`).
    pub fn is_admin(&self, admin_rows: &Vec<u32>) -> (r: Result<(), TokenError>)
        ensures
            r is Ok <==> admin_rows.len() != 0,
            r is Err ==> r == Err::<(), TokenError>(TokenError::Rejected),
    {
        if admin_rows.len() != 0 {
            Ok(())
        } else {
            Err(TokenError::Rejected)
        }
    }

    /// Checks the claims against the first stored login `users[0]` at the current time
    /// (which time that is, within the clock's range, is not stated).
    pub fn verify(&self, users: &Vec<(u32, String, String)>) -> (r: Result<(), TokenError>)
        requires
            users.len() > 0,
        ensures
            exists|now: i64| #[trigger] is_clock_reading(now) && (r is Ok <==> claims_match(*self, users[0], now as int)),
            r is Err ==> r == Err::<(), TokenError>(TokenError::Rejected),
    {
        let now = now_timestamp();
        assert(is_clock_reading(now));
        self.verify_at(users, now)
    }
}

/// Reads login tokens off requests.
pub struct Token;

pub open spec fn bearer_prefix() -> Seq<char> {
    "Bearer "@
}

impl Token {
    /// Signs the claims into a login token with the service's key; signing always
    /// succeeds, and the token never begins with `Bearer `.
    pub fn get_jwt(claims: &Claims) -> (r: Result<String, TokenError>)
        ensures
            r is Ok,
            r->Ok_0@ == jwt_token(JWT_SECRET@, claims.id, claims.user_email@, claims.password@, claims.exp),
            !has_prefix(r->Ok_0@, bearer_prefix()),
    {
        match sign_claims(claims, JWT_SECRET) {
            Some(t) => {
                proof {
                    reveal_strlit("Bearer ");
                    if has_prefix(t@, bearer_prefix()) {
                        assert(t@.take(7)[0] == bearer_prefix()[0]);
                    }
                }
                Ok(t)
            },
            None => Err(TokenError::SigningFailed),
        }
    }

    /// The claims of the token an `Authorization` header value presents: the header must
    /// be present and begin with `Bearer `, and the token after the prefix must verify
    /// with the service's key (and not have expired, by the machine's clock).
    pub fn token_to_claims(header: Option<&str>) -> (r: Result<Claims, TokenError>)
        ensures
            match header {
                Some(h) => if has_prefix(h@, bearer_prefix()) {
                    &&& r is Err ==> r == Err::<Claims, TokenError>(TokenError::Rejected)
                    &&& r matches Ok(c) ==> reads_as(JWT_SECRET@, trim_start_spec(h@, bearer_prefix()), c)
                } else {
                    r == Err::<Claims, TokenError>(TokenError::NoBearer)
                },
                None => r == Err::<Claims, TokenError>(TokenError::NoBearer),
            },
    {
        let token = Token::bearer_token(header)?;
        decode_claims(token.as_str(), JWT_SECRET)
    }

    /// The token of an `Authorization` header value: the header must be present and begin
    /// with `Bearer `; every leading `Bearer ` is then removed (`trim_start_matches`).
    pub fn bearer_token(header: Option<&str>) -> (r: Result<String, TokenError>)
        ensures
            match header {
                Some(h) => if has_prefix(h@, bearer_prefix()) {
                    r is Ok && r->Ok_0@ == trim_start_spec(h@, bearer_prefix())
                } else {
                    r == Err::<String, TokenError>(TokenError::NoBearer)
                },
                None => r == Err::<String, TokenError>(TokenError::NoBearer),
            },
    {
        match header {
            Some(h) => {
                if starts_with(h, "Bearer ") {
                    Ok(String::from_str(trim_start_matches(h, "Bearer ")))
                } else {
                    Err(TokenError::NoBearer)
                }
            },
            None => Err(TokenError::NoBearer),
        }
    }
}

/// A token presented as `Bearer {token}` is read back unchanged, unless the token itself
/// begins with `Bearer `.
pub proof fn lemma_bearer_roundtrip(token: Seq<char>)
    requires
        !has_prefix(token, bearer_prefix()),
    ensures
        has_prefix(bearer_prefix() + token, bearer_prefix()),
        trim_start_spec(bearer_prefix() + token, bearer_prefix()) == token,
{
    reveal_strlit("Bearer ");
    let s = bearer_prefix() + token;
    assert(s.take(7) =~= bearer_prefix());
    assert(s.skip(7) =~= token);
    assert(trim_start_spec(token, bearer_prefix()) == token);
}

/// A token signed for some claims and presented as `Bearer {token}` reads back, whenever
/// it is accepted, as exactly those claims. The token must not itself begin with
/// `Bearer ` (the prefix would be trimmed again); `Token::get_jwt` states that its
/// tokens never do.
pub proof fn lemma_signed_token_reads_back(c: Claims, token: Seq<char>, d: Claims)
    requires
        token == jwt_token(JWT_SECRET@, c.id, c.user_email@, c.password@, c.exp),
        !has_prefix(token, bearer_prefix()),
        reads_as(JWT_SECRET@, trim_start_spec(bearer_prefix() + token, bearer_prefix()), d),
    ensures
        has_prefix(bearer_prefix() + token, bearer_prefix()),
        d.id == c.id,
        d.user_email@ == c.user_email@,
        d.password@ == c.password@,
        d.exp == c.exp,
{
    lemma_bearer_roundtrip(token);
    assert(jwt_token(JWT_SECRET@, c.id, c.user_email@, c.password@, c.exp) == token);
}

/// Claims issued at `now` for an account pass the check against that account's stored
/// login exactly until sixty minutes later, and never against a login whose password
/// differs.
pub proof fn lemma_token_lifetime(c: Claims, email: Seq<char>, password: Seq<char>, now: int, row: (u32, String, String), t: int)
    requires
        c.user_email@ == email,
        c.password@ == password,
        c.exp == now + TOKEN_LIFETIME_SECS,
        row.1@ == email,
    ensures
        row.2@ == password ==> (claims_match(c, row, t) <==> t <= now + 3600),
        row.2@ != password ==> !claims_match(c, row, t),
{
}

} // verus!
