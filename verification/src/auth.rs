//! Credentials: one-time codes and their digests, password hashes, and the
//! identity an access token carries.

use argon2::password_hash::{PasswordHash, PasswordHasher, PasswordVerifier, SaltString};
use jsonwebtoken::{decode, encode, Algorithm, DecodingKey, EncodingKey, Header, Validation};
use rand::Rng;
use sha2::Digest;
use vstd::prelude::*;
use vstd::string::*;

use crate::error::{AppError, AppErrorView};
use crate::handlers::auth::VerifiedLogin;
use crate::ids::{hex_digit, hyphenated, lemma_hyphenated_read_back, parse_uuid, uuid_of_text, uuid_to_string, UuidBytes};
use crate::models::user::{lemma_role_named_role_name, role_from_name, role_name, role_named, role_str, Role};

verus! {

/// What a verified access token says about its bearer.
#[derive(Debug, PartialEq, Eq)]
pub struct Claims {
    /// The user's id.
    pub sub: UuidBytes,
    pub email: String,
    pub role: Role,
}

/// A one-time code: six decimal digits.
pub open spec fn is_six_digit_code(code: Seq<char>) -> bool {
    code.len() == 6 && forall|i: int| 0 <= i < 6 ==> '0' <= #[trigger] code[i] <= '9'
}

/// The stored form of a one-time code: the lower-case hex SHA-256 digest of
/// its UTF-8 bytes.
pub uninterp spec fn otp_digest(code: Seq<char>) -> Seq<char>;

/// 64 lower-case hexadecimal digits: the printed form of a SHA-256 digest.
pub open spec fn is_hex_digest(s: Seq<char>) -> bool {
    s.len() == 64 && forall|i: int| 0 <= i < 64 ==> ('0' <= #[trigger] s[i] <= '9' || 'a' <= s[i] <= 'f')
}

/// The prefix of every PHC string this service's Argon2 hashing produces:
/// algorithm Argon2id, version 19.
pub open spec fn argon2id_prefix() -> Seq<char> {
    "$argon2id$v=19$"@
}

/// Whether `password` matches the Argon2 hash in PHC string form `phc`
/// (`None` when `phc` is not a PHC string).
pub uninterp spec fn argon2_matches(password: Seq<char>, phc: Seq<char>) -> Option<bool>;

/// A uniformly random number below `bound`.
///
/// Trusted: `rand::Rng::gen_range(0..bound)` on the thread-local generator.
/// The contract states what holds of every outcome: the number is below
/// `bound`; which one is left open.
#[verifier::external_body]
fn random_below(bound: u32) -> (n: u32)
    requires
        bound > 0,
    ensures
        n < bound,
{
    rand::thread_rng().gen_range(0..bound)
}

/// The place value of the `i`-th of six decimal digits, most significant first.
pub open spec fn place_value(i: int) -> int {
    if i <= 0 {
        100_000
    } else if i == 1 {
        10_000
    } else if i == 2 {
        1_000
    } else if i == 3 {
        100
    } else if i == 4 {
        10
    } else {
        1
    }
}

/// `n` written with exactly six decimal digits, padded with leading zeros.
pub open spec fn zero_padded_six(n: int) -> Seq<char> {
    Seq::new(6, |i: int| hex_digit(((n / place_value(i)) % 10) as u8))
}

fn digit_text(d: u32) -> (t: &'static str)
    requires
        d < 10,
    ensures
        t@ == seq![hex_digit(d as u8)],
{
    proof {
        reveal_strlit("0");
        reveal_strlit("1");
        reveal_strlit("2");
        reveal_strlit("3");
        reveal_strlit("4");
        reveal_strlit("5");
        reveal_strlit("6");
        reveal_strlit("7");
        reveal_strlit("8");
        reveal_strlit("9");
    }
    let t = if d == 0 {
        "0"
    } else if d == 1 {
        "1"
    } else if d == 2 {
        "2"
    } else if d == 3 {
        "3"
    } else if d == 4 {
        "4"
    } else if d == 5 {
        "5"
    } else if d == 6 {
        "6"
    } else if d == 7 {
        "7"
    } else if d == 8 {
        "8"
    } else {
        "9"
    };
    assert(t@ =~= seq![hex_digit(d as u8)]);
    t
}

/// A number below one million as a six-digit one-time code (zero-padded).
pub fn six_digit_code(n: u32) -> (code: String)
    requires
        n < 1_000_000,
    ensures
        code@ == zero_padded_six(n as int),
        is_six_digit_code(code@),
{
    let mut code = String::new();
    let mut place: u32 = 100_000;
    let mut i: usize = 0;
    while i < 6
        invariant
            i <= 6,
            place as int == place_value(i as int),
            code@ == zero_padded_six(n as int).take(i as int),
        decreases 6 - i,
    {
        let d = (n / place) % 10;
        let ghost before = code@;
        code.append(digit_text(d));
        assert(code@ =~= zero_padded_six(n as int).take(i + 1));
        if i < 5 {
            place = place / 10;
        }
        i = i + 1;
    }
    assert(zero_padded_six(n as int).take(6) =~= zero_padded_six(n as int));
    code
}

/// A fresh random one-time code: a random number below one million, written
/// with six digits.
pub fn generate_otp() -> (code: String)
    ensures
        is_six_digit_code(code@),
{
    let n = random_below(1_000_000);
    six_digit_code(n)
}

/// The digest under which a one-time code is stored, so that the code itself
/// is never stored.
///
/// Trusted: `sha2::Sha256::digest` of the code's bytes, printed in lower-case
/// hex. The contract names the result `otp_digest(code)`; it is a function of
/// the code alone, and states that it is printed as 64 lower-case hex digits
/// (SHA-256 yields 32 bytes, each printed as two digits by `LowerHex`).
#[verifier::external_body]
pub(crate) fn hash_otp(code: &str) -> (digest: String)
    ensures
        digest@ == otp_digest(code@),
        is_hex_digest(digest@),
{
    format!("{:x}", sha2::Sha256::digest(code.as_bytes()))
}

/// Checks a password against a stored Argon2 hash.
///
/// Trusted: `argon2::password_hash::PasswordHash::new` parses the stored PHC
/// string (its error becomes an internal error); `Argon2::default()`'s
/// `verify_password` recomputes the hash from the string's own algorithm,
/// version, parameters and salt and compares. The contract names the outcome
/// `argon2_matches(password, hashed)`, a function of the two texts alone.
#[verifier::external_body]
pub(crate) fn verify_password(password: &str, hashed: &str) -> (matched: Result<bool, AppError>)
    ensures
        match argon2_matches(password@, hashed@) {
            Some(b) => matched == Ok::<bool, AppError>(b),
            None => matched matches Err(e) && e@ is Internal,
        },
{
    match PasswordHash::new(hashed) {
        Ok(parsed) => Ok(argon2::Argon2::default().verify_password(password.as_bytes(), &parsed).is_ok()),
        Err(e) => Err(AppError::Internal(e.to_string())),
    }
}

/// Hashes a password with Argon2 under a fresh random salt.
///
/// Trusted: `SaltString::generate` with the operating system's generator, then
/// `Argon2::default().hash_password`, printed as a PHC string (its error
/// becomes an internal error). The contract states what holds of every
/// outcome: the salt is left open; the result is a PHC string of Argon2id
/// version 19 (the defaults) that verifies against the same password, since
/// verification recomputes it from the string's own salt and parameters.
/// Hashing fails only for a password over `argon2::MAX_PWD_LEN` (0xFFFFFFFF)
/// bytes, or for a bad salt or output length, which the generated salt and
/// the default parameters exclude; so a password of fewer than 2^30
/// characters (at most 4 bytes each) is always hashed.
#[verifier::external_body]
pub(crate) fn hash_password(password: &str) -> (hashed: Result<String, AppError>)
    ensures
        password@.len() < 0x4000_0000 ==> hashed is Ok,
        hashed matches Ok(h) ==> argon2_matches(password@, h@) == Some(true),
        hashed matches Ok(h) ==> crate::text::has_prefix(h@, argon2id_prefix()),
        hashed matches Err(e) ==> e@ is Internal,
{
    let salt = SaltString::generate(&mut rand::rngs::OsRng);
    match argon2::Argon2::default().hash_password(password.as_bytes(), &salt) {
        Ok(h) => Ok(h.to_string()),
        Err(e) => Err(AppError::Internal(e.to_string())),
    }
}

/// The claims of an access token, as text: the user's id (hyphenated), email
/// and role name, and the expiry time in seconds since the Unix epoch.
#[derive(Debug, PartialEq, Eq)]
pub struct JwtClaims {
    pub sub: String,
    pub email: String,
    pub role: String,
    pub exp: u64,
}

/// The HS256 JSON Web Token of the claims `sub`, `email`, `role` and `exp`,
/// signed with `secret`.
pub uninterp spec fn jwt_hs256(sub: Seq<char>, email: Seq<char>, role: Seq<char>, exp: u64, secret: Seq<char>) -> Seq<char>;

/// The claims `sub`, `email`, `role` (texts) and `exp` (a whole number) of a
/// token whose HS256 signature checks out under `secret`, if it has them.
pub uninterp spec fn jwt_claims(token: Seq<char>, secret: Seq<char>) -> Option<(Seq<char>, Seq<char>, Seq<char>, u64)>;

/// Signs the claims into an HS256 JSON Web Token.
///
/// Trusted: `jsonwebtoken::encode` with the default header (HS256), a JSON
/// object of the four claims and an HMAC key from `secret`. It always
/// succeeds: the key family matches HS256, serializing such an object cannot
/// fail and HMAC signing cannot fail. The result is named; the contract also
/// states that `decode` with the same secret reads the same claims back, since
/// it checks the HMAC of the same bytes and parses the same JSON.
#[verifier::external_body]
fn encode_jwt(sub: &str, email: &str, role: &str, exp: u64, secret: &str) -> (token: Result<String, AppError>)
    ensures
        token is Ok,
        token matches Ok(t) ==> t@ == jwt_hs256(sub@, email@, role@, exp, secret@),
        token matches Ok(t) ==> jwt_claims(t@, secret@) == Some((sub@, email@, role@, exp)),
{
    let mut claims = serde_json::Map::new();
    claims.insert("sub".to_string(), serde_json::Value::from(sub));
    claims.insert("email".to_string(), serde_json::Value::from(email));
    claims.insert("role".to_string(), serde_json::Value::from(role));
    claims.insert("exp".to_string(), serde_json::Value::from(exp));
    match encode(&Header::default(), &claims, &EncodingKey::from_secret(secret.as_bytes())) {
        Ok(t) => Ok(t),
        Err(e) => Err(AppError::Internal(e.to_string())),
    }
}

/// Reads the claims of a token signed with `secret`.
///
/// Trusted: `jsonwebtoken::decode` into a JSON object, with HS256 only and the
/// expiry check switched off (so no clock is read; the caller checks expiry),
/// then the `sub`, `email` and `role` claims as texts and `exp` as a whole
/// number. The result is named as a function of the token and the secret.
#[verifier::external_body]
fn decode_jwt(token: &str, secret: &str) -> (claims: Option<JwtClaims>)
    ensures
        match claims {
            Some(c) => jwt_claims(token@, secret@) == Some((c.sub@, c.email@, c.role@, c.exp)),
            None => jwt_claims(token@, secret@) is None,
        },
{
    let mut validation = Validation::new(Algorithm::HS256);
    validation.validate_exp = false;
    let key = DecodingKey::from_secret(secret.as_bytes());
    let data = decode::<serde_json::Map<String, serde_json::Value>>(token, &key, &validation).ok()?;
    let sub = data.claims.get("sub")?.as_str()?.to_string();
    let email = data.claims.get("email")?.as_str()?.to_string();
    let role = data.claims.get("role")?.as_str()?.to_string();
    let exp = data.claims.get("exp")?.as_u64()?;
    Some(JwtClaims { sub, email, role, exp })
}

/// The answer to a token that is not valid (bad signature, missing claims,
/// expired, or claims that are not a user id and a role).
pub open spec fn invalid_token() -> AppErrorView {
    AppErrorView::Unauthorized("invalid token"@)
}

/// What a token says about its bearer at time `now` (seconds): the user's id,
/// email and role, while the token is signed with `secret`, holds those
/// claims, and has not expired (`now < exp`).
pub open spec fn token_outcome(token: Seq<char>, secret: Seq<char>, now: u64) -> Result<
    (Seq<u8>, Seq<char>, Role),
    AppErrorView,
> {
    match jwt_claims(token, secret) {
        None => Err(invalid_token()),
        Some((sub, email, role, exp)) => if now >= exp {
            Err(invalid_token())
        } else {
            match (uuid_of_text(sub), role_named(role)) {
                (Some(id), Some(r)) => Ok((id, email, r)),
                _ => Err(invalid_token()),
            }
        },
    }
}

/// The value of a result carrying claims.
pub open spec fn claims_view(r: Result<Claims, AppError>) -> Result<(Seq<u8>, Seq<char>, Role), AppErrorView> {
    match r {
        Ok(c) => Ok((c.sub@, c.email@, c.role)),
        Err(e) => Err(e@),
    }
}

/// Issues the access token of a verified login: the user's id, email and
/// role, expiring `ttl_secs` after `now_secs`, signed with `secret`. The token
/// reads back as that user until it expires.
pub fn create_jwt(
    login: &VerifiedLogin,
    email: &str,
    role: Role,
    now_secs: u64,
    ttl_secs: u64,
    secret: &str,
) -> (token: String)
    requires
        now_secs + ttl_secs <= u64::MAX,
    ensures
        token@ == jwt_hs256(
            hyphenated(login@.user_id@),
            email@,
            role_name(role),
            (now_secs + ttl_secs) as u64,
            secret@,
        ),
        forall|now: u64|
            now < now_secs + ttl_secs ==> #[trigger] token_outcome(token@, secret@, now) == Ok::<
                (Seq<u8>, Seq<char>, Role),
                AppErrorView,
            >((login@.user_id@, email@, role)),
{
    let sub = uuid_to_string(login.user_id());
    let role_text = role_str(&role);
    let exp = now_secs + ttl_secs;
    proof {
        lemma_hyphenated_read_back(login@.user_id@);
        lemma_role_named_role_name(role);
    }
    match encode_jwt(sub.as_str(), email, role_text.as_str(), exp, secret) {
        Ok(t) => t,
        Err(_) => String::new(),
    }
}

/// Checks an access token at time `now_secs` and reads who it was issued to.
/// Every failure is answered `401 Unauthorized` with "invalid token".
pub fn verify_jwt(token: &str, secret: &str, now_secs: u64) -> (claims: Result<Claims, AppError>)
    ensures
        claims_view(claims) == token_outcome(token@, secret@, now_secs),
{
    let decoded = match decode_jwt(token, secret) {
        Some(c) => c,
        None => return Err(AppError::Unauthorized(String::from_str("invalid token"))),
    };
    if now_secs >= decoded.exp {
        return Err(AppError::Unauthorized(String::from_str("invalid token")));
    }
    let sub = parse_uuid(decoded.sub.as_str());
    let role = role_from_name(decoded.role.as_str());
    match (sub, role) {
        (Some(id), Some(r)) => Ok(Claims { sub: id, email: decoded.email, role: r }),
        _ => Err(AppError::Unauthorized(String::from_str("invalid token"))),
    }
}

} // verus!
