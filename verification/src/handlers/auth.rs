//! Email two-factor login: password check, challenge issuing, and code verification.

use vstd::prelude::*;
use vstd::string::*;

use crate::auth::{is_hex_digest, generate_otp, hash_otp, is_six_digit_code, otp_digest, verify_password, argon2_matches};
use crate::error::{result_view, status_of, AppError, AppErrorView};
use crate::ids::UuidBytes;
use crate::text::str_equals;

verus! {

/// How long a login challenge stays valid: five minutes, in microseconds.
pub const CHALLENGE_LIFETIME_MICROS: i64 = 300_000_000;

/// The first step of a login: email and password.
#[derive(Debug, PartialEq, Eq)]
pub struct LoginRequest {
    pub email: String,
    pub password: String,
}

/// The answer to a successful first step: the challenge to verify, never a token.
#[derive(Debug, Clone, Copy, PartialEq, Eq)]
pub struct LoginResponse {
    pub login_challenge_id: UuidBytes,
}

/// The second step of a login: the challenge and the code received by email.
#[derive(Debug, PartialEq, Eq)]
pub struct Verify2faRequest {
    pub login_challenge_id: UuidBytes,
    pub code: String,
}

/// The access token issued after a successful verification.
#[derive(Debug, PartialEq, Eq)]
pub struct TokenResponse {
    pub access_token: String,
    pub token_type: String,
}

/// A user's stored credentials, as found by email.
#[derive(Debug, PartialEq, Eq)]
pub struct UserCredentials {
    pub id: UuidBytes,
    pub hashed_password: String,
}

/// A login challenge to be recorded: whose it is, the hash of its code, and
/// when it expires (microseconds since the Unix epoch).
#[derive(Debug, PartialEq, Eq)]
pub struct NewChallenge {
    pub user_id: UuidBytes,
    pub code_hash: String,
    pub expires_at: i64,
}

/// An email to send and log.
#[derive(Debug, PartialEq, Eq)]
pub struct EmailMessage {
    pub recipient: String,
    pub subject: String,
    pub body: String,
}

/// What a successful first login step records and sends.
#[derive(Debug, PartialEq, Eq)]
pub struct ChallengePlan {
    pub challenge: NewChallenge,
    pub email: EmailMessage,
}

/// A recorded login challenge.
#[derive(Debug, PartialEq, Eq)]
pub struct ChallengeRecord {
    pub id: UuidBytes,
    pub user_id: UuidBytes,
    pub code_hash: String,
    pub expires_at: i64,
    pub used: bool,
}

/// The answer to any failed credential check. An unknown email and a wrong
/// password get the same answer.
pub open spec fn invalid_credentials() -> AppErrorView {
    AppErrorView::Unauthorized("invalid credentials"@)
}

/// The outcome of looking a user up by email: the user's credentials, or the
/// answer to failed credentials.
pub open spec fn user_lookup_outcome(user: Option<UserCredentials>) -> Result<UserCredentials, AppErrorView> {
    match user {
        Some(u) => Ok(u),
        None => Err(invalid_credentials()),
    }
}

/// The outcome of a password check that did (or did not) match.
pub open spec fn password_outcome(matches: bool) -> Result<(), AppErrorView> {
    if matches {
        Ok(())
    } else {
        Err(invalid_credentials())
    }
}

/// The first check of a login: the email must belong to a user.
pub fn require_user(user: Option<UserCredentials>) -> (out: Result<UserCredentials, AppError>)
    ensures
        result_view(out) == user_lookup_outcome(user),
{
    match user {
        Some(u) => Ok(u),
        None => Err(AppError::Unauthorized(String::from_str("invalid credentials"))),
    }
}

/// The second check of a login, given whether the password matched.
pub fn require_password_match(matches: bool) -> (out: Result<(), AppError>)
    ensures
        result_view(out) == password_outcome(matches),
{
    if matches {
        Ok(())
    } else {
        Err(AppError::Unauthorized(String::from_str("invalid credentials")))
    }
}

/// The second check of a login: `password` must match the stored Argon2 hash.
/// A stored hash that is not a PHC string is an internal error.
pub fn check_password(password: &str, hashed: &str) -> (out: Result<(), AppError>)
    ensures
        match argon2_matches(password@, hashed@) {
            Some(b) => result_view(out) == password_outcome(b),
            None => out matches Err(e) && e@ is Internal,
        },
{
    let matched = verify_password(password, hashed)?;
    require_password_match(matched)
}

/// The subject of a verification email.
pub open spec fn verification_subject() -> Seq<char> {
    "Your verification code"@
}

/// The text before the code in a verification email.
pub open spec fn verification_prefix() -> Seq<char> {
    "Your 2FA code is: "@
}

/// The body of a verification email carrying `code`.
pub open spec fn verification_body(code: Seq<char>) -> Seq<char> {
    verification_prefix() + code
}

/// A challenge issued at `now` (microseconds) expires five minutes later.
pub open spec fn expiry_of(now: int) -> int {
    now + CHALLENGE_LIFETIME_MICROS
}

/// `plan` is what a login of `user_id` at `now` records and sends for `code`:
/// a challenge holding the code's digest (never the code) that expires five
/// minutes after `now`, and an email to `recipient` carrying the code.
pub open spec fn is_challenge_plan(
    plan: ChallengePlan,
    user_id: UuidBytes,
    recipient: Seq<char>,
    code: Seq<char>,
    now: int,
) -> bool {
    &&& plan.challenge.user_id == user_id
    &&& plan.challenge.code_hash@ == otp_digest(code)
    &&& is_hex_digest(plan.challenge.code_hash@)
    &&& plan.challenge.expires_at == expiry_of(now)
    &&& plan.email.recipient@ == recipient
    &&& plan.email.subject@ == verification_subject()
    &&& plan.email.body@ == verification_body(code)
}

/// What to record and send for `code` once a user's password matched.
pub fn plan_challenge(user_id: UuidBytes, recipient: &str, code: &str, now: i64) -> (plan: ChallengePlan)
    requires
        now <= i64::MAX - CHALLENGE_LIFETIME_MICROS,
    ensures
        is_challenge_plan(plan, user_id, recipient@, code@, now as int),
{
    let mut body = String::from_str("Your 2FA code is: ");
    body.append(code);
    ChallengePlan {
        challenge: NewChallenge {
            user_id,
            code_hash: hash_otp(code),
            expires_at: now + CHALLENGE_LIFETIME_MICROS,
        },
        email: EmailMessage {
            recipient: recipient.to_owned(),
            subject: String::from_str("Your verification code"),
            body,
        },
    }
}

/// Starts a challenge once a user's password matched: draws a fresh six-digit
/// code and plans what to record and send for it.
pub fn start_challenge(user_id: UuidBytes, recipient: &str, now: i64) -> (out: (String, ChallengePlan))
    requires
        now <= i64::MAX - CHALLENGE_LIFETIME_MICROS,
    ensures
        is_six_digit_code(out.0@),
        is_challenge_plan(out.1, user_id, recipient@, out.0@, now as int),
{
    let code = generate_otp();
    let plan = plan_challenge(user_id, recipient, code.as_str(), now);
    (code, plan)
}

/// The challenge as it stands once recorded under `id`: not yet used.
pub open spec fn recorded(id: UuidBytes, c: NewChallenge) -> ChallengeRecord {
    ChallengeRecord {
        id,
        user_id: c.user_id,
        code_hash: c.code_hash,
        expires_at: c.expires_at,
        used: false,
    }
}

/// The challenge once its code has been accepted.
pub open spec fn consumed(c: ChallengeRecord) -> ChallengeRecord {
    ChallengeRecord { used: true, ..c }
}

/// The outcome of submitting a code whose digest is `submitted` at time `now`
/// against the challenge found (if any). A missing, used or expired challenge
/// is a bad request; a wrong code is unauthorized; otherwise the challenge is
/// consumed.
pub open spec fn verification_outcome(
    challenge: Option<ChallengeRecord>,
    now: int,
    submitted: Seq<char>,
) -> Result<ChallengeRecord, AppErrorView> {
    match challenge {
        None => Err(AppErrorView::BadRequest("challenge not found"@)),
        Some(c) => if c.used {
            Err(AppErrorView::BadRequest("code already used"@))
        } else if now > c.expires_at {
            Err(AppErrorView::BadRequest("code expired"@))
        } else if submitted != c.code_hash@ {
            Err(AppErrorView::Unauthorized("invalid code"@))
        } else {
            Ok(consumed(c))
        },
    }
}

/// A login whose code was accepted. Only [`check_challenge_digest`] (and
/// through it [`check_challenge`]) makes one, so a token can only be issued
/// for a verified login.
#[derive(Debug, PartialEq, Eq)]
pub struct VerifiedLogin {
    record: ChallengeRecord,
}

impl View for VerifiedLogin {
    type V = ChallengeRecord;

    /// The challenge as it must be stored afterwards (used).
    closed spec fn view(&self) -> ChallengeRecord {
        self.record
    }
}

impl VerifiedLogin {
    /// The accepted challenge, as it must be stored afterwards (used).
    pub fn record(&self) -> (r: &ChallengeRecord)
        ensures
            *r == self@,
    {
        &self.record
    }

    /// The user who logged in.
    pub fn user_id(&self) -> (id: UuidBytes)
        ensures
            id == self@.user_id,
    {
        self.record.user_id
    }
}

/// The value of a verification result.
pub open spec fn verified_view(r: Result<VerifiedLogin, AppError>) -> Result<ChallengeRecord, AppErrorView> {
    match r {
        Ok(v) => Ok(v@),
        Err(e) => Err(e@),
    }
}

/// Checks a submitted code, given its digest, against the challenge found, at
/// time `now`.
pub fn check_challenge_digest(
    challenge: Option<ChallengeRecord>,
    now: i64,
    submitted_digest: &str,
) -> (out: Result<VerifiedLogin, AppError>)
    ensures
        verified_view(out) == verification_outcome(challenge, now as int, submitted_digest@),
{
    match challenge {
        None => Err(AppError::BadRequest(String::from_str("challenge not found"))),
        Some(c) => {
            if c.used {
                Err(AppError::BadRequest(String::from_str("code already used")))
            } else if now > c.expires_at {
                Err(AppError::BadRequest(String::from_str("code expired")))
            } else if !str_equals(submitted_digest, c.code_hash.as_str()) {
                Err(AppError::Unauthorized(String::from_str("invalid code")))
            } else {
                Ok(VerifiedLogin { record: ChallengeRecord { used: true, ..c } })
            }
        },
    }
}

/// Checks a submitted code against the challenge found, at time `now`.
pub fn check_challenge(challenge: Option<ChallengeRecord>, now: i64, code: &str) -> (out: Result<
    VerifiedLogin,
    AppError,
>)
    ensures
        verified_view(out) == verification_outcome(challenge, now as int, otp_digest(code@)),
{
    let digest = hash_otp(code);
    check_challenge_digest(challenge, now, digest.as_str())
}

/// The outcome of marking an accepted challenge used, given how many
/// challenges were still unused and got marked: none means another request
/// used the code first.
pub fn confirm_consumed(rows_marked: u64) -> (out: Result<(), AppError>)
    ensures
        rows_marked > 0 ==> out is Ok,
        rows_marked == 0 ==> (out matches Err(e) && e@ == AppErrorView::BadRequest("code already used"@)),
{
    if rows_marked > 0 {
        Ok(())
    } else {
        Err(AppError::BadRequest(String::from_str("code already used")))
    }
}

/// The answer to a verified login: the access token, of type `Bearer`. Only a
/// verified login gets one.
pub fn token_response(_verified: &VerifiedLogin, access_token: String) -> (resp: TokenResponse)
    ensures
        resp.access_token == access_token,
        resp.token_type@ == "Bearer"@,
{
    TokenResponse { access_token, token_type: String::from_str("Bearer") }
}

/// An unknown email and a wrong password are answered alike, so a failed login
/// does not tell whether the email is registered.
pub proof fn law_login_failures_alike()
    ensures
        user_lookup_outcome(None) matches Err(unknown) && password_outcome(false) matches Err(
            wrong,
        ) && unknown == wrong && status_of(unknown) == 401,
{
}

/// The code emailed at login is accepted at any time up to five minutes after
/// the login, and refused as expired after that. The email shows the code
/// right after `Your 2FA code is: `.
pub proof fn law_emailed_code_accepted_for_five_minutes(
    id: UuidBytes,
    plan: ChallengePlan,
    user_id: UuidBytes,
    recipient: Seq<char>,
    code: Seq<char>,
    issued_at: int,
    now: int,
)
    requires
        is_challenge_plan(plan, user_id, recipient, code, issued_at),
        issued_at <= now,
    ensures
        plan.email.body@.skip(verification_prefix().len() as int) == code,
        now <= issued_at + CHALLENGE_LIFETIME_MICROS ==> verification_outcome(
            Some(recorded(id, plan.challenge)),
            now,
            otp_digest(code),
        ) == Ok::<ChallengeRecord, AppErrorView>(consumed(recorded(id, plan.challenge))),
        now > issued_at + CHALLENGE_LIFETIME_MICROS ==> verification_outcome(
            Some(recorded(id, plan.challenge)),
            now,
            otp_digest(code),
        ) == Err::<ChallengeRecord, AppErrorView>(AppErrorView::BadRequest("code expired"@)),
{
    assert(verification_body(code).skip(verification_prefix().len() as int) =~= code);
}

/// The challenge never holds the code itself: a six-digit code is stored as
/// its 64-digit digest.
pub proof fn law_code_not_stored_in_plain_text(
    plan: ChallengePlan,
    user_id: UuidBytes,
    recipient: Seq<char>,
    code: Seq<char>,
    now: int,
)
    requires
        is_challenge_plan(plan, user_id, recipient, code, now),
        is_six_digit_code(code),
    ensures
        plan.challenge.code_hash@ != code,
{
}

/// A code can be used only once: after a challenge accepted a code, every
/// later submission against it, whatever the code and the time, is refused as
/// already used.
pub proof fn law_code_single_use(
    challenge: ChallengeRecord,
    now: int,
    submitted: Seq<char>,
    later: int,
    resubmitted: Seq<char>,
)
    requires
        verification_outcome(Some(challenge), now, submitted) is Ok,
    ensures
        verification_outcome(
            Some(verification_outcome(Some(challenge), now, submitted)->Ok_0),
            later,
            resubmitted,
        ) == Err::<ChallengeRecord, AppErrorView>(AppErrorView::BadRequest("code already used"@)),
{
}

/// An accepted code gives back the very challenge it was checked against,
/// changed only in being marked used: same id (so that challenge is the one
/// marked used), same user, same digest, same expiry.
pub proof fn law_accepted_challenge_is_marked_used(challenge: ChallengeRecord, now: int, submitted: Seq<char>)
    requires
        verification_outcome(Some(challenge), now, submitted) is Ok,
    ensures
        ({
            let r = verification_outcome(Some(challenge), now, submitted)->Ok_0;
            &&& r.id == challenge.id
            &&& r.user_id == challenge.user_id
            &&& r.code_hash == challenge.code_hash
            &&& r.expires_at == challenge.expires_at
            &&& r.used
            &&& !challenge.used
        }),
{
}

/// A code is accepted, and a token may follow, only for a challenge that
/// exists, is unused and unexpired, and holds the digest of the submitted code.
pub proof fn law_accepted_only_when_valid(challenge: Option<ChallengeRecord>, now: int, code: Seq<char>)
    requires
        verification_outcome(challenge, now, otp_digest(code)) is Ok,
    ensures
        challenge matches Some(c) && !c.used && now <= c.expires_at && otp_digest(code) == c.code_hash@,
{
}

/// Failed logins are answered `401 Unauthorized`; a wrong code is answered
/// `401 Unauthorized`, and a missing, used or expired challenge `400 Bad Request`.
pub proof fn law_refusal_statuses(challenge: Option<ChallengeRecord>, now: int, submitted: Seq<char>)
    ensures
        status_of(invalid_credentials()) == 401,
        verification_outcome(challenge, now, submitted) matches Err(e) ==> (
            (e == AppErrorView::Unauthorized("invalid code"@) && status_of(e) == 401)
            || (e is BadRequest && status_of(e) == 400)),
{
}

/// A code whose digest differs from the stored one is refused as unauthorized
/// by a challenge that is neither used nor expired.
pub proof fn law_wrong_code_rejected(challenge: ChallengeRecord, now: int, code: Seq<char>)
    requires
        !challenge.used,
        now <= challenge.expires_at,
        otp_digest(code) != challenge.code_hash@,
    ensures
        verification_outcome(Some(challenge), now, otp_digest(code)) == Err::<ChallengeRecord, AppErrorView>(
            AppErrorView::Unauthorized("invalid code"@),
        ),
{
}

} // verus!
