//! Reading the bearer token of a request.

use vstd::prelude::*;
use vstd::string::*;

use crate::auth::{claims_view, token_outcome, verify_jwt, Claims};
use crate::error::{AppError, AppErrorView};
use crate::models::user::Role;
use crate::text::{has_prefix, strip_prefix};

verus! {

/// The authenticated user of a request, known from its access token.
#[derive(Debug, PartialEq, Eq)]
pub struct AuthUser(pub Claims);

/// The outcome of reading an `Authorization` header (absent, or not
/// readable as text, is `None`): the token after `Bearer `, or why there is none.
pub open spec fn bearer_outcome(header: Option<Seq<char>>) -> Result<Seq<char>, AppErrorView> {
    match header {
        None => Err(AppErrorView::Unauthorized("missing Authorization header"@)),
        Some(h) => if has_prefix(h, "Bearer "@) {
            Ok(h.skip("Bearer "@.len() as int))
        } else {
            Err(AppErrorView::Unauthorized("expected Bearer token"@))
        },
    }
}

/// The token of an `Authorization` header of the form `Bearer <token>`.
pub fn bearer_token<'a>(header: Option<&'a str>) -> (out: Result<&'a str, AppError>)
    ensures
        match out {
            Ok(t) => bearer_outcome(
                match header {
                    Some(h) => Some(h@),
                    None => None,
                },
            ) == Ok::<Seq<char>, AppErrorView>(t@),
            Err(e) => bearer_outcome(
                match header {
                    Some(h) => Some(h@),
                    None => None,
                },
            ) == Err::<Seq<char>, AppErrorView>(e@),
        },
{
    match header {
        None => Err(AppError::Unauthorized(String::from_str("missing Authorization header"))),
        Some(h) => match strip_prefix(h, "Bearer ") {
            Some(token) => Ok(token),
            None => Err(AppError::Unauthorized(String::from_str("expected Bearer token"))),
        },
    }
}

/// Who a request comes from, given its `Authorization` header (absent or not
/// text: `None`), at time `now` (seconds): the bearer token's claims, or why
/// the request is refused.
pub open spec fn request_identity(header: Option<Seq<char>>, secret: Seq<char>, now: u64) -> Result<
    (Seq<u8>, Seq<char>, Role),
    AppErrorView,
> {
    match bearer_outcome(header) {
        Err(e) => Err(e),
        Ok(token) => token_outcome(token, secret, now),
    }
}

/// Authenticates a request by its `Authorization` header at time `now_secs`.
pub fn authenticate(header: Option<&str>, secret: &str, now_secs: u64) -> (who: Result<AuthUser, AppError>)
    ensures
        match who {
            Ok(u) => claims_view(Ok::<Claims, AppError>(u.0)) == request_identity(
                match header {
                    Some(h) => Some(h@),
                    None => None,
                },
                secret@,
                now_secs,
            ),
            Err(e) => Err::<(Seq<u8>, Seq<char>, Role), AppErrorView>(e@) == request_identity(
                match header {
                    Some(h) => Some(h@),
                    None => None,
                },
                secret@,
                now_secs,
            ),
        },
{
    let token = bearer_token(header)?;
    let claims = verify_jwt(token, secret, now_secs)?;
    Ok(AuthUser(claims))
}

/// A token issued to a user authenticates that user's requests, sent as
/// `Bearer <token>`, until it expires.
pub proof fn law_issued_token_authenticates(
    token: Seq<char>,
    secret: Seq<char>,
    user: (Seq<u8>, Seq<char>, Role),
    expires: u64,
    now: u64,
)
    requires
        forall|t: u64| t < expires ==> #[trigger] token_outcome(token, secret, t) == Ok::<
            (Seq<u8>, Seq<char>, Role),
            AppErrorView,
        >(user),
        now < expires,
    ensures
        request_identity(Some("Bearer "@ + token), secret, now) == Ok::<
            (Seq<u8>, Seq<char>, Role),
            AppErrorView,
        >(user),
{
    let header = "Bearer "@ + token;
    assert(header.subrange(0, "Bearer "@.len() as int) =~= "Bearer "@);
    assert(header.skip("Bearer "@.len() as int) =~= token);
    assert(token_outcome(token, secret, now) == Ok::<(Seq<u8>, Seq<char>, Role), AppErrorView>(user));
}

} // verus!
