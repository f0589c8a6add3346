//! Creating the two users of the validation workflow: an administrator and a staff member.

use vstd::prelude::*;
use vstd::string::*;

use crate::auth::{argon2_matches, argon2id_prefix, hash_password};
use crate::text::has_prefix;
use crate::error::{AppError, AppErrorView};
use crate::handlers::auth::password_outcome;
use crate::ids::UuidBytes;
use crate::models::user::Role;

verus! {

/// A user as answered by seeding.
#[derive(Debug, PartialEq, Eq)]
pub struct SeedUser {
    pub id: UuidBytes,
    pub email: String,
    pub role: Role,
}

/// The two seeded users.
#[derive(Debug, PartialEq, Eq)]
pub struct SeedResponse {
    pub admin: SeedUser,
    pub james_bond: SeedUser,
}

/// A user account to make sure of: its name, email, password and role.
#[derive(Debug, PartialEq, Eq)]
pub struct SeedAccount {
    pub full_name: String,
    pub email: String,
    pub password: String,
    pub role: Role,
}

/// The administrator account.
pub fn admin_account() -> (a: SeedAccount)
    ensures
        a.full_name@ == "Admin"@,
        a.email@ == "admin@example.com"@,
        a.password@ == "AdminPass123!"@,
        a.role == Role::Admin,
{
    SeedAccount {
        full_name: String::from_str("Admin"),
        email: String::from_str("admin@example.com"),
        password: String::from_str("AdminPass123!"),
        role: Role::Admin,
    }
}

/// The staff account of James Bond.
pub fn james_bond_account() -> (a: SeedAccount)
    ensures
        a.full_name@ == "James Bond"@,
        a.email@ == "jamesbond@example.com"@,
        a.password@ == "Bond007!"@,
        a.role == Role::Staff,
{
    SeedAccount {
        full_name: String::from_str("James Bond"),
        email: String::from_str("jamesbond@example.com"),
        password: String::from_str("Bond007!"),
        role: Role::Staff,
    }
}

/// A user to insert: the account with its password hashed.
#[derive(Debug, PartialEq, Eq)]
pub struct NewUser {
    pub full_name: String,
    pub email: String,
    pub hashed_password: String,
    pub role: Role,
}

/// What seeding does for one account, given the user already stored under
/// its email, if any.
#[derive(Debug, PartialEq, Eq)]
pub enum UpsertStep {
    /// The user exists: answer it as stored, insert nothing.
    Existing(SeedUser),
    /// The user does not exist: insert it.
    Insert(NewUser),
}

/// `step` is what seeding does for `account` given the user already stored
/// under its email: an existing user is answered as stored; a missing one is
/// inserted with the account's fields and an Argon2id hash of its password
/// (which then verifies against it); hashing fails, as an internal error,
/// only for a password of 2^30 characters or more.
pub open spec fn is_upsert_step(
    account: SeedAccount,
    existing: Option<SeedUser>,
    step: Result<UpsertStep, AppError>,
) -> bool {
    match existing {
        Some(u) => step == Ok::<UpsertStep, AppError>(UpsertStep::Existing(u)),
        None => match step {
            Ok(UpsertStep::Insert(n)) => {
                &&& n.full_name@ == account.full_name@
                &&& n.email@ == account.email@
                &&& n.role == account.role
                &&& argon2_matches(account.password@, n.hashed_password@) == Some(true)
                &&& has_prefix(n.hashed_password@, argon2id_prefix())
            },
            Ok(UpsertStep::Existing(_)) => false,
            Err(e) => e@ is Internal && account.password@.len() >= 0x4000_0000,
        },
    }
}

/// Decides one account of the seeding: an existing user is kept and answered
/// as stored (nothing is hashed or inserted); a missing one is inserted with
/// its password hashed, so that the password passes the login check. Seeding
/// twice therefore answers the same users.
pub fn upsert_step(account: &SeedAccount, existing: Option<SeedUser>) -> (step: Result<UpsertStep, AppError>)
    ensures
        is_upsert_step(*account, existing, step),
{
    match existing {
        Some(u) => Ok(UpsertStep::Existing(u)),
        None => {
            let hashed_password = hash_password(account.password.as_str())?;
            Ok(UpsertStep::Insert(NewUser {
                full_name: account.full_name.clone(),
                email: account.email.clone(),
                hashed_password,
                role: account.role,
            }))
        }
    }
}

/// A seeded user can log in with the account's password: the hash stored for
/// it makes the login's password check pass.
pub proof fn law_seeded_password_passes_login(password: Seq<char>, hashed: Seq<char>)
    requires
        argon2_matches(password, hashed) == Some(true),
    ensures
        argon2_matches(password, hashed) matches Some(b) && password_outcome(b) == Ok::<(), AppErrorView>(()),
{
}

/// The stored hash is never the password itself, for any password that does
/// not start with `$argon2id$v=19$`, as every stored hash does.
pub proof fn law_stored_hash_differs_from_password(password: Seq<char>, hashed: Seq<char>)
    requires
        has_prefix(hashed, argon2id_prefix()),
        !has_prefix(password, argon2id_prefix()),
    ensures
        hashed != password,
{
}

/// Seeding a workflow account that is not stored yet inserts it, with a hash
/// that is not the password: the passwords are short, so hashing cannot fail.
pub proof fn law_seeding_inserts_missing_accounts(account: SeedAccount, step: Result<UpsertStep, AppError>)
    requires
        account.password@ == "AdminPass123!"@ || account.password@ == "Bond007!"@,
        is_upsert_step(account, None, step),
    ensures
        step matches Ok(UpsertStep::Insert(n)) && n.email@ == account.email@ && n.role == account.role
            && n.hashed_password@ != account.password@,
{
    reveal_strlit("AdminPass123!");
    reveal_strlit("Bond007!");
    reveal_strlit("$argon2id$v=19$");
    assert(!has_prefix(account.password@, argon2id_prefix())) by {
        if has_prefix(account.password@, argon2id_prefix()) {
            assert(account.password@.subrange(0, argon2id_prefix().len() as int)[0] == account.password@[0]);
        }
    }
    if let Ok(UpsertStep::Insert(n)) = step {
        law_stored_hash_differs_from_password(account.password@, n.hashed_password@);
    }
}

} // verus!
