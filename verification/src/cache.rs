//! The per-user task cache: its keys, its time to live, and what a lookup yields.

use vstd::prelude::*;
use vstd::string::*;

use crate::error::{AppError, AppErrorView};
use crate::ids::{hyphenated, lemma_hyphenated_injective, uuid_to_string, UuidBytes};

verus! {

/// How long a cached task list lives, in seconds.
pub const TASK_CACHE_TTL_SECS: u64 = 300;

/// The cache key under which a user's task list is stored:
/// `tasks:user:` followed by the user's id in hyphenated form.
pub open spec fn cache_key_of(user_id: Seq<u8>) -> Seq<char> {
    "tasks:user:"@ + hyphenated(user_id)
}

/// The cache key of a user's task list.
pub fn task_cache_key(user_id: UuidBytes) -> (key: String)
    ensures
        key@ == cache_key_of(user_id@),
{
    let mut key = String::from_str("tasks:user:");
    let id = uuid_to_string(user_id);
    key.append(id.as_str());
    key
}

/// Two users never share a cache key, so invalidating one user's task list
/// leaves every other user's cached list in place.
pub proof fn lemma_cache_key_injective(a: UuidBytes, b: UuidBytes)
    requires
        cache_key_of(a@) == cache_key_of(b@),
    ensures
        a == b,
{
    reveal_strlit("tasks:user:");
    let pre = "tasks:user:"@;
    assert(pre.len() == 11);
    assert(hyphenated(a@) =~= cache_key_of(a@).skip(11));
    assert(hyphenated(b@) =~= cache_key_of(b@).skip(11));
    lemma_hyphenated_injective(a@, b@);
    assert(a@ == b@);
    assert(a =~= b);
}

/// What a cache lookup yields, given the stored entry decoded (or the error
/// message of a failed decoding): nothing stored gives `None`, a decoded value
/// gives that value, and an entry that does not decode is an internal error.
pub fn lookup_outcome<T>(decoded: Option<Result<T, String>>) -> (out: Result<Option<T>, AppError>)
    ensures
        match decoded {
            None => out == Ok::<Option<T>, AppError>(None),
            Some(Ok(v)) => out == Ok::<Option<T>, AppError>(Some(v)),
            Some(Err(m)) => out matches Err(e) && e@ == AppErrorView::Internal(m@),
        },
{
    match decoded {
        None => Ok(None),
        Some(Ok(v)) => Ok(Some(v)),
        Some(Err(m)) => Err(AppError::Internal(m)),
    }
}

} // verus!
