//! The development view of the email log.

use vstd::prelude::*;
use vstd::string::*;

use crate::error::{AppError, AppErrorView};
use crate::models::email_log::EmailLog;

verus! {

/// The latest logged email, or not found when the log is empty.
pub fn latest_email_outcome(latest: Option<EmailLog>) -> (out: Result<EmailLog, AppError>)
    ensures
        match latest {
            Some(log) => out == Ok::<EmailLog, AppError>(log),
            None => out matches Err(e) && e@ == AppErrorView::NotFound("no email logs found"@),
        },
{
    match latest {
        Some(log) => Ok(log),
        None => Err(AppError::NotFound(String::from_str("no email logs found"))),
    }
}

} // verus!
