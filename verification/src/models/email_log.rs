//! Records of the verification emails the service sends.

use vstd::prelude::*;

use crate::ids::UuidBytes;

verus! {

/// One email, as stored in the development email log.
#[derive(Debug, PartialEq, Eq)]
pub struct EmailLog {
    pub id: UuidBytes,
    pub recipient: String,
    pub subject: String,
    pub body: String,
    /// When it was sent, in microseconds since the Unix epoch.
    pub sent_at: i64,
}

} // verus!
