//! The rules of the HTTP surface that sits in front of the client: who may
//! issue commands, which status an outcome is answered with, and how many
//! top tracks a caller gets who names no number.

use crate::step::{CommandError, FetchError};
use vstd::prelude::*;

verus! {

/// The status of an answer that carries what was asked for.
pub const STATUS_OK: u16 = 200;

/// The status of an answer to a query that yielded nothing.
pub const STATUS_NO_CONTENT: u16 = 204;

/// The status of an answer to a caller that may not issue commands.
pub const STATUS_UNAUTHORIZED: u16 = 401;

/// The status of an answer to a command that failed.
pub const STATUS_INTERNAL_SERVER_ERROR: u16 = 500;

/// How many top tracks are served where the caller names no limit.
pub const DEFAULT_TOP_SONGS_LIMIT: usize = 4;

/// The number of top tracks to serve: the caller's limit, or the default
/// where the caller named none.
pub fn limit_or_default(limit: Option<usize>) -> (n: usize)
    ensures
        n == match limit {
            Some(wanted) => wanted,
            None => DEFAULT_TOP_SONGS_LIMIT,
        },
{
    match limit {
        Some(wanted) => wanted,
        None => DEFAULT_TOP_SONGS_LIMIT,
    }
}

/// Whether two byte strings are the same.
pub fn same_bytes(a: &[u8], b: &[u8]) -> (same: bool)
    ensures
        same == (a@ == b@),
{
    if a.len() != b.len() {
        return false;
    }
    let mut i: usize = 0;
    while i < a.len()
        invariant
            i <= a.len(),
            a.len() == b.len(),
            forall|j: int| 0 <= j < i ==> a@[j] == b@[j],
        decreases a.len() - i,
    {
        if a[i] != b[i] {
            return false;
        }
        i += 1;
    }
    assert(a@ =~= b@);
    true
}

/// A caller may issue commands if it presents an `authorization` header
/// whose value is, byte for byte, the configured secret.
pub fn authorized(presented: Option<&[u8]>, secret: &[u8]) -> (yes: bool)
    ensures
        yes == (presented matches Some(value) && value@ == secret@),
{
    match presented {
        Some(value) => same_bytes(value, secret),
        None => false,
    }
}

/// The status of the answer to a query: 200 with the value, and 204 with an
/// empty body for every kind of failure.
pub fn query_status<T>(outcome: &Result<T, FetchError>) -> (status: u16)
    ensures
        status == if outcome is Ok {
            STATUS_OK
        } else {
            STATUS_NO_CONTENT
        },
{
    match outcome {
        Ok(_) => STATUS_OK,
        Err(_) => STATUS_NO_CONTENT,
    }
}

/// The status with which a command is turned away before it is run: 401
/// for a caller that is not authorized, none for one that is.
pub fn refusal(presented: Option<&[u8]>, secret: &[u8]) -> (status: Option<u16>)
    ensures
        status == if presented matches Some(value) && value@ == secret@ {
            None
        } else {
            Some(STATUS_UNAUTHORIZED)
        },
{
    if authorized(presented, secret) {
        None
    } else {
        Some(STATUS_UNAUTHORIZED)
    }
}

/// The status of the answer to a command that was run: 200 where it was
/// carried out, 500 for every kind of failure.
pub fn command_status(outcome: &Result<(), CommandError>) -> (status: u16)
    ensures
        status == if outcome is Ok {
            STATUS_OK
        } else {
            STATUS_INTERNAL_SERVER_ERROR
        },
{
    match outcome {
        Ok(_) => STATUS_OK,
        Err(_) => STATUS_INTERNAL_SERVER_ERROR,
    }
}

} // verus!
