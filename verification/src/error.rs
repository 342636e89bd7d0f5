//! The library's error taxonomy: transport failures, framing faults, field
//! errors in typed conversions, and server-reported failures.

use vstd::prelude::*;

verus! {

use crate::response::{RawResponse, ResponseCode};

/// Everything a library operation can fail with.
#[derive(Debug, PartialEq, Eq)]
pub enum NntpError {
    /// An underlying read, write or connect failed.
    Io,
    /// A configured duration elapsed before an operation completed; the
    /// connection is no longer protocol-synchronized.
    Timeout,
    /// The status line did not start with a 3-digit code.
    MalformedStatusLine,
    /// The input ended before a line terminator, or before the body's
    /// terminating lone-dot line.
    PrematureEnd,
    /// A compressed response body could not be inflated.
    Deflate,
    /// A typed conversion did not find the named field.
    MissingField(String),
    /// A typed conversion found the named field but could not parse it.
    InvalidField(String),
    /// A well-formed reply whose code was not what the caller expected.
    Failure { code: ResponseCode, msg: Option<String>, resp: RawResponse },
}

impl NntpError {
    /// A server-reported failure with no extra message.
    pub fn failure(resp: RawResponse) -> (r: NntpError)
        ensures
            r == (NntpError::Failure {
                code: ResponseCode::spec_from(resp.code as u32),
                msg: None::<String>,
                resp,
            }),
    {
        let code = resp.code();
        NntpError::Failure { code, msg: None, resp }
    }
}

} // verus!
