//! Wire responses: the numeric status code, its semantic classification, and
//! the raw line data of one complete protocol reply.

use vstd::prelude::*;

verus! {

use crate::bytes::subvec;
use crate::error::NntpError;
use crate::text::{bytes_to_string_lossy, lossy_decode};

/// Semantic meaning of a status code the library understands.
#[derive(Clone, Copy, Debug, PartialEq, Eq, Structural)]
pub enum Kind {
    /// 101: the capability list follows.
    Capabilities,
    /// 200: service available, posting allowed.
    PostingAllowed,
    /// 201: service available, posting not permitted.
    PostingNotPermitted,
    /// 205: the server is closing the connection.
    ConnectionClosing,
    /// 211: a newsgroup was selected.
    GroupSelected,
    /// 220: the full article follows.
    Article,
    /// 221: the article headers follow.
    Head,
    /// 222: the article body follows.
    Body,
    /// 223: the article exists.
    ArticleExists,
    /// 281: authentication accepted.
    AuthenticationAccepted,
    /// 381: more authentication input required.
    MoreAuthenticationRequired,
    /// 400: service temporarily unavailable.
    TemporarilyUnavailable,
    /// 411: no such newsgroup.
    NoSuchNewsgroup,
    /// 420: no current article selected.
    InvalidCurrentArticleNumber,
    /// 423: no article with that number.
    NoArticleWithNumber,
    /// 430: no article with that message-id.
    NoArticleWithMessageId,
    /// 502: service permanently unavailable.
    PermanentlyUnavailable,
}

/// A status code: either one the lookup table knows, or any other number.
#[derive(Clone, Copy, Debug, PartialEq, Eq, Structural)]
pub enum ResponseCode {
    Known(Kind),
    Unknown(u32),
}

/// The lookup table: which numeric codes mean which [`Kind`].
pub open spec fn kind_of_code(code: u32) -> Option<Kind> {
    if code == 101 {
        Some(Kind::Capabilities)
    } else if code == 200 {
        Some(Kind::PostingAllowed)
    } else if code == 201 {
        Some(Kind::PostingNotPermitted)
    } else if code == 205 {
        Some(Kind::ConnectionClosing)
    } else if code == 211 {
        Some(Kind::GroupSelected)
    } else if code == 220 {
        Some(Kind::Article)
    } else if code == 221 {
        Some(Kind::Head)
    } else if code == 222 {
        Some(Kind::Body)
    } else if code == 223 {
        Some(Kind::ArticleExists)
    } else if code == 281 {
        Some(Kind::AuthenticationAccepted)
    } else if code == 381 {
        Some(Kind::MoreAuthenticationRequired)
    } else if code == 400 {
        Some(Kind::TemporarilyUnavailable)
    } else if code == 411 {
        Some(Kind::NoSuchNewsgroup)
    } else if code == 420 {
        Some(Kind::InvalidCurrentArticleNumber)
    } else if code == 423 {
        Some(Kind::NoArticleWithNumber)
    } else if code == 430 {
        Some(Kind::NoArticleWithMessageId)
    } else if code == 502 {
        Some(Kind::PermanentlyUnavailable)
    } else {
        None
    }
}

impl ResponseCode {
    /// What [`ResponseCode::from`] returns: `Known` for every code in the
    /// lookup table, `Unknown` for every other number.
    pub open spec fn spec_from(code: u32) -> ResponseCode {
        match kind_of_code(code) {
            Some(k) => ResponseCode::Known(k),
            None => ResponseCode::Unknown(code),
        }
    }

    /// Total, pure classification of a numeric status code.
    pub fn from(code: u32) -> (r: ResponseCode)
        ensures
            r == ResponseCode::spec_from(code),
    {
        if code == 101 {
            ResponseCode::Known(Kind::Capabilities)
        } else if code == 200 {
            ResponseCode::Known(Kind::PostingAllowed)
        } else if code == 201 {
            ResponseCode::Known(Kind::PostingNotPermitted)
        } else if code == 205 {
            ResponseCode::Known(Kind::ConnectionClosing)
        } else if code == 211 {
            ResponseCode::Known(Kind::GroupSelected)
        } else if code == 220 {
            ResponseCode::Known(Kind::Article)
        } else if code == 221 {
            ResponseCode::Known(Kind::Head)
        } else if code == 222 {
            ResponseCode::Known(Kind::Body)
        } else if code == 223 {
            ResponseCode::Known(Kind::ArticleExists)
        } else if code == 281 {
            ResponseCode::Known(Kind::AuthenticationAccepted)
        } else if code == 381 {
            ResponseCode::Known(Kind::MoreAuthenticationRequired)
        } else if code == 400 {
            ResponseCode::Known(Kind::TemporarilyUnavailable)
        } else if code == 411 {
            ResponseCode::Known(Kind::NoSuchNewsgroup)
        } else if code == 420 {
            ResponseCode::Known(Kind::InvalidCurrentArticleNumber)
        } else if code == 423 {
            ResponseCode::Known(Kind::NoArticleWithNumber)
        } else if code == 430 {
            ResponseCode::Known(Kind::NoArticleWithMessageId)
        } else if code == 502 {
            ResponseCode::Known(Kind::PermanentlyUnavailable)
        } else {
            ResponseCode::Unknown(code)
        }
    }
}

/// The first line of a reply with the status code (and the space after it)
/// stripped.
pub open spec fn spec_strip_code(line: Seq<u8>) -> Seq<u8> {
    if line.len() >= 4 && line[3] == 32 {
        line.subrange(4, line.len() as int)
    } else if line.len() >= 3 {
        line.subrange(3, line.len() as int)
    } else {
        line
    }
}

/// Mathematical shape of one complete reply.
pub ghost struct RespView {
    /// The numeric status code.
    pub code: int,
    /// The reply's lines, terminators stripped and body lines dot-unstuffed;
    /// the first holds the status line.
    pub lines: Seq<Seq<u8>>,
}

impl RespView {
    /// Every reply the framing layer hands out satisfies this.
    pub open spec fn wf(self) -> bool {
        100 <= self.code <= 599 && self.lines.len() >= 1
    }
}

/// One complete reply: the 3-digit status code and the raw lines, the first
/// being the status line and the rest the dot-unstuffed body.
#[derive(Debug, PartialEq, Eq)]
pub struct RawResponse {
    pub code: u16,
    pub lines: Vec<Vec<u8>>,
}

impl View for RawResponse {
    type V = RespView;

    open spec fn view(&self) -> RespView {
        RespView { code: self.code as int, lines: self.lines.deep_view() }
    }
}

impl RawResponse {
    /// The reply's code, classified through the lookup table.
    pub fn code(&self) -> (r: ResponseCode)
        ensures
            r == ResponseCode::spec_from(self.code as u32),
    {
        ResponseCode::from(self.code as u32)
    }

    /// The status line, exactly as received (terminator stripped).
    pub fn first_line(&self) -> (r: &Vec<u8>)
        requires
            self@.wf(),
        ensures
            r@ == self@.lines[0],
    {
        proof {
            assert(self@.lines[0] =~= self.lines@[0]@);
        }
        &self.lines[0]
    }

    /// The status line with the leading code stripped.
    pub fn first_line_without_code(&self) -> (r: Vec<u8>)
        requires
            self@.wf(),
        ensures
            r@ == spec_strip_code(self@.lines[0]),
    {
        proof {
            assert(self@.lines[0] =~= self.lines@[0]@);
        }
        let line = &self.lines[0];
        if line.len() >= 4 && line[3] == 32 {
            subvec(line, 4, line.len())
        } else if line.len() >= 3 {
            subvec(line, 3, line.len())
        } else {
            subvec(line, 0, line.len())
        }
    }

    /// A lossily decoded view of the status line.
    pub fn first_line_to_utf8_lossy(&self) -> (r: String)
        requires
            self@.wf(),
        ensures
            r@ == lossy_decode(self@.lines[0]),
    {
        proof {
            assert(self@.lines[0] =~= self.lines@[0]@);
        }
        bytes_to_string_lossy(&self.lines[0])
    }

    /// A fresh copy of the reply, line for line.
    pub fn duplicate(&self) -> (r: RawResponse)
        ensures
            r@ == self@,
    {
        let mut lines: Vec<Vec<u8>> = Vec::new();
        let mut i: usize = 0;
        while i < self.lines.len()
            invariant
                0 <= i <= self.lines@.len(),
                lines.deep_view() =~~= self.lines.deep_view().subrange(0, i as int),
            decreases self.lines@.len() - i,
        {
            lines.push(crate::bytes::copy_bytes(&self.lines[i]));
            i = i + 1;
        }
        proof {
            assert(lines.deep_view() =~~= self.lines.deep_view());
        }
        RawResponse { code: self.code, lines }
    }

    /// Validation combinator: the reply itself if its code means `expected`,
    /// else a failure carrying the code and the reply, with no message.
    pub fn fail_unless(self, expected: Kind) -> (r: Result<RawResponse, NntpError>)
        ensures
            ResponseCode::spec_from(self.code as u32) == ResponseCode::Known(expected) ==> r
                == Ok::<RawResponse, NntpError>(self),
            ResponseCode::spec_from(self.code as u32) != ResponseCode::Known(expected) ==> r
                == Err::<RawResponse, NntpError>(
                NntpError::Failure {
                    code: ResponseCode::spec_from(self.code as u32),
                    msg: None,
                    resp: self,
                },
            ),
    {
        let code = ResponseCode::from(self.code as u32);
        let matches_expected = match code {
            ResponseCode::Known(k) => k == expected,
            ResponseCode::Unknown(_) => false,
        };
        if matches_expected {
            Ok(self)
        } else {
            Err(NntpError::Failure { code, msg: None, resp: self })
        }
    }
}

} // verus!
