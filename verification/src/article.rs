//! Typed views of article replies: status probes, header and body blocks,
//! and full articles with fallible or lossy text conversion.

use vstd::prelude::*;

verus! {

use vstd::utf8::{decode_utf8, valid_utf8};

use crate::bytes::{copy_bytes, parse_u32, spec_parse_u32, spec_tokens, tokenize};
use crate::error::NntpError;
use crate::response::{Kind, RawResponse, ResponseCode};
use crate::text::{bytes_to_string, bytes_to_string_lossy, lossy_decode};

/// The article number and message-id every `22x` status line carries after
/// its code: defined when both fields are present and the number parses.
/// The message-id is decoded lossily, as the whole status line is a
/// lossily-decoded view.
pub open spec fn spec_article_fields(line: Seq<u8>) -> Option<(u32, Seq<char>)> {
    let toks = spec_tokens(line);
    if toks.len() >= 3 && spec_parse_u32(toks[1]) is Some {
        Some((spec_parse_u32(toks[1]).unwrap(), lossy_decode(toks[2])))
    } else {
        None
    }
}

/// Which field a missing-field error on an article status line names.
pub open spec fn spec_article_missing(line: Seq<u8>, f: Seq<char>) -> bool {
    let toks = spec_tokens(line);
    ||| (toks.len() == 0 && f == "response code"@)
    ||| (toks.len() == 1 && f == "number"@)
    ||| (toks.len() == 2 && f == "message-id"@)
}

/// Which field an invalid-field error on an article status line names: only
/// the article number, the one field that must parse.
pub open spec fn spec_article_invalid(line: Seq<u8>, f: Seq<char>) -> bool {
    let toks = spec_tokens(line);
    toks.len() >= 3 && spec_parse_u32(toks[1]) is None && f == "number"@
}

/// Parses the article number and message-id off a reply's status line.
fn parse_article_fields(resp: &RawResponse) -> (r: Result<(u32, String), NntpError>)
    requires
        resp@.wf(),
    ensures
        (match r {
            Ok((n, id)) => spec_article_fields(resp@.lines[0]) == Some((n, id@)),
            Err(e) => match e {
                NntpError::MissingField(f) => spec_article_missing(resp@.lines[0], f@),
                NntpError::InvalidField(f) => spec_article_invalid(resp@.lines[0], f@),
                _ => false,
            },
        }),
{
    let line = resp.first_line();
    let toks = tokenize(line);
    proof {
        assert(toks.deep_view() == spec_tokens(resp@.lines[0]));
    }
    if toks.len() == 0 {
        return Err(NntpError::MissingField("response code".to_owned()));
    }
    if toks.len() == 1 {
        return Err(NntpError::MissingField("number".to_owned()));
    }
    if toks.len() == 2 {
        return Err(NntpError::MissingField("message-id".to_owned()));
    }
    proof {
        assert(toks@[1]@ =~= toks.deep_view()[1]);
        assert(toks@[2]@ =~= toks.deep_view()[2]);
    }
    let number = match parse_u32(&toks[1]) {
        Some(v) => v,
        None => {
            return Err(NntpError::InvalidField("number".to_owned()));
        },
    };
    let id = bytes_to_string_lossy(&toks[2]);
    Ok((number, id))
}

/// A fresh copy of a reply's body lines (everything after the status line).
fn copy_body_lines(resp: &RawResponse) -> (r: Vec<Vec<u8>>)
    requires
        resp@.wf(),
    ensures
        r.deep_view() == resp@.lines.drop_first(),
{
    let mut out: Vec<Vec<u8>> = Vec::new();
    let mut i: usize = 1;
    while i < resp.lines.len()
        invariant
            resp@.wf(),
            1 <= i <= resp@.lines.len(),
            out.deep_view() =~~= resp@.lines.subrange(1, i as int),
        decreases resp@.lines.len() - i,
    {
        proof {
            assert(resp.lines@[i as int]@ =~= resp@.lines[i as int]);
        }
        let ghost prev = out.deep_view();
        out.push(copy_bytes(&resp.lines[i]));
        proof {
            assert(out.deep_view() =~~= prev.push(resp@.lines[i as int]));
            assert(prev.push(resp@.lines[i as int]) =~~= resp@.lines.subrange(1, i + 1));
        }
        i = i + 1;
    }
    proof {
        assert(out.deep_view() =~~= resp@.lines.drop_first());
    }
    out
}

/// The status of one article: it exists, under this number and message-id.
#[derive(Clone, Debug, PartialEq, Eq)]
pub struct Stat {
    pub number: u32,
    pub message_id: String,
}

/// Mathematical shape of an article-content reply.
pub ghost struct ArticleView {
    pub number: int,
    pub message_id: Seq<char>,
    pub lines: Seq<Seq<u8>>,
}

/// A full article as raw bytes: headers, separator and body lines as
/// received (dot-unstuffed).
#[derive(Clone, Debug, PartialEq, Eq)]
pub struct BinaryArticle {
    pub number: u32,
    pub message_id: String,
    pub lines: Vec<Vec<u8>>,
}

impl View for BinaryArticle {
    type V = ArticleView;

    open spec fn view(&self) -> ArticleView {
        ArticleView {
            number: self.number as int,
            message_id: self.message_id@,
            lines: self.lines.deep_view(),
        }
    }
}

/// Mathematical shape of a text article.
pub ghost struct TextView {
    pub number: int,
    pub message_id: Seq<char>,
    pub lines: Seq<Seq<char>>,
}

/// An article whose lines are strings.
#[derive(Clone, Debug, PartialEq, Eq)]
pub struct TextArticle {
    pub number: u32,
    pub message_id: String,
    pub lines: Vec<String>,
}

impl View for TextArticle {
    type V = TextView;

    open spec fn view(&self) -> TextView {
        TextView {
            number: self.number as int,
            message_id: self.message_id@,
            lines: self.lines.deep_view(),
        }
    }
}

/// The headers of one article, as raw header lines.
#[derive(Clone, Debug, PartialEq, Eq)]
pub struct Head {
    pub number: u32,
    pub message_id: String,
    pub lines: Vec<Vec<u8>>,
}

impl View for Head {
    type V = ArticleView;

    open spec fn view(&self) -> ArticleView {
        ArticleView {
            number: self.number as int,
            message_id: self.message_id@,
            lines: self.lines.deep_view(),
        }
    }
}

/// The body of one article, as raw body lines.
#[derive(Clone, Debug, PartialEq, Eq)]
pub struct Body {
    pub number: u32,
    pub message_id: String,
    pub lines: Vec<Vec<u8>>,
}

impl View for Body {
    type V = ArticleView;

    open spec fn view(&self) -> ArticleView {
        ArticleView {
            number: self.number as int,
            message_id: self.message_id@,
            lines: self.lines.deep_view(),
        }
    }
}

/// The conversion errors shared by every `22x` narrowing: wrong code, or a
/// bad status line.
pub open spec fn spec_narrow_err(resp: RawResponse, expected: Kind, e: NntpError) -> bool {
    let known = ResponseCode::spec_from(resp.code as u32);
    match e {
        NntpError::Failure { code, msg, resp: r2 } => {
            &&& known != ResponseCode::Known(expected)
            &&& code == known
            &&& msg is None
            &&& r2@ == resp@
        },
        NntpError::MissingField(f) => {
            &&& known == ResponseCode::Known(expected)
            &&& spec_article_missing(resp@.lines[0], f@)
        },
        NntpError::InvalidField(f) => {
            &&& known == ResponseCode::Known(expected)
            &&& spec_article_invalid(resp@.lines[0], f@)
        },
        _ => false,
    }
}

impl Stat {
    /// Narrows a reply to an article-exists probe result.
    pub fn try_from(resp: &RawResponse) -> (r: Result<Stat, NntpError>)
        requires
            resp@.wf(),
        ensures
            (match r {
                Ok(s) => ResponseCode::spec_from(resp.code as u32) == ResponseCode::Known(
                    Kind::ArticleExists,
                ) && spec_article_fields(resp@.lines[0]) == Some((s.number, s.message_id@)),
                Err(e) => spec_narrow_err(*resp, Kind::ArticleExists, e),
            }),
    {
        match resp.code() {
            ResponseCode::Known(Kind::ArticleExists) => (),
            code => {
                return Err(NntpError::Failure { code, msg: None, resp: resp.duplicate() });
            },
        }
        let (number, message_id) = match parse_article_fields(resp) {
            Ok(p) => p,
            Err(e) => {
                return Err(e);
            },
        };
        Ok(Stat { number, message_id })
    }
}

impl BinaryArticle {
    /// Narrows a reply to a full article.
    pub fn try_from(resp: &RawResponse) -> (r: Result<BinaryArticle, NntpError>)
        requires
            resp@.wf(),
        ensures
            (match r {
                Ok(a) => ResponseCode::spec_from(resp.code as u32) == ResponseCode::Known(
                    Kind::Article,
                ) && spec_article_fields(resp@.lines[0]) == Some((a.number, a.message_id@))
                    && a@.lines == resp@.lines.drop_first(),
                Err(e) => spec_narrow_err(*resp, Kind::Article, e),
            }),
    {
        match resp.code() {
            ResponseCode::Known(Kind::Article) => (),
            code => {
                return Err(NntpError::Failure { code, msg: None, resp: resp.duplicate() });
            },
        }
        let (number, message_id) = match parse_article_fields(resp) {
            Ok(p) => p,
            Err(e) => {
                return Err(e);
            },
        };
        let lines = copy_body_lines(resp);
        Ok(BinaryArticle { number, message_id, lines })
    }

    /// The article with every line decoded as UTF-8; fails on the first line
    /// that is not valid UTF-8.
    pub fn to_text(&self) -> (r: Result<TextArticle, NntpError>)
        ensures
            (match r {
                Ok(t) => {
                    &&& t@.number == self@.number
                    &&& t@.message_id == self@.message_id
                    &&& t@.lines.len() == self@.lines.len()
                    &&& forall|i: int|
                        0 <= i < self@.lines.len() ==> valid_utf8(#[trigger] self@.lines[i])
                            && t@.lines[i] == decode_utf8(self@.lines[i])
                },
                Err(e) => e matches NntpError::InvalidField(f) && f@ == "body"@ && exists|i: int|
                    0 <= i < self@.lines.len() && !valid_utf8(#[trigger] self@.lines[i]),
            }),
    {
        let mut lines: Vec<String> = Vec::new();
        let mut i: usize = 0;
        while i < self.lines.len()
            invariant
                0 <= i <= self@.lines.len(),
                lines@.len() == i,
                forall|j: int|
                    0 <= j < i ==> valid_utf8(#[trigger] self@.lines[j]) && lines.deep_view()[j]
                        == decode_utf8(self@.lines[j]),
            decreases self@.lines.len() - i,
        {
            proof {
                assert(self.lines@[i as int]@ =~= self@.lines[i as int]);
            }
            let s = match bytes_to_string(copy_bytes(&self.lines[i])) {
                Some(s) => s,
                None => {
                    proof {
                        assert(!valid_utf8(self@.lines[i as int]));
                    }
                    return Err(NntpError::InvalidField("body".to_owned()));
                },
            };
            lines.push(s);
            i = i + 1;
        }
        Ok(TextArticle { number: self.number, message_id: self.message_id.clone(), lines })
    }

    /// The article decoded lossily: always succeeds, substituting
    /// replacement characters for invalid bytes. On lines that are valid
    /// UTF-8 it agrees with the checked conversion.
    pub fn to_text_lossy(&self) -> (r: TextArticle)
        ensures
            r@.number == self@.number,
            r@.message_id == self@.message_id,
            r@.lines.len() == self@.lines.len(),
            forall|i: int|
                0 <= i < self@.lines.len() ==> r@.lines[i] == lossy_decode(
                    #[trigger] self@.lines[i],
                ),
            forall|i: int|
                0 <= i < self@.lines.len() && valid_utf8(#[trigger] self@.lines[i]) ==> r@.lines[i]
                    == decode_utf8(self@.lines[i]),
    {
        let mut lines: Vec<String> = Vec::new();
        let mut i: usize = 0;
        while i < self.lines.len()
            invariant
                0 <= i <= self@.lines.len(),
                lines@.len() == i,
                forall|j: int|
                    0 <= j < i ==> lines.deep_view()[j] == lossy_decode(#[trigger] self@.lines[j]),
                forall|j: int|
                    0 <= j < i && valid_utf8(#[trigger] self@.lines[j]) ==> lines.deep_view()[j]
                        == decode_utf8(self@.lines[j]),
            decreases self@.lines.len() - i,
        {
            proof {
                assert(self.lines@[i as int]@ =~= self@.lines[i as int]);
            }
            let s = bytes_to_string_lossy(&self.lines[i]);
            lines.push(s);
            i = i + 1;
        }
        TextArticle { number: self.number, message_id: self.message_id.clone(), lines }
    }
}

impl Head {
    /// Narrows a reply to an article's header block.
    pub fn try_from(resp: &RawResponse) -> (r: Result<Head, NntpError>)
        requires
            resp@.wf(),
        ensures
            (match r {
                Ok(h) => ResponseCode::spec_from(resp.code as u32) == ResponseCode::Known(
                    Kind::Head,
                ) && spec_article_fields(resp@.lines[0]) == Some((h.number, h.message_id@))
                    && h@.lines == resp@.lines.drop_first(),
                Err(e) => spec_narrow_err(*resp, Kind::Head, e),
            }),
    {
        match resp.code() {
            ResponseCode::Known(Kind::Head) => (),
            code => {
                return Err(NntpError::Failure { code, msg: None, resp: resp.duplicate() });
            },
        }
        let (number, message_id) = match parse_article_fields(resp) {
            Ok(p) => p,
            Err(e) => {
                return Err(e);
            },
        };
        let lines = copy_body_lines(resp);
        Ok(Head { number, message_id, lines })
    }
}

impl Body {
    /// Narrows a reply to an article's body block.
    pub fn try_from(resp: &RawResponse) -> (r: Result<Body, NntpError>)
        requires
            resp@.wf(),
        ensures
            (match r {
                Ok(b) => ResponseCode::spec_from(resp.code as u32) == ResponseCode::Known(
                    Kind::Body,
                ) && spec_article_fields(resp@.lines[0]) == Some((b.number, b.message_id@))
                    && b@.lines == resp@.lines.drop_first(),
                Err(e) => spec_narrow_err(*resp, Kind::Body, e),
            }),
    {
        match resp.code() {
            ResponseCode::Known(Kind::Body) => (),
            code => {
                return Err(NntpError::Failure { code, msg: None, resp: resp.duplicate() });
            },
        }
        let (number, message_id) = match parse_article_fields(resp) {
            Ok(p) => p,
            Err(e) => {
                return Err(e);
            },
        };
        let lines = copy_body_lines(resp);
        Ok(Body { number, message_id, lines })
    }
}

/// The status-probe decision: absence of an article is a successful `None`,
/// not an error.
///
/// Returns `Some` exactly on the article-exists code, `None` on the three
/// codes that report a missing article (no article with that number, none
/// with that message-id, no current article), and an error on every other
/// code.
pub fn stat_of_response(resp: RawResponse) -> (r: Result<Option<Stat>, NntpError>)
    requires
        resp@.wf(),
    ensures
        (match ResponseCode::spec_from(resp.code as u32) {
            ResponseCode::Known(Kind::ArticleExists) => match r {
                Ok(Some(s)) => spec_article_fields(resp@.lines[0]) == Some(
                    (s.number, s.message_id@),
                ),
                Ok(None) => false,
                Err(e) => spec_narrow_err(resp, Kind::ArticleExists, e),
            },
            ResponseCode::Known(Kind::NoArticleWithMessageId) => r == Ok::<
                Option<Stat>,
                NntpError,
            >(None),
            ResponseCode::Known(Kind::InvalidCurrentArticleNumber) => r == Ok::<
                Option<Stat>,
                NntpError,
            >(None),
            ResponseCode::Known(Kind::NoArticleWithNumber) => r == Ok::<
                Option<Stat>,
                NntpError,
            >(None),
            code => r == Err::<Option<Stat>, NntpError>(
                NntpError::Failure { code, msg: None, resp },
            ),
        }),
{
    match resp.code() {
        ResponseCode::Known(Kind::ArticleExists) => match Stat::try_from(&resp) {
            Ok(s) => Ok(Some(s)),
            Err(e) => Err(e),
        },
        ResponseCode::Known(Kind::NoArticleWithMessageId)
        | ResponseCode::Known(Kind::InvalidCurrentArticleNumber)
        | ResponseCode::Known(Kind::NoArticleWithNumber) => Ok(None),
        code => Err(NntpError::Failure { code, msg: None, resp }),
    }
}

} // verus!
