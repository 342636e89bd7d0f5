//! The reply to a group-selection command: estimated article count, article
//! number range, and the group's name.

use vstd::prelude::*;

verus! {

use crate::bytes::{parse_u32, spec_parse_u32, spec_tokens, tokenize};
use crate::error::NntpError;
use crate::response::{Kind, RawResponse, ResponseCode};
use crate::text::{bytes_to_string_lossy, lossy_decode};

/// Mathematical shape of a selected group.
pub ghost struct GroupView {
    pub number: int,
    pub low: int,
    pub high: int,
    pub name: Seq<char>,
}

/// A selected newsgroup, parsed from a successful group-selection reply.
#[derive(Clone, Debug, PartialEq, Eq)]
pub struct Group {
    /// The estimated number of articles in the group.
    pub number: u32,
    /// The lowest reported article number.
    pub low: u32,
    /// The highest reported article number.
    pub high: u32,
    /// The name of the group.
    pub name: String,
}

impl View for Group {
    type V = GroupView;

    open spec fn view(&self) -> GroupView {
        GroupView {
            number: self.number as int,
            low: self.low as int,
            high: self.high as int,
            name: self.name@,
        }
    }
}

/// What a successfully parsed group-selection status line says: the three
/// numeric fields and the name, in token order after the code. The name is
/// decoded lossily, as the whole status line is a lossily-decoded view.
pub open spec fn spec_group_ok(line: Seq<u8>, g: GroupView) -> bool {
    let toks = spec_tokens(line);
    &&& toks.len() >= 5
    &&& spec_parse_u32(toks[1]) matches Some(n) && n as int == g.number
    &&& spec_parse_u32(toks[2]) matches Some(l) && l as int == g.low
    &&& spec_parse_u32(toks[3]) matches Some(h) && h as int == g.high
    &&& g.name == lossy_decode(toks[4])
}

/// Which field a missing-field error on a group-selection line names.
pub open spec fn spec_group_missing(line: Seq<u8>, f: Seq<char>) -> bool {
    let toks = spec_tokens(line);
    ||| (toks.len() == 0 && f == "response code"@)
    ||| (toks.len() == 1 && f == "number"@)
    ||| (toks.len() == 2 && f == "low"@)
    ||| (toks.len() == 3 && f == "high"@)
    ||| (toks.len() == 4 && f == "name"@)
}

/// Which field an invalid-field error on a group-selection line names: one
/// of the three numeric fields, the first that does not parse.
pub open spec fn spec_group_invalid(line: Seq<u8>, f: Seq<char>) -> bool {
    let toks = spec_tokens(line);
    &&& toks.len() >= 5
    &&& {
        ||| (spec_parse_u32(toks[1]) is None && f == "number"@)
        ||| (spec_parse_u32(toks[1]) is Some && spec_parse_u32(toks[2]) is None && f == "low"@)
        ||| (spec_parse_u32(toks[1]) is Some && spec_parse_u32(toks[2]) is Some && spec_parse_u32(
            toks[3],
        ) is None && f == "high"@)
    }
}

/// The ways narrowing a reply to a `Group` fails: wrong code, or a bad
/// status line.
pub open spec fn spec_group_err(resp: RawResponse, e: NntpError) -> bool {
    let known = ResponseCode::spec_from(resp.code as u32);
    match e {
        NntpError::Failure { code, msg, resp: r2 } => {
            &&& known != ResponseCode::Known(Kind::GroupSelected)
            &&& code == known
            &&& msg is None
            &&& r2@ == resp@
        },
        NntpError::MissingField(f) => {
            &&& known == ResponseCode::Known(Kind::GroupSelected)
            &&& spec_group_missing(resp@.lines[0], f@)
        },
        NntpError::InvalidField(f) => {
            &&& known == ResponseCode::Known(Kind::GroupSelected)
            &&& spec_group_invalid(resp@.lines[0], f@)
        },
        _ => false,
    }
}

impl Group {
    /// Narrows a reply into a `Group`.
    ///
    /// Requires the group-selected code; then parses the status line's
    /// whitespace-separated fields after the code: estimated count, lowest
    /// number, highest number, name. A missing field is a missing-field
    /// error naming it; a non-numeric count or bound is an invalid-field
    /// error; the name is decoded lossily and never rejected.
    pub fn try_from(resp: &RawResponse) -> (r: Result<Group, NntpError>)
        requires
            resp@.wf(),
        ensures
            (match r {
                Ok(g) => ResponseCode::spec_from(resp.code as u32) == ResponseCode::Known(
                    Kind::GroupSelected,
                ) && spec_group_ok(resp@.lines[0], g@),
                Err(e) => spec_group_err(*resp, e),
            }),
    {
        match resp.code() {
            ResponseCode::Known(Kind::GroupSelected) => (),
            code => {
                return Err(NntpError::Failure { code, msg: None, resp: resp.duplicate() });
            },
        }
        let line = resp.first_line();
        let toks = tokenize(line);
        proof {
            assert(toks.deep_view() == spec_tokens(resp@.lines[0]));
        }
        if toks.len() == 0 {
            return Err(NntpError::MissingField("response code".to_owned()));
        }
        if toks.len() == 1 {
            return Err(NntpError::MissingField("number".to_owned()));
        }
        if toks.len() == 2 {
            return Err(NntpError::MissingField("low".to_owned()));
        }
        if toks.len() == 3 {
            return Err(NntpError::MissingField("high".to_owned()));
        }
        if toks.len() == 4 {
            return Err(NntpError::MissingField("name".to_owned()));
        }
        proof {
            assert(toks@[1]@ =~= toks.deep_view()[1]);
            assert(toks@[2]@ =~= toks.deep_view()[2]);
            assert(toks@[3]@ =~= toks.deep_view()[3]);
            assert(toks@[4]@ =~= toks.deep_view()[4]);
        }
        let number = match parse_u32(&toks[1]) {
            Some(v) => v,
            None => {
                return Err(NntpError::InvalidField("number".to_owned()));
            },
        };
        let low = match parse_u32(&toks[2]) {
            Some(v) => v,
            None => {
                return Err(NntpError::InvalidField("low".to_owned()));
            },
        };
        let high = match parse_u32(&toks[3]) {
            Some(v) => v,
            None => {
                return Err(NntpError::InvalidField("high".to_owned()));
            },
        };
        let name = bytes_to_string_lossy(&toks[4]);
        Ok(Group { number, low, high, name })
    }
}

} // verus!
