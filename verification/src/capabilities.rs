//! The server's advertised capability tokens, rebuilt wholesale from each
//! capabilities reply.

use vstd::prelude::*;

verus! {

use vstd::utf8::{decode_utf8, valid_utf8};

use crate::bytes::{copy_bytes, spec_tokens, tokenize};
use crate::error::NntpError;
use crate::response::{Kind, RawResponse, ResponseCode};
use crate::text::bytes_to_string;

/// All capability tokens of a reply's body lines, in order: one or more per
/// line, whitespace-separated.
pub open spec fn spec_caps_tokens(lines: Seq<Seq<u8>>) -> Seq<Seq<u8>>
    decreases lines.len(),
{
    if lines.len() == 0 {
        seq![]
    } else {
        spec_tokens(lines[0]) + spec_caps_tokens(lines.drop_first())
    }
}

pub proof fn lemma_caps_tokens_push(lines: Seq<Seq<u8>>, x: Seq<u8>)
    ensures
        spec_caps_tokens(lines.push(x)) == spec_caps_tokens(lines) + spec_tokens(x),
    decreases lines.len(),
{
    if lines.len() == 0 {
        assert(lines.push(x).drop_first() =~~= lines);
        assert(lines.push(x)[0] == x);
        assert(spec_caps_tokens(lines.push(x)) =~~= spec_caps_tokens(lines) + spec_tokens(x));
    } else {
        lemma_caps_tokens_push(lines.drop_first(), x);
        assert(lines.push(x).drop_first() =~~= lines.drop_first().push(x));
        assert(lines.push(x)[0] == lines[0]);
        assert(spec_caps_tokens(lines.push(x)) =~~= spec_caps_tokens(lines) + spec_tokens(x));
    }
}

/// What a successfully parsed capabilities reply advertises: the decoding of
/// every body-line token, in order.
pub open spec fn spec_caps_ok(resp: crate::response::RespView, c: Seq<Seq<char>>) -> bool {
    let ts = spec_caps_tokens(resp.lines.drop_first());
    &&& c.len() == ts.len()
    &&& forall|i: int|
        0 <= i < ts.len() ==> valid_utf8(#[trigger] ts[i]) && c[i] == decode_utf8(ts[i])
}

/// The ways narrowing a reply to `Capabilities` fails: wrong code, or a
/// token that is not UTF-8.
pub open spec fn spec_caps_err(resp: RawResponse, e: NntpError) -> bool {
    let ts = spec_caps_tokens(resp@.lines.drop_first());
    let known = ResponseCode::spec_from(resp.code as u32);
    match e {
        NntpError::Failure { code, msg, resp: r2 } => {
            &&& known != ResponseCode::Known(Kind::Capabilities)
            &&& code == known
            &&& msg is None
            &&& r2@ == resp@
        },
        NntpError::InvalidField(f) => {
            &&& known == ResponseCode::Known(Kind::Capabilities)
            &&& f@ == "capability"@
            &&& exists|i: int| 0 <= i < ts.len() && !valid_utf8(#[trigger] ts[i])
        },
        _ => false,
    }
}

/// The capability tokens the server last advertised.
#[derive(Clone, Debug, PartialEq, Eq)]
pub struct Capabilities {
    pub tokens: Vec<String>,
}

impl View for Capabilities {
    type V = Seq<Seq<char>>;

    open spec fn view(&self) -> Seq<Seq<char>> {
        self.tokens.deep_view()
    }
}

impl Capabilities {
    /// The advertised tokens, in the order the server listed them.
    pub fn tokens(&self) -> (r: &Vec<String>)
        ensures
            r.deep_view() == self@,
    {
        &self.tokens
    }

    /// Narrows a reply into the set of capability tokens it advertises.
    ///
    /// Requires the capabilities code; then splits every body line into
    /// whitespace-separated tokens.
    pub fn try_from(resp: &RawResponse) -> (r: Result<Capabilities, NntpError>)
        requires
            resp@.wf(),
        ensures
            (match r {
                Ok(c) => ResponseCode::spec_from(resp.code as u32) == ResponseCode::Known(
                    Kind::Capabilities,
                ) && spec_caps_ok(resp@, c@),
                Err(e) => spec_caps_err(*resp, e),
            }),
    {
        match resp.code() {
            ResponseCode::Known(Kind::Capabilities) => (),
            code => {
                return Err(NntpError::Failure { code, msg: None, resp: resp.duplicate() });
            },
        }
        let ghost body = resp@.lines.drop_first();
        // collect the byte tokens of every body line
        let mut flat: Vec<Vec<u8>> = Vec::new();
        let mut li: usize = 1;
        proof {
            assert(body.subrange(0, 0) =~~= Seq::<Seq<u8>>::empty());
            assert(flat.deep_view() =~~= spec_caps_tokens(body.subrange(0, 0)));
        }
        while li < resp.lines.len()
            invariant
                resp@.wf(),
                1 <= li <= resp@.lines.len(),
                body == resp@.lines.drop_first(),
                flat.deep_view() == spec_caps_tokens(body.subrange(0, li - 1)),
            decreases resp@.lines.len() - li,
        {
            let toks = tokenize(&resp.lines[li]);
            let ghost flat_before = flat.deep_view();
            let ghost line_view = resp@.lines[li as int];
            proof {
                assert(resp.lines@[li as int]@ =~= resp@.lines[li as int]);
            }
            let mut k: usize = 0;
            while k < toks.len()
                invariant
                    0 <= k <= toks@.len(),
                    toks.deep_view() == spec_tokens(line_view),
                    flat.deep_view() =~~= flat_before + toks.deep_view().subrange(0, k as int),
                decreases toks@.len() - k,
            {
                let ghost before = flat.deep_view();
                let tok = copy_bytes(&toks[k]);
                proof {
                    assert(toks@[k as int]@ =~= toks.deep_view()[k as int]);
                }
                flat.push(tok);
                proof {
                    assert(flat.deep_view() =~~= before.push(tok@));
                    assert(before.push(tok@) =~~= flat_before + toks.deep_view().subrange(
                        0,
                        k + 1,
                    ));
                }
                k = k + 1;
            }
            proof {
                assert(toks.deep_view().subrange(0, toks@.len() as int) =~~= spec_tokens(
                    line_view,
                ));
                lemma_caps_tokens_push(body.subrange(0, li - 1), line_view);
                assert(body.subrange(0, li - 1).push(line_view) =~~= body.subrange(0, li as int));
                assert(flat.deep_view() =~~= spec_caps_tokens(body.subrange(0, li as int)));
            }
            li = li + 1;
        }
        proof {
            assert(body.subrange(0, resp@.lines.len() - 1) =~~= body);
            assert(flat.deep_view() == spec_caps_tokens(body));
        }
        // decode each token
        let mut tokens: Vec<String> = Vec::new();
        let mut k: usize = 0;
        while k < flat.len()
            invariant
                resp@.wf(),
                ResponseCode::spec_from(resp.code as u32) == ResponseCode::Known(
                    Kind::Capabilities,
                ),
                0 <= k <= flat@.len(),
                body == resp@.lines.drop_first(),
                flat.deep_view() == spec_caps_tokens(body),
                tokens@.len() == k,
                forall|i: int|
                    0 <= i < k ==> valid_utf8(#[trigger] flat.deep_view()[i])
                        && tokens.deep_view()[i] == decode_utf8(flat.deep_view()[i]),
            decreases flat@.len() - k,
        {
            proof {
                assert(flat@[k as int]@ =~= flat.deep_view()[k as int]);
            }
            let s = match bytes_to_string(copy_bytes(&flat[k])) {
                Some(s) => s,
                None => {
                    proof {
                        assert(flat@[k as int]@ =~= flat.deep_view()[k as int]);
                        assert(!valid_utf8(flat.deep_view()[k as int]));
                        assert(spec_caps_tokens(resp@.lines.drop_first()) == flat.deep_view());
                        let ts = spec_caps_tokens(resp@.lines.drop_first());
                        assert(0 <= k < ts.len() && !valid_utf8(ts[k as int]));
                        assert(exists|i: int| 0 <= i < ts.len() && !valid_utf8(#[trigger] ts[i]));
                    }
                    return Err(NntpError::InvalidField("capability".to_owned()));
                },
            };
            tokens.push(s);
            k = k + 1;
        }
        Ok(Capabilities { tokens })
    }
}

} // verus!
