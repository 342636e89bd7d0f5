//! The connection's verified half: command serialization and the read-path
//! algorithm that turns buffered wire bytes into one complete reply.
//!
//! The connection is strictly half-duplex: a command is written in full, then
//! its reply is read in full. The asynchronous transport that produces the
//! bytes lives outside the library and hands the buffered input to
//! [`NntpConnection::decode_response`], re-reading while it reports
//! [`NntpError::PrematureEnd`] and giving up at stream close.

use vstd::prelude::*;

verus! {

use crate::bytes::subvec;
use crate::command::{spec_encode, spec_expects_multiline, Command};
use crate::compression::{inflate, inflate_of, Compression};
use crate::error::NntpError;
use crate::framing::{
    find_crlf,
    first_crlf,
    frame_body,
    parse_status_line,
    spec_frame_body_from,
    status_code_of,
    valid_status_line,
};
use crate::response::{RawResponse, RespView};

/// Timeouts and transport options for one connection, fixed at connect time.
/// Durations are in milliseconds; absent means no limit.
#[derive(Clone, Copy, Debug, PartialEq, Eq, Structural)]
pub struct ConnectionConfig {
    pub connect_timeout_ms: Option<u64>,
    pub read_timeout_ms: Option<u64>,
    pub write_timeout_ms: Option<u64>,
    /// Whether the transport is an encrypted stream.
    pub tls: bool,
    /// The compression scheme to sniff response status lines for, if any.
    pub compression: Option<Compression>,
}

impl Default for ConnectionConfig {
    /// No timeouts, a plaintext transport, no compression sniffing.
    fn default() -> (r: ConnectionConfig)
        ensures
            r.connect_timeout_ms is None,
            r.read_timeout_ms is None,
            r.write_timeout_ms is None,
            !r.tls,
            r.compression is None,
    {
        ConnectionConfig {
            connect_timeout_ms: None,
            read_timeout_ms: None,
            write_timeout_ms: None,
            tls: false,
            compression: None,
        }
    }
}

/// What decoding one buffered reply yields: the reply's view and the number
/// of input bytes it consumed, or the error the read fails with.
///
/// A compressed reply consumes the whole buffer: everything after its status
/// line belongs to the deflate stream. A deflate stream the buffer ends too
/// early for is a premature end, so the caller reads on; only a corrupt
/// stream is a decompression error.
pub open spec fn spec_decode(c: Command, buf: Seq<u8>, sniff: Option<Compression>) -> Result<
    (RespView, int),
    NntpError,
> {
    match first_crlf(buf, 0) {
        None => Err(NntpError::PrematureEnd),
        Some(i) => {
            let line = buf.subrange(0, i);
            if !valid_status_line(line) {
                Err(NntpError::MalformedStatusLine)
            } else {
                let code = status_code_of(line);
                if !spec_expects_multiline(c, code) {
                    Ok((RespView { code, lines: seq![line] }, i + 2))
                } else {
                    let compressed = match sniff {
                        Some(cp) => cp.spec_use_decoder(buf.subrange(0, i + 2)),
                        None => false,
                    };
                    if compressed {
                        match inflate_of(buf.subrange(i + 2, buf.len() as int)) {
                            Err(truncated) => if truncated {
                                Err(NntpError::PrematureEnd)
                            } else {
                                Err(NntpError::Deflate)
                            },
                            Ok(body) => match spec_frame_body_from(body, 0) {
                                None => Err(NntpError::PrematureEnd),
                                Some((ls, _end)) => Ok(
                                    (RespView { code, lines: seq![line] + ls }, buf.len() as int),
                                ),
                            },
                        }
                    } else {
                        match spec_frame_body_from(buf, i + 2) {
                            None => Err(NntpError::PrematureEnd),
                            Some((ls, end)) => Ok((RespView { code, lines: seq![line] + ls }, end)),
                        }
                    }
                }
            }
        },
    }
}

/// The verified half of a raw protocol connection: it owns the connection's
/// configuration, serializes commands, and frames buffered reply bytes.
#[derive(Debug)]
pub struct NntpConnection {
    pub config: ConnectionConfig,
}

impl NntpConnection {
    /// A connection handle with the given configuration.
    pub fn new(config: ConnectionConfig) -> (r: NntpConnection)
        ensures
            r.config == config,
    {
        NntpConnection { config }
    }

    /// The configuration this connection was made with.
    pub fn config(&self) -> (r: &ConnectionConfig)
        ensures
            *r == self.config,
    {
        &self.config
    }

    /// The exact bytes to write for a command.
    pub fn encode_command(&self, c: &Command) -> (r: Vec<u8>)
        ensures
            r@ == spec_encode(*c),
    {
        c.serialize()
    }

    /// Decodes one complete reply from buffered wire bytes.
    ///
    /// Returns the reply and the number of bytes consumed. `PrematureEnd`
    /// means the buffer holds no complete reply yet; the caller may read more
    /// bytes and retry, and must treat it as fatal at stream close.
    pub fn decode_response(&self, c: &Command, buf: &Vec<u8>) -> (r: Result<
        (RawResponse, usize),
        NntpError,
    >)
        ensures
            match r {
                Ok((resp, used)) => resp@.wf() && used <= buf@.len() && spec_decode(
                    *c,
                    buf@,
                    self.config.compression,
                ) == Ok::<_, NntpError>((resp@, used as int)),
                Err(e) => spec_decode(*c, buf@, self.config.compression) == Err::<
                    (RespView, int),
                    _,
                >(e),
            },
    {
        let n: usize = buf.len();
        let i = match find_crlf(buf, 0) {
            None => {
                return Err(NntpError::PrematureEnd);
            },
            Some(i) => i,
        };
        let line = subvec(buf, 0, i);
        let code = match parse_status_line(&line) {
            Ok(c) => c,
            Err(e) => {
                return Err(e);
            },
        };
        if !c.expects_multiline(code) {
            let mut lines: Vec<Vec<u8>> = Vec::new();
            lines.push(line);
            let resp = RawResponse { code, lines };
            proof {
                assert(resp@.lines =~~= seq![buf@.subrange(0, i as int)]);
            }
            return Ok((resp, i + 2));
        }
        let compressed = match self.config.compression {
            Some(cp) => {
                let wire_first = subvec(buf, 0, i + 2);
                cp.use_decoder(wire_first.as_slice())
            },
            None => false,
        };
        if compressed {
            let rest = subvec(buf, i + 2, n);
            match inflate(rest.as_slice()) {
                Err(truncated) => {
                    if truncated {
                        Err(NntpError::PrematureEnd)
                    } else {
                        Err(NntpError::Deflate)
                    }
                },
                Ok(body) => {
                    match frame_body(&body, 0) {
                        Err(e) => Err(e),
                        Ok((body_lines, _end)) => {
                            let mut lines = body_lines;
                            lines.insert(0, line);
                            let resp = RawResponse { code, lines };
                            proof {
                                assert(resp@.lines =~~= seq![buf@.subrange(0, i as int)]
                                    + body_lines.deep_view());
                            }
                            Ok((resp, n))
                        },
                    }
                },
            }
        } else {
            match frame_body(buf, i + 2) {
                Err(e) => Err(e),
                Ok((body_lines, end)) => {
                    let mut lines = body_lines;
                    lines.insert(0, line);
                    let resp = RawResponse { code, lines };
                    proof {
                        assert(resp@.lines =~~= seq![buf@.subrange(0, i as int)]
                            + body_lines.deep_view());
                    }
                    Ok((resp, end))
                },
            }
        }
    }
}

} // verus!
