//! Outbound commands and their exact wire serialization: verb, space-joined
//! arguments, CRLF terminator.

use vstd::prelude::*;

verus! {

use vstd::utf8::encode_utf8;

/// How a command names an article: by number, by message-id, or the current
/// article.
#[derive(Clone, Debug, PartialEq, Eq)]
pub enum ArticleSelector {
    Number(u32),
    MessageId(String),
    Current,
}

/// Every command the library can put on the wire. `Raw` is the escape hatch
/// for caller-defined commands: the line to send, and whether a successful
/// reply carries a multi-line body.
#[derive(Clone, Debug, PartialEq, Eq)]
pub enum Command {
    Capabilities,
    Group(String),
    Article(ArticleSelector),
    Head(ArticleSelector),
    Body(ArticleSelector),
    Stat(ArticleSelector),
    AuthInfoUser(String),
    AuthInfoPass(String),
    Quit,
    Raw(String, bool),
}

/// The two-byte line terminator.
pub open spec fn crlf() -> Seq<u8> {
    seq![13u8, 10]
}

/// Decimal digits of a positive number, most significant first.
pub open spec fn spec_dec_digits(n: int) -> Seq<u8>
    decreases n,
{
    if n <= 0 {
        seq![]
    } else {
        spec_dec_digits(n / 10).push((48 + n % 10) as u8)
    }
}

/// Decimal rendering of a non-negative number.
pub open spec fn spec_dec(n: int) -> Seq<u8> {
    if n == 0 {
        seq![48u8]
    } else {
        spec_dec_digits(n)
    }
}

/// The bytes an article selector contributes after the verb: nothing for the
/// current article, else a space and the number or message-id.
pub open spec fn spec_selector_suffix(sel: ArticleSelector) -> Seq<u8> {
    match sel {
        ArticleSelector::Number(n) => seq![32u8] + spec_dec(n as int),
        ArticleSelector::MessageId(id) => seq![32u8] + encode_utf8(id@),
        ArticleSelector::Current => seq![],
    }
}

/// The exact bytes written for each command.
pub open spec fn spec_encode(c: Command) -> Seq<u8> {
    match c {
        Command::Capabilities => seq![67u8, 65, 80, 65, 66, 73, 76, 73, 84, 73, 69, 83] + crlf(),
        Command::Group(name) => seq![71u8, 82, 79, 85, 80, 32] + encode_utf8(name@) + crlf(),
        Command::Article(sel) => seq![65u8, 82, 84, 73, 67, 76, 69] + spec_selector_suffix(sel)
            + crlf(),
        Command::Head(sel) => seq![72u8, 69, 65, 68] + spec_selector_suffix(sel) + crlf(),
        Command::Body(sel) => seq![66u8, 79, 68, 89] + spec_selector_suffix(sel) + crlf(),
        Command::Stat(sel) => seq![83u8, 84, 65, 84] + spec_selector_suffix(sel) + crlf(),
        Command::AuthInfoUser(u) => seq![65u8, 85, 84, 72, 73, 78, 70, 79, 32, 85, 83, 69, 82, 32]
            + encode_utf8(u@) + crlf(),
        Command::AuthInfoPass(p) => seq![65u8, 85, 84, 72, 73, 78, 70, 79, 32, 80, 65, 83, 83, 32]
            + encode_utf8(p@) + crlf(),
        Command::Quit => seq![81u8, 85, 73, 84] + crlf(),
        Command::Raw(s, _) => encode_utf8(s@) + crlf(),
    }
}

/// Whether this command's reply carries a multi-line body under the given
/// status code. The command declares its own expected response shape; error
/// codes always answer in a single line, so a raw command declared bodied
/// reads a body only on the informative and success code families.
pub open spec fn spec_expects_multiline(c: Command, code: int) -> bool {
    match c {
        Command::Capabilities => code == 101,
        Command::Article(_) => code == 220,
        Command::Head(_) => code == 221,
        Command::Body(_) => code == 222,
        Command::Raw(_, multiline) => multiline && 100 <= code <= 299,
        _ => false,
    }
}

impl Command {
    /// Whether the reply to this command is multi-line, given its status
    /// code.
    pub fn expects_multiline(&self, code: u16) -> (r: bool)
        ensures
            r == spec_expects_multiline(*self, code as int),
    {
        match self {
            Command::Capabilities => code == 101,
            Command::Article(_) => code == 220,
            Command::Head(_) => code == 221,
            Command::Body(_) => code == 222,
            Command::Raw(_, multiline) => *multiline && 100 <= code && code <= 299,
            _ => false,
        }
    }

    /// Serializes the command into the exact bytes written to the server.
    pub fn serialize(&self) -> (r: Vec<u8>)
        ensures
            r@ == spec_encode(*self),
    {
        let mut out: Vec<u8> = Vec::new();
        match self {
            Command::Capabilities => {
                out.push(67);
                out.push(65);
                out.push(80);
                out.push(65);
                out.push(66);
                out.push(73);
                out.push(76);
                out.push(73);
                out.push(84);
                out.push(73);
                out.push(69);
                out.push(83);
            },
            Command::Group(name) => {
                out.push(71);
                out.push(82);
                out.push(79);
                out.push(85);
                out.push(80);
                out.push(32);
                push_str_bytes(&mut out, name.as_str());
            },
            Command::Article(sel) => {
                out.push(65);
                out.push(82);
                out.push(84);
                out.push(73);
                out.push(67);
                out.push(76);
                out.push(69);
                push_selector(&mut out, sel);
            },
            Command::Head(sel) => {
                out.push(72);
                out.push(69);
                out.push(65);
                out.push(68);
                push_selector(&mut out, sel);
            },
            Command::Body(sel) => {
                out.push(66);
                out.push(79);
                out.push(68);
                out.push(89);
                push_selector(&mut out, sel);
            },
            Command::Stat(sel) => {
                out.push(83);
                out.push(84);
                out.push(65);
                out.push(84);
                push_selector(&mut out, sel);
            },
            Command::AuthInfoUser(u) => {
                push_authinfo(&mut out);
                out.push(85);
                out.push(83);
                out.push(69);
                out.push(82);
                out.push(32);
                push_str_bytes(&mut out, u.as_str());
            },
            Command::AuthInfoPass(p) => {
                push_authinfo(&mut out);
                out.push(80);
                out.push(65);
                out.push(83);
                out.push(83);
                out.push(32);
                push_str_bytes(&mut out, p.as_str());
            },
            Command::Quit => {
                out.push(81);
                out.push(85);
                out.push(73);
                out.push(84);
            },
            Command::Raw(s, _) => {
                push_str_bytes(&mut out, s.as_str());
            },
        }
        out.push(13);
        out.push(10);
        proof {
            assert(out@ =~= spec_encode(*self));
        }
        out
    }
}

/// Appends `AUTHINFO ` to the buffer.
fn push_authinfo(out: &mut Vec<u8>)
    ensures
        final(out)@ == old(out)@ + seq![65u8, 85, 84, 72, 73, 78, 70, 79, 32],
{
    out.push(65);
    out.push(85);
    out.push(84);
    out.push(72);
    out.push(73);
    out.push(78);
    out.push(70);
    out.push(79);
    out.push(32);
    proof {
        assert(out@ =~= old(out)@ + seq![65u8, 85, 84, 72, 73, 78, 70, 79, 32]);
    }
}

/// Appends the UTF-8 bytes of a string.
fn push_str_bytes(out: &mut Vec<u8>, s: &str)
    ensures
        final(out)@ == old(out)@ + encode_utf8(s@),
{
    let b: &[u8] = s.as_bytes();
    let mut i: usize = 0;
    while i < b.len()
        invariant
            0 <= i <= b@.len(),
            b@ == encode_utf8(s@),
            out@ =~= old(out)@ + b@.subrange(0, i as int),
        decreases b@.len() - i,
    {
        out.push(b[i]);
        i = i + 1;
    }
    proof {
        assert(out@ =~= old(out)@ + encode_utf8(s@));
    }
}

/// Appends the decimal digits of `n`, assuming `n > 0` contributes digits.
fn push_dec_digits(out: &mut Vec<u8>, n: u32)
    ensures
        final(out)@ == old(out)@ + spec_dec_digits(n as int),
    decreases n,
{
    if n == 0 {
        proof {
            assert(out@ =~= old(out)@ + spec_dec_digits(0));
        }
        return ;
    }
    push_dec_digits(out, n / 10);
    out.push(48 + (n % 10) as u8);
    proof {
        assert(out@ =~= old(out)@ + spec_dec_digits(n as int));
    }
}

/// Appends the decimal rendering of `n`.
fn push_dec(out: &mut Vec<u8>, n: u32)
    ensures
        final(out)@ == old(out)@ + spec_dec(n as int),
{
    if n == 0 {
        out.push(48);
        proof {
            assert(out@ =~= old(out)@ + spec_dec(0));
        }
    } else {
        push_dec_digits(out, n);
    }
}

/// Appends an article selector's suffix: nothing, or a space and the
/// argument.
fn push_selector(out: &mut Vec<u8>, sel: &ArticleSelector)
    ensures
        final(out)@ == old(out)@ + spec_selector_suffix(*sel),
{
    match sel {
        ArticleSelector::Number(n) => {
            out.push(32);
            push_dec(out, *n);
            proof {
                assert(out@ =~= old(out)@ + spec_selector_suffix(*sel));
            }
        },
        ArticleSelector::MessageId(id) => {
            out.push(32);
            push_str_bytes(out, id.as_str());
            proof {
                assert(out@ =~= old(out)@ + spec_selector_suffix(*sel));
            }
        },
        ArticleSelector::Current => {
            proof {
                assert(out@ =~= old(out)@ + spec_selector_suffix(*sel));
            }
        },
    }
}

} // verus!
