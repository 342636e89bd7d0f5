//! Line framing for the wire protocol: CRLF line splitting, the 3-digit
//! status line, dot-stuffing, and multi-line bodies ended by a lone-dot line.

use vstd::prelude::*;

verus! {

use crate::bytes::{digit_val, is_digit, subvec};
use crate::error::NntpError;

/// Position of the first CRLF pair at or after `from`, if any.
pub open spec fn first_crlf(s: Seq<u8>, from: int) -> Option<int>
    decreases s.len() - from,
{
    if from < 0 || from + 2 > s.len() {
        None
    } else if s[from] == 13 && s[from + 1] == 10 {
        Some(from)
    } else {
        first_crlf(s, from + 1)
    }
}

pub proof fn lemma_first_crlf(s: Seq<u8>, from: int)
    requires
        0 <= from,
    ensures
        match first_crlf(s, from) {
            Some(i) => from <= i && i + 2 <= s.len() && s[i] == 13 && s[i + 1] == 10,
            None => true,
        },
    decreases s.len() - from,
{
    if from + 2 <= s.len() && !(s[from] == 13 && s[from + 1] == 10) {
        lemma_first_crlf(s, from + 1);
    }
}

/// Finds the first CRLF pair at or after `from`.
pub fn find_crlf(buf: &Vec<u8>, from: usize) -> (r: Option<usize>)
    ensures
        match r {
            Some(i) => first_crlf(buf@, from as int) == Some(i as int) && from <= i && i + 2
                <= buf@.len() && buf@[i as int] == 13 && buf@[i as int + 1] == 10,
            None => first_crlf(buf@, from as int) is None,
        },
{
    let mut i: usize = from;
    loop
        invariant
            from <= i,
            first_crlf(buf@, from as int) == first_crlf(buf@, i as int),
        decreases buf@.len() - i,
    {
        if i >= buf.len() || i + 1 >= buf.len() {
            return None;
        }
        if buf[i] == 13 && buf[i + 1] == 10 {
            return Some(i);
        }
        i = i + 1;
    }
}

/// Removes one leading dot: what the receiver stores for a wire body line.
pub open spec fn spec_unstuff(line: Seq<u8>) -> Seq<u8> {
    if line.len() > 0 && line[0] == 46 {
        line.drop_first()
    } else {
        line
    }
}

/// Prepends a dot to a line that starts with one: what the sender puts on the
/// wire for a stored body line.
pub open spec fn spec_stuff(line: Seq<u8>) -> Seq<u8> {
    if line.len() > 0 && line[0] == 46 {
        seq![46u8] + line
    } else {
        line
    }
}

/// Un-escaping a line that was just escaped gives the line back, whatever it
/// holds.
pub proof fn lemma_unstuff_stuff(line: Seq<u8>)
    ensures
        spec_unstuff(spec_stuff(line)) == line,
{
    if line.len() > 0 && line[0] == 46 {
        assert(spec_stuff(line)[0] == 46);
        assert(spec_unstuff(spec_stuff(line)) =~= line);
    }
}

/// Re-escaping an unstuffed wire line restores it. On the wire an escaped
/// line always carries two leading dots, which is what the premise says.
pub proof fn lemma_stuff_unstuff_wire(line: Seq<u8>)
    requires
        line.len() >= 2,
        line[0] == 46,
        line[1] == 46,
    ensures
        spec_stuff(spec_unstuff(line)) == line,
{
    assert(spec_unstuff(line) == line.drop_first());
    assert(line.drop_first()[0] == 46);
    assert(spec_stuff(line.drop_first()) =~= line);
}

/// Removes one leading dot from a received body line.
pub fn unstuff_line(line: Vec<u8>) -> (r: Vec<u8>)
    ensures
        r@ == spec_unstuff(line@),
{
    let ghost orig = line@;
    let mut line = line;
    if line.len() > 0 && line[0] == 46 {
        line.remove(0);
        proof {
            assert(line@ =~= spec_unstuff(orig));
        }
    }
    line
}

/// Doubles the leading dot of a body line for transmission.
pub fn stuff_line(line: Vec<u8>) -> (r: Vec<u8>)
    ensures
        r@ == spec_stuff(line@),
{
    let ghost orig = line@;
    let mut line = line;
    if line.len() > 0 && line[0] == 46 {
        line.insert(0, 46);
        proof {
            assert(line@ =~= spec_stuff(orig));
        }
    }
    line
}

/// A well-formed status line: three ASCII digits giving a code in
/// [100, 599], then either nothing or a space.
pub open spec fn valid_status_line(line: Seq<u8>) -> bool {
    line.len() >= 3 && is_digit(line[0]) && is_digit(line[1]) && is_digit(line[2]) && 1
        <= digit_val(line[0]) <= 5 && (line.len() == 3 || line[3] == 32)
}

/// The numeric code a valid status line starts with.
pub open spec fn status_code_of(line: Seq<u8>) -> int {
    digit_val(line[0]) * 100 + digit_val(line[1]) * 10 + digit_val(line[2])
}

/// Parses the leading 3-digit status code of a reply's first line
/// (terminator already stripped).
pub fn parse_status_line(line: &Vec<u8>) -> (r: Result<u16, NntpError>)
    ensures
        match r {
            Ok(c) => valid_status_line(line@) && c as int == status_code_of(line@) && 100 <= c
                <= 599,
            Err(e) => e == NntpError::MalformedStatusLine && !valid_status_line(line@),
        },
{
    if line.len() < 3 {
        return Err(NntpError::MalformedStatusLine);
    }
    let d0 = line[0];
    let d1 = line[1];
    let d2 = line[2];
    if d0 < 49 || d0 > 53 || d1 < 48 || d1 > 57 || d2 < 48 || d2 > 57 {
        return Err(NntpError::MalformedStatusLine);
    }
    if line.len() > 3 && line[3] != 32 {
        return Err(NntpError::MalformedStatusLine);
    }
    let code: u16 = (d0 as u16 - 48) * 100 + (d1 as u16 - 48) * 10 + (d2 as u16 - 48);
    Ok(code)
}

/// The body of a multi-line reply read from `s` starting at `from`: the
/// dot-unstuffed lines before the lone-dot terminator line, and the position
/// just past the terminator. Nothing if the terminator is never reached.
pub open spec fn spec_frame_body_from(s: Seq<u8>, from: int) -> Option<(Seq<Seq<u8>>, int)>
    decreases s.len() - from,
    when 0 <= from <= s.len()
    via spec_frame_body_from_decreases
{
    match first_crlf(s, from) {
        None => None,
        Some(i) => {
            let line = s.subrange(from, i);
            if line == seq![46u8] {
                Some((seq![], i + 2))
            } else {
                match spec_frame_body_from(s, i + 2) {
                    None => None,
                    Some((ls, end)) => Some((seq![spec_unstuff(line)] + ls, end)),
                }
            }
        },
    }
}

#[via_fn]
proof fn spec_frame_body_from_decreases(s: Seq<u8>, from: int) {
    lemma_first_crlf(s, from);
}

/// Reads the dot-terminated body of a multi-line reply from `buf` starting
/// at `from`: the unstuffed body lines and the position just past the
/// terminator. Fails when the input ends before the terminator.
pub fn frame_body(buf: &Vec<u8>, from: usize) -> (r: Result<(Vec<Vec<u8>>, usize), NntpError>)
    requires
        from <= buf@.len(),
    ensures
        match r {
            Ok((lines, end)) => spec_frame_body_from(buf@, from as int) == Some(
                (lines.deep_view(), end as int),
            ) && from <= end <= buf@.len(),
            Err(e) => e == NntpError::PrematureEnd && spec_frame_body_from(buf@, from as int)
                is None,
        },
{
    let n: usize = buf.len();
    let mut acc: Vec<Vec<u8>> = Vec::new();
    let mut cur: usize = from;
    loop
        invariant
            n == buf@.len(),
            from <= cur <= buf@.len(),
            (match spec_frame_body_from(buf@, cur as int) {
                None => spec_frame_body_from(buf@, from as int) is None,
                Some((ls, end)) => spec_frame_body_from(buf@, from as int) == Some(
                    (acc.deep_view() + ls, end),
                ),
            }),
        decreases buf@.len() - cur,
    {
        let found = find_crlf(buf, cur);
        match found {
            None => {
                return Err(NntpError::PrematureEnd);
            },
            Some(i) => {
                let line = subvec(buf, cur, i);
                if line.len() == 1 && line[0] == 46 {
                    proof {
                        assert(line@ =~= seq![46u8]);
                        assert(spec_frame_body_from(buf@, cur as int) == Some(
                            (Seq::<Seq<u8>>::empty(), i + 2),
                        ));
                        assert(acc.deep_view() + Seq::<Seq<u8>>::empty() =~~= acc.deep_view());
                    }
                    return Ok((acc, i + 2));
                }
                proof {
                    assert(line@ != seq![46u8]);
                }
                let ghost prev_acc = acc.deep_view();
                let ghost cur_old: int = cur as int;
                let stored = unstuff_line(line);
                let ghost stored_view = stored@;
                acc.push(stored);
                cur = i + 2;
                proof {
                    assert(acc.deep_view() =~~= prev_acc + seq![stored_view]);
                    match spec_frame_body_from(buf@, cur as int) {
                        None => {
                            assert(spec_frame_body_from(buf@, cur_old) is None);
                        },
                        Some((ls, end)) => {
                            assert(spec_frame_body_from(buf@, cur_old) == Some(
                                (seq![stored_view] + ls, end),
                            ));
                            assert(prev_acc + (seq![stored_view] + ls) =~~= (prev_acc + seq![
                                stored_view,
                            ]) + ls);
                        },
                    }
                }
            },
        }
    }
}

} // verus!
