//! Byte-level scanning helpers shared by the framing and parsing layers:
//! ASCII digit runs, decimal values, and whitespace tokenization.

use vstd::prelude::*;

verus! {

/// True of every byte that is an ASCII decimal digit.
pub open spec fn is_digit(b: u8) -> bool {
    48 <= b <= 57
}

/// Numeric value of an ASCII digit byte.
pub open spec fn digit_val(b: u8) -> int {
    b - 48
}

/// A non-empty run of ASCII digits.
pub open spec fn is_digit_seq(s: Seq<u8>) -> bool {
    s.len() > 0 && forall|i: int| 0 <= i < s.len() ==> is_digit(s[i])
}

/// Decimal value of a digit run, most significant digit first.
pub open spec fn digits_val(s: Seq<u8>) -> int
    decreases s.len(),
{
    if s.len() == 0 {
        0
    } else {
        digits_val(s.drop_last()) * 10 + digit_val(s.last())
    }
}

pub proof fn lemma_digits_val_nonneg(s: Seq<u8>)
    requires
        forall|i: int| 0 <= i < s.len() ==> is_digit(s[i]),
    ensures
        digits_val(s) >= 0,
    decreases s.len(),
{
    if s.len() > 0 {
        lemma_digits_val_nonneg(s.drop_last());
    }
}

/// A digit run is worth at least as much as any of its prefixes.
pub proof fn lemma_digits_val_prefix_le(s: Seq<u8>, i: int)
    requires
        0 <= i <= s.len(),
        forall|j: int| 0 <= j < s.len() ==> is_digit(s[j]),
    ensures
        digits_val(s.subrange(0, i)) <= digits_val(s),
    decreases s.len() - i,
{
    if i < s.len() {
        lemma_digits_val_prefix_le(s, i + 1);
        let p = s.subrange(0, i);
        let q = s.subrange(0, i + 1);
        assert(q.drop_last() =~= p);
        lemma_digits_val_nonneg(p);
        assert(digits_val(q) == digits_val(p) * 10 + digit_val(q.last()));
    } else {
        assert(s.subrange(0, i) =~= s);
    }
}

/// The number a token denotes: defined exactly when the token is a non-empty
/// digit run whose value fits in a `u32`; leading zeroes are accepted.
pub open spec fn spec_parse_u32(tok: Seq<u8>) -> Option<u32> {
    if is_digit_seq(tok) && digits_val(tok) <= u32::MAX {
        Some(digits_val(tok) as u32)
    } else {
        None
    }
}

/// Parses a whole token as an unsigned decimal number.
pub fn parse_u32(tok: &Vec<u8>) -> (r: Option<u32>)
    ensures
        r == spec_parse_u32(tok@),
        match r {
            Some(v) => is_digit_seq(tok@) && digits_val(tok@) == v as int,
            None => !is_digit_seq(tok@) || digits_val(tok@) > u32::MAX,
        },
{
    if tok.len() == 0 {
        return None;
    }
    let mut acc: u32 = 0;
    let mut i: usize = 0;
    while i < tok.len()
        invariant
            0 <= i <= tok@.len(),
            tok@.len() > 0,
            forall|j: int| 0 <= j < i ==> is_digit(tok@[j]),
            acc as int == digits_val(tok@.subrange(0, i as int)),
        decreases tok@.len() - i,
    {
        let b = tok[i];
        if b < 48 || b > 57 {
            return None;
        }
        let d: u8 = b - 48;
        let wide: u64 = acc as u64 * 10 + d as u64;
        proof {
            let q = tok@.subrange(0, i + 1);
            assert(q.drop_last() =~= tok@.subrange(0, i as int));
            assert(digits_val(q) == acc as int * 10 + digit_val(b));
        }
        if wide > u32::MAX as u64 {
            proof {
                if is_digit_seq(tok@) {
                    lemma_digits_val_prefix_le(tok@, i + 1);
                }
            }
            return None;
        }
        acc = wide as u32;
        i = i + 1;
    }
    proof {
        assert(tok@.subrange(0, tok@.len() as int) =~= tok@);
    }
    Some(acc)
}

/// True of the bytes the protocol treats as token-separating whitespace.
pub open spec fn is_ws(b: u8) -> bool {
    b == 32 || b == 9
}

/// First position at or after `from` holding whitespace, or the end of `s`.
pub open spec fn token_end(s: Seq<u8>, from: int) -> int
    decreases s.len() - from,
{
    if from < 0 || from >= s.len() {
        from
    } else if is_ws(s[from]) {
        from
    } else {
        token_end(s, from + 1)
    }
}

pub proof fn lemma_token_end(s: Seq<u8>, from: int)
    requires
        0 <= from <= s.len(),
    ensures
        from <= token_end(s, from) <= s.len(),
        forall|j: int| from <= j < token_end(s, from) ==> !is_ws(s[j]),
        token_end(s, from) < s.len() ==> is_ws(s[token_end(s, from)]),
    decreases s.len() - from,
{
    if from < s.len() && !is_ws(s[from]) {
        lemma_token_end(s, from + 1);
    }
}

/// The whitespace-separated tokens of `s` from position `from` on.
pub open spec fn spec_tokens_from(s: Seq<u8>, from: int) -> Seq<Seq<u8>>
    decreases s.len() - from,
    when 0 <= from <= s.len()
    via spec_tokens_from_decreases
{
    if from >= s.len() {
        seq![]
    } else if is_ws(s[from]) {
        spec_tokens_from(s, from + 1)
    } else {
        seq![s.subrange(from, token_end(s, from))] + spec_tokens_from(s, token_end(s, from))
    }
}

#[via_fn]
proof fn spec_tokens_from_decreases(s: Seq<u8>, from: int) {
    if 0 <= from < s.len() && !is_ws(s[from]) {
        lemma_token_end(s, from);
        assert(token_end(s, from) > from);
    }
}

/// The whitespace-separated tokens of `s`: maximal runs of non-whitespace.
pub open spec fn spec_tokens(s: Seq<u8>) -> Seq<Seq<u8>> {
    spec_tokens_from(s, 0)
}

/// A fresh copy of a byte vector, element for element.
pub fn copy_bytes(v: &Vec<u8>) -> (r: Vec<u8>)
    ensures
        r@ == v@,
{
    let mut r: Vec<u8> = Vec::new();
    let mut i: usize = 0;
    while i < v.len()
        invariant
            0 <= i <= v@.len(),
            r@ =~= v@.subrange(0, i as int),
        decreases v@.len() - i,
    {
        r.push(v[i]);
        i = i + 1;
    }
    proof {
        assert(r@ =~= v@);
    }
    r
}

/// A fresh copy of `v[i..j]`.
pub fn subvec(v: &Vec<u8>, i: usize, j: usize) -> (r: Vec<u8>)
    requires
        i <= j <= v@.len(),
    ensures
        r@ == v@.subrange(i as int, j as int),
{
    let mut r: Vec<u8> = Vec::new();
    let mut k: usize = i;
    while k < j
        invariant
            i <= k <= j <= v@.len(),
            r@ =~= v@.subrange(i as int, k as int),
        decreases j - k,
    {
        r.push(v[k]);
        k = k + 1;
    }
    proof {
        assert(r@ =~= v@.subrange(i as int, j as int));
    }
    r
}

/// Splits a line into its whitespace-separated tokens.
pub fn tokenize(line: &Vec<u8>) -> (r: Vec<Vec<u8>>)
    ensures
        r.deep_view() == spec_tokens(line@),
{
    let mut r: Vec<Vec<u8>> = Vec::new();
    let mut i: usize = 0;
    while i < line.len()
        invariant
            0 <= i <= line@.len(),
            spec_tokens(line@) =~~= r.deep_view() + spec_tokens_from(line@, i as int),
        decreases line@.len() - i,
    {
        let b = line[i];
        if b == 32 || b == 9 {
            i = i + 1;
        } else {
            proof {
                lemma_token_end(line@, i as int);
            }
            let ghost te = token_end(line@, i as int);
            // scan to the end of the token
            let mut j: usize = i + 1;
            while j < line.len() && !(line[j] == 32 || line[j] == 9)
                invariant
                    i < j <= line@.len(),
                    forall|k: int| i <= k < j ==> !is_ws(line@[k]),
                decreases line@.len() - j,
            {
                j = j + 1;
            }
            proof {
                lemma_token_end(line@, i as int);
                assert(forall|k: int| i <= k < j ==> !is_ws(line@[k]));
                if te < j {
                    assert(is_ws(line@[te]));
                    assert(false);
                }
                if te > j {
                    assert(j < line@.len());
                    assert(is_ws(line@[j as int]));
                    assert(false);
                }
                assert(te == j as int);
            }
            let tok = subvec(line, i, j);
            let ghost old_r = r.deep_view();
            r.push(tok);
            proof {
                assert(r.deep_view() =~~= old_r + seq![tok@]);
                assert(r.deep_view() + spec_tokens_from(line@, j as int) =~~= old_r
                    + (seq![line@.subrange(i as int, te)] + spec_tokens_from(line@, te)));
            }
            i = j;
        }
    }
    proof {
        assert(spec_tokens_from(line@, i as int) =~~= Seq::<Seq<u8>>::empty());
        assert(r.deep_view() =~~= spec_tokens(line@));
    }
    r
}

} // verus!
