//! Per-response compression: the marker that signals a compressed body on a
//! status line, and inflation of the body bytes.

use vstd::prelude::*;

verus! {

/// A compression scheme a server may signal on a response's status line.
#[derive(Clone, Copy, Debug, PartialEq, Eq, Structural)]
pub enum Compression {
    /// Header-marker compression: the status line ends in a literal marker
    /// token and the rest of the response is one deflate stream.
    XFeature,
}

/// The marker that closes a compressed response's status line:
/// `"[COMPRESS=GZIP]\r\n"`.
pub open spec fn compress_marker() -> Seq<u8> {
    seq![91u8, 67, 79, 77, 80, 82, 69, 83, 83, 61, 71, 90, 73, 80, 93, 13, 10]
}

impl Compression {
    /// Whether a status line, exactly as it came off the wire (terminator
    /// included), signals that the body is compressed.
    pub open spec fn spec_use_decoder(self, first_line: Seq<u8>) -> bool {
        match self {
            Compression::XFeature => first_line.len() >= 17 && first_line.subrange(
                first_line.len() - 17,
                first_line.len() as int,
            ) == compress_marker(),
        }
    }

    /// Sniffs a wire status line for the compression marker.
    pub fn use_decoder(&self, first_line: &[u8]) -> (r: bool)
        ensures
            r == self.spec_use_decoder(first_line@),
    {
        match self {
            Compression::XFeature => ends_with_marker(first_line),
        }
    }
}

/// The marker bytes as a vector.
fn marker_bytes() -> (r: Vec<u8>)
    ensures
        r@ == compress_marker(),
{
    let mut v: Vec<u8> = Vec::new();
    v.push(91);
    v.push(67);
    v.push(79);
    v.push(77);
    v.push(80);
    v.push(82);
    v.push(69);
    v.push(83);
    v.push(83);
    v.push(61);
    v.push(71);
    v.push(90);
    v.push(73);
    v.push(80);
    v.push(93);
    v.push(13);
    v.push(10);
    proof {
        assert(v@ =~= compress_marker());
    }
    v
}

/// Whether `line` ends with the compression marker.
fn ends_with_marker(line: &[u8]) -> (r: bool)
    ensures
        r == (line@.len() >= 17 && line@.subrange(line@.len() - 17, line@.len() as int)
            == compress_marker()),
{
    if line.len() < 17 {
        return false;
    }
    let marker = marker_bytes();
    let n: usize = line.len();
    let start = n - 17;
    let mut i: usize = 0;
    while i < 17
        invariant
            0 <= i <= 17,
            n == line@.len(),
            n >= 17,
            start == line@.len() - 17,
            marker@ == compress_marker(),
            forall|j: int| 0 <= j < i ==> line@[start + j] == compress_marker()[j],
        decreases 17 - i,
    {
        if line[start + i] != marker[i] {
            proof {
                assert(line@.subrange(line@.len() - 17, line@.len() as int)[i as int] == line@[start
                    + i]);
            }
            return false;
        }
        i = i + 1;
    }
    proof {
        assert(line@.subrange(line@.len() - 17, line@.len() as int) =~= compress_marker());
    }
    true
}

/// What inflating a deflate stream yields: a function of the compressed
/// bytes alone. `Err(true)` means the input ends before the stream is
/// complete, so more bytes could still complete it; `Err(false)` means the
/// stream is corrupt.
pub uninterp spec fn inflate_of(z: Seq<u8>) -> Result<Seq<u8>, bool>;

/// Relies on async_compression's `ZlibDecoder` over an in-memory buffer: the
/// outcome is a function of the compressed input alone. A corrupt stream
/// fails with flate2's decompression error; a stream the input merely ends
/// too early for fails without one, which tells the two apart.
#[verifier::external_body]
pub fn inflate(data: &[u8]) -> (r: Result<Vec<u8>, bool>)
    ensures
        match r {
            Ok(v) => inflate_of(data@) == Ok::<Seq<u8>, bool>(v@),
            Err(truncated) => inflate_of(data@) == Err::<Seq<u8>, bool>(truncated),
        },
{
    let mut dec = async_compression::futures::bufread::ZlibDecoder::new(data);
    let mut out: Vec<u8> = Vec::new();
    let res = async_std::task::block_on(async_std::io::ReadExt::read_to_end(&mut dec, &mut out));
    match res {
        Ok(_) => Ok(out),
        Err(e) => {
            let corrupt = match e.get_ref() {
                Some(inner) => inner.is::<flate2::DecompressError>(),
                None => false,
            };
            Err(!corrupt)
        },
    }
}

} // verus!
