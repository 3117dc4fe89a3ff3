//! Packing of Java sources for the wire and unpacking of obfuscated output:
//! a zlib stream (best compression) of the UTF-8 text, carried as standard
//! Base64 with padding.
use base64::Engine;
use std::io::{Read, Write};
use vstd::prelude::*;
use vstd::utf8::encode_utf8;

verus! {

/// The character of the standard Base64 alphabet (RFC 4648) for the 6-bit
/// value `v`: `A`-`Z`, `a`-`z`, `0`-`9`, `+`, `/`.
pub open spec fn base64_digit(v: int) -> char {
    if v < 26 {
        (65 + v) as char
    } else if v < 52 {
        (97 + v - 26) as char
    } else if v < 62 {
        (48 + v - 52) as char
    } else if v == 62 {
        '+'
    } else {
        '/'
    }
}

/// Standard Base64 with `=` padding (RFC 4648, section 4): each group of
/// three bytes becomes four alphabet characters; a last group of one or two
/// bytes becomes two or three characters followed by `==` or `=`.
pub open spec fn base64_standard(bytes: Seq<u8>) -> Seq<char>
    decreases bytes.len(),
{
    if bytes.len() == 0 {
        seq![]
    } else if bytes.len() == 1 {
        let b0 = bytes[0] as int;
        seq![base64_digit(b0 / 4), base64_digit((b0 % 4) * 16), '=', '=']
    } else if bytes.len() == 2 {
        let b0 = bytes[0] as int;
        let b1 = bytes[1] as int;
        seq![
            base64_digit(b0 / 4),
            base64_digit((b0 % 4) * 16 + b1 / 16),
            base64_digit((b1 % 16) * 4),
            '=',
        ]
    } else {
        let b0 = bytes[0] as int;
        let b1 = bytes[1] as int;
        let b2 = bytes[2] as int;
        seq![
            base64_digit(b0 / 4),
            base64_digit((b0 % 4) * 16 + b1 / 16),
            base64_digit((b1 % 16) * 4 + b2 / 64),
            base64_digit(b2 % 64),
        ] + base64_standard(bytes.skip(3))
    }
}

/// What the `base64` crate's `STANDARD` engine decodes `text` (taken as its
/// UTF-8 bytes) to, or `None` where the engine rejects it.
pub uninterp spec fn base64_decoded(text: Seq<char>) -> Option<Seq<u8>>;

/// The zlib stream that flate2's zlib encoder makes of `data` at
/// `Compression::best()`.
pub uninterp spec fn zlib_compressed(data: Seq<u8>) -> Seq<u8>;

/// The outcome of reading the zlib stream `data` through flate2's zlib
/// decoder into a `String`: the text, or `None` where the stream is corrupt or
/// the decompressed bytes are not UTF-8.
pub uninterp spec fn zlib_decompressed_text(data: Seq<u8>) -> Option<Seq<char>>;

/// The bytes held by an optional buffer.
pub open spec fn bytes_view(o: Option<Vec<u8>>) -> Option<Seq<u8>> {
    match o {
        Some(v) => Some(v@),
        None => None,
    }
}

/// The characters held by an optional string.
pub open spec fn text_view(o: Option<String>) -> Option<Seq<char>> {
    match o {
        Some(t) => Some(t@),
        None => None,
    }
}

/// The form in which a source text travels to the service: the standard
/// Base64 text of the zlib stream of its UTF-8 bytes.
#[verifier::opaque]
pub open spec fn packed_text(text: Seq<char>) -> Seq<char> {
    base64_standard(zlib_compressed(encode_utf8(text)))
}

/// The text that a packed output stands for: Base64-decode it, then inflate
/// the zlib stream into UTF-8 text (`None` where either step fails).
pub open spec fn unpacked_text(packed: Seq<char>) -> Option<Seq<char>> {
    match base64_decoded(packed) {
        Some(stream) => zlib_decompressed_text(stream),
        None => None,
    }
}

/// Calls `flate2::write::ZlibEncoder::new` over an empty `Vec<u8>` at
/// `flate2::Compression::best()`, then `write_all(data)` and `finish()` on the
/// same encoder. Claimed:
/// - the call succeeds, with the stream `zlib_compressed(data)`: the encoder
///   works in memory, so the stream depends on `data` alone; the miniz_oxide
///   backend fails only on a non-finishing flush after a finishing one, on a
///   failing output callback or on a dictionary request (flate2
///   src/ffi/miniz_oxide.rs, miniz_oxide src/deflate/core.rs
///   `compress_inner`), none of which a write followed by `finish` into a
///   `Vec` meets, and writing into a `Vec` does not fail;
/// - the stream holds at least the two-byte zlib header and the four-byte
///   Adler-32 trailer that the encoder writes (miniz_oxide
///   src/deflate/core.rs, `TDEFL_WRITE_ZLIB_HEADER`);
/// - being a `Vec<u8>`, it holds at most `isize::MAX` bytes.
#[verifier::external_body]
fn zlib_compress(data: &[u8]) -> (r: Option<Vec<u8>>)
    ensures
        r is Some,
        r->0@ == zlib_compressed(data@),
        6 <= r->0@.len() <= isize::MAX,
{
    let mut encoder = flate2::write::ZlibEncoder::new(Vec::new(), flate2::Compression::best());
    encoder.write_all(data).ok()?;
    encoder.finish().ok()
}

/// Calls `flate2::read::ZlibDecoder::new(data)` and `read_to_string` into an
/// empty `String`. Claimed: the outcome is `zlib_decompressed_text(data)`, and
/// a stream that the encoder made from the UTF-8 bytes of a text `s` reads back
/// as `s` (inflating undoes deflating).
#[verifier::external_body]
fn zlib_decompress_text(data: &[u8]) -> (r: Option<String>)
    ensures
        text_view(r) == zlib_decompressed_text(data@),
        forall|s: Seq<char>|
            #[trigger] zlib_compressed(encode_utf8(s)) == data@ ==> text_view(r) == Some(
                s,
            ),
{
    let mut text = String::new();
    flate2::read::ZlibDecoder::new(data).read_to_string(&mut text).ok()?;
    Some(text)
}

/// Calls `base64::engine::general_purpose::STANDARD.encode(bytes)`.
/// Claimed: the result is the standard Base64 text of `bytes` with padding
/// (`STANDARD` is the standard alphabet with the `PAD` config). The engine
/// panics when the padded output length overflows `usize`, which `requires`
/// leaves out.
#[verifier::external_body]
fn base64_encode(bytes: &[u8]) -> (r: String)
    requires
        (bytes@.len() + 2) / 3 * 4 <= usize::MAX,
    ensures
        r@ == base64_standard(bytes@),
{
    base64::engine::general_purpose::STANDARD.encode(bytes)
}

/// Calls `base64::engine::general_purpose::STANDARD.decode` on the UTF-8 bytes
/// of `text`. Claimed: the outcome is `base64_decoded(text)`, and the standard
/// padded Base64 text of some bytes decodes back to those bytes (`PAD`
/// decoding accepts canonical padding, which that text has).
#[verifier::external_body]
fn base64_decode(text: &str) -> (r: Option<Vec<u8>>)
    ensures
        bytes_view(r) == base64_decoded(text@),
        forall|bytes: Seq<u8>| #[trigger] base64_standard(bytes) == text@ ==> bytes_view(r) == Some(bytes),
{
    base64::engine::general_purpose::STANDARD.decode(text.as_bytes()).ok()
}

/// Packs a source text for the wire: zlib-compresses its UTF-8 bytes at the
/// best level and encodes the stream as standard padded Base64. The packed
/// text is never empty, and its length is a multiple of four.
pub fn pack_text(text: &str) -> (r: String)
    ensures
        r@ == packed_text(text@),
        r@.len() > 0,
        r@.len() % 4 == 0,
{
    reveal(packed_text);
    let compressed = zlib_compress(text.as_bytes());
    let stream = match compressed {
        Some(stream) => stream,
        None => {
            proof {
                assert(false);
            }
            Vec::new()
        },
    };
    assert((stream@.len() + 2) / 3 * 4 <= usize::MAX) by (nonlinear_arith)
        requires
            stream@.len() <= isize::MAX,
            isize::MAX < usize::MAX / 2 + 1,
    ;
    proof {
        lemma_base64_length(stream@);
    }
    base64_encode(stream.as_slice())
}

/// Unpacks an output of the service: Base64-decodes it and inflates the zlib
/// stream into text. `None` where the text is not Base64 or the stream is not
/// a zlib stream of UTF-8 text.
///
/// Whatever `pack_text` made of a text `s`, this gives back `s`.
pub fn unpack_text(packed: &str) -> (r: Option<String>)
    ensures
        text_view(r) == unpacked_text(packed@),
        base64_decoded(packed@) is None ==> r is None,
        forall|stream: Seq<u8>|
            #[trigger] base64_decoded(packed@) == Some(stream) ==> text_view(r)
                == zlib_decompressed_text(stream),
        forall|s: Seq<char>| #[trigger] packed_text(s) == packed@ ==> text_view(r) == Some(s),
{
    reveal(packed_text);
    let decoded = base64_decode(packed);
    match decoded {
        None => {
            proof {
                assert forall|s: Seq<char>| #[trigger] packed_text(s) == packed@ implies false by {
                    assert(base64_standard(zlib_compressed(encode_utf8(s))) == packed@);
                }
            }
            None
        },
        Some(stream) => {
            let r = zlib_decompress_text(stream.as_slice());
            proof {
                assert forall|s: Seq<char>| #[trigger] packed_text(s) == packed@ implies text_view(r)
                    == Some(s) by {
                    let c = zlib_compressed(encode_utf8(s));
                    assert(base64_standard(c) == packed@);
                    assert(stream@ == c);
                }
            }
            r
        },
    }
}

/// Standard padded Base64 has four characters for each started group of
/// three bytes.
proof fn lemma_base64_length(bytes: Seq<u8>)
    ensures
        base64_standard(bytes).len() == (bytes.len() + 2) / 3 * 4,
    decreases bytes.len(),
{
    if bytes.len() >= 3 {
        lemma_base64_length(bytes.skip(3));
    }
}

} // verus!
