use vstd::prelude::*;

verus! {

/// The largest input length that a Snappy header can describe.
pub const MAX_INPUT_LEN: u64 = 0xffff_ffff;

/// The capacity that an encoder needs for an input of `n` bytes, or 0 where
/// no buffer is large enough: the input or the bound exceeds `MAX_INPUT_LEN`.
pub open spec fn max_compressed_len(n: nat) -> nat {
    if n > MAX_INPUT_LEN || 32 + n + n / 6 > MAX_INPUT_LEN {
        0
    } else {
        32 + n + n / 6
    }
}

/// Whether an input of `n` bytes can be compressed at all.
pub open spec fn compressible(n: nat) -> bool {
    max_compressed_len(n) > 0
}

/// The bytes that the raw Snappy encoder writes for `b`.
pub uninterp spec fn compressed_of(b: Seq<u8>) -> Seq<u8>;

/// The uncompressed length that the header of `c` states, or `None` where
/// the header is malformed or states more than `MAX_INPUT_LEN`.
pub uninterp spec fn stated_len_of(c: Seq<u8>) -> Option<nat>;

/// The bytes that the raw Snappy decoder yields for `c` when its output has
/// room for them, or `None` where it refuses `c` as corrupt.
pub uninterp spec fn decompressed_of(c: Seq<u8>) -> Option<Seq<u8>>;

/// `c` is a Snappy encoding of `b`: its header states `b`'s length and its
/// body decodes to `b`.
pub open spec fn is_encoding_of(c: Seq<u8>, b: Seq<u8>) -> bool {
    &&& stated_len_of(c) == Some(b.len())
    &&& decompressed_of(c) == Some(b)
}

/// What `uncompress` yields for `c`: the decoded bytes, where the header
/// states a length and the body decodes within a buffer of that length.
pub open spec fn uncompressed(c: Seq<u8>) -> Option<Seq<u8>> {
    match stated_len_of(c) {
        Some(m) => match decompressed_of(c) {
            Some(d) => if d.len() <= m {
                Some(d)
            } else {
                None
            },
            None => None,
        },
        None => None,
    }
}

/// Whether `c` is a well-formed compressed buffer.
pub open spec fn is_valid_compressed(c: Seq<u8>) -> bool {
    uncompressed(c) is Some
}

/// The bytes of an optional buffer.
pub open spec fn bytes_of(o: Option<Vec<u8>>) -> Option<Seq<u8>> {
    match o {
        Some(v) => Some(v@),
        None => None,
    }
}

/// What `compress` returns for `b`: the encoder's output, within the
/// capacity bound, and an encoding of `b`.
pub open spec fn compress_post(b: Seq<u8>, c: Seq<u8>) -> bool {
    &&& c == compressed_of(b)
    &&& c.len() <= max_compressed_len(b.len())
    &&& is_encoding_of(c, b)
}

#[verifier::external_type_specification]
#[verifier::external_body]
pub struct ExSnapError(snap::Error);

/// Relies on snap::raw::max_compress_len: `32 + n + n / 6`, or 0 where the
/// input or that bound exceeds `2^32 - 1`.
#[verifier::external_body]
fn max_compress_len(n: usize) -> (r: usize)
    ensures
        r == max_compressed_len(n as nat),
{
    snap::raw::max_compress_len(n)
}

/// Relies on snap::raw::Encoder::compress: it succeeds exactly when the
/// output holds `max_compress_len` bytes, writes the encoding of `src` at the
/// front of `dst` and returns its length; what it writes states `src`'s
/// length in its header and decodes back to `src`.
#[verifier::external_body]
fn encode_into(src: &[u8], dst: &mut Vec<u8>) -> (r: Result<usize, snap::Error>)
    ensures
        final(dst)@.len() == old(dst)@.len(),
        r is Ok <==> (compressible(src@.len()) && old(dst)@.len() >= max_compressed_len(
            src@.len(),
        )),
        r matches Ok(n) ==> n <= old(dst)@.len() && final(dst)@.subrange(0, n as int)
            == compressed_of(src@),
        r matches Ok(n) ==> is_encoding_of(final(dst)@.subrange(0, n as int), src@),
{
    snap::raw::Encoder::new().compress(src, dst.as_mut_slice())
}

/// Relies on snap::raw::decompress_len: the length that the header of `src`
/// states, or an error where the header is malformed or too large.
#[verifier::external_body]
fn stated_len(src: &[u8]) -> (r: Result<usize, snap::Error>)
    ensures
        r is Ok <==> stated_len_of(src@) is Some,
        r matches Ok(m) ==> stated_len_of(src@) == Some(m as nat),
{
    snap::raw::decompress_len(src)
}

/// Relies on snap::raw::Decoder::decompress: it succeeds exactly when `src`
/// decodes and its bytes fit in `dst`, writes them at the front of `dst`
/// and returns their number.
#[verifier::external_body]
fn decode_into(src: &[u8], dst: &mut Vec<u8>) -> (r: Result<usize, snap::Error>)
    ensures
        final(dst)@.len() == old(dst)@.len(),
        r is Ok <==> (decompressed_of(src@) matches Some(d) && d.len() <= old(dst)@.len()),
        r matches Ok(n) ==> n <= old(dst)@.len() && decompressed_of(src@) == Some(
            final(dst)@.subrange(0, n as int),
        ),
{
    snap::raw::Decoder::new().decompress(src, dst.as_mut_slice())
}

/// Compresses `src` into a buffer of exactly the encoded length.
pub fn compress(src: &[u8]) -> (r: Vec<u8>)
    requires
        compressible(src@.len()),
    ensures
        compress_post(src@, r@),
{
    let cap = max_compress_len(src.len());
    let mut dst: Vec<u8> = vec![0u8; cap];
    match encode_into(src, &mut dst) {
        Ok(n) => {
            dst.truncate(n);
            dst
        },
        Err(_) => {
            // The capacity came from the sizing query, so the encoder cannot
            // have found the buffer too small.
            assert(false);
            dst
        },
    }
}

/// Decompresses `src`, or returns `None` where it is not a valid compressed
/// buffer.
pub fn uncompress(src: &[u8]) -> (r: Option<Vec<u8>>)
    ensures
        bytes_of(r) == uncompressed(src@),
{
    let m = match stated_len(src) {
        Ok(m) => m,
        Err(_) => {
            return None;
        },
    };
    let mut dst: Vec<u8> = vec![0u8; m];
    match decode_into(src, &mut dst) {
        Ok(n) => {
            let ghost written = dst@.subrange(0, n as int);
            dst.truncate(n);
            assert(dst@ =~= written);
            Some(dst)
        },
        Err(_) => None,
    }
}

/// Whether `src` is a valid compressed buffer.
pub fn validate_compressed_buffer(src: &[u8]) -> (r: bool)
    ensures
        r == is_valid_compressed(src@),
{
    uncompress(src).is_some()
}

/// Decompressing what `compress` returned gives back the input, and that
/// buffer validates.
pub proof fn lemma_round_trip(b: Seq<u8>, c: Seq<u8>)
    requires
        compress_post(b, c),
    ensures
        uncompressed(c) == Some(b),
        is_valid_compressed(c),
{
}

/// What `compress` returns is never longer than the capacity that the sizing
/// query gives for the input's length.
pub proof fn lemma_compressed_within_bound(b: Seq<u8>, c: Seq<u8>)
    requires
        compress_post(b, c),
    ensures
        c.len() <= max_compressed_len(b.len()),
{
}

} // verus!
