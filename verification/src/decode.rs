//! The binary payload decoder: base64 text plus compression and precision
//! hints in, numeric bit patterns out.
//!
//! The pipeline is strictly ordered: base64-decode, then decompress according
//! to the compression hint, then reinterpret the bytes as little-endian
//! IEEE-754 values according to the precision hint.  The base64, zlib and
//! MS-Numpress codecs are outside collaborators; what they return is named by
//! uninterpreted spec functions, and everything around those calls is proved.

use vstd::bytes::spec_u32_from_le_bytes;
use vstd::bytes::spec_u64_from_le_bytes;
use vstd::bytes::u32_from_le_bytes;
use vstd::bytes::u64_from_le_bytes;
use vstd::prelude::*;
use vstd::slice::slice_subrange;

use crate::attrs::str_eq;
use crate::models::DecodedArray;
use crate::models::DecodedArrayV;
use crate::models::MzmlError;
use crate::models::MzmlErrorV;

verus! {

/// What base64-decoding a text yields: the decoded bytes, or nothing when the
/// text is not valid standard base64.
pub uninterp spec fn b64_decoded(text: Seq<char>) -> Option<Seq<u8>>;

/// What inflating a zlib stream yields: the decompressed bytes, or nothing
/// when the stream is corrupt or truncated.
pub uninterp spec fn zlib_inflated(data: Seq<u8>) -> Option<Seq<u8>>;

/// What the MS-Numpress linear decoder yields: the reconstructed doubles as
/// little-endian bytes, or nothing when the stream is rejected.
pub uninterp spec fn numpress_linear_bytes(data: Seq<u8>) -> Option<Seq<u8>>;

/// Relies on base64's `STANDARD` engine `decode`: the result is a function of
/// the text alone; input outside the standard alphabet, or with bad padding,
/// is rejected.
#[verifier::external_body]
fn base64_decode(text: &str) -> (r: Option<Vec<u8>>)
    ensures
        r is Some <==> b64_decoded(text@) is Some,
        r matches Some(v) ==> Some(v@) == b64_decoded(text@),
{
    base64::Engine::decode(&base64::engine::general_purpose::STANDARD, text).ok()
}

/// Relies on flate2's `ZlibDecoder` read to the end: the result is a function
/// of the bytes alone; a corrupt or truncated stream is rejected.
#[verifier::external_body]
fn inflate_zlib(data: &[u8]) -> (r: Option<Vec<u8>>)
    ensures
        r is Some <==> zlib_inflated(data@) is Some,
        r matches Some(v) ==> Some(v@) == zlib_inflated(data@),
{
    let mut decoder = flate2::read::ZlibDecoder::new(data);
    let mut out: Vec<u8> = Vec::new();
    match std::io::Read::read_to_end(&mut decoder, &mut out) {
        Ok(_) => Some(out),
        Err(_) => None,
    }
}

/// Relies on `numpress::numpress_decompress` (the MS-Numpress linear codec):
/// the reconstructed doubles, handed on as their little-endian bit patterns,
/// are a function of the bytes alone.  The crate sizes its output buffer as
/// `(len - 8) * 2`, so fewer than eight input bytes must be ruled out.
#[verifier::external_body]
fn numpress_linear_decode(data: &[u8]) -> (r: Option<Vec<u8>>)
    requires
        data@.len() >= 8,
    ensures
        r is Some <==> numpress_linear_bytes(data@) is Some,
        r matches Some(v) ==> Some(v@) == numpress_linear_bytes(data@),
{
    match numpress::numpress_decompress(data) {
        Ok(values) => Some(values.iter().flat_map(|v| v.to_bits().to_le_bytes()).collect()),
        Err(_) => None,
    }
}

/// What the decompression stage yields for a byte sequence and an optional
/// compression hint: zlib and MS-Numpress linear go through their codecs, the
/// slof codec is not available here and always fails, and any other hint, or
/// none, passes the bytes through unchanged.
pub open spec fn decompress_spec(raw: Seq<u8>, compression: Option<Seq<char>>) -> Result<
    Seq<u8>,
    MzmlErrorV,
> {
    if compression == Some("zlib"@) {
        match zlib_inflated(raw) {
            Some(d) => Ok(d),
            None => Err(MzmlErrorV::DecompressionError("zlib"@)),
        }
    } else if compression == Some("MS-Numpress linear"@) {
        if raw.len() < 8 {
            Err(MzmlErrorV::DecompressionError("MS-Numpress linear"@))
        } else {
            match numpress_linear_bytes(raw) {
                Some(d) => Ok(d),
                None => Err(MzmlErrorV::DecompressionError("MS-Numpress linear"@)),
            }
        }
    } else if compression == Some("MS-Numpress slof"@) {
        Err(MzmlErrorV::DecompressionError("MS-Numpress slof"@))
    } else {
        Ok(raw)
    }
}

/// The bytes read as consecutive 4-byte little-endian groups.
pub open spec fn chunks32(data: Seq<u8>) -> Seq<u32> {
    Seq::new((data.len() / 4) as nat, |k: int| spec_u32_from_le_bytes(data.subrange(4 * k, 4 * k + 4)))
}

/// The bytes read as consecutive 8-byte little-endian groups.
pub open spec fn chunks64(data: Seq<u8>) -> Seq<u64> {
    Seq::new((data.len() / 8) as nat, |k: int| spec_u64_from_le_bytes(data.subrange(8 * k, 8 * k + 8)))
}

/// What the reinterpretation stage yields for a byte sequence and a precision
/// hint: exact 4- or 8-byte little-endian grouping, a hard error on a length
/// that is not a multiple of the group size, and a hard error on an
/// unrecognized hint.
pub open spec fn reinterpret_spec(data: Seq<u8>, precision: Seq<char>) -> Result<
    DecodedArrayV,
    MzmlErrorV,
> {
    if precision == "32-bit float"@ {
        if data.len() % 4 == 0 {
            Ok(DecodedArrayV::Single(chunks32(data)))
        } else {
            Err(MzmlErrorV::TruncatedArrayError)
        }
    } else if precision == "64-bit float"@ {
        if data.len() % 8 == 0 {
            Ok(DecodedArrayV::Double(chunks64(data)))
        } else {
            Err(MzmlErrorV::TruncatedArrayError)
        }
    } else {
        Err(MzmlErrorV::UnknownPrecisionError(precision))
    }
}

/// What decoding a payload yields: base64 first (its failure is reported
/// before any decompression is attempted), then decompression, then
/// reinterpretation.
pub open spec fn decode_spec(
    text: Seq<char>,
    compression: Option<Seq<char>>,
    precision: Seq<char>,
) -> Result<DecodedArrayV, MzmlErrorV> {
    match b64_decoded(text) {
        None => Err(MzmlErrorV::DecodeError),
        Some(raw) => match decompress_spec(raw, compression) {
            Err(e) => Err(e),
            Ok(data) => reinterpret_spec(data, precision),
        },
    }
}

fn chunk_u32s(data: &Vec<u8>) -> (r: Vec<u32>)
    requires
        data@.len() % 4 == 0,
    ensures
        r@ == chunks32(data@),
{
    let count = data.len() / 4;
    let mut out: Vec<u32> = Vec::new();
    let mut k: usize = 0;
    while k < count
        invariant
            count == data@.len() / 4,
            data@.len() % 4 == 0,
            data@.len() <= usize::MAX,
            k <= count,
            out@.len() == k,
            forall|t: int|
                0 <= t < k ==> out@[t] == spec_u32_from_le_bytes(
                    #[trigger] data@.subrange(4 * t, 4 * t + 4),
                ),
        decreases count - k,
    {
        proof {
            vstd::arithmetic::div_mod::lemma_fundamental_div_mod(data@.len() as int, 4);
            assert(4 * k + 4 <= data@.len());
        }
        let chunk = slice_subrange(data.as_slice(), 4 * k, 4 * k + 4);
        let v = u32_from_le_bytes(chunk);
        out.push(v);
        k += 1;
    }
    proof {
        assert(out@ =~= chunks32(data@));
    }
    out
}

fn chunk_u64s(data: &Vec<u8>) -> (r: Vec<u64>)
    requires
        data@.len() % 8 == 0,
    ensures
        r@ == chunks64(data@),
{
    let count = data.len() / 8;
    let mut out: Vec<u64> = Vec::new();
    let mut k: usize = 0;
    while k < count
        invariant
            count == data@.len() / 8,
            data@.len() % 8 == 0,
            data@.len() <= usize::MAX,
            k <= count,
            out@.len() == k,
            forall|t: int|
                0 <= t < k ==> out@[t] == spec_u64_from_le_bytes(
                    #[trigger] data@.subrange(8 * t, 8 * t + 8),
                ),
        decreases count - k,
    {
        proof {
            vstd::arithmetic::div_mod::lemma_fundamental_div_mod(data@.len() as int, 8);
            assert(8 * k + 8 <= data@.len());
        }
        let chunk = slice_subrange(data.as_slice(), 8 * k, 8 * k + 8);
        let v = u64_from_le_bytes(chunk);
        out.push(v);
        k += 1;
    }
    proof {
        assert(out@ =~= chunks64(data@));
    }
    out
}

/// Decode one binary payload: base64 text in, one numeric array of IEEE-754
/// bit patterns out, or the exact error the pipeline stops on.
pub fn decode_binary_data(encoded: &str, compression: Option<&str>, precision: &str) -> (r: Result<
    DecodedArray,
    MzmlError,
>)
    ensures
        match decode_spec(encoded@, compression.deep_view(), precision@) {
            Ok(d) => r matches Ok(a) && a@ == d,
            Err(e) => r matches Err(er) && er@ == e,
        },
{
    let raw = match base64_decode(encoded) {
        Some(v) => v,
        None => {
            return Err(MzmlError::DecodeError);
        },
    };
    let data: Vec<u8> = match compression {
        Some(c) => {
            if str_eq(c, "zlib") {
                match inflate_zlib(raw.as_slice()) {
                    Some(d) => d,
                    None => {
                        return Err(MzmlError::DecompressionError("zlib".to_owned()));
                    },
                }
            } else if str_eq(c, "MS-Numpress linear") {
                if raw.len() < 8 {
                    return Err(MzmlError::DecompressionError("MS-Numpress linear".to_owned()));
                }
                match numpress_linear_decode(raw.as_slice()) {
                    Some(d) => d,
                    None => {
                        return Err(MzmlError::DecompressionError("MS-Numpress linear".to_owned()));
                    },
                }
            } else if str_eq(c, "MS-Numpress slof") {
                // the numpress crate offers the linear codec only; a slof payload
                // cannot be decoded here
                return Err(MzmlError::DecompressionError("MS-Numpress slof".to_owned()));
            } else {
                raw
            }
        },
        None => raw,
    };
    if str_eq(precision, "32-bit float") {
        if data.len() % 4 == 0 {
            Ok(DecodedArray::Single(chunk_u32s(&data)))
        } else {
            Err(MzmlError::TruncatedArrayError)
        }
    } else if str_eq(precision, "64-bit float") {
        if data.len() % 8 == 0 {
            Ok(DecodedArray::Double(chunk_u64s(&data)))
        } else {
            Err(MzmlError::TruncatedArrayError)
        }
    } else {
        Err(MzmlError::UnknownPrecisionError(precision.to_owned()))
    }
}

} // verus!
