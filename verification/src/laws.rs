//! The properties the library states of itself, proved once and for all:
//! the decoder's round trip and dispatch behaviour, and the walker's handling
//! of spectra and minimal documents.

use vstd::bytes::spec_u32_to_le_bytes;
use vstd::prelude::*;

use crate::attrs::find_attr;
use crate::attrs::parse_usize_spec;
use crate::decode::b64_decoded;
use crate::decode::chunks32;
use crate::decode::decode_spec;
use crate::decode::decompress_spec;
use crate::decode::reinterpret_spec;
use crate::models::DecodedArrayV;
use crate::models::MzmlErrorV;
use crate::models::CvParamV;
use crate::models::SpectrumV;
use crate::walker::compression_hint;
use crate::walker::finish;
use crate::walker::init_state;
use crate::walker::precision_hint;
use crate::walker::step;
use crate::walker::step_close;
use crate::walker::walk_from;
use crate::walker::WalkSt;
use crate::xml::TokenV;

verus! {

/// The little-endian byte form of a sequence of 32-bit values.
pub open spec fn le_bytes_of_u32s(vals: Seq<u32>) -> Seq<u8>
    decreases vals.len(),
{
    if vals.len() == 0 {
        Seq::empty()
    } else {
        spec_u32_to_le_bytes(vals[0]) + le_bytes_of_u32s(vals.skip(1))
    }
}


proof fn lemma_names_distinct()
    ensures
        "run"@ != "spectrum"@,
        "run"@ != "binaryDataArray"@,
        "run"@ != "binary"@,
        "run"@ != "cvParam"@,
        "spectrum"@ != "binaryDataArray"@,
        "spectrum"@ != "binary"@,
        "spectrum"@ != "cvParam"@,
        "binaryDataArray"@ != "binary"@,
        "binaryDataArray"@ != "cvParam"@,
        "binary"@ != "cvParam"@,
        "32-bit float"@ != "64-bit float"@,
{
    reveal_strlit("run");
    reveal_strlit("spectrum");
    reveal_strlit("binaryDataArray");
    reveal_strlit("binary");
    reveal_strlit("cvParam");
    reveal_strlit("32-bit float");
    reveal_strlit("64-bit float");
    assert("run"@.len() == 3);
    assert("spectrum"@.len() == 8);
    assert("binaryDataArray"@.len() == 15);
    assert("binary"@.len() == 6);
    assert("cvParam"@.len() == 7);
    assert("32-bit float"@.len() == 12);
    assert("64-bit float"@.len() == 12);
    assert("32-bit float"@[0] == '3');
    assert("64-bit float"@[0] == '6');
}

/// Reading the little-endian bytes of any 32-bit value sequence back at
/// single precision reproduces the sequence exactly.
pub proof fn lemma_single_precision_round_trip(vals: Seq<u32>)
    ensures
        le_bytes_of_u32s(vals).len() == 4 * vals.len(),
        reinterpret_spec(le_bytes_of_u32s(vals), "32-bit float"@) == Ok::<
            DecodedArrayV,
            MzmlErrorV,
        >(DecodedArrayV::Single(vals)),
    decreases vals.len(),
{
    vstd::bytes::lemma_auto_spec_u32_to_from_le_bytes();
    let bytes = le_bytes_of_u32s(vals);
    if vals.len() == 0 {
        assert(chunks32(bytes) =~= vals);
    } else {
        lemma_single_precision_round_trip(vals.skip(1));
        let head = spec_u32_to_le_bytes(vals[0]);
        let rest = le_bytes_of_u32s(vals.skip(1));
        assert(bytes == head + rest);
        assert forall|k: int| 0 <= k < bytes.len() / 4 implies chunks32(bytes)[k] == vals[k] by {
            if k == 0 {
                assert(bytes.subrange(0, 4) =~= head);
            } else {
                assert(bytes.subrange(4 * k, 4 * k + 4) =~= rest.subrange(
                    4 * (k - 1),
                    4 * (k - 1) + 4,
                ));
                assert(chunks32(rest)[k - 1] == vals.skip(1)[k - 1]);
            }
        }
        assert(chunks32(bytes) =~= vals);
    }
}

/// Round trip: a payload whose base64 decoding is the little-endian byte
/// form of a value sequence, stored without compression at single precision,
/// decodes to exactly that sequence.
pub proof fn lemma_uncompressed_single_round_trip(text: Seq<char>, vals: Seq<u32>)
    requires
        b64_decoded(text) == Some(le_bytes_of_u32s(vals)),
    ensures
        decode_spec(text, None, "32-bit float"@) == Ok::<DecodedArrayV, MzmlErrorV>(
            DecodedArrayV::Single(vals),
        ),
{
    lemma_single_precision_round_trip(vals);
}

/// Precision dispatch: single precision reads the bytes in 4-byte groups,
/// double precision in 8-byte groups, one value per group; any other tag is
/// rejected by name.
pub proof fn lemma_precision_dispatch(data: Seq<u8>, precision: Seq<char>)
    ensures
        precision == "32-bit float"@ && data.len() % 4 == 0 ==> reinterpret_spec(data, precision)
            == Ok::<DecodedArrayV, MzmlErrorV>(DecodedArrayV::Single(chunks32(data)))
            && chunks32(data).len() == data.len() / 4,
        precision == "64-bit float"@ && data.len() % 8 == 0 ==> (reinterpret_spec(data, precision)
            matches Ok(d) && (d matches DecodedArrayV::Double(vs) && vs.len() == data.len() / 8)),
        precision != "32-bit float"@ && precision != "64-bit float"@ ==> reinterpret_spec(
            data,
            precision,
        ) == Err::<DecodedArrayV, MzmlErrorV>(MzmlErrorV::UnknownPrecisionError(precision)),
{
    lemma_names_distinct();
}

/// Compression dispatch: no hint, or a hint naming no known algorithm, passes
/// the bytes through unchanged.
pub proof fn lemma_no_compression_passthrough(raw: Seq<u8>, compression: Option<Seq<char>>)
    requires
        compression != Some("zlib"@),
        compression != Some("MS-Numpress linear"@),
        compression != Some("MS-Numpress slof"@),
    ensures
        decompress_spec(raw, compression) == Ok::<Seq<u8>, MzmlErrorV>(raw),
{
}

/// Closing a spectrum appends it at the end of the finished sequence and
/// moves no earlier spectrum: document order is preserved.
pub proof fn lemma_spectrum_close_preserves_order(st: WalkSt)
    requires
        st.cur_spectrum is Some,
    ensures
        (step_close(st, "spectrum"@) is Ok),
        step_close(st, "spectrum"@)->Ok_0.spectra.len() == st.spectra.len() + 1,
        forall|i: int|
            0 <= i < st.spectra.len() ==> step_close(st, "spectrum"@)->Ok_0.spectra[i]
                == st.spectra[i],
        step_close(st, "spectrum"@)->Ok_0.spectra.last() == (SpectrumV {
            cv_params: st.staged_params,
            ..st.cur_spectrum->0
        }),
{
}

/// A well-formed minimal document: one run, one spectrum, one binary data
/// array with an uncompressed single-precision payload, given as tokens.
pub open spec fn minimal_doc_tokens(
    run_attrs: Seq<(Seq<char>, Seq<char>)>,
    spectrum_attrs: Seq<(Seq<char>, Seq<char>)>,
    array_attrs: Seq<(Seq<char>, Seq<char>)>,
    payload: Seq<char>,
) -> Seq<TokenV> {
    seq![
        TokenV::Open("run"@, run_attrs),
        TokenV::Open("spectrum"@, spectrum_attrs),
        TokenV::Open("binaryDataArray"@, array_attrs),
        TokenV::Open("binary"@, Seq::empty()),
        TokenV::Text(payload),
        TokenV::Close("binary"@),
        TokenV::Close("binaryDataArray"@),
        TokenV::Close("spectrum"@),
        TokenV::Close("run"@),
    ]
}

/// Walking a well-formed minimal document yields a run with one spectrum
/// whose single binary data array decodes to exactly `defaultArrayLength`
/// single-precision values.
pub proof fn lemma_minimal_doc(
    run_attrs: Seq<(Seq<char>, Seq<char>)>,
    spectrum_attrs: Seq<(Seq<char>, Seq<char>)>,
    array_attrs: Seq<(Seq<char>, Seq<char>)>,
    payload: Seq<char>,
    n: usize,
    bytes: Seq<u8>,
)
    requires
        find_attr(run_attrs, "id"@) is Some,
        find_attr(run_attrs, "startTimeStamp"@) is Some,
        find_attr(spectrum_attrs, "id"@) is Some,
        find_attr(spectrum_attrs, "index"@) matches Some(ix) && parse_usize_spec(ix) is Some,
        find_attr(spectrum_attrs, "defaultArrayLength"@) matches Some(dal) && parse_usize_spec(dal)
            == Some(n),
        find_attr(array_attrs, "encodedLength"@) matches Some(el) && parse_usize_spec(el) is Some,
        b64_decoded(payload) == Some(bytes),
        bytes.len() == 4 * n,
    ensures
        (walk_from(init_state(), minimal_doc_tokens(run_attrs, spectrum_attrs, array_attrs, payload))
            matches Ok(run) && run.spectra.len() == 1 && run.spectra[0].binary_data_arrays.len()
            == 1 && (run.spectra[0].binary_data_arrays[0].decoded_data matches Some(d) && (
        d matches DecodedArrayV::Single(vs) && vs.len() == run.spectra[0].default_array_length
            && run.spectra[0].default_array_length == n))),
{
    lemma_names_distinct();
    let ts = minimal_doc_tokens(run_attrs, spectrum_attrs, array_attrs, payload);
    assert(ts[0] == TokenV::Open("run"@, run_attrs));
    assert(ts[1] == TokenV::Open("spectrum"@, spectrum_attrs));
    assert(ts[2] == TokenV::Open("binaryDataArray"@, array_attrs));
    assert(ts[3] == TokenV::Open("binary"@, Seq::<(Seq<char>, Seq<char>)>::empty()));
    assert(ts[4] == TokenV::Text(payload));
    assert(ts[5] == TokenV::Close("binary"@));
    assert(ts[6] == TokenV::Close("binaryDataArray"@));
    assert(ts[7] == TokenV::Close("spectrum"@));
    assert(ts[8] == TokenV::Close("run"@));
    assert(ts.skip(1).skip(1) =~= ts.skip(2));
    assert(ts.skip(2).skip(1) =~= ts.skip(3));
    assert(ts.skip(3).skip(1) =~= ts.skip(4));
    assert(ts.skip(4).skip(1) =~= ts.skip(5));
    assert(ts.skip(5).skip(1) =~= ts.skip(6));
    assert(ts.skip(6).skip(1) =~= ts.skip(7));
    assert(ts.skip(7).skip(1) =~= ts.skip(8));
    assert(ts.skip(8).skip(1) =~= ts.skip(9));
    let st0 = init_state();
    assert(step(st0, ts[0]) is Ok);
    let st1 = step(st0, ts[0])->Ok_0;
    assert(step(st1, ts[1]) is Ok);
    let st2 = step(st1, ts[1])->Ok_0;
    assert(st2.cur_spectrum->0.default_array_length == n);
    assert(step(st2, ts[2]) is Ok);
    let st3 = step(st2, ts[2])->Ok_0;
    assert(st3.cur_array is Some);
    assert(step(st3, ts[3]) is Ok);
    let st4 = step(st3, ts[3])->Ok_0;
    assert(st4.awaiting_payload && st4.cur_array is Some);
    assert(st4.cur_array->0.cv_params =~= Seq::<CvParamV>::empty());
    assert(compression_hint(st4.cur_array->0.cv_params) is None);
    assert(precision_hint(st4.cur_array->0.cv_params) == "32-bit float"@);
    assert(decompress_spec(bytes, None) == Ok::<Seq<u8>, MzmlErrorV>(bytes));
    assert(bytes.len() % 4 == 0);
    assert(reinterpret_spec(bytes, "32-bit float"@) == Ok::<DecodedArrayV, MzmlErrorV>(
        DecodedArrayV::Single(chunks32(bytes)),
    ));
    assert(chunks32(bytes).len() == n);
    assert(step(st4, ts[4]) is Ok);
    let st5 = step(st4, ts[4])->Ok_0;
    assert(st5.cur_array->0.decoded_data == Some(DecodedArrayV::Single(chunks32(bytes))));
    assert(!st5.awaiting_payload);
    assert(step(st5, ts[5]) is Ok);
    let st6 = step(st5, ts[5])->Ok_0;
    assert(step(st6, ts[6]) is Ok);
    let st7 = step(st6, ts[6])->Ok_0;
    assert(st7.cur_spectrum->0.binary_data_arrays.len() == 1);
    assert(step(st7, ts[7]) is Ok);
    let st8 = step(st7, ts[7])->Ok_0;
    assert(st8.spectra.len() == 1);
    assert(step(st8, ts[8]) is Ok);
    let st9 = step(st8, ts[8])->Ok_0;
    assert(st9.run->0.spectra =~= st8.spectra);
    assert(ts.skip(9).len() == 0);
    assert(ts.skip(1)[0] == ts[1]);
    assert(ts.skip(2)[0] == ts[2]);
    assert(ts.skip(3)[0] == ts[3]);
    assert(ts.skip(4)[0] == ts[4]);
    assert(ts.skip(5)[0] == ts[5]);
    assert(ts.skip(6)[0] == ts[6]);
    assert(ts.skip(7)[0] == ts[7]);
    assert(ts.skip(8)[0] == ts[8]);
    assert(walk_from(init_state(), ts) == walk_from(st1, ts.skip(1)));
    assert(walk_from(st1, ts.skip(1)) == walk_from(st2, ts.skip(2)));
    assert(walk_from(st2, ts.skip(2)) == walk_from(st3, ts.skip(3)));
    assert(walk_from(st3, ts.skip(3)) == walk_from(st4, ts.skip(4)));
    assert(walk_from(st4, ts.skip(4)) == walk_from(st5, ts.skip(5)));
    assert(walk_from(st5, ts.skip(5)) == walk_from(st6, ts.skip(6)));
    assert(walk_from(st6, ts.skip(6)) == walk_from(st7, ts.skip(7)));
    assert(walk_from(st7, ts.skip(7)) == walk_from(st8, ts.skip(8)));
    assert(walk_from(st8, ts.skip(8)) == walk_from(st9, ts.skip(9)));
    assert(walk_from(st9, ts.skip(9)) == finish(st9));
    assert(walk_from(init_state(), ts) == finish(st9));
}

} // verus!

