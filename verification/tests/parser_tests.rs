//! Tests of the document walker: minimal documents, attribute errors,
//! document-structure errors, ordering, and the cvParam-driven hints.

use base64::Engine;
use libms::{parse_mzml, parse_tokens, DecodedArray, MzmlError, Token};

fn b64_of_f32s(vals: &[f32]) -> String {
    let mut bytes: Vec<u8> = Vec::new();
    for v in vals {
        bytes.extend_from_slice(&v.to_le_bytes());
    }
    base64::engine::general_purpose::STANDARD.encode(&bytes)
}

fn b64_of_f64s(vals: &[f64]) -> String {
    let mut bytes: Vec<u8> = Vec::new();
    for v in vals {
        bytes.extend_from_slice(&v.to_le_bytes());
    }
    base64::engine::general_purpose::STANDARD.encode(&bytes)
}

#[test]
fn minimal_document_decodes_default_array_length_values() {
    let vals: [f32; 3] = [1.0, 2.5, -3.75];
    let payload = b64_of_f32s(&vals);
    let xml = format!(
        r#"<mzML>
  <run id="r1" startTimeStamp="2024-01-01T00:00:00Z">
    <spectrum id="s1" index="0" defaultArrayLength="3">
      <binaryDataArray encodedLength="{}">
        <binary>{}</binary>
      </binaryDataArray>
    </spectrum>
  </run>
</mzML>"#,
        payload.len(),
        payload
    );
    let run = parse_mzml(&xml).unwrap();
    assert_eq!(run.id, "r1");
    assert_eq!(run.start_time, "2024-01-01T00:00:00Z");
    assert_eq!(run.spectra.len(), 1);
    let sp = &run.spectra[0];
    assert_eq!(sp.id, "s1");
    assert_eq!(sp.index, 0);
    assert_eq!(sp.default_array_length, 3);
    assert_eq!(sp.binary_data_arrays.len(), 1);
    let arr = &sp.binary_data_arrays[0];
    assert_eq!(arr.encoded_length, payload.len());
    match arr.decoded_data.as_ref().unwrap() {
        DecodedArray::Single(bits) => {
            assert_eq!(bits.len(), sp.default_array_length);
            for (b, v) in bits.iter().zip(vals.iter()) {
                assert_eq!(*b, v.to_bits());
            }
        }
        DecodedArray::Double(_) => panic!("expected single precision"),
    }
}

#[test]
fn spectrum_missing_index_fails_with_missing_attribute() {
    let xml = r#"<run id="r1" startTimeStamp="t">
      <spectrum id="s1" defaultArrayLength="0"></spectrum>
    </run>"#;
    let err = parse_mzml(xml).unwrap_err();
    match err {
        MzmlError::MissingAttribute(element, name) => {
            assert_eq!(element, "spectrum");
            assert_eq!(name, "index");
        }
        other => panic!("expected MissingAttribute, got {:?}", other),
    }
}

#[test]
fn run_missing_id_fails_with_missing_attribute() {
    let xml = r#"<run startTimeStamp="t"></run>"#;
    let err = parse_mzml(xml).unwrap_err();
    match err {
        MzmlError::MissingAttribute(element, name) => {
            assert_eq!(element, "run");
            assert_eq!(name, "id");
        }
        other => panic!("expected MissingAttribute, got {:?}", other),
    }
}

#[test]
fn malformed_index_fails_with_malformed_number() {
    let xml = r#"<run id="r1" startTimeStamp="t">
      <spectrum id="s1" index="abc" defaultArrayLength="0"></spectrum>
    </run>"#;
    let err = parse_mzml(xml).unwrap_err();
    match err {
        MzmlError::MalformedNumber(text) => assert_eq!(text, "abc"),
        other => panic!("expected MalformedNumber, got {:?}", other),
    }
}

#[test]
fn document_without_run_fails_with_structure_error() {
    let xml = r#"<mzML><spectrumList count="0"></spectrumList></mzML>"#;
    let err = parse_mzml(xml).unwrap_err();
    assert!(matches!(err, MzmlError::DocumentStructureError));
}

#[test]
fn empty_document_fails_with_structure_error() {
    let err = parse_mzml("").unwrap_err();
    assert!(matches!(err, MzmlError::DocumentStructureError));
}

#[test]
fn multiple_spectra_keep_document_order() {
    let xml = r#"<run id="r1" startTimeStamp="t">
      <spectrum id="first" index="0" defaultArrayLength="0"></spectrum>
      <spectrum id="second" index="1" defaultArrayLength="0"></spectrum>
      <spectrum id="third" index="2" defaultArrayLength="0"></spectrum>
    </run>"#;
    let run = parse_mzml(xml).unwrap();
    assert_eq!(run.spectra.len(), 3);
    assert_eq!(run.spectra[0].id, "first");
    assert_eq!(run.spectra[1].id, "second");
    assert_eq!(run.spectra[2].id, "third");
    assert_eq!(run.spectra[0].index, 0);
    assert_eq!(run.spectra[1].index, 1);
    assert_eq!(run.spectra[2].index, 2);
}

#[test]
fn cv_params_reach_spectrum_and_array() {
    let vals: [f64; 2] = [4.5, -8.25];
    let payload = b64_of_f64s(&vals);
    let xml = format!(
        r#"<run id="r1" startTimeStamp="t">
      <spectrum id="s1" index="0" defaultArrayLength="2">
        <cvParam cvRef="MS" accession="MS:1000511" name="ms level" value="1"/>
        <binaryDataArray encodedLength="{}">
          <cvParam cvRef="MS" accession="MS:1000523" name="64-bit float"/>
          <binary>{}</binary>
        </binaryDataArray>
      </spectrum>
    </run>"#,
        payload.len(),
        payload
    );
    let run = parse_mzml(&xml).unwrap();
    let sp = &run.spectra[0];
    assert_eq!(sp.cv_params.len(), 1);
    assert_eq!(sp.cv_params[0].name, "ms level");
    assert_eq!(sp.cv_params[0].accession, "MS:1000511");
    assert_eq!(sp.cv_params[0].value.as_deref(), Some("1"));
    let arr = &sp.binary_data_arrays[0];
    assert_eq!(arr.cv_params.len(), 1);
    assert_eq!(arr.cv_params[0].name, "64-bit float");
    match arr.decoded_data.as_ref().unwrap() {
        DecodedArray::Double(bits) => {
            assert_eq!(bits.len(), 2);
            assert_eq!(bits[0], 4.5f64.to_bits());
            assert_eq!(bits[1], (-8.25f64).to_bits());
        }
        DecodedArray::Single(_) => panic!("expected double precision"),
    }
}

#[test]
fn cv_param_missing_accession_fails() {
    let xml = r#"<run id="r1" startTimeStamp="t">
      <spectrum id="s1" index="0" defaultArrayLength="0">
        <cvParam cvRef="MS" name="ms level"/>
      </spectrum>
    </run>"#;
    let err = parse_mzml(xml).unwrap_err();
    match err {
        MzmlError::MissingAttribute(element, name) => {
            assert_eq!(element, "cvParam");
            assert_eq!(name, "accession");
        }
        other => panic!("expected MissingAttribute, got {:?}", other),
    }
}

#[test]
fn synthetic_token_stream_parses_without_tokenizer() {
    let tokens = vec![
        Token::Open(
            "run".to_string(),
            vec![
                ("id".to_string(), "tok-run".to_string()),
                ("startTimeStamp".to_string(), "now".to_string()),
            ],
        ),
        Token::Open(
            "spectrum".to_string(),
            vec![
                ("id".to_string(), "tok-spec".to_string()),
                ("index".to_string(), "7".to_string()),
                ("defaultArrayLength".to_string(), "0".to_string()),
            ],
        ),
        Token::Close("spectrum".to_string()),
        Token::Close("run".to_string()),
        Token::Eof,
    ];
    let run = parse_tokens(&tokens).unwrap();
    assert_eq!(run.id, "tok-run");
    assert_eq!(run.spectra.len(), 1);
    assert_eq!(run.spectra[0].id, "tok-spec");
    assert_eq!(run.spectra[0].index, 7);
}

#[test]
fn unclosed_run_yields_run_with_no_spectra() {
    // The closing run tag is what attaches the spectra.
    let xml = r#"<run id="r1" startTimeStamp="t">
      <spectrum id="s1" index="0" defaultArrayLength="0"></spectrum>"#;
    let run = parse_mzml(xml).unwrap();
    assert_eq!(run.id, "r1");
    assert_eq!(run.spectra.len(), 0);
}

#[test]
fn compression_hint_needs_the_word_compression() {
    // The walker's hint is the first cvParam name containing "compression",
    // and the decoder matches that whole name exactly; the usual vocabulary
    // term "zlib compression" therefore selects no codec and the payload
    // passes through unchanged.
    let vals: [f32; 2] = [5.0, 6.5];
    let payload = b64_of_f32s(&vals);
    let xml = format!(
        r#"<run id="r1" startTimeStamp="t">
      <spectrum id="s1" index="0" defaultArrayLength="2">
        <binaryDataArray encodedLength="{}">
          <cvParam cvRef="MS" accession="MS:1000574" name="zlib compression"/>
          <binary>{}</binary>
        </binaryDataArray>
      </spectrum>
    </run>"#,
        payload.len(),
        payload
    );
    let run = parse_mzml(&xml).unwrap();
    let arr = &run.spectra[0].binary_data_arrays[0];
    match arr.decoded_data.as_ref().unwrap() {
        DecodedArray::Single(bits) => {
            assert_eq!(bits.len(), 2);
            assert_eq!(bits[0], 5.0f32.to_bits());
            assert_eq!(bits[1], 6.5f32.to_bits());
        }
        DecodedArray::Double(_) => panic!("expected single precision"),
    }
}
