//! The document model an mzML parse produces, and its mathematical views.
//!
//! A parse yields one `Run`, which owns its spectra; each `Spectrum` owns its
//! annotations and binary data arrays.  The model is a pure tree: no sharing,
//! no back references.  Decoded numeric arrays hold IEEE-754 bit patterns as
//! plain integers; turning a bit pattern into a floating-point value is left
//! to callers outside this crate.

use vstd::prelude::*;

verus! {

/// A controlled-vocabulary annotation: one (reference, accession, name, value)
/// fact attached to a document element, with an optional unit.
#[derive(Debug, Clone)]
pub struct CvParam {
    pub cv_ref: String,
    pub accession: String,
    pub name: String,
    pub value: Option<String>,
    pub unit_name: Option<String>,
    pub unit_accession: Option<String>,
    pub unit_cv_ref: Option<String>,
}

#[verifier::ext_equal]
pub ghost struct CvParamV {
    pub cv_ref: Seq<char>,
    pub accession: Seq<char>,
    pub name: Seq<char>,
    pub value: Option<Seq<char>>,
    pub unit_name: Option<Seq<char>>,
    pub unit_accession: Option<Seq<char>>,
    pub unit_cv_ref: Option<Seq<char>>,
}

impl View for CvParam {
    type V = CvParamV;

    open spec fn view(&self) -> CvParamV {
        CvParamV {
            cv_ref: self.cv_ref@,
            accession: self.accession@,
            name: self.name@,
            value: self.value.deep_view(),
            unit_name: self.unit_name.deep_view(),
            unit_accession: self.unit_accession.deep_view(),
            unit_cv_ref: self.unit_cv_ref.deep_view(),
        }
    }
}

impl DeepView for CvParam {
    type V = CvParamV;

    open spec fn deep_view(&self) -> CvParamV {
        self.view()
    }
}

/// One decoded binary payload.  Each element is the little-endian IEEE-754
/// bit pattern of one numeric value: 32-bit patterns for single precision,
/// 64-bit patterns for double precision.
#[derive(Debug, Clone)]
pub enum DecodedArray {
    Single(Vec<u32>),
    Double(Vec<u64>),
}

#[verifier::ext_equal]
pub ghost enum DecodedArrayV {
    Single(Seq<u32>),
    Double(Seq<u64>),
}

impl View for DecodedArray {
    type V = DecodedArrayV;

    open spec fn view(&self) -> DecodedArrayV {
        match self {
            DecodedArray::Single(v) => DecodedArrayV::Single(v@),
            DecodedArray::Double(v) => DecodedArrayV::Double(v@),
        }
    }
}

impl DeepView for DecodedArray {
    type V = DecodedArrayV;

    open spec fn deep_view(&self) -> DecodedArrayV {
        self.view()
    }
}

/// One encoded numeric array of a spectrum: the declared encoded byte length,
/// the annotations that carry its compression and precision hints, and, once
/// the payload text has been consumed, the decoded values.
#[derive(Debug, Clone)]
pub struct BinaryDataArray {
    pub encoded_length: usize,
    pub cv_params: Vec<CvParam>,
    pub decoded_data: Option<DecodedArray>,
}

#[verifier::ext_equal]
pub ghost struct BinaryDataArrayV {
    pub encoded_length: usize,
    pub cv_params: Seq<CvParamV>,
    pub decoded_data: Option<DecodedArrayV>,
}

impl View for BinaryDataArray {
    type V = BinaryDataArrayV;

    open spec fn view(&self) -> BinaryDataArrayV {
        BinaryDataArrayV {
            encoded_length: self.encoded_length,
            cv_params: self.cv_params.deep_view(),
            decoded_data: self.decoded_data.deep_view(),
        }
    }
}

impl DeepView for BinaryDataArray {
    type V = BinaryDataArrayV;

    open spec fn deep_view(&self) -> BinaryDataArrayV {
        self.view()
    }
}

/// One window of an acquisition scan, carrying only annotations.
#[derive(Debug, Clone)]
pub struct ScanWindow {
    pub cv_params: Vec<CvParam>,
}

#[verifier::ext_equal]
pub ghost struct ScanWindowV {
    pub cv_params: Seq<CvParamV>,
}

impl View for ScanWindow {
    type V = ScanWindowV;

    open spec fn view(&self) -> ScanWindowV {
        ScanWindowV { cv_params: self.cv_params.deep_view() }
    }
}

impl DeepView for ScanWindow {
    type V = ScanWindowV;

    open spec fn deep_view(&self) -> ScanWindowV {
        self.view()
    }
}

/// One acquisition scan: annotations plus its scan windows.
#[derive(Debug, Clone)]
pub struct Scan {
    pub cv_params: Vec<CvParam>,
    pub scan_windows: Vec<ScanWindow>,
}

#[verifier::ext_equal]
pub ghost struct ScanV {
    pub cv_params: Seq<CvParamV>,
    pub scan_windows: Seq<ScanWindowV>,
}

impl View for Scan {
    type V = ScanV;

    open spec fn view(&self) -> ScanV {
        ScanV {
            cv_params: self.cv_params.deep_view(),
            scan_windows: self.scan_windows.deep_view(),
        }
    }
}

impl DeepView for Scan {
    type V = ScanV;

    open spec fn deep_view(&self) -> ScanV {
        self.view()
    }
}

/// The list of acquisition scans of a spectrum.
#[derive(Debug, Clone)]
pub struct ScanList {
    pub count: usize,
    pub cv_params: Vec<CvParam>,
    pub scans: Vec<Scan>,
}

#[verifier::ext_equal]
pub ghost struct ScanListV {
    pub count: usize,
    pub cv_params: Seq<CvParamV>,
    pub scans: Seq<ScanV>,
}

impl View for ScanList {
    type V = ScanListV;

    open spec fn view(&self) -> ScanListV {
        ScanListV {
            count: self.count,
            cv_params: self.cv_params.deep_view(),
            scans: self.scans.deep_view(),
        }
    }
}

impl DeepView for ScanList {
    type V = ScanListV;

    open spec fn deep_view(&self) -> ScanListV {
        self.view()
    }
}

/// One scan event: its identifier, zero-based index, the element count every
/// binary array of this spectrum is declared to decode to, its annotations,
/// and its binary data arrays in document order.
#[derive(Debug, Clone)]
pub struct Spectrum {
    pub id: String,
    pub index: usize,
    pub default_array_length: usize,
    pub cv_params: Vec<CvParam>,
    pub scan_list: Option<ScanList>,
    pub binary_data_arrays: Vec<BinaryDataArray>,
}

#[verifier::ext_equal]
pub ghost struct SpectrumV {
    pub id: Seq<char>,
    pub index: usize,
    pub default_array_length: usize,
    pub cv_params: Seq<CvParamV>,
    pub scan_list: Option<ScanListV>,
    pub binary_data_arrays: Seq<BinaryDataArrayV>,
}

impl View for Spectrum {
    type V = SpectrumV;

    open spec fn view(&self) -> SpectrumV {
        SpectrumV {
            id: self.id@,
            index: self.index,
            default_array_length: self.default_array_length,
            cv_params: self.cv_params.deep_view(),
            scan_list: self.scan_list.deep_view(),
            binary_data_arrays: self.binary_data_arrays.deep_view(),
        }
    }
}

impl DeepView for Spectrum {
    type V = SpectrumV;

    open spec fn deep_view(&self) -> SpectrumV {
        self.view()
    }
}

/// The top-level container a successful parse produces: the run's identifier,
/// its start timestamp, and its spectra in document order.
#[derive(Debug, Clone)]
pub struct Run {
    pub id: String,
    pub start_time: String,
    pub spectra: Vec<Spectrum>,
}

#[verifier::ext_equal]
pub ghost struct RunV {
    pub id: Seq<char>,
    pub start_time: Seq<char>,
    pub spectra: Seq<SpectrumV>,
}

impl View for Run {
    type V = RunV;

    open spec fn view(&self) -> RunV {
        RunV { id: self.id@, start_time: self.start_time@, spectra: self.spectra.deep_view() }
    }
}

impl DeepView for Run {
    type V = RunV;

    open spec fn deep_view(&self) -> RunV {
        self.view()
    }
}

/// Why a parse or a payload decode was aborted.  Every failure carries what a
/// caller needs to locate it: the element and attribute, the offending text,
/// or the algorithm that rejected its input.
#[derive(Debug, Clone)]
pub enum MzmlError {
    /// A required attribute was absent: (element name, attribute name).
    MissingAttribute(String, String),
    /// An attribute that must be a non-negative integer did not parse.
    MalformedNumber(String),
    /// The payload text is not valid base64.
    DecodeError,
    /// The named decompression algorithm rejected its input.
    DecompressionError(String),
    /// The precision hint names no known encoding.
    UnknownPrecisionError(String),
    /// The decompressed byte count is not a multiple of the element size.
    TruncatedArrayError,
    /// No run element was found by the end of the document.
    DocumentStructureError,
}

#[verifier::ext_equal]
pub ghost enum MzmlErrorV {
    MissingAttribute(Seq<char>, Seq<char>),
    MalformedNumber(Seq<char>),
    DecodeError,
    DecompressionError(Seq<char>),
    UnknownPrecisionError(Seq<char>),
    TruncatedArrayError,
    DocumentStructureError,
}

impl View for MzmlError {
    type V = MzmlErrorV;

    open spec fn view(&self) -> MzmlErrorV {
        match self {
            MzmlError::MissingAttribute(e, a) => MzmlErrorV::MissingAttribute(e@, a@),
            MzmlError::MalformedNumber(v) => MzmlErrorV::MalformedNumber(v@),
            MzmlError::DecodeError => MzmlErrorV::DecodeError,
            MzmlError::DecompressionError(a) => MzmlErrorV::DecompressionError(a@),
            MzmlError::UnknownPrecisionError(t) => MzmlErrorV::UnknownPrecisionError(t@),
            MzmlError::TruncatedArrayError => MzmlErrorV::TruncatedArrayError,
            MzmlError::DocumentStructureError => MzmlErrorV::DocumentStructureError,
        }
    }
}

impl DeepView for MzmlError {
    type V = MzmlErrorV;

    open spec fn deep_view(&self) -> MzmlErrorV {
        self.view()
    }
}

} // verus!
