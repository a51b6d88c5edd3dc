//! The document walker: a single-pass state machine from a flat token stream
//! to a populated `Run`.
//!
//! The machine's meaning is given by the spec functions `step` (one token) and
//! `walk_from` (a whole stream): every transition the executable walker makes
//! is proved equal to them, so `parse_tokens` is pinned down exactly, for
//! every token stream.

use vstd::prelude::*;

use crate::attrs::find_attr;
use crate::attrs::get_attr;
use crate::attrs::get_attr_optional;
use crate::attrs::has_substring;
use crate::attrs::contains_sub;
use crate::attrs::parse_usize;
use crate::attrs::parse_usize_spec;
use crate::attrs::str_eq;
use crate::decode::decode_binary_data;
use crate::decode::decode_spec;
use crate::models::BinaryDataArray;
use crate::models::BinaryDataArrayV;
use crate::models::CvParam;
use crate::models::CvParamV;
use crate::models::MzmlError;
use crate::models::MzmlErrorV;
use crate::models::Run;
use crate::models::RunV;
use crate::models::Spectrum;
use crate::models::SpectrumV;
use crate::xml::Token;
use crate::xml::TokenV;

verus! {

/// The walker's in-progress context: one slot per nesting level in use.
#[verifier::ext_equal]
pub ghost struct WalkSt {
    /// The run under construction, once its opening tag was seen.
    pub run: Option<RunV>,
    /// The finished spectra, in document order.
    pub spectra: Seq<SpectrumV>,
    /// The spectrum under construction.
    pub cur_spectrum: Option<SpectrumV>,
    /// Annotations staged for the enclosing spectrum.
    pub staged_params: Seq<CvParamV>,
    /// The binary data array under construction.
    pub cur_array: Option<BinaryDataArrayV>,
    /// A binary element was opened and its payload text is awaited.
    pub awaiting_payload: bool,
}

pub open spec fn init_state() -> WalkSt {
    WalkSt {
        run: None,
        spectra: Seq::empty(),
        cur_spectrum: None,
        staged_params: Seq::empty(),
        cur_array: None,
        awaiting_payload: false,
    }
}

/// The annotation an opening cvParam tag carries: reference, accession and
/// name are required, value and unit are optional.
pub open spec fn cv_param_spec(attrs: Seq<(Seq<char>, Seq<char>)>) -> Result<
    CvParamV,
    MzmlErrorV,
> {
    match find_attr(attrs, "cvRef"@) {
        None => Err(MzmlErrorV::MissingAttribute("cvParam"@, "cvRef"@)),
        Some(cv_ref) => match find_attr(attrs, "accession"@) {
            None => Err(MzmlErrorV::MissingAttribute("cvParam"@, "accession"@)),
            Some(accession) => match find_attr(attrs, "name"@) {
                None => Err(MzmlErrorV::MissingAttribute("cvParam"@, "name"@)),
                Some(name) => Ok(
                    CvParamV {
                        cv_ref,
                        accession,
                        name,
                        value: find_attr(attrs, "value"@),
                        unit_name: find_attr(attrs, "unitName"@),
                        unit_accession: find_attr(attrs, "unitAccession"@),
                        unit_cv_ref: find_attr(attrs, "unitCvRef"@),
                    },
                ),
            },
        },
    }
}

/// A fresh annotation goes to the binary data array under construction when
/// there is one, and is staged for the enclosing spectrum otherwise.
pub open spec fn push_param(st: WalkSt, p: CvParamV) -> WalkSt {
    match st.cur_array {
        Some(arr) => WalkSt {
            cur_array: Some(BinaryDataArrayV { cv_params: arr.cv_params.push(p), ..arr }),
            ..st
        },
        None => WalkSt { staged_params: st.staged_params.push(p), ..st },
    }
}

pub open spec fn open_cv_param(st: WalkSt, attrs: Seq<(Seq<char>, Seq<char>)>) -> Result<
    WalkSt,
    MzmlErrorV,
> {
    match cv_param_spec(attrs) {
        Ok(p) => Ok(push_param(st, p)),
        Err(e) => Err(e),
    }
}

pub open spec fn open_run(st: WalkSt, attrs: Seq<(Seq<char>, Seq<char>)>) -> Result<
    WalkSt,
    MzmlErrorV,
> {
    match find_attr(attrs, "id"@) {
        None => Err(MzmlErrorV::MissingAttribute("run"@, "id"@)),
        Some(id) => match find_attr(attrs, "startTimeStamp"@) {
            None => Err(MzmlErrorV::MissingAttribute("run"@, "startTimeStamp"@)),
            Some(start_time) => Ok(
                WalkSt { run: Some(RunV { id, start_time, spectra: Seq::empty() }), ..st },
            ),
        },
    }
}

pub open spec fn open_spectrum(st: WalkSt, attrs: Seq<(Seq<char>, Seq<char>)>) -> Result<
    WalkSt,
    MzmlErrorV,
> {
    match find_attr(attrs, "id"@) {
        None => Err(MzmlErrorV::MissingAttribute("spectrum"@, "id"@)),
        Some(id) => match find_attr(attrs, "index"@) {
            None => Err(MzmlErrorV::MissingAttribute("spectrum"@, "index"@)),
            Some(index_text) => match parse_usize_spec(index_text) {
                None => Err(MzmlErrorV::MalformedNumber(index_text)),
                Some(index) => match find_attr(attrs, "defaultArrayLength"@) {
                    None => Err(MzmlErrorV::MissingAttribute("spectrum"@, "defaultArrayLength"@)),
                    Some(dal_text) => match parse_usize_spec(dal_text) {
                        None => Err(MzmlErrorV::MalformedNumber(dal_text)),
                        Some(default_array_length) => Ok(
                            WalkSt {
                                cur_spectrum: Some(
                                    SpectrumV {
                                        id,
                                        index,
                                        default_array_length,
                                        cv_params: Seq::empty(),
                                        scan_list: None,
                                        binary_data_arrays: Seq::empty(),
                                    },
                                ),
                                ..st
                            },
                        ),
                    },
                },
            },
        },
    }
}

pub open spec fn open_array(st: WalkSt, attrs: Seq<(Seq<char>, Seq<char>)>) -> Result<
    WalkSt,
    MzmlErrorV,
> {
    match find_attr(attrs, "encodedLength"@) {
        None => Err(MzmlErrorV::MissingAttribute("binaryDataArray"@, "encodedLength"@)),
        Some(len_text) => match parse_usize_spec(len_text) {
            None => Err(MzmlErrorV::MalformedNumber(len_text)),
            Some(encoded_length) => Ok(
                WalkSt {
                    cur_array: Some(
                        BinaryDataArrayV {
                            encoded_length,
                            cv_params: Seq::empty(),
                            decoded_data: None,
                        },
                    ),
                    ..st
                },
            ),
        },
    }
}

pub open spec fn step_open(st: WalkSt, name: Seq<char>, attrs: Seq<(Seq<char>, Seq<char>)>) -> Result<
    WalkSt,
    MzmlErrorV,
> {
    if name == "run"@ {
        open_run(st, attrs)
    } else if name == "spectrum"@ {
        open_spectrum(st, attrs)
    } else if name == "binaryDataArray"@ {
        open_array(st, attrs)
    } else if name == "binary"@ {
        if st.cur_array is Some {
            Ok(WalkSt { awaiting_payload: true, ..st })
        } else {
            Ok(st)
        }
    } else if name == "cvParam"@ {
        open_cv_param(st, attrs)
    } else {
        Ok(st)
    }
}

/// The name of the first annotation whose name mentions compression, if any:
/// the walker's compression hint for the decoder.
pub open spec fn compression_hint(params: Seq<CvParamV>) -> Option<Seq<char>>
    decreases params.len(),
{
    if params.len() == 0 {
        None
    } else if has_substring(params[0].name, "compression"@) {
        Some(params[0].name)
    } else {
        compression_hint(params.skip(1))
    }
}

/// The name of the first annotation whose name mentions a 32-bit or 64-bit
/// encoding, if any.
pub open spec fn precision_hint_found(params: Seq<CvParamV>) -> Option<Seq<char>>
    decreases params.len(),
{
    if params.len() == 0 {
        None
    } else if has_substring(params[0].name, "32-bit"@) || has_substring(params[0].name, "64-bit"@) {
        Some(params[0].name)
    } else {
        precision_hint_found(params.skip(1))
    }
}

/// The walker's precision hint: the first precision-naming annotation, or
/// single precision by default.
pub open spec fn precision_hint(params: Seq<CvParamV>) -> Seq<char> {
    match precision_hint_found(params) {
        Some(p) => p,
        None => "32-bit float"@,
    }
}

/// Decode a payload text against the hints of the array under construction
/// and store the result in it.
pub open spec fn attach_payload(st: WalkSt, text: Seq<char>) -> Result<WalkSt, MzmlErrorV>
    recommends
        st.cur_array is Some,
{
    let arr = st.cur_array.unwrap();
    match decode_spec(text, compression_hint(arr.cv_params), precision_hint(arr.cv_params)) {
        Ok(d) => Ok(
            WalkSt {
                cur_array: Some(BinaryDataArrayV { decoded_data: Some(d), ..arr }),
                awaiting_payload: false,
                ..st
            },
        ),
        Err(e) => Err(e),
    }
}

pub open spec fn step_text(st: WalkSt, text: Seq<char>) -> Result<WalkSt, MzmlErrorV> {
    if st.awaiting_payload && st.cur_array is Some {
        attach_payload(st, text)
    } else {
        Ok(st)
    }
}

pub open spec fn step_close(st: WalkSt, name: Seq<char>) -> Result<WalkSt, MzmlErrorV> {
    if name == "spectrum"@ {
        Ok(
            match st.cur_spectrum {
                Some(sp) => WalkSt {
                    spectra: st.spectra.push(SpectrumV { cv_params: st.staged_params, ..sp }),
                    cur_spectrum: None,
                    staged_params: Seq::empty(),
                    ..st
                },
                None => st,
            },
        )
    } else if name == "binaryDataArray"@ {
        Ok(
            match st.cur_array {
                Some(arr) => match st.cur_spectrum {
                    Some(sp) => WalkSt {
                        cur_spectrum: Some(
                            SpectrumV {
                                binary_data_arrays: sp.binary_data_arrays.push(arr),
                                ..sp
                            },
                        ),
                        cur_array: None,
                        ..st
                    },
                    None => WalkSt { cur_array: None, ..st },
                },
                None => st,
            },
        )
    } else if name == "run"@ {
        Ok(
            match st.run {
                Some(r) => WalkSt {
                    run: Some(RunV { spectra: st.spectra, ..r }),
                    spectra: Seq::empty(),
                    ..st
                },
                None => st,
            },
        )
    } else if name == "binary"@ {
        // A binary element closed without any text decodes the empty payload.
        if st.awaiting_payload && st.cur_array is Some {
            attach_payload(st, ""@)
        } else {
            Ok(st)
        }
    } else {
        Ok(st)
    }
}

/// One transition of the walker.
pub open spec fn step(st: WalkSt, t: TokenV) -> Result<WalkSt, MzmlErrorV> {
    match t {
        TokenV::Open(name, attrs) => step_open(st, name, attrs),
        TokenV::Empty(name, attrs) => if name == "cvParam"@ {
            open_cv_param(st, attrs)
        } else {
            Ok(st)
        },
        TokenV::Close(name) => step_close(st, name),
        TokenV::Text(text) => step_text(st, text),
        TokenV::Eof => Ok(st),
        TokenV::Other => Ok(st),
    }
}

/// The end of the stream yields the run, or fails when none was opened.
pub open spec fn finish(st: WalkSt) -> Result<RunV, MzmlErrorV> {
    match st.run {
        Some(r) => Ok(r),
        None => Err(MzmlErrorV::DocumentStructureError),
    }
}

/// What walking a token stream from a given context yields: tokens are
/// consumed in order until the stream ends, an end-of-stream token is met, or
/// a transition fails.
pub open spec fn walk_from(st: WalkSt, tokens: Seq<TokenV>) -> Result<RunV, MzmlErrorV>
    decreases tokens.len(),
{
    if tokens.len() == 0 || tokens[0] is Eof {
        finish(st)
    } else {
        match step(st, tokens[0]) {
            Ok(s2) => walk_from(s2, tokens.skip(1)),
            Err(e) => Err(e),
        }
    }
}

/// What parsing a whole token stream yields.
pub open spec fn parse_tokens_spec(tokens: Seq<TokenV>) -> Result<RunV, MzmlErrorV> {
    walk_from(init_state(), tokens)
}

/// The walker's in-progress state, passed by exclusive reference through the
/// token loop.
pub struct ParserContext {
    pub run: Option<Run>,
    pub spectra: Vec<Spectrum>,
    pub cur_spectrum: Option<Spectrum>,
    pub staged_params: Vec<CvParam>,
    pub cur_array: Option<BinaryDataArray>,
    pub awaiting_payload: bool,
}

impl View for ParserContext {
    type V = WalkSt;

    open spec fn view(&self) -> WalkSt {
        WalkSt {
            run: self.run.deep_view(),
            spectra: self.spectra.deep_view(),
            cur_spectrum: self.cur_spectrum.deep_view(),
            staged_params: self.staged_params.deep_view(),
            cur_array: self.cur_array.deep_view(),
            awaiting_payload: self.awaiting_payload,
        }
    }
}

proof fn lemma_push_deep_view<T: DeepView>(pre: Seq<T::V>, post: Vec<T>, source: Seq<T>, x: T)
    requires
        post@ == source.push(x),
        pre == Seq::new(source.len(), |i: int| source[i].deep_view()),
    ensures
        post.deep_view() =~= pre.push(x.deep_view()),
{
    assert forall|i: int| 0 <= i < post.deep_view().len() implies post.deep_view()[i] == pre.push(
        x.deep_view(),
    )[i] by {
        if i < source.len() {
            assert(post@[i] == source[i]);
        } else {
            assert(post@[i] == x);
        }
    }
}

impl ParserContext {
    /// A fresh context: nothing in progress.
    pub fn new() -> (c: ParserContext)
        ensures
            c@ == init_state(),
    {
        let c = ParserContext {
            run: None,
            spectra: Vec::new(),
            cur_spectrum: None,
            staged_params: Vec::new(),
            cur_array: None,
            awaiting_payload: false,
        };
        proof {
            assert(c@ =~= init_state());
        }
        c
    }
}

fn cv_param_from_attrs(attrs: &Vec<(String, String)>) -> (r: Result<CvParam, MzmlError>)
    ensures
        match cv_param_spec(attrs.deep_view()) {
            Ok(p) => r matches Ok(cp) && cp@ == p,
            Err(e) => r matches Err(er) && er@ == e,
        },
{
    let cv_ref = match get_attr(attrs, "cvParam", "cvRef") {
        Ok(v) => v,
        Err(e) => {
            return Err(e);
        },
    };
    let accession = match get_attr(attrs, "cvParam", "accession") {
        Ok(v) => v,
        Err(e) => {
            return Err(e);
        },
    };
    let name = match get_attr(attrs, "cvParam", "name") {
        Ok(v) => v,
        Err(e) => {
            return Err(e);
        },
    };
    Ok(
        CvParam {
            cv_ref,
            accession,
            name,
            value: get_attr_optional(attrs, "value"),
            unit_name: get_attr_optional(attrs, "unitName"),
            unit_accession: get_attr_optional(attrs, "unitAccession"),
            unit_cv_ref: get_attr_optional(attrs, "unitCvRef"),
        },
    )
}

fn compression_hint_exec(params: &Vec<CvParam>) -> (r: Option<String>)
    ensures
        r.deep_view() == compression_hint(params.deep_view()),
{
    proof {
        assert(params.deep_view().skip(0) =~= params.deep_view());
    }
    let mut i: usize = 0;
    while i < params.len()
        invariant
            i <= params@.len(),
            params.deep_view().len() == params@.len(),
            compression_hint(params.deep_view()) == compression_hint(
                params.deep_view().skip(i as int),
            ),
        decreases params@.len() - i,
    {
        proof {
            assert(params.deep_view().skip(i as int)[0] == params.deep_view()[i as int]);
            assert(params.deep_view().skip(i as int).skip(1) =~= params.deep_view().skip(i + 1));
        }
        if contains_sub(params[i].name.as_str(), "compression") {
            return Some(params[i].name.clone());
        }
        i += 1;
    }
    None
}

fn precision_hint_exec(params: &Vec<CvParam>) -> (r: String)
    ensures
        r@ == precision_hint(params.deep_view()),
{
    proof {
        assert(params.deep_view().skip(0) =~= params.deep_view());
    }
    let mut i: usize = 0;
    while i < params.len()
        invariant
            i <= params@.len(),
            params.deep_view().len() == params@.len(),
            precision_hint_found(params.deep_view()) == precision_hint_found(
                params.deep_view().skip(i as int),
            ),
        decreases params@.len() - i,
    {
        proof {
            assert(params.deep_view().skip(i as int)[0] == params.deep_view()[i as int]);
            assert(params.deep_view().skip(i as int).skip(1) =~= params.deep_view().skip(i + 1));
        }
        if contains_sub(params[i].name.as_str(), "32-bit") || contains_sub(
            params[i].name.as_str(),
            "64-bit",
        ) {
            return params[i].name.clone();
        }
        i += 1;
    }
    "32-bit float".to_owned()
}

fn attach_payload_exec(ctx: &mut ParserContext, text: &str) -> (r: Result<(), MzmlError>)
    requires
        old(ctx)@.awaiting_payload,
        old(ctx)@.cur_array is Some,
    ensures
        match attach_payload(old(ctx)@, text@) {
            Ok(s2) => r is Ok && (*final(ctx))@ == s2,
            Err(e) => r matches Err(er) && er@ == e,
        },
{
    let arr = ctx.cur_array.take().unwrap();
    let comp = compression_hint_exec(&arr.cv_params);
    let prec = precision_hint_exec(&arr.cv_params);
    let comp_ref: Option<&str> = match &comp {
        Some(s) => Some(s.as_str()),
        None => None,
    };
    proof {
        assert(comp_ref.deep_view() == compression_hint(arr@.cv_params));
    }
    match decode_binary_data(text, comp_ref, prec.as_str()) {
        Ok(d) => {
            let decoded = BinaryDataArray {
                encoded_length: arr.encoded_length,
                cv_params: arr.cv_params,
                decoded_data: Some(d),
            };
            ctx.cur_array = Some(decoded);
            ctx.awaiting_payload = false;
            proof {
                assert((*ctx)@ =~= attach_payload(old(ctx)@, text@)->Ok_0);
            }
            Ok(())
        },
        Err(e) => Err(e),
    }
}

/// Apply one token to the context, exactly as the spec transition `step`
/// says.
pub(crate) fn apply_token(ctx: &mut ParserContext, t: &Token) -> (r: Result<(), MzmlError>)
    ensures
        match step(old(ctx)@, t@) {
            Ok(s2) => r is Ok && (*final(ctx))@ == s2,
            Err(e) => r matches Err(er) && er@ == e,
        },
{
    match t {
        Token::Open(name, attrs) => {
            if str_eq(name.as_str(), "run") {
                let id = match get_attr(attrs, "run", "id") {
                    Ok(v) => v,
                    Err(e) => {
                        return Err(e);
                    },
                };
                let start_time = match get_attr(attrs, "run", "startTimeStamp") {
                    Ok(v) => v,
                    Err(e) => {
                        return Err(e);
                    },
                };
                ctx.run = Some(Run { id, start_time, spectra: Vec::new() });
                proof {
                    assert((*ctx)@ =~= open_run(old(ctx)@, attrs.deep_view())->Ok_0);
                }
                Ok(())
            } else if str_eq(name.as_str(), "spectrum") {
                let id = match get_attr(attrs, "spectrum", "id") {
                    Ok(v) => v,
                    Err(e) => {
                        return Err(e);
                    },
                };
                let index_text = match get_attr(attrs, "spectrum", "index") {
                    Ok(v) => v,
                    Err(e) => {
                        return Err(e);
                    },
                };
                let index = match parse_usize(index_text.as_str()) {
                    Ok(v) => v,
                    Err(e) => {
                        return Err(e);
                    },
                };
                let dal_text = match get_attr(attrs, "spectrum", "defaultArrayLength") {
                    Ok(v) => v,
                    Err(e) => {
                        return Err(e);
                    },
                };
                let default_array_length = match parse_usize(dal_text.as_str()) {
                    Ok(v) => v,
                    Err(e) => {
                        return Err(e);
                    },
                };
                ctx.cur_spectrum = Some(
                    Spectrum {
                        id,
                        index,
                        default_array_length,
                        cv_params: Vec::new(),
                        scan_list: None,
                        binary_data_arrays: Vec::new(),
                    },
                );
                proof {
                    assert((*ctx)@ =~= open_spectrum(old(ctx)@, attrs.deep_view())->Ok_0);
                }
                Ok(())
            } else if str_eq(name.as_str(), "binaryDataArray") {
                let len_text = match get_attr(attrs, "binaryDataArray", "encodedLength") {
                    Ok(v) => v,
                    Err(e) => {
                        return Err(e);
                    },
                };
                let encoded_length = match parse_usize(len_text.as_str()) {
                    Ok(v) => v,
                    Err(e) => {
                        return Err(e);
                    },
                };
                ctx.cur_array = Some(
                    BinaryDataArray { encoded_length, cv_params: Vec::new(), decoded_data: None },
                );
                proof {
                    assert((*ctx)@ =~= open_array(old(ctx)@, attrs.deep_view())->Ok_0);
                }
                Ok(())
            } else if str_eq(name.as_str(), "binary") {
                if ctx.cur_array.is_some() {
                    ctx.awaiting_payload = true;
                    proof {
                        assert((*ctx)@ =~= WalkSt { awaiting_payload: true, ..old(ctx)@ });
                    }
                }
                Ok(())
            } else if str_eq(name.as_str(), "cvParam") {
                apply_cv_param(ctx, attrs)
            } else {
                Ok(())
            }
        },
        Token::Empty(name, attrs) => {
            if str_eq(name.as_str(), "cvParam") {
                apply_cv_param(ctx, attrs)
            } else {
                Ok(())
            }
        },
        Token::Close(name) => apply_close(ctx, name),
        Token::Text(text) => {
            if ctx.awaiting_payload && ctx.cur_array.is_some() {
                attach_payload_exec(ctx, text.as_str())
            } else {
                Ok(())
            }
        },
        Token::Eof => Ok(()),
        Token::Other => Ok(()),
    }
}

fn apply_cv_param(ctx: &mut ParserContext, attrs: &Vec<(String, String)>) -> (r: Result<
    (),
    MzmlError,
>)
    ensures
        match open_cv_param(old(ctx)@, attrs.deep_view()) {
            Ok(s2) => r is Ok && (*final(ctx))@ == s2,
            Err(e) => r matches Err(er) && er@ == e,
        },
{
    let p = match cv_param_from_attrs(attrs) {
        Ok(p) => p,
        Err(e) => {
            return Err(e);
        },
    };
    if ctx.cur_array.is_some() {
        let mut arr = ctx.cur_array.take().unwrap();
        let ghost pre = arr.cv_params.deep_view();
        let ghost source = arr.cv_params@;
        arr.cv_params.push(p);
        proof {
            lemma_push_deep_view(pre, arr.cv_params, source, p);
        }
        ctx.cur_array = Some(arr);
        proof {
            assert((*ctx)@ =~= open_cv_param(old(ctx)@, attrs.deep_view())->Ok_0);
        }
    } else {
        let ghost pre = ctx.staged_params.deep_view();
        let ghost source = ctx.staged_params@;
        ctx.staged_params.push(p);
        proof {
            lemma_push_deep_view(pre, ctx.staged_params, source, p);
            assert((*ctx)@ =~= open_cv_param(old(ctx)@, attrs.deep_view())->Ok_0);
        }
    }
    Ok(())
}

fn apply_close(ctx: &mut ParserContext, name: &String) -> (r: Result<(), MzmlError>)
    ensures
        match step_close(old(ctx)@, name@) {
            Ok(s2) => r is Ok && (*final(ctx))@ == s2,
            Err(e) => r matches Err(er) && er@ == e,
        },
{
    if str_eq(name.as_str(), "spectrum") {
        if ctx.cur_spectrum.is_some() {
            let mut sp = ctx.cur_spectrum.take().unwrap();
            let mut staged: Vec<CvParam> = Vec::new();
            core::mem::swap(&mut staged, &mut ctx.staged_params);
            sp.cv_params = staged;
            let ghost pre = ctx.spectra.deep_view();
            let ghost source = ctx.spectra@;
            ctx.spectra.push(sp);
            proof {
                lemma_push_deep_view(pre, ctx.spectra, source, sp);
                assert((*ctx)@ =~= step_close(old(ctx)@, name@)->Ok_0);
            }
        }
        Ok(())
    } else if str_eq(name.as_str(), "binaryDataArray") {
        if ctx.cur_array.is_some() {
            let arr = ctx.cur_array.take().unwrap();
            if ctx.cur_spectrum.is_some() {
                let mut sp = ctx.cur_spectrum.take().unwrap();
                let ghost pre = sp.binary_data_arrays.deep_view();
                let ghost source = sp.binary_data_arrays@;
                sp.binary_data_arrays.push(arr);
                proof {
                    lemma_push_deep_view(pre, sp.binary_data_arrays, source, arr);
                }
                ctx.cur_spectrum = Some(sp);
            }
            proof {
                assert((*ctx)@ =~= step_close(old(ctx)@, name@)->Ok_0);
            }
        }
        Ok(())
    } else if str_eq(name.as_str(), "run") {
        if ctx.run.is_some() {
            let mut run = ctx.run.take().unwrap();
            let mut spectra: Vec<Spectrum> = Vec::new();
            core::mem::swap(&mut spectra, &mut ctx.spectra);
            run.spectra = spectra;
            ctx.run = Some(run);
            proof {
                assert((*ctx)@ =~= step_close(old(ctx)@, name@)->Ok_0);
            }
        }
        Ok(())
    } else if str_eq(name.as_str(), "binary") {
        if ctx.awaiting_payload && ctx.cur_array.is_some() {
            attach_payload_exec(ctx, "")
        } else {
            Ok(())
        }
    } else {
        Ok(())
    }
}

pub(crate) fn finish_exec(ctx: ParserContext) -> (r: Result<Run, MzmlError>)
    ensures
        match finish(ctx@) {
            Ok(rv) => r matches Ok(run) && run@ == rv,
            Err(e) => r matches Err(er) && er@ == e,
        },
{
    match ctx.run {
        Some(run) => Ok(run),
        None => Err(MzmlError::DocumentStructureError),
    }
}

/// Walk a complete token stream: yield the run it describes, or the exact
/// error the walk stops on.  The stream ends at its end or at the first
/// end-of-stream token.
pub fn parse_tokens(tokens: &Vec<Token>) -> (r: Result<Run, MzmlError>)
    ensures
        match parse_tokens_spec(tokens.deep_view()) {
            Ok(rv) => r matches Ok(run) && run@ == rv,
            Err(e) => r matches Err(er) && er@ == e,
        },
{
    let ghost ts = tokens.deep_view();
    let mut ctx = ParserContext::new();
    proof {
        assert(ts.skip(0) =~= ts);
    }
    let mut i: usize = 0;
    while i < tokens.len()
        invariant
            i <= tokens@.len(),
            ts == tokens.deep_view(),
            ts.len() == tokens@.len(),
            walk_from(ctx@, ts.skip(i as int)) == walk_from(init_state(), ts),
        decreases tokens@.len() - i,
    {
        let t = &tokens[i];
        proof {
            assert(ts[i as int] == tokens@[i as int].deep_view());
            assert(ts.skip(i as int)[0] == ts[i as int]);
        }
        let is_eof = match t {
            Token::Eof => true,
            _ => false,
        };
        if is_eof {
            return finish_exec(ctx);
        }
        match apply_token(&mut ctx, t) {
            Ok(()) => {},
            Err(e) => {
                return Err(e);
            },
        }
        proof {
            assert(ts.skip(i as int).skip(1) =~= ts.skip(i as int + 1));
        }
        i += 1;
    }
    proof {
        assert(ts.skip(i as int).len() == 0);
    }
    finish_exec(ctx)
}

} // verus!
