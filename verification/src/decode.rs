use vstd::prelude::*;
use crate::errors::{ErrorKind, QrError};
use crate::classify::{format_image, format_image_spec, guess_format_info, guessed_format};
use crate::text::{aggregate, all_utf8, concat_payloads, joined_text, QrOutput};

verus! {

/// A 2-D grid of single-channel luma samples, the form in which the
/// symbol finder sees an image.
pub struct PixelGrid {
    pub width: usize,
    pub height: usize,
    pub samples: Vec<u8>,
}

impl PixelGrid {
    /// The sample count is exactly width times height.
    pub open spec fn wf(&self) -> bool {
        self.width * self.height == self.samples@.len()
    }
}

/// What one finder pass made of one symbol candidate: its decoded payload
/// bytes, or the diagnostic of the stage that failed.
#[derive(Debug, Clone, PartialEq, Eq)]
pub enum CandidateOutcome {
    /// The candidate was identified and its payload decoded.
    Decoded { payload: Vec<u8> },
    /// The candidate could not be identified as a symbol.
    IdentifyFailed { detail: String },
    /// The candidate was identified but its data could not be decoded.
    DecodeFailed { detail: String },
}

/// The message reported when processing aborts on this failed candidate.
pub open spec fn failure_message(o: CandidateOutcome) -> Seq<char> {
    match o {
        CandidateOutcome::Decoded { .. } => Seq::empty(),
        CandidateOutcome::IdentifyFailed { detail } => "part of data can not be identified: "@
            + detail@,
        CandidateOutcome::DecodeFailed { detail } => "identified data can not be decoded: "@
            + detail@,
    }
}

/// What processing the candidates in order yields: under fail-fast the
/// first failing candidate, otherwise the payloads of all decoded
/// candidates in candidate order, failures skipped.
pub open spec fn collect_spec(outcomes: Seq<CandidateOutcome>, ignore_errors: bool) -> Result<
    Seq<Seq<u8>>,
    CandidateOutcome,
>
    decreases outcomes.len(),
{
    if outcomes.len() == 0 {
        Ok(Seq::empty())
    } else {
        match outcomes[0] {
            CandidateOutcome::Decoded { payload } => match collect_spec(
                outcomes.drop_first(),
                ignore_errors,
            ) {
                Ok(rest) => Ok(seq![payload@] + rest),
                Err(e) => Err(e),
            },
            _ => if ignore_errors {
                collect_spec(outcomes.drop_first(), ignore_errors)
            } else {
                Err(outcomes[0])
            },
        }
    }
}

/// The collected payloads with `acc` prepended, or the failure unchanged.
spec fn prepend_collected(
    acc: Seq<Seq<u8>>,
    rest: Result<Seq<Seq<u8>>, CandidateOutcome>,
) -> Result<Seq<Seq<u8>>, CandidateOutcome> {
    match rest {
        Ok(ps) => Ok(acc + ps),
        Err(e) => Err(e),
    }
}

/// With errors ignored, processing never aborts: every candidate either
/// contributes its payload or is skipped.
pub proof fn lemma_ignore_never_fails(outcomes: Seq<CandidateOutcome>)
    ensures
        collect_spec(outcomes, true) is Ok,
    decreases outcomes.len(),
{
    if outcomes.len() > 0 {
        lemma_ignore_never_fails(outcomes.drop_first());
    }
}

/// Under fail-fast, processing aborts exactly when some candidate failed
/// to be identified or decoded.
pub proof fn lemma_fail_fast(outcomes: Seq<CandidateOutcome>)
    ensures
        collect_spec(outcomes, false) is Err <==> exists|i: int|
            0 <= i < outcomes.len() && !(#[trigger] outcomes[i] is Decoded),
    decreases outcomes.len(),
{
    if outcomes.len() > 0 {
        let rest = outcomes.drop_first();
        lemma_fail_fast(rest);
        if outcomes[0] is Decoded {
            if exists|i: int| 0 <= i < outcomes.len() && !(#[trigger] outcomes[i] is Decoded) {
                let i = choose|i: int|
                    0 <= i < outcomes.len() && !(#[trigger] outcomes[i] is Decoded);
                assert(!(rest[i - 1] is Decoded));
            }
            if exists|i: int| 0 <= i < rest.len() && !(#[trigger] rest[i] is Decoded) {
                let i = choose|i: int| 0 <= i < rest.len() && !(#[trigger] rest[i] is Decoded);
                assert(!(outcomes[i + 1] is Decoded));
            }
        }
    }
}

/// When every candidate decodes, the error-tolerance policy makes no
/// difference: fail-fast and best-effort collect the same payloads.
pub proof fn lemma_policies_agree_without_failures(outcomes: Seq<CandidateOutcome>)
    requires
        forall|i: int| 0 <= i < outcomes.len() ==> #[trigger] outcomes[i] is Decoded,
    ensures
        collect_spec(outcomes, false) == collect_spec(outcomes, true),
    decreases outcomes.len(),
{
    if outcomes.len() > 0 {
        assert(outcomes[0] is Decoded);
        assert(forall|i: int|
            0 <= i < outcomes.drop_first().len() ==> #[trigger] outcomes.drop_first()[i]
                is Decoded);
        lemma_policies_agree_without_failures(outcomes.drop_first());
    }
}

/// The diagnostics of the candidates that failed, in candidate order:
/// what the best-effort policy reports as a non-fatal log while it skips
/// them.
pub open spec fn skipped_messages(outcomes: Seq<CandidateOutcome>) -> Seq<Seq<char>>
    decreases outcomes.len(),
{
    if outcomes.len() == 0 {
        Seq::empty()
    } else {
        let rest = skipped_messages(outcomes.drop_last());
        if outcomes.last() is Decoded {
            rest
        } else {
            rest.push(failure_message(outcomes.last()))
        }
    }
}

/// A fresh copy of the payload bytes.
fn copy_bytes(p: &Vec<u8>) -> (r: Vec<u8>)
    ensures
        r@ == p@,
{
    let mut out: Vec<u8> = Vec::new();
    let n = p.len();
    for j in 0..n
        invariant
            n == p@.len(),
            out@ == p@.take(j as int),
    {
        out.push(p[j]);
        assert(p@.take(j + 1) =~= p@.take(j as int).push(p@[j as int]));
    }
    assert(p@.take(n as int) =~= p@);
    out
}

/// Applies the error-tolerance policy to the candidates in order: under
/// fail-fast (the default) the call aborts on the first candidate that
/// failed, with a message naming that failure; with errors ignored the
/// failing candidates are skipped and every decoded payload is kept, in
/// candidate order. Alongside the result come the diagnostics of the
/// skipped candidates, the non-fatal log of the best-effort policy;
/// they are never part of the result itself.
pub fn collect_payloads_logged(outcomes: &Vec<CandidateOutcome>, ignore_errors: bool) -> (r: (
    Result<Vec<Vec<u8>>, QrError>,
    Vec<String>,
))
    ensures
        match collect_spec(outcomes@, ignore_errors) {
            Ok(ps) => r.0 is Ok && r.0->Ok_0.deep_view() == ps,
            Err(o) => r.0 is Err && r.0->Err_0.kind == ErrorKind::IncorrectData
                && r.0->Err_0.label@ == "input contains incorrect data"@ && r.0->Err_0.msg@
                == failure_message(o),
        },
        ignore_errors ==> r.1.deep_view() == skipped_messages(outcomes@),
        !ignore_errors ==> r.1@.len() == 0,
{
    let mut payloads: Vec<Vec<u8>> = Vec::new();
    let mut diagnostics: Vec<String> = Vec::new();
    let n = outcomes.len();
    proof {
        assert(outcomes@.skip(0) =~= outcomes@);
        assert(outcomes@.take(0) =~= Seq::<CandidateOutcome>::empty());
        assert(payloads.deep_view() =~= Seq::<Seq<u8>>::empty());
        assert(diagnostics.deep_view() =~= Seq::<Seq<char>>::empty());
        match collect_spec(outcomes@, ignore_errors) {
            Ok(ps) => {
                assert(Seq::<Seq<u8>>::empty() + ps =~= ps);
            },
            Err(_) => {},
        }
    }
    for i in 0..n
        invariant
            n == outcomes@.len(),
            collect_spec(outcomes@, ignore_errors) == prepend_collected(
                payloads.deep_view(),
                collect_spec(outcomes@.skip(i as int), ignore_errors),
            ),
            ignore_errors ==> diagnostics.deep_view() == skipped_messages(
                outcomes@.take(i as int),
            ),
            !ignore_errors ==> diagnostics@.len() == 0,
    {
        proof {
            assert(outcomes@.skip(i as int).drop_first() =~= outcomes@.skip(i + 1));
            assert(outcomes@.skip(i as int)[0] == outcomes@[i as int]);
            assert(outcomes@.take(i + 1).drop_last() =~= outcomes@.take(i as int));
            assert(outcomes@.take(i + 1).last() == outcomes@[i as int]);
        }
        let ghost acc_before = payloads.deep_view();
        let ghost log_before = diagnostics.deep_view();
        match &outcomes[i] {
            CandidateOutcome::Decoded { payload } => {
                let copied = copy_bytes(payload);
                payloads.push(copied);
                proof {
                    let acc_after = payloads.deep_view();
                    assert(acc_after =~~= acc_before + seq![payload@]);
                    match collect_spec(outcomes@.skip(i + 1), ignore_errors) {
                        Ok(rest) => {
                            assert((acc_before + seq![payload@]) + rest =~= acc_before + (
                            seq![payload@] + rest));
                        },
                        Err(_) => {},
                    }
                }
            },
            CandidateOutcome::IdentifyFailed { detail } => {
                let mut msg = String::from_str("part of data can not be identified: ");
                msg.append(detail.as_str());
                if !ignore_errors {
                    return (
                        Err(
                            QrError {
                                kind: ErrorKind::IncorrectData,
                                label: String::from_str("input contains incorrect data"),
                                msg,
                            },
                        ),
                        diagnostics,
                    );
                }
                diagnostics.push(msg);
                proof {
                    assert(diagnostics.deep_view() =~= log_before.push(
                        failure_message(outcomes@[i as int]),
                    ));
                }
            },
            CandidateOutcome::DecodeFailed { detail } => {
                let mut msg = String::from_str("identified data can not be decoded: ");
                msg.append(detail.as_str());
                if !ignore_errors {
                    return (
                        Err(
                            QrError {
                                kind: ErrorKind::IncorrectData,
                                label: String::from_str("input contains incorrect data"),
                                msg,
                            },
                        ),
                        diagnostics,
                    );
                }
                diagnostics.push(msg);
                proof {
                    assert(diagnostics.deep_view() =~= log_before.push(
                        failure_message(outcomes@[i as int]),
                    ));
                }
            },
        }
    }
    proof {
        assert(outcomes@.skip(n as int) =~= Seq::<CandidateOutcome>::empty());
        assert(outcomes@.take(n as int) =~= outcomes@);
        match collect_spec(outcomes@, ignore_errors) {
            Ok(ps) => {
                assert(payloads.deep_view() + Seq::<Seq<u8>>::empty() =~= payloads.deep_view());
            },
            Err(_) => {},
        }
    }
    (Ok(payloads), diagnostics)
}

/// Applies the error-tolerance policy to the candidates in order, as
/// `collect_payloads_logged` does, without the diagnostics.
pub fn collect_payloads(outcomes: &Vec<CandidateOutcome>, ignore_errors: bool) -> (r: Result<
    Vec<Vec<u8>>,
    QrError,
>)
    ensures
        match collect_spec(outcomes@, ignore_errors) {
            Ok(ps) => r is Ok && r->Ok_0.deep_view() == ps,
            Err(o) => r is Err && r->Err_0.kind == ErrorKind::IncorrectData
                && r->Err_0.label@ == "input contains incorrect data"@ && r->Err_0.msg@
                == failure_message(o),
        },
{
    let (collected, _diagnostics) = collect_payloads_logged(outcomes, ignore_errors);
    collected
}

/// What converting a byte buffer to a luma grid yields: the grid's width,
/// height and samples, or the container codec's diagnostic. A
/// deterministic function of the buffer alone, left uninterpreted;
/// `load_luma` is the only way to learn it.
pub uninterp spec fn luma_of(bytes: Seq<u8>) -> Result<(nat, nat, Seq<u8>), Seq<char>>;

/// What the finder and decoder make of a luma grid: the outcome of every
/// symbol candidate, in finder-yield order. A deterministic function of
/// the grid alone, left uninterpreted; `scan_candidates` is the only way
/// to learn it.
pub uninterp spec fn candidates_of(width: nat, height: nat, samples: Seq<u8>) -> Seq<
    CandidateOutcome,
>;

/// Relies on `image::load_from_memory` and `DynamicImage::into_luma8`:
/// decodes the buffer as a raster image in any supported container format
/// and converts it to 8-bit luma samples with the codec's standard
/// weighting; the result is named `luma_of`. `ImageBuffer` guarantees
/// that the raw container of a single-channel image holds exactly
/// width * height samples.
#[verifier::external_body]
fn load_luma(bytes: &Vec<u8>) -> (r: Result<PixelGrid, String>)
    ensures
        r is Ok <==> luma_of(bytes@) is Ok,
        r is Ok ==> r->Ok_0.wf() && (
            r->Ok_0.width as nat,
            r->Ok_0.height as nat,
            r->Ok_0.samples@,
        ) == luma_of(bytes@)->Ok_0,
        r is Err ==> r->Err_0@ == luma_of(bytes@)->Err_0,
{
    match image::load_from_memory(bytes) {
        Ok(img) => {
            let g = img.into_luma8();
            let width = g.width() as usize;
            let height = g.height() as usize;
            Ok(PixelGrid { width, height, samples: g.into_raw() })
        },
        Err(e) => Err(e.to_string()),
    }
}

/// Relies on `quircs::Quirc::identify` and `quircs::Code::decode`: one
/// entry per symbol candidate the finder located, in finder-yield order;
/// each entry carries the candidate's decoded payload bytes, or the
/// diagnostic of the identification or decoding failure. The sequence is
/// named `candidates_of`. `identify` asserts that the buffer holds
/// exactly width * height samples, which `wf` guarantees.
#[verifier::external_body]
fn scan_candidates(grid: &PixelGrid) -> (r: Vec<CandidateOutcome>)
    requires
        grid.wf(),
    ensures
        r@ == candidates_of(grid.width as nat, grid.height as nat, grid.samples@),
{
    let mut decoder = quircs::Quirc::default();
    let mut out = Vec::new();
    for c in decoder.identify(grid.width, grid.height, &grid.samples) {
        out.push(match c {
            Ok(code) => match code.decode() {
                Ok(data) => CandidateOutcome::Decoded { payload: data.payload },
                Err(e) => CandidateOutcome::DecodeFailed { detail: e.to_string() },
            },
            Err(e) => CandidateOutcome::IdentifyFailed { detail: e.to_string() },
        });
    }
    out
}

impl crate::Qr {
    /// The decode pipeline with its non-fatal log: parses the input bytes
    /// as a raster image, converts it to luma samples, finds and decodes
    /// every QR symbol in finder-yield order under the chosen
    /// error-tolerance policy, and aggregates the recovered payloads into
    /// text when all of them are valid UTF-8 and into raw bytes
    /// otherwise. An unparseable image is always fatal and reports the
    /// best-guess container format; a failing candidate is fatal exactly
    /// when `ignore_error` is false. Alongside the result come the
    /// diagnostics of the candidates skipped under the ignore policy,
    /// for the caller to log; they are never part of the result.
    pub fn decode_with_log(&self, input: &Vec<u8>, ignore_error: bool) -> (r: (
        Result<QrOutput, QrError>,
        Vec<String>,
    ))
        ensures
            match luma_of(input@) {
                Err(d) => r.0 is Err && r.0->Err_0.kind == ErrorKind::UnableToOpenImage
                    && r.0->Err_0.label@ == "Unable to open image: "@ + d && r.0->Err_0.msg@
                    == "Input is guessed as "@ + format_image_spec(
                    guessed_format(input@).0,
                    guessed_format(input@).1,
                ) && r.1@.len() == 0,
                Ok(g) => (match collect_spec(candidates_of(g.0, g.1, g.2), ignore_error) {
                    Ok(ps) => r.0 is Ok && (all_utf8(ps) ==> (r.0->Ok_0 matches QrOutput::Text {
                        text,
                    } && text@ == joined_text(ps))) && (!all_utf8(ps) ==> (r.0->Ok_0 matches
                    QrOutput::Binary { bytes } && bytes@ == concat_payloads(ps))),
                    Err(o) => r.0 is Err && r.0->Err_0.kind == ErrorKind::IncorrectData
                        && r.0->Err_0.label@ == "input contains incorrect data"@ && r.0->Err_0.msg@
                        == failure_message(o),
                }) && (ignore_error ==> r.1.deep_view() == skipped_messages(
                    candidates_of(g.0, g.1, g.2),
                )) && (!ignore_error ==> r.1@.len() == 0),
            },
            ignore_error ==> (r.0 is Err ==> r.0->Err_0.kind == ErrorKind::UnableToOpenImage),
    {
        let grid = match load_luma(input) {
            Ok(g) => g,
            Err(e) => {
                let (mime, exts) = match guess_format_info(input) {
                    Option::Some(p) => p,
                    Option::None => (String::from_str("unknown"), Vec::new()),
                };
                proof {
                    assert(exts.deep_view() =~= guessed_format(input@).1);
                }
                let described = format_image(mime.as_str(), &exts);
                let mut label = String::from_str("Unable to open image: ");
                label.append(e.as_str());
                let mut msg = String::from_str("Input is guessed as ");
                msg.append(described.as_str());
                return (Err(QrError { kind: ErrorKind::UnableToOpenImage, label, msg }), Vec::new());
            },
        };
        let outcomes = scan_candidates(&grid);
        proof {
            let g = luma_of(input@)->Ok_0;
            assert(g.0 == grid.width as nat && g.1 == grid.height as nat && g.2 == grid.samples@);
            if ignore_error {
                lemma_ignore_never_fails(outcomes@);
            }
        }
        let (collected, diagnostics) = collect_payloads_logged(&outcomes, ignore_error);
        match collected {
            Ok(payloads) => (Ok(aggregate(&payloads)), diagnostics),
            Err(e) => (Err(e), diagnostics),
        }
    }

    /// The decode pipeline, as `decode_with_log` runs it, without the
    /// non-fatal log.
    pub fn decode(&self, input: &Vec<u8>, ignore_error: bool) -> (r: Result<QrOutput, QrError>)
        ensures
            match luma_of(input@) {
                Err(d) => r is Err && r->Err_0.kind == ErrorKind::UnableToOpenImage
                    && r->Err_0.label@ == "Unable to open image: "@ + d && r->Err_0.msg@
                    == "Input is guessed as "@ + format_image_spec(
                    guessed_format(input@).0,
                    guessed_format(input@).1,
                ),
                Ok(g) => match collect_spec(candidates_of(g.0, g.1, g.2), ignore_error) {
                    Ok(ps) => r is Ok && (all_utf8(ps) ==> (r->Ok_0 matches QrOutput::Text { text }
                        && text@ == joined_text(ps))) && (!all_utf8(ps) ==> (r->Ok_0 matches
                    QrOutput::Binary { bytes } && bytes@ == concat_payloads(ps))),
                    Err(o) => r is Err && r->Err_0.kind == ErrorKind::IncorrectData
                        && r->Err_0.label@ == "input contains incorrect data"@ && r->Err_0.msg@
                        == failure_message(o),
                },
            },
            ignore_error ==> (r is Err ==> r->Err_0.kind == ErrorKind::UnableToOpenImage),
    {
        let (result, _diagnostics) = self.decode_with_log(input, ignore_error);
        result
    }
}

} // verus!
