use vstd::prelude::*;
use fast_qr::convert::Builder;
use crate::errors::{ErrorKind, QrError};
use crate::shape::{resolve_shape, shape_param_ok, spec_shape_of, ShapeSelector};
use crate::size::{
    resolve_size, size_not_positive, size_params_ok, size_too_large, spec_resolved_size, SizeSpec,
};

verus! {

/// Declares `fast_qr::convert::Shape`, the renderer's own module style.
#[verifier::external_type_specification]
#[verifier::external_body]
pub struct ExRenderShape(fast_qr::convert::Shape);

/// The generator's verdict on a payload: whether some QR version at the
/// default error-correction level can hold it. A deterministic function
/// of the payload alone, left uninterpreted; `build_qr` is the only way
/// to learn it.
pub uninterp spec fn qr_fits(payload: Seq<u8>) -> bool;

/// What rendering the symbol of a payload with a shape under a fit rule
/// produces: the PNG bytes, or the serializer's diagnostic. The whole
/// chain is a deterministic function of these three arguments, left
/// uninterpreted; `render_payload_png` is the only way to learn it.
pub uninterp spec fn png_render_of(payload: Seq<u8>, shape: ShapeSelector, size: SizeSpec) -> Result<
    Seq<u8>,
    Seq<char>,
>;

/// The largest fit dimension handed to the renderer. Its pixel maps hold
/// at most 2^31 - 1 bytes per row, so an output wider than 536870911
/// cannot be represented; the renderer's floating-point scaling can
/// overshoot a fit by a few hundred pixels near that limit, and this
/// bound stays far enough below it. A raster at this limit would already
/// take more memory than any machine has.
pub const RENDER_FIT_LIMIT: u32 = 100000000;

/// The fit rules the renderer accepts without aborting: every dimension
/// at least 2 — scaling a fit of 1 can truncate the output to zero
/// pixels, which the renderer cannot represent — and at most
/// `RENDER_FIT_LIMIT`.
pub open spec fn renderable(size: SizeSpec) -> bool {
    match size {
        SizeSpec::FitWidth(w) => 2 <= w <= RENDER_FIT_LIMIT,
        SizeSpec::FitHeight(h) => 2 <= h <= RENDER_FIT_LIMIT,
        SizeSpec::FitBoth(w, h) => 2 <= w <= RENDER_FIT_LIMIT && 2 <= h <= RENDER_FIT_LIMIT,
    }
}

/// Whether the renderer accepts this fit rule, executable form.
fn is_renderable(size: &SizeSpec) -> (r: bool)
    ensures
        r == renderable(*size),
{
    match size {
        SizeSpec::FitWidth(w) => 2 <= *w && *w <= RENDER_FIT_LIMIT,
        SizeSpec::FitHeight(h) => 2 <= *h && *h <= RENDER_FIT_LIMIT,
        SizeSpec::FitBoth(w, h) => 2 <= *w && *w <= RENDER_FIT_LIMIT && 2 <= *h && *h
            <= RENDER_FIT_LIMIT,
    }
}

/// Relies on `fast_qr::QRBuilder::new` and `QRBuilder::build`: whether
/// module placement, error correction and version selection succeed for
/// the payload, named `qr_fits`. With no forced version the only failure
/// `build` can report is a payload too large for any version, whose
/// description is the fixed diagnostic stated below.
#[verifier::external_body]
fn build_qr(payload: &Vec<u8>) -> (r: Result<(), String>)
    ensures
        r is Ok <==> qr_fits(payload@),
        r is Err ==> r->Err_0@ == "Data too big to be encoded"@,
{
    match fast_qr::QRBuilder::new(payload.as_slice()).build() {
        Ok(_) => Ok(()),
        Err(e) => Err(e.to_string()),
    }
}

/// Relies on `fast_qr::convert::Shape`: its variants correspond one to
/// one to the library's shape selectors.
#[verifier::external_body]
fn to_render_shape(shape: ShapeSelector) -> fast_qr::convert::Shape {
    match shape {
        ShapeSelector::Square => fast_qr::convert::Shape::Square,
        ShapeSelector::Circle => fast_qr::convert::Shape::Circle,
        ShapeSelector::RoundedSquare => fast_qr::convert::Shape::RoundedSquare,
        ShapeSelector::Vertical => fast_qr::convert::Shape::Vertical,
        ShapeSelector::Horizontal => fast_qr::convert::Shape::Horizontal,
        ShapeSelector::Diamond => fast_qr::convert::Shape::Diamond,
    }
}

/// Relies on `fast_qr::QRBuilder::build` and
/// `fast_qr::convert::image::ImageBuilder` (`shape`, `fit_width`,
/// `fit_height`, `to_bytes`): derives the symbol for the payload and
/// renders it with the given shape under the given fit rule, so the
/// result is the function of payload, shape and fit rule named
/// `png_render_of`. Only `renderable` fit rules are admitted: the
/// renderer scales the symbol's square tree by fit over tree size in
/// 32-bit floats and truncates, so a fit of 1 can yield a zero-pixel
/// map and a fit near the row-byte limit can exceed it, and in either
/// case the renderer aborts instead of returning; with every dimension
/// in `renderable`'s range the truncation loses at most one pixel and
/// stays far below that limit. A payload the generator rejects cannot
/// be rendered at all.
#[verifier::external_body]
fn render_payload_png(payload: &Vec<u8>, shape: ShapeSelector, size: &SizeSpec) -> (r: Result<
    Vec<u8>,
    String,
>)
    requires
        qr_fits(payload@),
        renderable(*size),
    ensures
        r is Ok <==> png_render_of(payload@, shape, *size) is Ok,
        r is Ok ==> r->Ok_0@ == png_render_of(payload@, shape, *size)->Ok_0,
        r is Err ==> r->Err_0@ == png_render_of(payload@, shape, *size)->Err_0,
{
    let qr = match fast_qr::QRBuilder::new(payload.as_slice()).build() {
        Ok(q) => q,
        Err(e) => return Err(e.to_string()),
    };
    let mut b = fast_qr::convert::image::ImageBuilder::default();
    b.shape(to_render_shape(shape));
    match size {
        SizeSpec::FitWidth(w) => b.fit_width(*w),
        SizeSpec::FitHeight(h) => b.fit_height(*h),
        SizeSpec::FitBoth(w, h) => b.fit_width(*w).fit_height(*h),
    };
    b.to_bytes(&qr).map_err(|e| e.to_string())
}

impl crate::Qr {
    /// The encode pipeline: generates the QR symbol for the payload,
    /// renders it with the resolved shape under the resolved fit rule,
    /// and serializes the raster as PNG bytes. Generation and
    /// serialization failures are both fatal; no partial output is ever
    /// returned; on success the result is exactly the rendering of this
    /// payload with this shape and fit rule. A fit rule outside the
    /// renderer's range is reported as a serialization failure, never as
    /// an abort.
    pub fn encode(&self, payload: &Vec<u8>, shape: ShapeSelector, size: SizeSpec) -> (r: Result<
        Vec<u8>,
        QrError,
    >)
        requires
            size.wf(),
        ensures
            !qr_fits(payload@) <==> (r is Err && r->Err_0.kind == ErrorKind::QrGenerationFailed),
            !qr_fits(payload@) ==> r is Err && r->Err_0.label@ == "failed to generate qr code"@
                && r->Err_0.msg@ == "Data too big to be encoded"@,
            qr_fits(payload@) && !renderable(size) ==> r is Err && r->Err_0.kind
                == ErrorKind::PngEncodingFailed && r->Err_0.label@ == "failed to generate png"@
                && r->Err_0.msg@
                == "fit size cannot be rendered: each dimension must be between 2 and 100000000"@,
            qr_fits(payload@) && renderable(size) ==> match png_render_of(payload@, shape, size) {
                Ok(png) => r is Ok && r->Ok_0@ == png,
                Err(d) => r is Err && r->Err_0.kind == ErrorKind::PngEncodingFailed
                    && r->Err_0.label@ == "failed to generate png"@ && r->Err_0.msg@ == d,
            },
    {
        match build_qr(payload) {
            Ok(()) => {},
            Err(e) => {
                return Err(
                    QrError {
                        kind: ErrorKind::QrGenerationFailed,
                        label: String::from_str("failed to generate qr code"),
                        msg: e,
                    },
                );
            },
        }
        if !is_renderable(&size) {
            return Err(
                QrError {
                    kind: ErrorKind::PngEncodingFailed,
                    label: String::from_str("failed to generate png"),
                    msg: String::from_str(
                        "fit size cannot be rendered: each dimension must be between 2 and 100000000",
                    ),
                },
            );
        }
        match render_payload_png(payload, shape, &size) {
            Ok(bytes) => Ok(bytes),
            Err(e) => Err(
                QrError {
                    kind: ErrorKind::PngEncodingFailed,
                    label: String::from_str("failed to generate png"),
                    msg: e,
                },
            ),
        }
    }

    /// The full encode command: resolves the optional shape name and the
    /// optional width/height parameters, then runs the encode pipeline.
    /// An unknown shape name or an out-of-bounds size parameter is a hard
    /// input error reported before any generation or rendering work; on
    /// accepted parameters the outcome is exactly that of the pipeline on
    /// the resolved shape and fit rule.
    pub fn encode_with_params(
        &self,
        payload: &Vec<u8>,
        shape_name: &Option<String>,
        width: Option<u64>,
        height: Option<u64>,
    ) -> (r: Result<Vec<u8>, QrError>)
        ensures
            !shape_param_ok(*shape_name) ==> r is Err && r->Err_0.kind == ErrorKind::UnknownShape
                && r->Err_0.label@ == "Unknown shape parameter"@ && r->Err_0.msg@
                == "should be one of Square, Circle, RoundedSquare, Vertical, Horizontal, Diamond"@,
            shape_param_ok(*shape_name) && size_too_large(width, height) ==> r is Err
                && r->Err_0.kind == ErrorKind::SizeTooLarge && r->Err_0.label@
                == "Invalid width/height: too large"@ && r->Err_0.msg@
                == "width/height should be smaller than 4294967295"@,
            shape_param_ok(*shape_name) && !size_too_large(width, height) && size_not_positive(
                width,
                height,
            ) ==> r is Err && r->Err_0.kind == ErrorKind::SizeNotPositive && r->Err_0.label@
                == "Invalid width/height: not positive"@ && r->Err_0.msg@
                == "width/height should be positive and smaller than 4294967295"@,
            shape_param_ok(*shape_name) && size_params_ok(width, height) ==> {
                let shape = spec_shape_of(*shape_name);
                let size = spec_resolved_size(width, height);
                &&& (!qr_fits(payload@) <==> (r is Err && r->Err_0.kind
                    == ErrorKind::QrGenerationFailed))
                &&& (!qr_fits(payload@) ==> r is Err && r->Err_0.label@
                    == "failed to generate qr code"@ && r->Err_0.msg@
                    == "Data too big to be encoded"@)
                &&& (qr_fits(payload@) && !renderable(size) ==> r is Err && r->Err_0.kind
                    == ErrorKind::PngEncodingFailed && r->Err_0.label@
                    == "failed to generate png"@ && r->Err_0.msg@
                    == "fit size cannot be rendered: each dimension must be between 2 and 100000000"@)
                &&& (qr_fits(payload@) && renderable(size) ==> match png_render_of(
                    payload@,
                    shape,
                    size,
                ) {
                    Ok(png) => r is Ok && r->Ok_0@ == png,
                    Err(d) => r is Err && r->Err_0.kind == ErrorKind::PngEncodingFailed
                        && r->Err_0.label@ == "failed to generate png"@ && r->Err_0.msg@ == d,
                })
            },
    {
        let shape = match resolve_shape(shape_name) {
            Ok(s) => s,
            Err(e) => {
                return Err(e);
            },
        };
        let size = match resolve_size(width, height) {
            Ok(s) => s,
            Err(e) => {
                return Err(e);
            },
        };
        self.encode(payload, shape, size)
    }
}

} // verus!
