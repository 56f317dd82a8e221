use vstd::prelude::*;
use crate::errors::{ErrorKind, QrError};

verus! {

/// Every user-supplied width or height must be strictly below this bound.
pub const SIZE_BOUND: u64 = 4294967295;

/// The fit rule constraining the rendered raster: a target width, a target
/// height, or both. When neither is given the default is `FitWidth(600)`.
#[derive(Clone, Copy, PartialEq, Eq, Structural, Debug)]
pub enum SizeSpec {
    FitWidth(u32),
    FitHeight(u32),
    FitBoth(u32, u32),
}

impl SizeSpec {
    /// Every dimension of the fit rule is positive and strictly below the
    /// 32-bit unsigned bound, as the size parameters must be.
    pub open spec fn wf(&self) -> bool {
        match *self {
            SizeSpec::FitWidth(w) => 1 <= w < 4294967295u32,
            SizeSpec::FitHeight(h) => 1 <= h < 4294967295u32,
            SizeSpec::FitBoth(w, h) => 1 <= w < 4294967295u32 && 1 <= h < 4294967295u32,
        }
    }
}

/// Whether some provided size parameter is at or above the 32-bit bound.
pub open spec fn size_too_large(width: Option<u64>, height: Option<u64>) -> bool {
    ||| (width matches Some(w) && w >= SIZE_BOUND)
    ||| (height matches Some(h) && h >= SIZE_BOUND)
}

/// Whether some provided size parameter is zero.
pub open spec fn size_not_positive(width: Option<u64>, height: Option<u64>) -> bool {
    ||| (width matches Some(w) && w == 0)
    ||| (height matches Some(h) && h == 0)
}

/// Whether the optional width and height parameters are within bounds:
/// every provided value must be positive and strictly below the 32-bit
/// unsigned bound.
pub open spec fn size_params_ok(width: Option<u64>, height: Option<u64>) -> bool {
    !size_too_large(width, height) && !size_not_positive(width, height)
}

/// The fit rule the optional parameters resolve to: both present gives
/// `FitBoth`, one present gives the matching single fit, neither gives
/// the default width of 600.
pub open spec fn spec_resolved_size(width: Option<u64>, height: Option<u64>) -> SizeSpec {
    match (width, height) {
        (Some(w), Some(h)) => SizeSpec::FitBoth(w as u32, h as u32),
        (Some(w), None) => SizeSpec::FitWidth(w as u32),
        (None, Some(h)) => SizeSpec::FitHeight(h as u32),
        (None, None) => SizeSpec::FitWidth(600),
    }
}

/// Maps the optional width/height parameters to a concrete fit rule.
/// Any provided value at or above the 32-bit unsigned bound, or equal to
/// zero, is a hard input error naming the bound, reported before any
/// rendering work.
pub fn resolve_size(width: Option<u64>, height: Option<u64>) -> (r: Result<SizeSpec, QrError>)
    ensures
        r is Ok <==> size_params_ok(width, height),
        size_params_ok(width, height) ==> r->Ok_0 == spec_resolved_size(width, height)
            && r->Ok_0.wf(),
        size_too_large(width, height) ==> r is Err && r->Err_0.kind == ErrorKind::SizeTooLarge
            && r->Err_0.label@ == "Invalid width/height: too large"@ && r->Err_0.msg@
            == "width/height should be smaller than 4294967295"@,
        !size_too_large(width, height) && size_not_positive(width, height) ==> r is Err
            && r->Err_0.kind == ErrorKind::SizeNotPositive && r->Err_0.label@
            == "Invalid width/height: not positive"@ && r->Err_0.msg@
            == "width/height should be positive and smaller than 4294967295"@,
{
    let width_large = match width {
        Option::Some(w) => w >= SIZE_BOUND,
        Option::None => false,
    };
    let height_large = match height {
        Option::Some(h) => h >= SIZE_BOUND,
        Option::None => false,
    };
    if width_large || height_large {
        return Err(QrError {
            kind: ErrorKind::SizeTooLarge,
            label: String::from_str("Invalid width/height: too large"),
            msg: String::from_str("width/height should be smaller than 4294967295"),
        });
    }
    let width_zero = match width {
        Option::Some(w) => w == 0,
        Option::None => false,
    };
    let height_zero = match height {
        Option::Some(h) => h == 0,
        Option::None => false,
    };
    if width_zero || height_zero {
        return Err(QrError {
            kind: ErrorKind::SizeNotPositive,
            label: String::from_str("Invalid width/height: not positive"),
            msg: String::from_str("width/height should be positive and smaller than 4294967295"),
        });
    }
    match (width, height) {
        (Option::Some(w), Option::Some(h)) => Ok(SizeSpec::FitBoth(w as u32, h as u32)),
        (Option::Some(w), Option::None) => Ok(SizeSpec::FitWidth(w as u32)),
        (Option::None, Option::Some(h)) => Ok(SizeSpec::FitHeight(h as u32)),
        (Option::None, Option::None) => Ok(SizeSpec::FitWidth(600)),
    }
}

} // verus!
