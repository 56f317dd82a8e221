use vstd::prelude::*;
use vstd::string::StringSliceAdditionalSpecFns;
use crate::errors::{ErrorKind, QrError};

verus! {

/// The visual style applied uniformly to every module of a rendered symbol.
#[derive(Clone, Copy, PartialEq, Eq, Structural, Debug)]
pub enum ShapeSelector {
    Square,
    Circle,
    RoundedSquare,
    Vertical,
    Horizontal,
    Diamond,
}

/// ASCII upper-casing of one byte; bytes outside `a..=z` are unchanged.
pub open spec fn ascii_upper(b: u8) -> u8 {
    if 97 <= b && b <= 122 {
        (b - 32) as u8
    } else {
        b
    }
}

/// ASCII upper-casing of a byte sequence.
pub open spec fn upper_bytes(s: Seq<u8>) -> Seq<u8> {
    s.map_values(|b: u8| ascii_upper(b))
}

/// The shape whose upper-cased canonical name has exactly these bytes.
pub open spec fn shape_for_upper(u: Seq<u8>) -> Option<ShapeSelector> {
    if u == "SQUARE".spec_bytes() {
        Some(ShapeSelector::Square)
    } else if u == "CIRCLE".spec_bytes() {
        Some(ShapeSelector::Circle)
    } else if u == "ROUNDEDSQUARE".spec_bytes() {
        Some(ShapeSelector::RoundedSquare)
    } else if u == "VERTICAL".spec_bytes() {
        Some(ShapeSelector::Vertical)
    } else if u == "HORIZONTAL".spec_bytes() {
        Some(ShapeSelector::Horizontal)
    } else if u == "DIAMOND".spec_bytes() {
        Some(ShapeSelector::Diamond)
    } else {
        None
    }
}

/// The shape a name resolves to: the match is case-insensitive and exact,
/// with no fuzzy or partial matching. Case-insensitivity is deliberately
/// ASCII: the six names are ASCII, so only ASCII letters are folded, and
/// a name that matches only under a wider Unicode case folding is
/// rejected like any other unrecognized name.
pub open spec fn resolved_shape(name_bytes: Seq<u8>) -> Option<ShapeSelector> {
    shape_for_upper(upper_bytes(name_bytes))
}

/// Whether the optional shape name resolves: unset names default to
/// `Square`, set names must match one of the six shapes.
pub open spec fn shape_param_ok(name: Option<String>) -> bool {
    match name {
        Option::None => true,
        Option::Some(s) => resolved_shape(vstd::utf8::encode_utf8(s@)) is Some,
    }
}

/// The shape an accepted optional name stands for: `Square` when unset,
/// otherwise the shape the name resolves to.
pub open spec fn spec_shape_of(name: Option<String>) -> ShapeSelector {
    match name {
        Option::None => ShapeSelector::Square,
        Option::Some(s) => resolved_shape(vstd::utf8::encode_utf8(s@))->0,
    }
}

/// ASCII upper-casing of one byte, executable form.
fn upper_byte(b: u8) -> (r: u8)
    ensures
        r == ascii_upper(b),
{
    if 97 <= b && b <= 122 {
        b - 32
    } else {
        b
    }
}

/// Whether the upper-cased form of `b` is exactly `t`.
fn eq_upper(b: &[u8], t: &[u8]) -> (r: bool)
    ensures
        r <==> upper_bytes(b@) == t@,
{
    if b.len() != t.len() {
        assert(upper_bytes(b@).len() == b@.len());
        return false;
    }
    let n = b.len();
    for i in 0..n
        invariant
            n == b@.len() == t@.len(),
            forall|j: int| 0 <= j < i ==> ascii_upper(b@[j]) == t@[j],
    {
        let u = upper_byte(b[i]);
        if u != t[i] {
            assert(upper_bytes(b@)[i as int] != t@[i as int]);
            return false;
        }
    }
    assert(upper_bytes(b@) =~= t@);
    true
}

/// Maps an optional, case-insensitive shape name to a `ShapeSelector`.
/// An unset name defaults to `Square`; any unrecognized name is a hard
/// input error naming the allowed set. The folding is ASCII-only, as
/// `resolved_shape` states.
pub fn resolve_shape(name: &Option<String>) -> (r: Result<ShapeSelector, QrError>)
    ensures
        r is Ok <==> shape_param_ok(*name),
        r is Ok ==> r->Ok_0 == spec_shape_of(*name),
        match name {
            Option::None => r is Ok && r->Ok_0 == ShapeSelector::Square,
            Option::Some(s) => match resolved_shape(vstd::utf8::encode_utf8(s@)) {
                Option::Some(sh) => r is Ok && r->Ok_0 == sh,
                Option::None => r is Err && r->Err_0.kind == ErrorKind::UnknownShape
                    && r->Err_0.label@ == "Unknown shape parameter"@
                    && r->Err_0.msg@
                    == "should be one of Square, Circle, RoundedSquare, Vertical, Horizontal, Diamond"@,
            },
        },
{
    match name {
        Option::None => Ok(ShapeSelector::Square),
        Option::Some(s) => {
            let b = s.as_str().as_bytes();
            if eq_upper(b, "SQUARE".as_bytes()) {
                Ok(ShapeSelector::Square)
            } else if eq_upper(b, "CIRCLE".as_bytes()) {
                Ok(ShapeSelector::Circle)
            } else if eq_upper(b, "ROUNDEDSQUARE".as_bytes()) {
                Ok(ShapeSelector::RoundedSquare)
            } else if eq_upper(b, "VERTICAL".as_bytes()) {
                Ok(ShapeSelector::Vertical)
            } else if eq_upper(b, "HORIZONTAL".as_bytes()) {
                Ok(ShapeSelector::Horizontal)
            } else if eq_upper(b, "DIAMOND".as_bytes()) {
                Ok(ShapeSelector::Diamond)
            } else {
                Err(QrError {
                    kind: ErrorKind::UnknownShape,
                    label: String::from_str("Unknown shape parameter"),
                    msg: String::from_str(
                        "should be one of Square, Circle, RoundedSquare, Vertical, Horizontal, Diamond",
                    ),
                })
            }
        },
    }
}

} // verus!
