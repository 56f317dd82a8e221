use qr_codec::errors::ErrorKind;
use qr_codec::shape::{resolve_shape, ShapeSelector};
use qr_codec::size::{resolve_size, SizeSpec};
use qr_codec::classify::format_image;

#[test]
fn unset_shape_defaults_to_square() {
    assert_eq!(resolve_shape(&None).unwrap(), ShapeSelector::Square);
}

#[test]
fn shape_names_resolve_case_insensitively() {
    assert_eq!(
        resolve_shape(&Some("circle".to_string())).unwrap(),
        ShapeSelector::Circle
    );
    assert_eq!(
        resolve_shape(&Some("CIRCLE".to_string())).unwrap(),
        ShapeSelector::Circle
    );
    assert_eq!(
        resolve_shape(&Some("Circle".to_string())).unwrap(),
        ShapeSelector::Circle
    );
    assert_eq!(
        resolve_shape(&Some("square".to_string())).unwrap(),
        ShapeSelector::Square
    );
    assert_eq!(
        resolve_shape(&Some("roundedsquare".to_string())).unwrap(),
        ShapeSelector::RoundedSquare
    );
    assert_eq!(
        resolve_shape(&Some("RoundedSquare".to_string())).unwrap(),
        ShapeSelector::RoundedSquare
    );
    assert_eq!(
        resolve_shape(&Some("vertical".to_string())).unwrap(),
        ShapeSelector::Vertical
    );
    assert_eq!(
        resolve_shape(&Some("Horizontal".to_string())).unwrap(),
        ShapeSelector::Horizontal
    );
    assert_eq!(
        resolve_shape(&Some("DIAMOND".to_string())).unwrap(),
        ShapeSelector::Diamond
    );
}

#[test]
fn unknown_shape_is_rejected_naming_the_allowed_set() {
    let err = resolve_shape(&Some("hexagon".to_string())).unwrap_err();
    assert_eq!(err.kind, ErrorKind::UnknownShape);
    assert_eq!(err.label, "Unknown shape parameter");
    assert_eq!(
        err.msg,
        "should be one of Square, Circle, RoundedSquare, Vertical, Horizontal, Diamond"
    );
}

#[test]
fn empty_shape_name_is_rejected() {
    let err = resolve_shape(&Some(String::new())).unwrap_err();
    assert_eq!(err.kind, ErrorKind::UnknownShape);
}

#[test]
fn no_size_parameters_default_to_width_600() {
    assert_eq!(resolve_size(None, None).unwrap(), SizeSpec::FitWidth(600));
}

#[test]
fn single_size_parameters_resolve_to_single_fits() {
    assert_eq!(
        resolve_size(Some(300), None).unwrap(),
        SizeSpec::FitWidth(300)
    );
    assert_eq!(
        resolve_size(None, Some(200)).unwrap(),
        SizeSpec::FitHeight(200)
    );
    assert_eq!(
        resolve_size(Some(300), Some(200)).unwrap(),
        SizeSpec::FitBoth(300, 200)
    );
}

#[test]
fn size_at_the_bound_is_rejected() {
    let err = resolve_size(Some(4294967295), None).unwrap_err();
    assert_eq!(err.kind, ErrorKind::SizeTooLarge);
    assert_eq!(err.label, "Invalid width/height: too large");
    assert_eq!(err.msg, "width/height should be smaller than 4294967295");
    let err = resolve_size(None, Some(4294967295)).unwrap_err();
    assert_eq!(err.kind, ErrorKind::SizeTooLarge);
    let err = resolve_size(Some(100), Some(9999999999)).unwrap_err();
    assert_eq!(err.kind, ErrorKind::SizeTooLarge);
}

#[test]
fn zero_size_is_rejected_as_not_positive() {
    let err = resolve_size(Some(0), None).unwrap_err();
    assert_eq!(err.kind, ErrorKind::SizeNotPositive);
    assert_eq!(err.label, "Invalid width/height: not positive");
    assert_eq!(
        err.msg,
        "width/height should be positive and smaller than 4294967295"
    );
    let err = resolve_size(Some(100), Some(0)).unwrap_err();
    assert_eq!(err.kind, ErrorKind::SizeNotPositive);
}

#[test]
fn too_large_takes_precedence_over_zero() {
    let err = resolve_size(Some(0), Some(4294967295)).unwrap_err();
    assert_eq!(err.kind, ErrorKind::SizeTooLarge);
}

#[test]
fn size_just_below_the_bound_is_accepted() {
    assert_eq!(
        resolve_size(Some(4294967294), None).unwrap(),
        SizeSpec::FitWidth(4294967294)
    );
}

#[test]
fn format_image_with_extensions() {
    let described = format_image("image/png", &vec!["png".to_string()]);
    assert_eq!(described, "image/png (png)");
    let described = format_image(
        "image/jpeg",
        &vec!["jpg".to_string(), "jpeg".to_string(), "jpe".to_string()],
    );
    assert_eq!(described, "image/jpeg (jpg, jpeg, jpe)");
}

#[test]
fn format_image_without_extensions() {
    let described = format_image("unknown", &Vec::new());
    assert_eq!(described, "unknown (unknown extension)");
}
