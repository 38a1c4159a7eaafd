//! Memory-layout checks: the wrapper value types must keep the size of
//! the native values they stand for.

use skia_safe::font_style::{FontStyle, Weight, Width};
use skia_safe::rsxform::RSXform;

#[test]
fn test_weight_layout() {
    assert_eq!(std::mem::size_of::<Weight>(), std::mem::size_of::<i32>());
}

#[test]
fn test_width_layout() {
    assert_eq!(std::mem::size_of::<Width>(), std::mem::size_of::<i32>());
}

#[test]
fn test_rsxform_layout() {
    // The native transform holds three 32-bit scalars: scos, ssin and a
    // two-scalar translation makes four fields of four bytes.
    assert_eq!(std::mem::size_of::<RSXform>(), 4 * std::mem::size_of::<u32>());
}

#[test]
fn test_equality() {
    let style: FontStyle = Default::default();
    let style2: FontStyle = Default::default();
    assert!(style == style2);
}
