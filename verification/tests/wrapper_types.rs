//! Tests for the modelled wrapper value types: scalars, stroke records,
//! rotation-scale transforms and font styles.

use skia_safe::font_style::{FontStyle, Slant, Weight, Width};
use skia_safe::paint::{Cap, Join};
use skia_safe::rsxform::{RSXform, Vector};
use skia_safe::scalar::Scalar;
use skia_safe::stroke_rec::{InitStyle, StrokeRec, Style};

fn scalar(v: f32) -> Scalar {
    Scalar::from_bits(v.to_bits())
}

#[test]
fn scalar_classifications() {
    assert!(scalar(0.0).is_zero());
    assert!(scalar(-0.0).is_zero());
    assert!(!scalar(1.0).is_zero());
    assert!(scalar(-2.5).lt_zero());
    assert!(!scalar(0.0).lt_zero());
    assert!(!scalar(f32::NAN).lt_zero());
    assert!(scalar(3.5).gt_zero());
    assert!(scalar(f32::INFINITY).gt_zero());
    assert!(!scalar(f32::NAN).gt_zero());
    assert!(scalar(1.0).is_finite());
    assert!(!scalar(f32::INFINITY).is_finite());
    assert!(!scalar(f32::NAN).is_finite());
    assert!(scalar(f32::NAN).is_nan());
    assert_eq!(Scalar::one().bits, 1.0f32.to_bits());
    assert_eq!(Scalar::neg_one().bits, (-1.0f32).to_bits());
    assert_eq!(Scalar::zero().bits, 0.0f32.to_bits());
}

#[test]
fn stroke_rec_initial_styles() {
    let hairline = StrokeRec::new(InitStyle::Hairline);
    assert_eq!(hairline.style(), Style::Hairline);
    assert!(hairline.is_hairline_style());
    assert!(!hairline.is_fill_style());
    assert_eq!(hairline.width().bits, 0);
    assert_eq!(hairline.miter().bits, 4.0f32.to_bits());
    assert_eq!(hairline.res_scale().bits, 1.0f32.to_bits());
    assert_eq!(hairline.cap(), Cap::Butt);
    assert_eq!(hairline.join(), Join::Miter);

    let fill = StrokeRec::new(InitStyle::Fill);
    assert_eq!(fill.style(), Style::Fill);
    assert!(fill.is_fill_style());
    assert_eq!(fill.width().bits, (-1.0f32).to_bits());

    assert_eq!(StrokeRec::new_hairline(), hairline);
    assert_eq!(StrokeRec::new_fill(), fill);
}

#[test]
fn stroke_rec_style_changes() {
    let mut rec = StrokeRec::new_hairline();
    assert!(!rec.need_to_apply());

    rec.set_stroke_style(scalar(2.0), false);
    assert_eq!(rec.style(), Style::Stroke);
    assert!(rec.need_to_apply());
    assert_eq!(rec.width().bits, 2.0f32.to_bits());

    rec.set_stroke_style(scalar(2.0), true);
    assert_eq!(rec.style(), Style::StrokeAndFill);

    // A zero-width stroke-and-fill collapses to a plain fill.
    rec.set_stroke_style(scalar(0.0), true);
    assert_eq!(rec.style(), Style::Fill);
    assert_eq!(rec.width().bits, (-1.0f32).to_bits());

    // A zero-width plain stroke is a hairline.
    rec.set_stroke_style(scalar(0.0), false);
    assert_eq!(rec.style(), Style::Hairline);

    rec.set_fill_style();
    assert_eq!(rec.style(), Style::Fill);
    rec.set_hairline_style();
    assert_eq!(rec.style(), Style::Hairline);
}

#[test]
fn stroke_rec_params() {
    let mut rec = StrokeRec::new_fill();
    rec.set_stroke_params(Cap::Round, Join::Bevel, scalar(8.0));
    assert_eq!(rec.cap(), Cap::Round);
    assert_eq!(rec.join(), Join::Bevel);
    assert_eq!(rec.miter().bits, 8.0f32.to_bits());
    assert_eq!(rec.style(), Style::Fill);

    rec.set_res_scale(scalar(2.0));
    assert_eq!(rec.res_scale().bits, 2.0f32.to_bits());
}

#[test]
fn rsxform_rect_stays_rect() {
    let t = Vector::new(scalar(10.0), scalar(20.0));
    let xf = RSXform::new(scalar(2.0), scalar(0.0), t);
    assert!(xf.rect_stays_rect());
    let rotated = RSXform::new(scalar(1.5), scalar(1.5), t);
    assert!(!rotated.rect_stays_rect());
    let flipped = RSXform::new(scalar(0.0), scalar(2.0), t);
    assert!(flipped.rect_stays_rect());
}

#[test]
fn rsxform_set_and_identity() {
    let mut xf = RSXform::new(scalar(2.0), scalar(3.0), Vector::new(scalar(1.0), scalar(1.0)));
    xf.set(scalar(4.0), scalar(5.0), Vector::new(scalar(6.0), scalar(7.0)));
    assert_eq!(xf.scos.bits, 4.0f32.to_bits());
    assert_eq!(xf.ssin.bits, 5.0f32.to_bits());
    assert_eq!(xf.t.x.bits, 6.0f32.to_bits());
    assert_eq!(xf.t.y.bits, 7.0f32.to_bits());
    xf.set_identity();
    assert_eq!(xf.scos.bits, 1.0f32.to_bits());
    assert_eq!(xf.ssin.bits, 0);
    assert_eq!(xf.t, Vector::zero());
    assert!(xf.rect_stays_rect());
}

#[test]
fn font_style_accessors() {
    let style = FontStyle::new(Weight::semi_bold(), Width::condensed(), Slant::Oblique);
    assert_eq!(style.weight(), Weight(600));
    assert_eq!(style.width(), Width(3));
    assert_eq!(style.slant(), Slant::Oblique);
}

#[test]
fn font_style_named_styles() {
    assert_eq!(FontStyle::normal(), FontStyle::new(Weight(400), Width(5), Slant::Upright));
    assert_eq!(FontStyle::bold(), FontStyle::new(Weight(700), Width(5), Slant::Upright));
    assert_eq!(FontStyle::italic(), FontStyle::new(Weight(400), Width(5), Slant::Italic));
    assert_eq!(FontStyle::bold_italic(), FontStyle::new(Weight(700), Width(5), Slant::Italic));
    assert_eq!(FontStyle::default(), FontStyle::normal());
}

#[test]
fn weight_and_width_scales() {
    assert_eq!(Weight::invisible(), Weight(0));
    assert_eq!(Weight::thin(), Weight(100));
    assert_eq!(Weight::extra_light(), Weight(200));
    assert_eq!(Weight::light(), Weight(300));
    assert_eq!(Weight::normal(), Weight(400));
    assert_eq!(Weight::medium(), Weight(500));
    assert_eq!(Weight::semi_bold(), Weight(600));
    assert_eq!(Weight::bold(), Weight(700));
    assert_eq!(Weight::extra_bold(), Weight(800));
    assert_eq!(Weight::black(), Weight(900));
    assert_eq!(Weight::extra_black(), Weight(1000));
    assert!(Weight::thin() < Weight::bold());

    assert_eq!(Width::ultra_condensed(), Width(1));
    assert_eq!(Width::extra_condensed(), Width(2));
    assert_eq!(Width::condensed(), Width(3));
    assert_eq!(Width::semi_condensed(), Width(4));
    assert_eq!(Width::normal(), Width(5));
    assert_eq!(Width::semi_expanded(), Width(6));
    assert_eq!(Width::expanded(), Width(7));
    assert_eq!(Width::extra_expanded(), Width(8));
    assert_eq!(Width::ultra_expanded(), Width(9));
    assert!(Width::condensed() < Width::expanded());
}
