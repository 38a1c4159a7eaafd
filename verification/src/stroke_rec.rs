//! Stroke records: how a path is to be stroked or filled.
//!
//! The record keeps the native representation: a negative width means
//! fill, a zero width hairline, and a positive width a stroke, plain or
//! combined with a fill.

use vstd::prelude::*;

use crate::paint::{Cap, Join};
use crate::scalar::{
    scalar_gt_zero, scalar_is_finite, scalar_is_zero, scalar_lt_zero, Scalar, SCALAR_FOUR_BITS,
    SCALAR_NEG_ONE_BITS, SCALAR_ONE_BITS,
};

verus! {

/// The styles a stroke record can start from.
#[derive(Clone, Copy, PartialEq, Eq, Structural, Debug)]
pub enum InitStyle {
    Hairline,
    Fill,
}

/// The styles a stroke record can describe.
#[derive(Clone, Copy, PartialEq, Eq, Structural, Debug)]
pub enum Style {
    Hairline,
    Fill,
    Stroke,
    StrokeAndFill,
}

/// How a path is to be stroked or filled.
#[derive(Clone, Copy, PartialEq, Eq, Structural, Debug)]
pub struct StrokeRec {
    /// The stroke width: negative for fill, zero for hairline.
    pub width: Scalar,
    /// The miter limit.
    pub miter_limit: Scalar,
    /// The resolution scale applied when the stroke is rendered.
    pub res_scale: Scalar,
    /// The cap drawn at the ends of the stroke.
    pub cap: Cap,
    /// The join drawn at the corners of the stroke.
    pub join: Join,
    /// Whether a positive-width stroke is combined with a fill.
    pub stroke_and_fill: bool,
}

/// The style a record describes: fill for a negative width, hairline for
/// a zero width, otherwise a stroke, combined with a fill when so marked.
pub open spec fn spec_style(r: StrokeRec) -> Style {
    if scalar_lt_zero(r.width.bits) {
        Style::Fill
    } else if scalar_is_zero(r.width.bits) {
        Style::Hairline
    } else if r.stroke_and_fill {
        Style::StrokeAndFill
    } else {
        Style::Stroke
    }
}

impl StrokeRec {
    /// A fresh record in the given style, with the engine's defaults: a
    /// butt cap, a miter join with limit 4, and resolution scale 1.
    pub fn new(init_style: InitStyle) -> (r: StrokeRec)
        ensures
            r.width.bits == match init_style {
                InitStyle::Hairline => 0u32,
                InitStyle::Fill => SCALAR_NEG_ONE_BITS,
            },
            r.miter_limit.bits == SCALAR_FOUR_BITS,
            r.res_scale.bits == SCALAR_ONE_BITS,
            r.cap == Cap::Butt,
            r.join == Join::Miter,
            r.stroke_and_fill == false,
            spec_style(r) == match init_style {
                InitStyle::Hairline => Style::Hairline,
                InitStyle::Fill => Style::Fill,
            },
    {
        let width = match init_style {
            InitStyle::Hairline => Scalar::zero(),
            InitStyle::Fill => Scalar::neg_one(),
        };
        proof {
            assert(!scalar_lt_zero(0u32) && scalar_is_zero(0u32)) by (bit_vector);
            assert(scalar_lt_zero(0xBF80_0000u32)) by (bit_vector);
        }
        StrokeRec {
            width,
            miter_limit: Scalar::from_bits(SCALAR_FOUR_BITS),
            res_scale: Scalar::one(),
            cap: Cap::Butt,
            join: Join::Miter,
            stroke_and_fill: false,
        }
    }

    /// A fresh hairline record.
    pub fn new_hairline() -> (r: StrokeRec)
        ensures
            r == StrokeRec::new_spec_hairline(),
            spec_style(r) == Style::Hairline,
    {
        StrokeRec::new(InitStyle::Hairline)
    }

    /// A fresh fill record.
    pub fn new_fill() -> (r: StrokeRec)
        ensures
            r == StrokeRec::new_spec_fill(),
            spec_style(r) == Style::Fill,
    {
        StrokeRec::new(InitStyle::Fill)
    }

    /// The hairline record `new` builds.
    pub open spec fn new_spec_hairline() -> StrokeRec {
        StrokeRec {
            width: Scalar { bits: 0 },
            miter_limit: Scalar { bits: SCALAR_FOUR_BITS },
            res_scale: Scalar { bits: SCALAR_ONE_BITS },
            cap: Cap::Butt,
            join: Join::Miter,
            stroke_and_fill: false,
        }
    }

    /// The fill record `new` builds.
    pub open spec fn new_spec_fill() -> StrokeRec {
        StrokeRec {
            width: Scalar { bits: SCALAR_NEG_ONE_BITS },
            miter_limit: Scalar { bits: SCALAR_FOUR_BITS },
            res_scale: Scalar { bits: SCALAR_ONE_BITS },
            cap: Cap::Butt,
            join: Join::Miter,
            stroke_and_fill: false,
        }
    }

    /// The style this record describes.
    pub fn style(&self) -> (r: Style)
        ensures
            r == spec_style(*self),
    {
        if self.width.lt_zero() {
            Style::Fill
        } else if self.width.is_zero() {
            Style::Hairline
        } else if self.stroke_and_fill {
            Style::StrokeAndFill
        } else {
            Style::Stroke
        }
    }

    /// The stroke width.
    pub fn width(&self) -> (r: Scalar)
        ensures
            r == self.width,
    {
        self.width
    }

    /// The miter limit.
    pub fn miter(&self) -> (r: Scalar)
        ensures
            r == self.miter_limit,
    {
        self.miter_limit
    }

    /// The cap drawn at the ends of the stroke.
    pub fn cap(&self) -> (r: Cap)
        ensures
            r == self.cap,
    {
        self.cap
    }

    /// The join drawn at the corners of the stroke.
    pub fn join(&self) -> (r: Join)
        ensures
            r == self.join,
    {
        self.join
    }

    /// Whether the record describes a hairline.
    pub fn is_hairline_style(&self) -> (r: bool)
        ensures
            r == (spec_style(*self) == Style::Hairline),
    {
        match self.style() {
            Style::Hairline => true,
            _ => false,
        }
    }

    /// Whether the record describes a plain fill.
    pub fn is_fill_style(&self) -> (r: bool)
        ensures
            r == (spec_style(*self) == Style::Fill),
    {
        match self.style() {
            Style::Fill => true,
            _ => false,
        }
    }

    /// Makes the record a plain fill.
    pub fn set_fill_style(&mut self)
        ensures
            final(self).width.bits == SCALAR_NEG_ONE_BITS,
            final(self).stroke_and_fill == false,
            final(self).miter_limit == old(self).miter_limit,
            final(self).res_scale == old(self).res_scale,
            final(self).cap == old(self).cap,
            final(self).join == old(self).join,
            spec_style(*final(self)) == Style::Fill,
    {
        proof {
            assert(scalar_lt_zero(0xBF80_0000u32)) by (bit_vector);
        }
        self.width = Scalar::neg_one();
        self.stroke_and_fill = false;
    }

    /// Makes the record a hairline.
    pub fn set_hairline_style(&mut self)
        ensures
            final(self).width.bits == 0,
            final(self).stroke_and_fill == false,
            final(self).miter_limit == old(self).miter_limit,
            final(self).res_scale == old(self).res_scale,
            final(self).cap == old(self).cap,
            final(self).join == old(self).join,
            spec_style(*final(self)) == Style::Hairline,
    {
        proof {
            assert(!scalar_lt_zero(0u32) && scalar_is_zero(0u32)) by (bit_vector);
        }
        self.width = Scalar::zero();
        self.stroke_and_fill = false;
    }

    /// Gives the record the given stroke width, combined with a fill when
    /// `stroke_and_fill` holds. A zero-width stroke-and-fill is a plain
    /// fill.
    pub fn set_stroke_style(&mut self, width: Scalar, stroke_and_fill: bool)
        ensures
            stroke_and_fill && scalar_is_zero(width.bits) ==> final(self).width.bits
                == SCALAR_NEG_ONE_BITS && final(self).stroke_and_fill == false,
            !(stroke_and_fill && scalar_is_zero(width.bits)) ==> final(self).width == width
                && final(self).stroke_and_fill == stroke_and_fill,
            final(self).miter_limit == old(self).miter_limit,
            final(self).res_scale == old(self).res_scale,
            final(self).cap == old(self).cap,
            final(self).join == old(self).join,
    {
        if stroke_and_fill && width.is_zero() {
            self.set_fill_style();
        } else {
            self.width = width;
            self.stroke_and_fill = stroke_and_fill;
        }
    }

    /// Sets the cap, join and miter limit, leaving the style alone.
    pub fn set_stroke_params(&mut self, cap: Cap, join: Join, miter_limit: Scalar)
        ensures
            final(self).cap == cap,
            final(self).join == join,
            final(self).miter_limit == miter_limit,
            final(self).width == old(self).width,
            final(self).res_scale == old(self).res_scale,
            final(self).stroke_and_fill == old(self).stroke_and_fill,
            spec_style(*final(self)) == spec_style(*old(self)),
    {
        self.cap = cap;
        self.join = join;
        self.miter_limit = miter_limit;
    }

    /// The resolution scale.
    pub fn res_scale(&self) -> (r: Scalar)
        ensures
            r == self.res_scale,
    {
        self.res_scale
    }

    /// Sets the resolution scale, which must be positive and finite.
    pub fn set_res_scale(&mut self, rs: Scalar)
        requires
            scalar_gt_zero(rs.bits),
            scalar_is_finite(rs.bits),
        ensures
            final(self).res_scale == rs,
            final(self).width == old(self).width,
            final(self).miter_limit == old(self).miter_limit,
            final(self).cap == old(self).cap,
            final(self).join == old(self).join,
            final(self).stroke_and_fill == old(self).stroke_and_fill,
    {
        self.res_scale = rs;
    }

    /// Whether applying the record to a path would change the path: only
    /// strokes change it, a hairline or fill does not.
    pub fn need_to_apply(&self) -> (r: bool)
        ensures
            r == (spec_style(*self) == Style::Stroke || spec_style(*self) == Style::StrokeAndFill),
    {
        match self.style() {
            Style::Stroke => true,
            Style::StrokeAndFill => true,
            _ => false,
        }
    }
}

} // verus!
