//! Font styles: weight, width and slant, modelled as plain values.

use vstd::prelude::*;

verus! {

/// The thickness of a font's glyphs, on the usual 0 to 1000 scale.
#[derive(Clone, Copy, PartialEq, Eq, Structural, PartialOrd, Debug)]
pub struct Weight(pub i32);

impl Weight {
    /// The invisible weight, 0.
    pub fn invisible() -> (r: Weight)
        ensures
            r.0 == 0,
    {
        Weight(0)
    }

    /// The thin weight, 100.
    pub fn thin() -> (r: Weight)
        ensures
            r.0 == 100,
    {
        Weight(100)
    }

    /// The extra-light weight, 200.
    pub fn extra_light() -> (r: Weight)
        ensures
            r.0 == 200,
    {
        Weight(200)
    }

    /// The light weight, 300.
    pub fn light() -> (r: Weight)
        ensures
            r.0 == 300,
    {
        Weight(300)
    }

    /// The normal weight, 400.
    pub fn normal() -> (r: Weight)
        ensures
            r.0 == 400,
    {
        Weight(400)
    }

    /// The medium weight, 500.
    pub fn medium() -> (r: Weight)
        ensures
            r.0 == 500,
    {
        Weight(500)
    }

    /// The semi-bold weight, 600.
    pub fn semi_bold() -> (r: Weight)
        ensures
            r.0 == 600,
    {
        Weight(600)
    }

    /// The bold weight, 700.
    pub fn bold() -> (r: Weight)
        ensures
            r.0 == 700,
    {
        Weight(700)
    }

    /// The extra-bold weight, 800.
    pub fn extra_bold() -> (r: Weight)
        ensures
            r.0 == 800,
    {
        Weight(800)
    }

    /// The black weight, 900.
    pub fn black() -> (r: Weight)
        ensures
            r.0 == 900,
    {
        Weight(900)
    }

    /// The extra-black weight, 1000.
    pub fn extra_black() -> (r: Weight)
        ensures
            r.0 == 1000,
    {
        Weight(1000)
    }
}

/// The horizontal spread of a font's glyphs, on the usual 1 to 9 scale.
#[derive(Clone, Copy, PartialEq, Eq, Structural, PartialOrd, Debug)]
pub struct Width(pub i32);

impl Width {
    /// The ultra-condensed width, 1.
    pub fn ultra_condensed() -> (r: Width)
        ensures
            r.0 == 1,
    {
        Width(1)
    }

    /// The extra-condensed width, 2.
    pub fn extra_condensed() -> (r: Width)
        ensures
            r.0 == 2,
    {
        Width(2)
    }

    /// The condensed width, 3.
    pub fn condensed() -> (r: Width)
        ensures
            r.0 == 3,
    {
        Width(3)
    }

    /// The semi-condensed width, 4.
    pub fn semi_condensed() -> (r: Width)
        ensures
            r.0 == 4,
    {
        Width(4)
    }

    /// The normal width, 5.
    pub fn normal() -> (r: Width)
        ensures
            r.0 == 5,
    {
        Width(5)
    }

    /// The semi-expanded width, 6.
    pub fn semi_expanded() -> (r: Width)
        ensures
            r.0 == 6,
    {
        Width(6)
    }

    /// The expanded width, 7.
    pub fn expanded() -> (r: Width)
        ensures
            r.0 == 7,
    {
        Width(7)
    }

    /// The extra-expanded width, 8.
    pub fn extra_expanded() -> (r: Width)
        ensures
            r.0 == 8,
    {
        Width(8)
    }

    /// The ultra-expanded width, 9.
    pub fn ultra_expanded() -> (r: Width)
        ensures
            r.0 == 9,
    {
        Width(9)
    }
}

/// Whether a font's glyphs lean.
#[derive(Clone, Copy, PartialEq, Eq, Structural, Debug)]
pub enum Slant {
    Upright,
    Italic,
    Oblique,
}

/// A font style: weight, width and slant together.
#[derive(Clone, Copy, PartialEq, Eq, Structural, Debug)]
pub struct FontStyle {
    pub weight: Weight,
    pub width: Width,
    pub slant: Slant,
}

impl FontStyle {
    /// The style with the given weight, width and slant.
    pub fn new(weight: Weight, width: Width, slant: Slant) -> (r: FontStyle)
        ensures
            r.weight == weight,
            r.width == width,
            r.slant == slant,
    {
        FontStyle { weight, width, slant }
    }

    /// The style's weight.
    pub fn weight(self) -> (r: Weight)
        ensures
            r == self.weight,
    {
        self.weight
    }

    /// The style's width.
    pub fn width(self) -> (r: Width)
        ensures
            r == self.width,
    {
        self.width
    }

    /// The style's slant.
    pub fn slant(self) -> (r: Slant)
        ensures
            r == self.slant,
    {
        self.slant
    }

    /// Normal weight and width, upright.
    pub fn normal() -> (r: FontStyle)
        ensures
            r.weight.0 == 400,
            r.width.0 == 5,
            r.slant == Slant::Upright,
    {
        FontStyle::new(Weight::normal(), Width::normal(), Slant::Upright)
    }

    /// Bold weight, normal width, upright.
    pub fn bold() -> (r: FontStyle)
        ensures
            r.weight.0 == 700,
            r.width.0 == 5,
            r.slant == Slant::Upright,
    {
        FontStyle::new(Weight::bold(), Width::normal(), Slant::Upright)
    }

    /// Normal weight and width, italic.
    pub fn italic() -> (r: FontStyle)
        ensures
            r.weight.0 == 400,
            r.width.0 == 5,
            r.slant == Slant::Italic,
    {
        FontStyle::new(Weight::normal(), Width::normal(), Slant::Italic)
    }

    /// Bold weight, normal width, italic.
    pub fn bold_italic() -> (r: FontStyle)
        ensures
            r.weight.0 == 700,
            r.width.0 == 5,
            r.slant == Slant::Italic,
    {
        FontStyle::new(Weight::bold(), Width::normal(), Slant::Italic)
    }
}

impl Default for FontStyle {
    /// The default style is normal weight and width, upright.
    fn default() -> (r: FontStyle)
        ensures
            r.weight.0 == 400,
            r.width.0 == 5,
            r.slant == Slant::Upright,
    {
        FontStyle::normal()
    }
}

} // verus!
