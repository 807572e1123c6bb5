//! The four indicator lights and the pattern that each attitude lights.

use vstd::prelude::*;
use crate::orientation::Orientation;

verus! {

/// One of the four indicator lights.
#[derive(Clone, Copy, Debug, PartialEq, Eq, Structural)]
pub enum LedColor {
    Orange,
    Green,
    Blue,
    Red,
}

/// The on/off state of each of the four lights.
#[derive(Clone, Copy, Debug, PartialEq, Eq, Structural)]
pub struct IndicatorPattern {
    pub orange: bool,
    pub green: bool,
    pub blue: bool,
    pub red: bool,
}

impl IndicatorPattern {
    pub open spec fn lit(&self, color: LedColor) -> bool {
        match color {
            LedColor::Orange => self.orange,
            LedColor::Green => self.green,
            LedColor::Blue => self.blue,
            LedColor::Red => self.red,
        }
    }

    /// How many of the four lights are on.
    pub open spec fn count_on(&self) -> nat {
        (if self.orange { 1nat } else { 0nat }) + (if self.green { 1nat } else { 0nat }) + (
        if self.blue { 1nat } else { 0nat }) + (if self.red { 1nat } else { 0nat })
    }

    /// Every light set to `on`.
    pub open spec fn uniform(on: bool) -> IndicatorPattern {
        IndicatorPattern { orange: on, green: on, blue: on, red: on }
    }

    /// `color` on and the other three off.
    pub open spec fn single(color: LedColor) -> IndicatorPattern {
        IndicatorPattern {
            orange: color == LedColor::Orange,
            green: color == LedColor::Green,
            blue: color == LedColor::Blue,
            red: color == LedColor::Red,
        }
    }

    /// This pattern with `color` switched to `on`.
    pub open spec fn with(self, color: LedColor, on: bool) -> IndicatorPattern {
        IndicatorPattern {
            orange: if color == LedColor::Orange { on } else { self.orange },
            green: if color == LedColor::Green { on } else { self.green },
            blue: if color == LedColor::Blue { on } else { self.blue },
            red: if color == LedColor::Red { on } else { self.red },
        }
    }

    /// All four lights off.
    pub fn new() -> (r: Self)
        ensures
            r == Self::uniform(false),
    {
        IndicatorPattern { orange: false, green: false, blue: false, red: false }
    }

    /// Whether `color` is on.
    pub fn is_on(&self, color: LedColor) -> (r: bool)
        ensures
            r == self.lit(color),
    {
        match color {
            LedColor::Orange => self.orange,
            LedColor::Green => self.green,
            LedColor::Blue => self.blue,
            LedColor::Red => self.red,
        }
    }

    /// Switches `color` to `on`, leaving the other lights as they were.
    pub fn set(&mut self, color: LedColor, on: bool)
        ensures
            *final(self) == old(self).with(color, on),
    {
        match color {
            LedColor::Orange => self.orange = on,
            LedColor::Green => self.green = on,
            LedColor::Blue => self.blue = on,
            LedColor::Red => self.red = on,
        }
    }
}

/// The light that each of the four upright attitudes shows on its own.
pub open spec fn lateral_color(o: Orientation) -> Option<LedColor> {
    match o {
        Orientation::LandscapeUp => Some(LedColor::Red),
        Orientation::PortraitDown => Some(LedColor::Blue),
        Orientation::LandscapeDown => Some(LedColor::Green),
        Orientation::PortraitUp => Some(LedColor::Orange),
        _ => None,
    }
}

/// The pattern for an attitude: everything on when face down, one fixed
/// light for each upright attitude, everything off when face up or unknown.
pub open spec fn pattern_of(o: Orientation) -> IndicatorPattern {
    if o == Orientation::FaceDown {
        IndicatorPattern::uniform(true)
    } else if lateral_color(o) is Some {
        IndicatorPattern::single(lateral_color(o)->0)
    } else {
        IndicatorPattern::uniform(false)
    }
}

/// Sets all four lights to `on`.
pub fn leds_all(leds: &mut IndicatorPattern, on: bool)
    ensures
        *final(leds) == IndicatorPattern::uniform(on),
{
    leds.set(LedColor::Orange, on);
    leds.set(LedColor::Green, on);
    leds.set(LedColor::Blue, on);
    leds.set(LedColor::Red, on);
}

/// Turns every light off, then `color` on.
pub fn leds_on(leds: &mut IndicatorPattern, color: LedColor)
    ensures
        *final(leds) == IndicatorPattern::single(color),
{
    leds_all(leds, false);
    leds.set(color, true);
}

/// Shows the pattern for `orientation`, whatever was shown before.
pub fn update_leds_orientation(leds: &mut IndicatorPattern, orientation: Orientation)
    ensures
        *final(leds) == pattern_of(orientation),
{
    match orientation {
        Orientation::FaceDown => leds_all(leds, true),
        Orientation::LandscapeUp => leds_on(leds, LedColor::Red),
        Orientation::PortraitDown => leds_on(leds, LedColor::Blue),
        Orientation::LandscapeDown => leds_on(leds, LedColor::Green),
        Orientation::PortraitUp => leds_on(leds, LedColor::Orange),
        _ => leds_all(leds, false),
    }
}

/// The pattern for `orientation`, as a value; the same attitude always gives
/// the same pattern.
pub fn pattern_for(orientation: Orientation) -> (r: IndicatorPattern)
    ensures
        r == pattern_of(orientation),
{
    let mut leds = IndicatorPattern::new();
    update_leds_orientation(&mut leds, orientation);
    leds
}

/// Every attitude has a pattern: face down lights all four, face up and
/// unknown light none, and each upright attitude lights exactly one light,
/// a different one for each of the four.
pub proof fn lemma_pattern_table(o: Orientation, p: Orientation)
    ensures
        o == Orientation::FaceDown ==> pattern_of(o).count_on() == 4,
        o == Orientation::FaceUp || o == Orientation::Unknown ==> pattern_of(o).count_on() == 0,
        lateral_color(o) is Some ==> pattern_of(o).count_on() == 1 && pattern_of(o).lit(
            lateral_color(o)->0,
        ),
        lateral_color(o) is Some && lateral_color(p) is Some && o != p ==> lateral_color(o)
            != lateral_color(p) && pattern_of(o) != pattern_of(p),
        lateral_color(o) is None <==> (o == Orientation::FaceDown || o == Orientation::FaceUp || o
            == Orientation::Unknown),
{
}

/// The pattern depends on the attitude alone: two results obtained for the
/// same attitude are equal.
pub proof fn lemma_pattern_is_pure(o: Orientation, first: IndicatorPattern, second: IndicatorPattern)
    requires
        first == pattern_of(o),
        second == pattern_of(o),
    ensures
        first == second,
{
}

} // verus!
