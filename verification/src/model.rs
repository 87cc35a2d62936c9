//! The lighting data model: colors, illumination styles, animation speeds
//! and brightness levels, each bound to the one-byte code the device
//! firmware expects on the wire.
//!
//! The wire codes are part of the device's firmware contract and are
//! non-contiguous, so every enumeration carries an explicit code accessor
//! rather than relying on variant ordinals.

use vstd::prelude::*;

verus! {

/// An RGB color: three 8-bit channel values. A plain value with no
/// identity; every channel value 0..=255 is valid.
#[derive(Clone, Copy, PartialEq, Eq, Structural, Debug)]
pub struct Color {
    pub red: u8,
    pub green: u8,
    pub blue: u8,
}

/// The device's illumination mode. `Static` shows the palette unanimated;
/// the other three animate it.
#[derive(Clone, Copy, PartialEq, Eq, Structural, Debug)]
pub enum Style {
    Static,
    Breathe,
    Wave,
    Flash,
}

impl Style {
    /// The fixed one-byte protocol code of this style.
    pub open spec fn spec_code(self) -> u8 {
        match self {
            Style::Static => 0x01,
            Style::Breathe => 0x02,
            Style::Wave => 0x03,
            Style::Flash => 0x12,
        }
    }

    /// Whether the style carries an animation-speed parameter.
    pub open spec fn spec_animated(self) -> bool {
        !(self is Static)
    }

    pub fn code(self) -> (c: u8)
        ensures
            c == self.spec_code(),
    {
        match self {
            Style::Static => 0x01,
            Style::Breathe => 0x02,
            Style::Wave => 0x03,
            Style::Flash => 0x12,
        }
    }

    pub fn animated(self) -> (b: bool)
        ensures
            b == self.spec_animated(),
    {
        match self {
            Style::Static => false,
            Style::Breathe => true,
            Style::Wave => true,
            Style::Flash => true,
        }
    }
}

/// Backlight brightness level.
#[derive(Clone, Copy, PartialEq, Eq, Structural, Debug)]
pub enum Brightness {
    Off,
    VeryDim,
    Dim,
    Bright,
    VeryBright,
}

impl Brightness {
    /// The fixed one-byte protocol code of this brightness level.
    pub open spec fn spec_code(self) -> u8 {
        match self {
            Brightness::Off => 0x00,
            Brightness::VeryDim => 0x08,
            Brightness::Dim => 0x16,
            Brightness::Bright => 0x24,
            Brightness::VeryBright => 0x32,
        }
    }

    pub fn code(self) -> (c: u8)
        ensures
            c == self.spec_code(),
    {
        match self {
            Brightness::Off => 0x00,
            Brightness::VeryDim => 0x08,
            Brightness::Dim => 0x16,
            Brightness::Bright => 0x24,
            Brightness::VeryBright => 0x32,
        }
    }
}

/// Animation speed. Larger wire codes mean slower animation.
#[derive(Clone, Copy, PartialEq, Eq, Structural, Debug)]
pub enum Speed {
    VerySlow,
    Slow,
    Medium,
    Fast,
    VeryFast,
}

impl Speed {
    /// The fixed one-byte protocol code of this speed; the code is inverted
    /// (the largest code is the slowest animation).
    pub open spec fn spec_code(self) -> u8 {
        match self {
            Speed::VerySlow => 0x0a,
            Speed::Slow => 0x07,
            Speed::Medium => 0x05,
            Speed::Fast => 0x03,
            Speed::VeryFast => 0x01,
        }
    }

    pub fn code(self) -> (c: u8)
        ensures
            c == self.spec_code(),
    {
        match self {
            Speed::VerySlow => 0x0a,
            Speed::Slow => 0x07,
            Speed::Medium => 0x05,
            Speed::Fast => 0x03,
            Speed::VeryFast => 0x01,
        }
    }
}

} // verus!
