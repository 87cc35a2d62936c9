//! The packet encoder: pure, total functions mapping domain values to the
//! fixed 8-byte packets the device firmware expects.
//!
//! Two packet shapes exist. A color-slot packet assigns one palette slot:
//! `[0x14, 0x00, slot, red, green, blue, 0x00, 0x00]`. A style packet
//! configures the active lighting mode and is sent once after all
//! color-slot packets:
//! `[0x08, 0x02, styleCode, speedOrZero, brightnessCode, 0x08, 0x00, 0x01]`.
//! The constant byte positions are fixed by the device firmware and are
//! reproduced exactly.

use vstd::prelude::*;

use crate::model::Brightness;
use crate::model::Color;
use crate::model::Speed;
use crate::model::Style;

verus! {

/// The 8-byte packet that assigns `color` to the 1-based palette slot
/// `slot`. Out-of-range slot values are not rejected here: the encoder is
/// total and the device receives whatever slot byte the caller supplied.
pub open spec fn color_packet_spec(color: Color, slot: u8) -> Seq<u8> {
    seq![0x14u8, 0x00u8, slot, color.red, color.green, color.blue, 0x00u8, 0x00u8]
}

/// The byte at the speed position of a style packet: the speed's wire code
/// for animated styles, and the literal 0x00 for `Static`, which has no
/// animation parameter (any supplied speed is ignored for it).
pub open spec fn speed_byte_spec(style: Style, speed: Option<Speed>) -> u8 {
    if style.spec_animated() {
        match speed {
            Option::Some(s) => s.spec_code(),
            Option::None => 0x00,
        }
    } else {
        0x00
    }
}

/// The 8-byte packet that configures the active lighting mode.
pub open spec fn style_packet_spec(style: Style, speed: Option<Speed>, brightness: Brightness) -> Seq<u8> {
    seq![
        0x08u8,
        0x02u8,
        style.spec_code(),
        speed_byte_spec(style, speed),
        brightness.spec_code(),
        0x08u8,
        0x00u8,
        0x01u8,
    ]
}

/// Encodes one color-slot packet. Pure and total: every color and every
/// slot byte yield a well-formed packet.
pub fn color_packet(color: Color, slot: u8) -> (r: Vec<u8>)
    ensures
        r@ == color_packet_spec(color, slot),
{
    let mut r: Vec<u8> = Vec::new();
    r.push(0x14);
    r.push(0x00);
    r.push(slot);
    r.push(color.red);
    r.push(color.green);
    r.push(color.blue);
    r.push(0x00);
    r.push(0x00);
    proof {
        assert(r@ =~= color_packet_spec(color, slot));
    }
    r
}

/// Encodes one style packet. A speed is required for animated styles
/// (`Breathe`, `Wave`, `Flash`); for `Static` the speed byte is zero.
pub fn style_packet(style: Style, speed: Option<Speed>, brightness: Brightness) -> (r: Vec<u8>)
    requires
        style.spec_animated() ==> speed is Some,
    ensures
        r@ == style_packet_spec(style, speed, brightness),
{
    let speed_byte: u8 = if style.animated() {
        match speed {
            Option::Some(s) => s.code(),
            Option::None => 0x00,
        }
    } else {
        0x00
    };
    let mut r: Vec<u8> = Vec::new();
    r.push(0x08);
    r.push(0x02);
    r.push(style.code());
    r.push(speed_byte);
    r.push(brightness.code());
    r.push(0x08);
    r.push(0x00);
    r.push(0x01);
    proof {
        assert(r@ =~= style_packet_spec(style, speed, brightness));
    }
    r
}

/// Law: for every color and every slot byte, the color-slot packet is
/// exactly `[0x14, 0x00, slot, red, green, blue, 0x00, 0x00]`.
pub proof fn lemma_color_packet_shape(color: Color, slot: u8)
    ensures
        color_packet_spec(color, slot).len() == 8,
        color_packet_spec(color, slot)[0] == 0x14,
        color_packet_spec(color, slot)[1] == 0x00,
        color_packet_spec(color, slot)[2] == slot,
        color_packet_spec(color, slot)[3] == color.red,
        color_packet_spec(color, slot)[4] == color.green,
        color_packet_spec(color, slot)[5] == color.blue,
        color_packet_spec(color, slot)[6] == 0x00,
        color_packet_spec(color, slot)[7] == 0x00,
{
}

/// Law: for every style, speed and brightness combination, the style
/// packet's first two and last three bytes are the fixed protocol
/// constants; its third byte is the style's code; its fourth byte is the
/// speed's code for animated styles and zero for `Static`; and its fifth
/// byte is the brightness's code.
pub proof fn lemma_style_packet_shape(style: Style, speed: Option<Speed>, brightness: Brightness)
    ensures
        style_packet_spec(style, speed, brightness).len() == 8,
        style_packet_spec(style, speed, brightness)[0] == 0x08,
        style_packet_spec(style, speed, brightness)[1] == 0x02,
        style_packet_spec(style, speed, brightness)[2] == style.spec_code(),
        style.spec_animated() && speed is Some ==> style_packet_spec(style, speed, brightness)[3]
            == speed->Some_0.spec_code(),
        !style.spec_animated() ==> style_packet_spec(style, speed, brightness)[3] == 0x00,
        style_packet_spec(style, speed, brightness)[4] == brightness.spec_code(),
        style_packet_spec(style, speed, brightness)[5] == 0x08,
        style_packet_spec(style, speed, brightness)[6] == 0x00,
        style_packet_spec(style, speed, brightness)[7] == 0x01,
{
}

} // verus!
