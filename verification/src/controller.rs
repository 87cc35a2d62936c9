//! The lighting controller: plans the exact sequence of control transfers
//! that re-specifies the device's visible lighting state, and tracks its
//! dispatch.
//!
//! A [`LightingSequence`] holds the full plan up front: one color-slot
//! packet per palette entry, slots assigned sequentially from 1 in input
//! order, followed by exactly one style packet. An unverified shell then
//! drives the plan one control transfer at a time: it asks for the next
//! packet, performs the transfer, and records the outcome. Recording an
//! outcome — success or failure alike — advances past the packet and
//! changes nothing else: a failed transfer is never retried, and the
//! packets already sent are never rolled back.

use vstd::prelude::*;

use crate::model::Brightness;
use crate::model::Color;
use crate::model::Speed;
use crate::model::Style;
use crate::packets::color_packet;
use crate::packets::color_packet_spec;
use crate::packets::style_packet;
use crate::packets::style_packet_spec;

verus! {

/// The color-slot packets that set `colors` as the palette: one packet per
/// entry, with 1-based slot indices assigned sequentially in input order.
pub open spec fn palette_packets_spec(colors: Seq<Color>) -> Seq<Seq<u8>> {
    Seq::new(colors.len(), |i: int| color_packet_spec(colors[i], (i + 1) as u8))
}

/// The full transfer plan of a style-setting operation: every color-slot
/// packet for `colors`, then exactly one style packet.
pub open spec fn style_sequence_spec(
    colors: Seq<Color>,
    style: Style,
    speed: Option<Speed>,
    brightness: Brightness,
) -> Seq<Seq<u8>> {
    palette_packets_spec(colors).push(style_packet_spec(style, speed, brightness))
}

/// Encodes the color-slot packets that set `colors` as the palette, in
/// dispatch order. The slot index is a single byte, so at most 255 palette
/// entries can be addressed.
pub fn set_color_palette(colors: &Vec<Color>) -> (r: Vec<Vec<u8>>)
    requires
        colors@.len() <= 255,
    ensures
        r@.len() == colors@.len(),
        forall|i: int| 0 <= i < r@.len() ==> r@[i]@ == palette_packets_spec(colors@)[i],
{
    let mut r: Vec<Vec<u8>> = Vec::new();
    let mut i: usize = 0;
    while i < colors.len()
        invariant
            i <= colors@.len(),
            colors@.len() <= 255,
            r@.len() == i,
            forall|j: int| 0 <= j < i ==> r@[j]@ == palette_packets_spec(colors@)[j],
        decreases colors@.len() - i,
    {
        let slot: u8 = (i as u8) + 1;
        r.push(color_packet(colors[i], slot));
        i = i + 1;
    }
    r
}

/// A planned sequence of control transfers and the record of its dispatch
/// so far. The plan is fixed at construction; dispatch only ever moves
/// forward through it.
pub struct LightingSequence {
    packets: Vec<Vec<u8>>,
    outcomes: Vec<bool>,
}

impl LightingSequence {
    /// The planned packets, in dispatch order.
    pub closed spec fn plan(self) -> Seq<Seq<u8>> {
        self.packets@.map_values(|p: Vec<u8>| p@)
    }

    /// The recorded transfer outcomes, one per packet already dispatched,
    /// in dispatch order: `true` for a completed transfer, `false` for a
    /// transport failure.
    pub closed spec fn outcomes(self) -> Seq<bool> {
        self.outcomes@
    }

    /// How many packets of the plan have been dispatched.
    pub open spec fn sent(self) -> int {
        self.outcomes().len() as int
    }

    /// Plans a full style-setting operation: the palette packets for
    /// `colors`, then one style packet.
    fn plan_style(colors: &Vec<Color>, style: Style, speed: Option<Speed>, brightness: Brightness) -> (s:
        Self)
        requires
            colors@.len() <= 255,
            style.spec_animated() ==> speed is Some,
        ensures
            s.plan() == style_sequence_spec(colors@, style, speed, brightness),
            s.sent() == 0,
    {
        let mut packets = set_color_palette(colors);
        packets.push(style_packet(style, speed, brightness));
        let s = LightingSequence { packets, outcomes: Vec::new() };
        proof {
            assert(s.plan() =~~= style_sequence_spec(colors@, style, speed, brightness));
        }
        s
    }

    /// Plans the transfers that set `colors` as the palette and configure
    /// the unanimated `Static` style at the given brightness.
    pub fn set_static_style(colors: &Vec<Color>, brightness: Brightness) -> (s: Self)
        requires
            colors@.len() <= 255,
        ensures
            s.plan() == style_sequence_spec(colors@, Style::Static, None, brightness),
            s.sent() == 0,
    {
        Self::plan_style(colors, Style::Static, None, brightness)
    }

    /// Plans the transfers that set `colors` as the palette and configure
    /// the `Wave` style at the given speed and brightness.
    pub fn set_wave_style(colors: &Vec<Color>, speed: Speed, brightness: Brightness) -> (s: Self)
        requires
            colors@.len() <= 255,
        ensures
            s.plan() == style_sequence_spec(colors@, Style::Wave, Some(speed), brightness),
            s.sent() == 0,
    {
        Self::plan_style(colors, Style::Wave, Some(speed), brightness)
    }

    /// Plans the transfers that set `colors` as the palette and configure
    /// the `Breathe` style at the given speed and brightness.
    pub fn set_breathe_style(colors: &Vec<Color>, speed: Speed, brightness: Brightness) -> (s: Self)
        requires
            colors@.len() <= 255,
        ensures
            s.plan() == style_sequence_spec(colors@, Style::Breathe, Some(speed), brightness),
            s.sent() == 0,
    {
        Self::plan_style(colors, Style::Breathe, Some(speed), brightness)
    }

    /// Plans the transfers that set `colors` as the palette and configure
    /// the `Flash` style at the given speed and brightness.
    pub fn set_flash_style(colors: &Vec<Color>, speed: Speed, brightness: Brightness) -> (s: Self)
        requires
            colors@.len() <= 255,
        ensures
            s.plan() == style_sequence_spec(colors@, Style::Flash, Some(speed), brightness),
            s.sent() == 0,
    {
        Self::plan_style(colors, Style::Flash, Some(speed), brightness)
    }

    /// Plans the transfers that paint every zone in one color: a 4-entry
    /// palette of `color` repeated, under the `Static` style at the given
    /// brightness.
    pub fn set_mono_color(color: Color, brightness: Brightness) -> (s: Self)
        ensures
            s.plan() == style_sequence_spec(
                seq![color, color, color, color],
                Style::Static,
                None,
                brightness,
            ),
            s.sent() == 0,
    {
        let mut colors: Vec<Color> = Vec::new();
        colors.push(color);
        colors.push(color);
        colors.push(color);
        colors.push(color);
        proof {
            assert(colors@ =~= seq![color, color, color, color]);
        }
        Self::set_static_style(&colors, brightness)
    }

    /// The packet the shell must transfer next, or `None` once every
    /// packet of the plan has been dispatched.
    pub fn next_packet(&self) -> (r: Option<&Vec<u8>>)
        ensures
            match r {
                Some(p) => self.sent() < self.plan().len() && p@ == self.plan()[self.sent()],
                None => self.sent() >= self.plan().len(),
            },
    {
        if self.outcomes.len() < self.packets.len() {
            Some(&self.packets[self.outcomes.len()])
        } else {
            None
        }
    }

    /// The number of packets the plan holds.
    pub fn packet_count(&self) -> (n: usize)
        ensures
            n == self.plan().len(),
    {
        self.packets.len()
    }

    /// The number of packets dispatched so far.
    pub fn sent_count(&self) -> (n: usize)
        ensures
            n == self.sent(),
    {
        self.outcomes.len()
    }

    /// Records the outcome of the transfer of the current packet and moves
    /// past it.
    ///
    /// Law: the effect does not depend on the outcome. A failure advances
    /// exactly as a success does — the failed packet is not retried — and
    /// the plan and every outcome already recorded stay as they were: the
    /// packets dispatched before the failure are not rolled back, and no
    /// failure is silently dropped from the record.
    pub fn record_outcome(&mut self, ok: bool)
        requires
            old(self).sent() < old(self).plan().len(),
        ensures
            final(self).plan() == old(self).plan(),
            final(self).outcomes() == old(self).outcomes().push(ok),
            final(self).sent() == old(self).sent() + 1,
    {
        self.outcomes.push(ok);
    }
}

/// Law: a style-setting plan for a palette of N colors consists of exactly
/// N color-slot packets before any style packet — carrying the palette
/// entries in input order under slot indices 1 through N — followed by the
/// single style packet, and nothing else.
pub proof fn lemma_palette_before_style(
    colors: Seq<Color>,
    style: Style,
    speed: Option<Speed>,
    brightness: Brightness,
)
    requires
        colors.len() <= 255,
    ensures
        style_sequence_spec(colors, style, speed, brightness).len() == colors.len() + 1,
        forall|i: int|
            0 <= i < colors.len() ==> style_sequence_spec(colors, style, speed, brightness)[i]
                == color_packet_spec(colors[i], (i + 1) as u8),
        forall|i: int|
            0 <= i < colors.len() ==> style_sequence_spec(colors, style, speed, brightness)[i][2]
                == i + 1,
        style_sequence_spec(colors, style, speed, brightness)[colors.len() as int]
            == style_packet_spec(style, speed, brightness),
{
}

} // verus!
