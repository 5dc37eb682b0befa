//! The local command channel's single-byte protocol.
//!
//! A listener reads one byte per connection and hands it here; the layout
//! is an internal convention: 1..=100 set a volume target percent, 0 is
//! mute, one high-bit pattern toggles a relay outlet, another requests an
//! active-source broadcast.

use vstd::prelude::*;

verus! {

/// A decoded command byte.
#[derive(Clone, Copy, Debug, PartialEq, Eq, Structural)]
pub enum ControlCmd {
    /// Set the AVR volume to this percent (1..=100).
    SetVolume(u8),
    /// Byte 0: mute (acknowledged but not acted on).
    Mute,
    /// Switch a relay outlet on or off.
    SwitchOutlet { outlet: u8, on: bool },
    /// Broadcast an active-source announcement with this routing
    /// identifier.
    BroadcastSource(u16),
    /// Anything else is ignored.
    Unknown,
}

/// The command a byte encodes:
/// - 1..=100: volume target percent;
/// - 0: mute;
/// - `0b10000_ooo`-shaped (`b & 0xF8 == 0x80`): switch outlet `b & 0x03`
///   (0 meaning outlet 4) to `b & 0x04 != 0`;
/// - `0b11000_sss`-shaped (`b & 0xF8 == 0xC0`): broadcast the routing
///   identifier whose high byte is `0x30 + (b & 0x07)`;
/// - anything else: unknown.
pub open spec fn spec_decode_control(b: u8) -> ControlCmd {
    if 1 <= b && b <= 100 {
        ControlCmd::SetVolume(b)
    } else if b == 0 {
        ControlCmd::Mute
    } else if b & 0xF8 == 0x80 {
        ControlCmd::SwitchOutlet {
            outlet: if b & 0x03 == 0 {
                4
            } else {
                (b & 0x03) as u8
            },
            on: b & 0x04 != 0,
        }
    } else if b & 0xF8 == 0xC0 {
        ControlCmd::BroadcastSource((((0x30 + (b & 0x07)) as u16) * 256) as u16)
    } else {
        ControlCmd::Unknown
    }
}

/// Decode one command byte from the local control channel.
pub fn decode_control(b: u8) -> (r: ControlCmd)
    ensures
        r == spec_decode_control(b),
{
    if 1 <= b && b <= 100 {
        ControlCmd::SetVolume(b)
    } else if b == 0 {
        ControlCmd::Mute
    } else if b & 0xF8 == 0x80 {
        let low = b & 0x03;
        let outlet = if low == 0 {
            4
        } else {
            low
        };
        ControlCmd::SwitchOutlet { outlet, on: b & 0x04 != 0 }
    } else if b & 0xF8 == 0xC0 {
        let hi = b & 0x07;
        proof {
            assert(b & 0x07 <= 7) by (bit_vector);
        }
        ControlCmd::BroadcastSource(((0x30 + hi) as u16) * 256)
    } else {
        ControlCmd::Unknown
    }
}

} // verus!
