//! Volume synchronisation arithmetic.
//!
//! The AVR only takes relative volume key presses, so a target percent is
//! translated into a bounded batch of up/down presses against the AVR's
//! last reported volume.  The status round trip and the key-press
//! transport stay outside; this module fixes how many presses of which
//! key the batch holds.

use vstd::prelude::*;

verus! {

/// Which volume key to press.
#[derive(Clone, Copy, Debug, PartialEq, Eq, Structural)]
pub enum VolumeKey {
    Up,
    Down,
}

/// The volume percent carried in an audio-status byte: the low seven
/// bits (the top bit is the mute flag).
pub open spec fn spec_volume_of_status(status: u8) -> u8 {
    status & 0x7f
}

/// The key and press count that move the AVR from the reported status to
/// the target: press toward the target, twice per percent of distance to
/// compensate for the AVR's coarse step granularity.
pub open spec fn spec_volume_steps(target: u8, status: u8) -> (VolumeKey, u8) {
    let cur = spec_volume_of_status(status);
    if target > cur {
        (VolumeKey::Up, (2 * (target - cur)) as u8)
    } else {
        (VolumeKey::Down, (2 * (cur - target)) as u8)
    }
}

/// Translate a target volume percent and the AVR's last reported
/// audio-status byte into one batch of key presses.
///
/// This is open-loop: the caller emits exactly the returned number of
/// presses and obtains no confirmation between them.
pub fn volume_steps(target: u8, status: u8) -> (r: (VolumeKey, u8))
    requires
        target <= 100,
    ensures
        r == spec_volume_steps(target, status),
{
    let cur = status & 0x7f;
    proof {
        assert(status & 0x7f <= 127) by (bit_vector);
    }
    if target > cur {
        (VolumeKey::Up, 2 * (target - cur))
    } else {
        (VolumeKey::Down, 2 * (cur - target))
    }
}

} // verus!
