//! Bus-message interpreter: turns inbound control-bus frames and topology
//! events into facts in the shared snapshot.
//!
//! The monitor thread owns the blocking poll; it hands each decoded frame
//! (initiator, opcode, payload bytes) to [`apply_frame`] and each topology
//! event to [`apply_bus_address`], both called under the snapshot's lock.

use vstd::prelude::*;

use crate::state::GState;
use crate::state::LogicalAddress;
use crate::state::PowerStatus;
use crate::state::SOURCE_UNKNOWN;

verus! {

/// The inbound opcodes the daemon's logic reads.  Every other opcode is
/// only logged, so they all collapse to `Other`.
#[derive(Clone, Copy, Debug, PartialEq, Eq, Structural)]
pub enum Opcode {
    /// A device goes to standby.
    Standby,
    /// A source announces that it took over the display.
    ActiveSource,
    /// The AVR announces that system-audio mode is on or off.
    SetSystemAudioMode,
    /// Reply to a power-status query.
    ReportPowerStatus,
    /// A device reports its routing (physical) address.
    ReportPhysicalAddr,
    Other,
}

/// The routing-address payload with which the AVR announces that it is
/// ready: its well-known routing prefix plus its device type.
pub open spec fn avr_ready_params() -> Seq<u8> {
    seq![0x30u8, 0x00u8, 0x05u8]
}

/// Power status as decoded from the first payload byte of a
/// `ReportPowerStatus` reply: 0 is on, 1 is standby, the transitional
/// values and everything undefined collapse to unknown.
pub fn power_status_from_byte(b: u8) -> (r: PowerStatus)
    ensures
        r == spec_power_status_from_byte(b),
{
    if b == 0 {
        PowerStatus::On
    } else if b == 1 {
        PowerStatus::Standby
    } else {
        PowerStatus::Unknown
    }
}

pub open spec fn spec_power_status_from_byte(b: u8) -> PowerStatus {
    if b == 0 {
        PowerStatus::On
    } else if b == 1 {
        PowerStatus::Standby
    } else {
        PowerStatus::Unknown
    }
}

/// The 16-bit routing identifier carried big-endian in the first two
/// payload bytes of an `ActiveSource` announcement; the sentinel when the
/// payload is too short.
pub open spec fn spec_source_from_params(params: Seq<u8>) -> u16 {
    if params.len() >= 2 {
        (params[0] * 256 + params[1]) as u16
    } else {
        SOURCE_UNKNOWN
    }
}

/// What `ReportPowerStatus` from the AVR makes of the standby fact.
pub open spec fn spec_standby_from_params(params: Seq<u8>) -> Option<bool> {
    if params.len() == 0 {
        None
    } else {
        match spec_power_status_from_byte(params[0]) {
            PowerStatus::On => Some(false),
            PowerStatus::Standby => Some(true),
            PowerStatus::Unknown => None,
        }
    }
}

/// The snapshot after one inbound frame, by opcode:
/// - `Standby` from the TV: the TV stopped playing.
/// - `ActiveSource` not sent by this device: the TV is playing, and the
///   announced routing identifier (or the sentinel if malformed) is
///   captured.
/// - `SetSystemAudioMode` from anyone: receiving it proves the AVR is
///   awake.
/// - `ReportPowerStatus` from the AVR: standby updated from the payload.
/// - `ReportPhysicalAddr` from the AVR with its well-known routing
///   prefix: the AVR finished enumeration and is ready.
/// - anything else changes nothing.
pub open spec fn spec_apply_frame(
    s: GState,
    initiator: LogicalAddress,
    opcode: Opcode,
    params: Seq<u8>,
) -> GState {
    if opcode is Standby && initiator is Tv {
        GState { tv: Some(false), ..s }
    } else if opcode is ActiveSource && !(initiator is Playback2) {
        GState { tv: Some(true), active_source: spec_source_from_params(params), ..s }
    } else if opcode is SetSystemAudioMode {
        GState { avr_standby: Some(false), ..s }
    } else if opcode is ReportPowerStatus && initiator is Audiosystem {
        GState { avr_standby: spec_standby_from_params(params), ..s }
    } else if opcode is ReportPhysicalAddr && initiator is Audiosystem && params
        == avr_ready_params() {
        GState { avr_ready: true, ..s }
    } else {
        s
    }
}

/// Apply one inbound frame to the shared snapshot.
pub fn apply_frame(s: &mut GState, initiator: LogicalAddress, opcode: Opcode, params: &[u8])
    ensures
        *final(s) == spec_apply_frame(*old(s), initiator, opcode, params@),
{
    match opcode {
        Opcode::Standby => {
            if initiator == LogicalAddress::Tv {
                s.tv = Some(false);
            }
        },
        Opcode::ActiveSource => {
            if initiator != LogicalAddress::Playback2 {
                s.tv = Some(true);
                if params.len() >= 2 {
                    let hi = *vstd::slice::slice_index_get(params, 0);
                    let lo = *vstd::slice::slice_index_get(params, 1);
                    s.active_source = (hi as u16) * 256 + (lo as u16);
                } else {
                    s.active_source = SOURCE_UNKNOWN;
                }
            }
        },
        Opcode::SetSystemAudioMode => {
            s.avr_standby = Some(false);
        },
        Opcode::ReportPowerStatus => {
            if initiator == LogicalAddress::Audiosystem {
                if params.len() == 0 {
                    s.avr_standby = None;
                } else {
                    let b = *vstd::slice::slice_index_get(params, 0);
                    s.avr_standby = match power_status_from_byte(b) {
                        PowerStatus::On => Some(false),
                        PowerStatus::Standby => Some(true),
                        PowerStatus::Unknown => None,
                    };
                }
            }
        },
        Opcode::ReportPhysicalAddr => {
            if initiator == LogicalAddress::Audiosystem && params.len() == 3 {
                let b0 = *vstd::slice::slice_index_get(params, 0);
                let b1 = *vstd::slice::slice_index_get(params, 1);
                let b2 = *vstd::slice::slice_index_get(params, 2);
                if b0 == 0x30 && b1 == 0x00 && b2 == 0x05 {
                    s.avr_ready = true;
                    proof {
                        assert(params@ =~= avr_ready_params());
                    }
                } else {
                    proof {
                        assert(params@ != avr_ready_params());
                    }
                }
            }
        },
        Opcode::Other => {},
    }
}

/// The device's own logical address derived from a topology event's
/// address mask, checking a fixed priority order of playback roles.
pub open spec fn spec_address_from_mask(p1: bool, p2: bool, p3: bool) -> Option<LogicalAddress> {
    if p1 {
        Some(LogicalAddress::Playback1)
    } else if p2 {
        Some(LogicalAddress::Playback2)
    } else if p3 {
        Some(LogicalAddress::Playback3)
    } else {
        None
    }
}

/// Apply a topology/state-change event: `p1`..`p3` say whether the
/// negotiated address mask contains the respective playback role.
/// Returns whether an address is held, in which case the caller may
/// restart the dependent audio backend.
pub fn apply_bus_address(s: &mut GState, p1: bool, p2: bool, p3: bool) -> (gained: bool)
    ensures
        final(s).cec_addr == spec_address_from_mask(p1, p2, p3),
        gained == (final(s).cec_addr is Some),
        final(s).tv == old(s).tv,
        final(s).avr_ready == old(s).avr_ready,
        final(s).avr_standby == old(s).avr_standby,
        final(s).active_source == old(s).active_source,
{
    if p1 {
        s.cec_addr = Some(LogicalAddress::Playback1);
        true
    } else if p2 {
        s.cec_addr = Some(LogicalAddress::Playback2);
        true
    } else if p3 {
        s.cec_addr = Some(LogicalAddress::Playback3);
        true
    } else {
        s.cec_addr = None;
        false
    }
}

/// This device's own routing (physical) address in the display
/// topology.
pub const OWN_PHYS_ADDR: u16 = 0x3300;

/// The invalid routing address: the bus has not placed the device yet.
pub const INVALID_PHYS_ADDR: u16 = 0xffff;

/// What a topology event means while blocking for a bus address.
#[derive(Clone, Copy, Debug, PartialEq, Eq, Structural)]
pub enum AddrEvent {
    /// No address yet: keep waiting.
    Pending,
    /// The bus placed this device at its own routing address.
    Ours,
    /// The bus placed this device elsewhere: something is wrong and the
    /// recovery sequence is in order.
    Foreign,
}

pub open spec fn spec_classify_addr_event(phys_addr: u16, mask_nonempty: bool) -> AddrEvent {
    if phys_addr != INVALID_PHYS_ADDR && mask_nonempty {
        if phys_addr == OWN_PHYS_ADDR {
            AddrEvent::Ours
        } else {
            AddrEvent::Foreign
        }
    } else {
        AddrEvent::Pending
    }
}

/// Classify a topology event seen while waiting for a bus address:
/// `phys_addr` is the announced routing address, `mask_nonempty` whether
/// any logical address was assigned.
pub fn classify_addr_event(phys_addr: u16, mask_nonempty: bool) -> (r: AddrEvent)
    ensures
        r == spec_classify_addr_event(phys_addr, mask_nonempty),
{
    if phys_addr != INVALID_PHYS_ADDR && mask_nonempty {
        if phys_addr == OWN_PHYS_ADDR {
            AddrEvent::Ours
        } else {
            AddrEvent::Foreign
        }
    } else {
        AddrEvent::Pending
    }
}

/// The orchestrator learned out-of-band (a direct status round trip) that
/// the AVR answers: record that it is ready.
pub fn set_avr_ready(s: &mut GState)
    ensures
        *final(s) == (GState { avr_ready: true, ..*old(s) }),
{
    s.avr_ready = true;
}

/// The recovery sequence forced the TV off: record it.
pub fn set_tv_off(s: &mut GState)
    ensures
        *final(s) == (GState { tv: Some(false), ..*old(s) }),
{
    s.tv = Some(false);
}

} // verus!
