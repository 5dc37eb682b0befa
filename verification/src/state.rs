//! Shared data model: bus roles, power states, the orchestrator's media
//! states, and the snapshot of bus-derived facts.

use vstd::prelude::*;

verus! {

/// Logical role of a participant on the control bus.
///
/// Only the roles that the daemon's logic reads are distinguished; every
/// other address collapses to `Other`.
#[derive(Clone, Copy, Debug, PartialEq, Eq, Structural)]
pub enum LogicalAddress {
    Tv,
    Audiosystem,
    Playback1,
    Playback2,
    Playback3,
    Broadcast,
    Other,
}

/// AVR power state decoded from a status reply.
///
/// Transitional bus values (warming up, shutting down) and timeouts both
/// collapse to `Unknown`.
#[derive(Clone, Copy, Debug, PartialEq, Eq, Structural)]
pub enum PowerStatus {
    On,
    Standby,
    Unknown,
}

/// The orchestrator's media-routing states.  Exactly one is active at a
/// time; only the orchestrator changes it.
#[derive(Clone, Copy, Debug, PartialEq, Eq, Structural)]
pub enum MediaState {
    /// Everything is powered down; nothing to do.
    Off,
    /// The AVR relay is on but the AVR has not announced itself yet.
    WaitForAudio,
    /// The network audio client has audio focus; only the AVR is on.
    Playing,
    /// The TV has audio; everything is on.
    Watching,
    /// Bring the AVR to standby, then cut its relay.
    SwitchingOff,
    /// Initial state when the AVR relay was already powered at start:
    /// the AVR's standby state is not known yet.
    Booting,
}

/// Sentinel routing identifier: the active source is unknown or the
/// announcement was malformed.
pub const SOURCE_UNKNOWN: u16 = 0xffff;

/// Snapshot of bus-derived facts.  Written only by the bus monitor (and a
/// few explicitly named orchestrator commands), read once per orchestrator
/// tick.
#[derive(Clone, Copy, Debug)]
pub struct GState {
    /// TV is playing; `None` until the bus says either way.
    pub tv: Option<bool>,
    /// AVR finished topology enumeration and is ready for commands.
    pub avr_ready: bool,
    /// AVR power status; `Some(true)` means standby, `None` means unknown.
    pub avr_standby: Option<bool>,
    /// This device's negotiated address on the bus, if any.
    pub cec_addr: Option<LogicalAddress>,
    /// Routing identifier of the last announced active source;
    /// `SOURCE_UNKNOWN` when malformed or never seen.
    pub active_source: u16,
}

impl Default for GState {
    /// Start with every fact unknown.
    fn default() -> (r: GState)
        ensures
            r.tv is None,
            !r.avr_ready,
            r.avr_standby is None,
            r.cec_addr is None,
            r.active_source == 0,
    {
        GState { tv: None, avr_ready: false, avr_standby: None, cec_addr: None, active_source: 0 }
    }
}

/// The state the orchestrator starts in, from the relay's current reading
/// of the AVR outlet: if the AVR already has power its standby state is
/// unknown (`Booting`), otherwise everything is off.
pub fn initial_state(avr_powered: bool) -> (r: MediaState)
    ensures
        r == (if avr_powered { MediaState::Booting } else { MediaState::Off }),
{
    if avr_powered {
        MediaState::Booting
    } else {
        MediaState::Off
    }
}

/// The AVR relay was just toggled (either way): previously learned AVR
/// facts no longer apply and are forced back to unknown.
pub fn on_avr_relay_toggled(s: &mut GState)
    ensures
        !final(s).avr_ready,
        final(s).avr_standby is None,
        final(s).tv == old(s).tv,
        final(s).cec_addr == old(s).cec_addr,
        final(s).active_source == old(s).active_source,
{
    s.avr_ready = false;
    s.avr_standby = None;
}

} // verus!
