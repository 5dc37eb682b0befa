//! The orchestration state machine.
//!
//! On a fixed tick the daemon snapshots the bus-derived facts and the
//! playback-activity signal and evaluates one step of an ordered,
//! first-match transition table; unmatched combinations leave the state
//! unchanged.  The evaluation is a pure function from (state, inputs) to
//! (next state, command list): the caller owns the tick loop, performs
//! the returned commands against the bus and the relay strip, and — when
//! a step asks a question that takes a blocking round trip — feeds the
//! answer back through the reply functions.
//!
//! A watchdog counts ticks spent unchanged in a transitional state and
//! forces the machine toward `SwitchingOff` when it hangs.

use vstd::prelude::*;

use crate::state::GState;
use crate::state::MediaState;
use crate::state::PowerStatus;
use crate::state::SOURCE_UNKNOWN;

verus! {

/// Tick period of the orchestrator loop, milliseconds.
pub const TICK_MS: u64 = 250;

/// A transitional state left unchanged this long is considered hung.
pub const SWITCH_OFF_HANG_MS: u64 = 7000;

/// Time in `WaitForAudio` after which the AVR gets re-probed.
pub const LONG_WAIT_MS: u64 = 5500;

/// The watchdog threshold, in ticks.
pub const CYCLES_TO_SWITCH_OFF: u64 = SWITCH_OFF_HANG_MS / TICK_MS;

/// The `WaitForAudio` re-probe threshold, in ticks.
pub const CYCLES_LONG_WAIT: u64 = LONG_WAIT_MS / TICK_MS;

/// A side effect the tick asks its caller to perform.  Commands are
/// performed in list order, synchronously within the tick; a failure is
/// logged and retried on a later tick, never aborting the loop.
#[derive(Clone, Copy, Debug, PartialEq, Eq, Structural)]
pub enum Command {
    /// Switch the accent-light outlet.
    SetLight(bool),
    /// Switch the AVR mains outlet.  The performer must also force the
    /// AVR facts in the snapshot back to unknown
    /// ([`crate::state::on_avr_relay_toggled`]).
    SetAvrRelay(bool),
    /// Request system-audio mode (audio focus) with this device's
    /// routing address.
    AudioFocusOn,
    /// Request termination of system-audio mode and restore the AVR's
    /// pre-takeover state.
    AudioFocusOff,
    /// Run one volume-step batch toward `target` percent; when
    /// `capture_baseline` is set, first record the AVR's current volume
    /// as the pre-takeover baseline.
    SetVolume { target: u8, capture_baseline: bool },
    /// Run one volume-step batch back to the captured pre-takeover
    /// baseline.
    RestoreVolume,
    /// Power the AVR on over the bus.
    TurnAvrOn,
    /// Send the AVR to standby over the bus.
    SendAvrStandby,
    /// Fire a power-status query only to refresh the snapshot: the reply
    /// frame arrives through the bus monitor.
    RefreshAvrPower,
    /// Re-broadcast an active-source announcement for this routing
    /// identifier (best-effort compensation for one AVR's routing
    /// quirk).
    BroadcastActiveSource(u16),
    /// Ask the AVR to report its routing address.
    RequestAvrAddress,
    /// Block until the bus assigns an address; with `rescue` set, fall
    /// back to the TV power-cycle recovery when a foreign address comes
    /// up.
    AwaitBusAddress { rescue: bool },
    /// Record in the snapshot that the AVR answered a direct query
    /// ([`crate::bus::set_avr_ready`]).
    MarkAvrReady,
    /// The published volume target was consumed: clear its changed
    /// flag.
    ClearVolumeChanged,
}

/// A blocking question a step needs answered before it can finish.
#[derive(Clone, Copy, Debug, PartialEq, Eq, Structural)]
pub enum Query {
    /// Round trip for the AVR's power status.
    AvrPower,
    /// Round trip asking whether the AVR is already in system-audio
    /// mode.
    AudioModeActive,
}

/// Everything one tick reads: the snapshot, the activity signal, the
/// published volume target, and the relay's reading of the AVR outlet.
#[derive(Clone, Copy, Debug)]
pub struct TickInputs {
    /// Copy of the shared snapshot, taken under its lock.
    pub snap: GState,
    /// The playback-activity signal from the stream proxy.
    pub activity: bool,
    /// The volume target changed since the last consuming tick.
    pub vol_changed: bool,
    /// The published volume target percent.
    pub vol_target: u8,
    /// The relay's current reading of the AVR outlet.
    pub relay_avr_on: bool,
}

/// What one tick decided.
#[derive(Debug)]
pub struct Step {
    /// The state after this tick.
    pub next: MediaState,
    /// Commands to perform, in order.
    pub cmds: Vec<Command>,
    /// A question to answer and feed back this same tick, if any.
    pub query: Option<Query>,
    /// The new unchanged-cycles counter.
    pub cycles: u64,
}

/// What a fed-back answer decided.
#[derive(Debug)]
pub struct Reply {
    /// The state after the answer.
    pub next: MediaState,
    /// Commands to perform, in order.
    pub cmds: Vec<Command>,
    /// A follow-up question, if any.
    pub query: Option<Query>,
    /// The answer committed a transition: reset the unchanged-cycles
    /// counter.
    pub commit: bool,
}

/// A state the watchdog counts as transitional: everything but the
/// three resting states.
pub open spec fn transitional(state: MediaState) -> bool {
    !(state is Off || state is Watching || state is Playing)
}

/// The unchanged-cycles counter after its per-tick bump.
pub open spec fn bumped_cycles(state: MediaState, cycles: u64) -> int {
    if transitional(state) {
        cycles + 1
    } else {
        cycles as int
    }
}

/// The watchdog fires: too long unchanged in a transitional state.
pub open spec fn watchdog_fires(state: MediaState, cycles: u64) -> bool {
    bumped_cycles(state, cycles) > CYCLES_TO_SWITCH_OFF
}

// ---- the transition table ----
//
// One row per guarded rule, in priority order; the first whose guard
// holds is taken, and `NoChange` (whose guard is vacuous) closes the
// table.  Each row yields (next state, commands, question, commit);
// `commit` records an actual transition and resets the watchdog
// counter.

/// The rows of the table, in priority order.
#[derive(Clone, Copy, Debug, PartialEq, Eq, Structural)]
pub enum Rule {
    /// Watching and the TV turned off.
    WatchingTvOff,
    /// Playing and a new volume target was published.
    PlayingVolChanged,
    /// Playing and the TV turned on.
    PlayingTvOn,
    /// Playing and playback activity stopped.
    PlayingSilent,
    /// Off and activity started or the TV turned on.
    OffWake,
    /// WaitForAudio and the AVR announced itself.
    WaitReady,
    /// WaitForAudio stuck past the long-wait threshold.
    WaitLongStuck,
    /// Watching but the AVR is not confirmed awake.
    WatchingAvrAsleep,
    /// Playing but the AVR is not confirmed awake.
    PlayingAvrAsleep,
    /// Booting: resolve the unknown standby state.
    BootingStep,
    /// SwitchingOff: bring the AVR down, then cut its relay.
    SwitchingOffStep,
    /// No rule matched: stay put.
    NoChange,
}

/// Priority of a rule: lower goes first.
pub open spec fn rule_index(r: Rule) -> int {
    match r {
        Rule::WatchingTvOff => 0,
        Rule::PlayingVolChanged => 1,
        Rule::PlayingTvOn => 2,
        Rule::PlayingSilent => 3,
        Rule::OffWake => 4,
        Rule::WaitReady => 5,
        Rule::WaitLongStuck => 6,
        Rule::WatchingAvrAsleep => 7,
        Rule::PlayingAvrAsleep => 8,
        Rule::BootingStep => 9,
        Rule::SwitchingOffStep => 10,
        Rule::NoChange => 11,
    }
}

/// The raw guard of each rule, over the state, the inputs, and the
/// already-bumped cycle counter.
pub open spec fn rule_guard(r: Rule, state: MediaState, i: TickInputs, cycles: int) -> bool {
    match r {
        Rule::WatchingTvOff => state is Watching && i.snap.tv == Some(false),
        Rule::PlayingVolChanged => state is Playing && i.vol_changed,
        Rule::PlayingTvOn => state is Playing && i.snap.tv == Some(true),
        Rule::PlayingSilent => state is Playing && !i.activity,
        Rule::OffWake => state is Off && (i.activity || i.snap.tv == Some(true)),
        Rule::WaitReady => state is WaitForAudio && i.snap.avr_ready,
        Rule::WaitLongStuck => state is WaitForAudio && cycles == CYCLES_LONG_WAIT,
        Rule::WatchingAvrAsleep => state is Watching && i.snap.avr_standby != Some(false),
        Rule::PlayingAvrAsleep => state is Playing && i.snap.avr_standby != Some(false),
        Rule::BootingStep => state is Booting,
        Rule::SwitchingOffStep => state is SwitchingOff,
        Rule::NoChange => true,
    }
}

/// A rule fires when its guard holds and no higher-priority guard does.
pub open spec fn rule_fires(r: Rule, state: MediaState, i: TickInputs, cycles: int) -> bool {
    rule_guard(r, state, i, cycles) && (forall|r2: Rule|
        rule_index(r2) < rule_index(r) ==> !(#[trigger] rule_guard(r2, state, i, cycles)))
}

/// The first rule whose guard holds.
pub open spec fn selected_rule(state: MediaState, i: TickInputs, cycles: int) -> Rule {
    if rule_guard(Rule::WatchingTvOff, state, i, cycles) {
        Rule::WatchingTvOff
    } else if rule_guard(Rule::PlayingVolChanged, state, i, cycles) {
        Rule::PlayingVolChanged
    } else if rule_guard(Rule::PlayingTvOn, state, i, cycles) {
        Rule::PlayingTvOn
    } else if rule_guard(Rule::PlayingSilent, state, i, cycles) {
        Rule::PlayingSilent
    } else if rule_guard(Rule::OffWake, state, i, cycles) {
        Rule::OffWake
    } else if rule_guard(Rule::WaitReady, state, i, cycles) {
        Rule::WaitReady
    } else if rule_guard(Rule::WaitLongStuck, state, i, cycles) {
        Rule::WaitLongStuck
    } else if rule_guard(Rule::WatchingAvrAsleep, state, i, cycles) {
        Rule::WatchingAvrAsleep
    } else if rule_guard(Rule::PlayingAvrAsleep, state, i, cycles) {
        Rule::PlayingAvrAsleep
    } else if rule_guard(Rule::BootingStep, state, i, cycles) {
        Rule::BootingStep
    } else if rule_guard(Rule::SwitchingOffStep, state, i, cycles) {
        Rule::SwitchingOffStep
    } else {
        Rule::NoChange
    }
}

/// Watching, TV turned off: accent light off; with activity, take audio
/// focus and move the published target onto the AVR (capturing its
/// pre-takeover volume) and play; without, shut down.
pub open spec fn row_watching_tv_off(i: TickInputs) -> (MediaState, Seq<Command>, Option<Query>, bool) {
    let take = if i.activity && i.snap.cec_addr is Some {
        seq![
            Command::AudioFocusOn,
            Command::SetVolume { target: i.vol_target, capture_baseline: true },
        ]
    } else {
        Seq::empty()
    };
    (
        if i.activity {
            MediaState::Playing
        } else {
            MediaState::SwitchingOff
        },
        seq![Command::SetLight(false)] + take,
        None,
        true,
    )
}

/// Playing, a new volume target: consume the flag and push the target;
/// without a bus address nothing can be pushed and the flag stays.
pub open spec fn row_playing_vol_changed(i: TickInputs) -> (
    MediaState,
    Seq<Command>,
    Option<Query>,
    bool,
) {
    if i.snap.cec_addr is Some {
        (
            MediaState::Playing,
            seq![
                Command::ClearVolumeChanged,
                Command::SetVolume { target: i.vol_target, capture_baseline: false },
            ],
            None,
            false,
        )
    } else {
        (MediaState::Playing, Seq::empty(), None, false)
    }
}

/// Playing, TV turned on: release audio focus, restore the pre-takeover
/// volume, accent light on, watch.
pub open spec fn row_playing_tv_on(i: TickInputs) -> (MediaState, Seq<Command>, Option<Query>, bool) {
    let release = if i.snap.cec_addr is Some {
        seq![Command::AudioFocusOff, Command::RestoreVolume]
    } else {
        Seq::empty()
    };
    (MediaState::Watching, release + seq![Command::SetLight(true)], None, true)
}

/// Playing, activity stopped: release audio focus, restore the volume,
/// shut down; without a bus address, wait for one.
pub open spec fn row_playing_silent(i: TickInputs) -> (MediaState, Seq<Command>, Option<Query>, bool) {
    if i.snap.cec_addr is Some {
        (
            MediaState::SwitchingOff,
            seq![Command::AudioFocusOff, Command::RestoreVolume],
            None,
            true,
        )
    } else {
        (MediaState::Playing, Seq::empty(), None, false)
    }
}

/// Off, something woke up: power the AVR relay and wait for the AVR.
pub open spec fn row_off_wake() -> (MediaState, Seq<Command>, Option<Query>, bool) {
    (MediaState::WaitForAudio, seq![Command::SetAvrRelay(true)], None, true)
}

/// WaitForAudio, the AVR announced itself: with the TV on, lights on and
/// re-broadcast the captured source, watch; with activity, take audio
/// focus and ask for the AVR's power before playing; with neither, shut
/// down.
pub open spec fn row_wait_ready(i: TickInputs) -> (MediaState, Seq<Command>, Option<Query>, bool) {
    if i.snap.tv == Some(true) {
        let rebroadcast = if i.snap.cec_addr is Some && i.snap.active_source != SOURCE_UNKNOWN {
            seq![Command::BroadcastActiveSource(i.snap.active_source)]
        } else {
            Seq::empty()
        };
        (MediaState::Watching, seq![Command::SetLight(true)] + rebroadcast, None, true)
    } else if i.activity {
        if i.snap.cec_addr is Some {
            (MediaState::WaitForAudio, seq![Command::AudioFocusOn], Some(Query::AvrPower), false)
        } else {
            (
                MediaState::WaitForAudio,
                seq![Command::AwaitBusAddress { rescue: true }],
                None,
                false,
            )
        }
    } else {
        (MediaState::SwitchingOff, Seq::empty(), None, true)
    }
}

/// WaitForAudio stuck past the long-wait threshold: re-probe the AVR's
/// power and react to the answer; without an address there is nothing
/// to send from.
pub open spec fn row_wait_long(i: TickInputs) -> (MediaState, Seq<Command>, Option<Query>, bool) {
    if i.snap.cec_addr is Some {
        (MediaState::WaitForAudio, Seq::empty(), Some(Query::AvrPower), false)
    } else {
        (MediaState::WaitForAudio, Seq::empty(), None, false)
    }
}

/// Watching but the AVR is not confirmed awake: wake it and re-probe.
pub open spec fn row_watching_avr_asleep(i: TickInputs) -> (
    MediaState,
    Seq<Command>,
    Option<Query>,
    bool,
) {
    if i.snap.cec_addr is Some {
        (MediaState::Watching, seq![Command::TurnAvrOn, Command::RefreshAvrPower], None, false)
    } else {
        (MediaState::Watching, Seq::empty(), None, false)
    }
}

/// Playing but the AVR is not confirmed awake: re-request audio focus
/// and re-probe; without an address, wait for one.
pub open spec fn row_playing_avr_asleep(i: TickInputs) -> (
    MediaState,
    Seq<Command>,
    Option<Query>,
    bool,
) {
    if i.snap.cec_addr is Some {
        (MediaState::Playing, seq![Command::AudioFocusOn, Command::RefreshAvrPower], None, false)
    } else {
        (
            MediaState::Playing,
            seq![Command::AwaitBusAddress { rescue: false }],
            None,
            false,
        )
    }
}

/// Booting: with standby unknown, probe once; confirmed awake, ask for
/// the AVR's routing address and wait for it; confirmed in standby,
/// shut down.
pub open spec fn row_booting(i: TickInputs) -> (MediaState, Seq<Command>, Option<Query>, bool) {
    match i.snap.avr_standby {
        None => {
            if i.snap.cec_addr is Some {
                (MediaState::Booting, Seq::empty(), Some(Query::AvrPower), false)
            } else {
                (MediaState::Booting, Seq::empty(), None, false)
            }
        },
        Some(false) => {
            let ask = if i.snap.cec_addr is Some {
                seq![Command::RequestAvrAddress]
            } else {
                Seq::empty()
            };
            (MediaState::WaitForAudio, ask, None, true)
        },
        Some(true) => (MediaState::SwitchingOff, Seq::empty(), None, true),
    }
}

/// SwitchingOff: while the relay still feeds the AVR, first bring it to
/// confirmed standby (the watchdog-enforced delay), only then cut the
/// relay; with the relay already off, rest.
pub open spec fn row_switching_off(i: TickInputs) -> (MediaState, Seq<Command>, Option<Query>, bool) {
    if i.relay_avr_on {
        if i.snap.avr_standby == Some(true) {
            (MediaState::Off, seq![Command::SetAvrRelay(false)], None, true)
        } else if i.snap.cec_addr is Some {
            (
                MediaState::SwitchingOff,
                seq![Command::SendAvrStandby, Command::RefreshAvrPower],
                None,
                false,
            )
        } else {
            (
                MediaState::SwitchingOff,
                seq![Command::AwaitBusAddress { rescue: false }],
                None,
                false,
            )
        }
    } else {
        (MediaState::Off, Seq::empty(), None, true)
    }
}

/// The outcome of one rule.
pub open spec fn apply_rule(r: Rule, state: MediaState, i: TickInputs) -> (
    MediaState,
    Seq<Command>,
    Option<Query>,
    bool,
) {
    match r {
        Rule::WatchingTvOff => row_watching_tv_off(i),
        Rule::PlayingVolChanged => row_playing_vol_changed(i),
        Rule::PlayingTvOn => row_playing_tv_on(i),
        Rule::PlayingSilent => row_playing_silent(i),
        Rule::OffWake => row_off_wake(),
        Rule::WaitReady => row_wait_ready(i),
        Rule::WaitLongStuck => row_wait_long(i),
        Rule::WatchingAvrAsleep => row_watching_avr_asleep(i),
        Rule::PlayingAvrAsleep => row_playing_avr_asleep(i),
        Rule::BootingStep => row_booting(i),
        Rule::SwitchingOffStep => row_switching_off(i),
        Rule::NoChange => (state, Seq::empty(), None, false),
    }
}

/// One evaluation of the table: the first matching rule's outcome.
pub open spec fn table_step(state: MediaState, i: TickInputs, cycles: int) -> (
    MediaState,
    Seq<Command>,
    Option<Query>,
    bool,
) {
    apply_rule(selected_rule(state, i, cycles), state, i)
}

/// One whole tick: bump the watchdog counter, force `SwitchingOff` on a
/// hang, evaluate the table, and reset the counter on a committed
/// transition.
pub open spec fn spec_tick(state: MediaState, i: TickInputs, cycles: u64) -> (
    MediaState,
    Seq<Command>,
    Option<Query>,
    u64,
) {
    let fired = watchdog_fires(state, cycles);
    let eff = if fired {
        MediaState::SwitchingOff
    } else {
        state
    };
    let c: int = if fired {
        0
    } else {
        bumped_cycles(state, cycles)
    };
    let (next, cmds, query, commit) = table_step(eff, i, c);
    (next, cmds, query, if commit {
        0
    } else {
        c as u64
    })
}

/// Evaluate one orchestrator tick.
///
/// `cycles` is the unchanged-cycles counter carried from tick to tick,
/// starting at zero; the returned counter is carried into the next
/// call, which keeps it within the watchdog bound.
pub fn tick(state: MediaState, i: TickInputs, cycles: u64) -> (r: Step)
    requires
        cycles <= CYCLES_TO_SWITCH_OFF,
    ensures
        r.next == spec_tick(state, i, cycles).0,
        r.cmds@ == spec_tick(state, i, cycles).1,
        r.query == spec_tick(state, i, cycles).2,
        r.cycles == spec_tick(state, i, cycles).3,
        r.cycles <= CYCLES_TO_SWITCH_OFF,
{
    let trans = !(matches!(state, MediaState::Off | MediaState::Watching | MediaState::Playing));
    let bumped = if trans {
        cycles + 1
    } else {
        cycles
    };
    let (eff, c) = if bumped > CYCLES_TO_SWITCH_OFF {
        (MediaState::SwitchingOff, 0u64)
    } else {
        (state, bumped)
    };
    let mut cmds: Vec<Command> = Vec::new();
    let mut query: Option<Query> = None;
    let mut commit = false;
    let next: MediaState = match eff {
        MediaState::Watching => {
            if matches!(i.snap.tv, Some(false)) {
                commit = true;
                cmds.push(Command::SetLight(false));
                if i.activity {
                    if matches!(i.snap.cec_addr, Some(_)) {
                        cmds.push(Command::AudioFocusOn);
                        cmds.push(
                            Command::SetVolume { target: i.vol_target, capture_baseline: true },
                        );
                    }
                    MediaState::Playing
                } else {
                    MediaState::SwitchingOff
                }
            } else if !matches!(i.snap.avr_standby, Some(false)) {
                if matches!(i.snap.cec_addr, Some(_)) {
                    cmds.push(Command::TurnAvrOn);
                    cmds.push(Command::RefreshAvrPower);
                }
                MediaState::Watching
            } else {
                MediaState::Watching
            }
        },
        MediaState::Playing => {
            if i.vol_changed {
                if matches!(i.snap.cec_addr, Some(_)) {
                    cmds.push(Command::ClearVolumeChanged);
                    cmds.push(Command::SetVolume { target: i.vol_target, capture_baseline: false });
                }
                MediaState::Playing
            } else if matches!(i.snap.tv, Some(true)) {
                commit = true;
                if matches!(i.snap.cec_addr, Some(_)) {
                    cmds.push(Command::AudioFocusOff);
                    cmds.push(Command::RestoreVolume);
                }
                cmds.push(Command::SetLight(true));
                MediaState::Watching
            } else if !i.activity {
                if matches!(i.snap.cec_addr, Some(_)) {
                    commit = true;
                    cmds.push(Command::AudioFocusOff);
                    cmds.push(Command::RestoreVolume);
                    MediaState::SwitchingOff
                } else {
                    MediaState::Playing
                }
            } else if !matches!(i.snap.avr_standby, Some(false)) {
                if matches!(i.snap.cec_addr, Some(_)) {
                    cmds.push(Command::AudioFocusOn);
                    cmds.push(Command::RefreshAvrPower);
                } else {
                    cmds.push(Command::AwaitBusAddress { rescue: false });
                }
                MediaState::Playing
            } else {
                MediaState::Playing
            }
        },
        MediaState::Off => {
            if i.activity || matches!(i.snap.tv, Some(true)) {
                commit = true;
                cmds.push(Command::SetAvrRelay(true));
                MediaState::WaitForAudio
            } else {
                MediaState::Off
            }
        },
        MediaState::WaitForAudio => {
            if i.snap.avr_ready {
                if matches!(i.snap.tv, Some(true)) {
                    commit = true;
                    cmds.push(Command::SetLight(true));
                    if matches!(i.snap.cec_addr, Some(_)) && i.snap.active_source != SOURCE_UNKNOWN
                    {
                        cmds.push(Command::BroadcastActiveSource(i.snap.active_source));
                    }
                    MediaState::Watching
                } else if i.activity {
                    if matches!(i.snap.cec_addr, Some(_)) {
                        cmds.push(Command::AudioFocusOn);
                        query = Some(Query::AvrPower);
                    } else {
                        cmds.push(Command::AwaitBusAddress { rescue: true });
                    }
                    MediaState::WaitForAudio
                } else {
                    commit = true;
                    MediaState::SwitchingOff
                }
            } else if c == CYCLES_LONG_WAIT {
                if matches!(i.snap.cec_addr, Some(_)) {
                    query = Some(Query::AvrPower);
                }
                MediaState::WaitForAudio
            } else {
                MediaState::WaitForAudio
            }
        },
        MediaState::Booting => {
            match i.snap.avr_standby {
                None => {
                    if matches!(i.snap.cec_addr, Some(_)) {
                        query = Some(Query::AvrPower);
                    }
                    MediaState::Booting
                },
                Some(false) => {
                    commit = true;
                    if matches!(i.snap.cec_addr, Some(_)) {
                        cmds.push(Command::RequestAvrAddress);
                    }
                    MediaState::WaitForAudio
                },
                Some(true) => {
                    commit = true;
                    MediaState::SwitchingOff
                },
            }
        },
        MediaState::SwitchingOff => {
            if i.relay_avr_on {
                if matches!(i.snap.avr_standby, Some(true)) {
                    commit = true;
                    cmds.push(Command::SetAvrRelay(false));
                    MediaState::Off
                } else {
                    if matches!(i.snap.cec_addr, Some(_)) {
                        cmds.push(Command::SendAvrStandby);
                        cmds.push(Command::RefreshAvrPower);
                    } else {
                        cmds.push(Command::AwaitBusAddress { rescue: false });
                    }
                    MediaState::SwitchingOff
                }
            } else {
                commit = true;
                MediaState::Off
            }
        },
    };
    proof {
        assert(cmds@ =~= table_step(eff, i, c as int).1);
    }
    Step {
        next,
        cmds,
        query,
        cycles: if commit {
            0
        } else {
            c
        },
    }
}

// ---- feeding back blocking answers ----

/// The contexts in which a tick asks for the AVR's power status: the
/// take-over probe (AVR ready, TV not on, activity), the long-wait
/// re-probe (AVR not ready yet), and the boot probe — each with a bus
/// address to send from.
pub open spec fn power_reply_ctx(state: MediaState, i: TickInputs) -> bool {
    &&& i.snap.cec_addr is Some
    &&& {
        ||| (state is WaitForAudio && i.snap.avr_ready && i.snap.tv != Some(true) && i.activity)
        ||| (state is WaitForAudio && !i.snap.avr_ready)
        ||| (state is Booting && i.snap.avr_standby is None)
    }
}

/// A tick only asks for the AVR's power in a [`power_reply_ctx`]
/// context, and leaves the state unchanged until the answer.
pub proof fn lemma_power_query_context(state: MediaState, i: TickInputs, cycles: u64)
    requires
        spec_tick(state, i, cycles).2 == Some(Query::AvrPower),
    ensures
        power_reply_ctx(spec_tick(state, i, cycles).0, i),
{
}

/// What the AVR's power answer decides:
/// - take-over probe: on — capture the baseline volume, push the
///   published target, play; standby — nudge the AVR on and stay;
///   unknown — retry next tick.
/// - long-wait re-probe: an answer (either way) proves the AVR is
///   listening; then with the TV on, nudge power unless already on;
///   with activity, re-request audio focus unless the AVR is already
///   on (then first ask whether audio mode is already active).
/// - boot probe: on — wait for the AVR's announcement; standby — shut
///   down; unknown — keep booting.
pub open spec fn spec_power_reply(state: MediaState, i: TickInputs, power: PowerStatus) -> (
    MediaState,
    Seq<Command>,
    Option<Query>,
    bool,
) {
    if state is WaitForAudio && i.snap.avr_ready {
        match power {
            PowerStatus::On => (
                MediaState::Playing,
                seq![Command::SetVolume { target: i.vol_target, capture_baseline: true }],
                None,
                true,
            ),
            PowerStatus::Standby => (
                MediaState::WaitForAudio,
                seq![Command::TurnAvrOn],
                None,
                false,
            ),
            PowerStatus::Unknown => (MediaState::WaitForAudio, Seq::empty(), None, false),
        }
    } else if state is WaitForAudio {
        let mark = if power is Unknown {
            Seq::empty()
        } else {
            seq![Command::MarkAvrReady]
        };
        if i.snap.tv == Some(true) {
            let nudge = if power is On {
                Seq::empty()
            } else {
                seq![Command::TurnAvrOn]
            };
            (MediaState::WaitForAudio, mark + nudge, None, false)
        } else if i.activity {
            if power is On {
                (MediaState::WaitForAudio, mark, Some(Query::AudioModeActive), false)
            } else {
                (MediaState::WaitForAudio, mark + seq![Command::AudioFocusOn], None, false)
            }
        } else {
            (MediaState::WaitForAudio, mark, None, false)
        }
    } else {
        match power {
            PowerStatus::On => (MediaState::WaitForAudio, Seq::empty(), None, true),
            PowerStatus::Standby => (MediaState::SwitchingOff, Seq::empty(), None, true),
            PowerStatus::Unknown => (MediaState::Booting, Seq::empty(), None, false),
        }
    }
}

/// Feed back the AVR's power status for the query the current tick
/// issued.
pub fn on_power_reply(state: MediaState, i: TickInputs, power: PowerStatus) -> (r: Reply)
    requires
        power_reply_ctx(state, i),
    ensures
        r.next == spec_power_reply(state, i, power).0,
        r.cmds@ == spec_power_reply(state, i, power).1,
        r.query == spec_power_reply(state, i, power).2,
        r.commit == spec_power_reply(state, i, power).3,
{
    let mut cmds: Vec<Command> = Vec::new();
    let mut query: Option<Query> = None;
    let mut commit = false;
    let next: MediaState = if matches!(state, MediaState::WaitForAudio) && i.snap.avr_ready {
        match power {
            PowerStatus::On => {
                commit = true;
                cmds.push(Command::SetVolume { target: i.vol_target, capture_baseline: true });
                MediaState::Playing
            },
            PowerStatus::Standby => {
                cmds.push(Command::TurnAvrOn);
                MediaState::WaitForAudio
            },
            PowerStatus::Unknown => MediaState::WaitForAudio,
        }
    } else if matches!(state, MediaState::WaitForAudio) {
        if !matches!(power, PowerStatus::Unknown) {
            cmds.push(Command::MarkAvrReady);
        }
        if matches!(i.snap.tv, Some(true)) {
            if !matches!(power, PowerStatus::On) {
                cmds.push(Command::TurnAvrOn);
            }
        } else if i.activity {
            if matches!(power, PowerStatus::On) {
                query = Some(Query::AudioModeActive);
            } else {
                cmds.push(Command::AudioFocusOn);
            }
        }
        MediaState::WaitForAudio
    } else {
        match power {
            PowerStatus::On => {
                commit = true;
                MediaState::WaitForAudio
            },
            PowerStatus::Standby => {
                commit = true;
                MediaState::SwitchingOff
            },
            PowerStatus::Unknown => MediaState::Booting,
        }
    };
    proof {
        assert(cmds@ =~= spec_power_reply(state, i, power).1);
    }
    Reply { next, cmds, query, commit }
}

/// The context in which a power answer asks whether audio mode is
/// already active: the long-wait re-probe with activity and the TV not
/// on.
pub open spec fn audio_mode_reply_ctx(state: MediaState, i: TickInputs) -> bool {
    &&& state is WaitForAudio
    &&& !i.snap.avr_ready
    &&& i.snap.cec_addr is Some
    &&& i.snap.tv != Some(true)
    &&& i.activity
}

/// A power answer only asks the audio-mode question in an
/// [`audio_mode_reply_ctx`] context.
pub proof fn lemma_audio_mode_query_context(state: MediaState, i: TickInputs, power: PowerStatus)
    requires
        power_reply_ctx(state, i),
        spec_power_reply(state, i, power).2 == Some(Query::AudioModeActive),
    ensures
        audio_mode_reply_ctx(spec_power_reply(state, i, power).0, i),
{
}

/// What the audio-mode answer decides: already active — nothing to do;
/// not active — re-request audio focus.  Either way the wait goes on.
pub open spec fn spec_audio_mode_reply(state: MediaState, i: TickInputs, active: bool) -> (
    MediaState,
    Seq<Command>,
    Option<Query>,
    bool,
) {
    if active {
        (MediaState::WaitForAudio, Seq::empty(), None, false)
    } else {
        (MediaState::WaitForAudio, seq![Command::AudioFocusOn], None, false)
    }
}

/// Feed back whether the AVR reported audio mode as already active.
pub fn on_audio_mode_reply(state: MediaState, i: TickInputs, active: bool) -> (r: Reply)
    requires
        audio_mode_reply_ctx(state, i),
    ensures
        r.next == spec_audio_mode_reply(state, i, active).0,
        r.cmds@ == spec_audio_mode_reply(state, i, active).1,
        r.query == spec_audio_mode_reply(state, i, active).2,
        r.commit == spec_audio_mode_reply(state, i, active).3,
{
    let mut cmds: Vec<Command> = Vec::new();
    if !active {
        cmds.push(Command::AudioFocusOn);
    }
    proof {
        assert(cmds@ =~= spec_audio_mode_reply(state, i, active).1);
    }
    Reply { next: MediaState::WaitForAudio, cmds, query: None, commit: false }
}

// ---- proved laws of the table ----

/// Determinism: for any state, snapshot and activity flag, exactly one
/// rule of the table fires — where firing means its guard holds and no
/// higher-priority guard does, and the vacuous `NoChange` guard closes
/// the table.
pub proof fn lemma_exactly_one_rule_fires(state: MediaState, i: TickInputs, cycles: int)
    ensures
        rule_fires(selected_rule(state, i, cycles), state, i, cycles),
        forall|r1: Rule, r2: Rule|
            rule_fires(r1, state, i, cycles) && rule_fires(r2, state, i, cycles) ==> r1 == r2,
{
    let sel = selected_rule(state, i, cycles);
    assert forall|r2: Rule| rule_index(r2) < rule_index(sel) implies !(#[trigger] rule_guard(
        r2,
        state,
        i,
        cycles,
    )) by {
        // the selection chain already refuted every earlier guard
    }
    assert forall|r1: Rule, r2: Rule|
        rule_fires(r1, state, i, cycles) && rule_fires(r2, state, i, cycles) implies r1 == r2 by {
        if rule_index(r1) < rule_index(r2) {
            assert(!rule_guard(r1, state, i, cycles));
        } else if rule_index(r2) < rule_index(r1) {
            assert(!rule_guard(r2, state, i, cycles));
        }
    }
}

/// The table takes the fired rule's outcome.
pub proof fn lemma_table_takes_fired_rule(state: MediaState, i: TickInputs, cycles: int, r: Rule)
    requires
        rule_fires(r, state, i, cycles),
    ensures
        table_step(state, i, cycles) == apply_rule(r, state, i),
{
    lemma_exactly_one_rule_fires(state, i, cycles);
}

/// Whether a command list cuts the AVR relay.
pub open spec fn cuts_avr_relay(cmds: Seq<Command>) -> bool {
    exists|k: int| 0 <= k < cmds.len() && cmds[k] == Command::SetAvrRelay(false)
}

/// Idempotence of switching off: a tick that cuts the AVR relay ends in
/// `Off`, and no tick that starts in `Off` ever cuts it — so
/// re-evaluating an unchanged snapshot after `SwitchingOff` cuts the
/// relay at most once.
pub proof fn lemma_relay_cut_once(state: MediaState, i: TickInputs, cycles: u64)
    ensures
        cuts_avr_relay(spec_tick(state, i, cycles).1) ==> spec_tick(state, i, cycles).0 is Off,
        state is Off && cycles <= CYCLES_TO_SWITCH_OFF ==> !cuts_avr_relay(
            spec_tick(state, i, cycles).1,
        ),
{
}

/// The two-tick reading of the same law: when a tick in `SwitchingOff`
/// cuts the relay, the following tick — whatever its snapshot — does
/// not cut it again.
pub proof fn lemma_no_second_cut(i1: TickInputs, c1: u64, i2: TickInputs, c2: u64)
    requires
        c2 <= CYCLES_TO_SWITCH_OFF,
    ensures
        cuts_avr_relay(spec_tick(MediaState::SwitchingOff, i1, c1).1) ==> !cuts_avr_relay(
            spec_tick(spec_tick(MediaState::SwitchingOff, i1, c1).0, i2, c2).1,
        ),
{
    lemma_relay_cut_once(MediaState::SwitchingOff, i1, c1);
    lemma_relay_cut_once(spec_tick(MediaState::SwitchingOff, i1, c1).0, i2, c2);
}

/// Quiescence of `Off`: with the TV not on and no activity, a tick in
/// `Off` changes nothing and commands nothing.
pub proof fn lemma_off_is_stable(i: TickInputs, cycles: u64)
    requires
        !i.activity,
        i.snap.tv != Some(true),
        cycles <= CYCLES_TO_SWITCH_OFF,
    ensures
        spec_tick(MediaState::Off, i, cycles).0 is Off,
        spec_tick(MediaState::Off, i, cycles).1 == Seq::<Command>::empty(),
        spec_tick(MediaState::Off, i, cycles).2 is None,
        spec_tick(MediaState::Off, i, cycles).3 == cycles,
{
}

/// The machine after a run of ticks, carrying the counter along.
pub open spec fn spec_run_ticks(state: MediaState, inputs: Seq<TickInputs>, cycles: u64) -> (
    MediaState,
    u64,
)
    decreases inputs.len(),
{
    if inputs.len() == 0 {
        (state, cycles)
    } else {
        let stepped = spec_tick(state, inputs[0], cycles);
        spec_run_ticks(stepped.0, inputs.drop_first(), stepped.3)
    }
}

/// No flapping: from `Off`, any run of ticks whose inputs all have the
/// TV not on and no activity leaves the machine in `Off` (and, by
/// [`lemma_off_is_stable`], commands nothing at any step).
pub proof fn lemma_off_stays_off(inputs: Seq<TickInputs>, cycles: u64)
    requires
        cycles <= CYCLES_TO_SWITCH_OFF,
        forall|k: int|
            0 <= k < inputs.len() ==> !(#[trigger] inputs[k]).activity && inputs[k].snap.tv
                != Some(true),
    ensures
        spec_run_ticks(MediaState::Off, inputs, cycles) == (MediaState::Off, cycles),
    decreases inputs.len(),
{
    if inputs.len() > 0 {
        lemma_off_is_stable(inputs[0], cycles);
        lemma_off_stays_off(inputs.drop_first(), cycles);
    }
}

} // verus!
