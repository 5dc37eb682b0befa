use theaterd::orchestrator::on_audio_mode_reply;
use theaterd::orchestrator::on_power_reply;
use theaterd::orchestrator::tick;
use theaterd::orchestrator::Command;
use theaterd::orchestrator::Query;
use theaterd::orchestrator::TickInputs;
use theaterd::orchestrator::CYCLES_LONG_WAIT;
use theaterd::orchestrator::CYCLES_TO_SWITCH_OFF;
use theaterd::state::initial_state;
use theaterd::state::GState;
use theaterd::state::LogicalAddress;
use theaterd::state::MediaState;
use theaterd::state::PowerStatus;

fn snap(
    tv: Option<bool>,
    avr_ready: bool,
    avr_standby: Option<bool>,
    cec_addr: Option<LogicalAddress>,
    active_source: u16,
) -> GState {
    GState { tv, avr_ready, avr_standby, cec_addr, active_source }
}

fn inputs(s: GState, activity: bool) -> TickInputs {
    TickInputs { snap: s, activity, vol_changed: false, vol_target: 50, relay_avr_on: false }
}

#[test]
fn derived_cycle_constants() {
    assert_eq!(CYCLES_TO_SWITCH_OFF, 7000 / 250);
    assert_eq!(CYCLES_LONG_WAIT, 5500 / 250);
}

#[test]
fn initial_state_follows_relay() {
    assert_eq!(initial_state(true), MediaState::Booting);
    assert_eq!(initial_state(false), MediaState::Off);
}

#[test]
fn scenario_a_off_stays_off() {
    // tv off, no activity, relay off: Off stays Off with nothing to do.
    let i = inputs(snap(Some(false), false, None, None, 0xffff), false);
    let mut state = MediaState::Off;
    let mut cycles = 0u64;
    for _ in 0..40 {
        let r = tick(state, i, cycles);
        assert_eq!(r.next, MediaState::Off);
        assert!(r.cmds.is_empty());
        assert!(r.query.is_none());
        assert_eq!(r.cycles, 0);
        state = r.next;
        cycles = r.cycles;
    }
}

#[test]
fn scenario_b_tv_on_reaches_watching() {
    // tv turns on while Off: relay on, wait for the AVR.
    let i1 = inputs(snap(Some(true), false, None, None, 0xffff), false);
    let r1 = tick(MediaState::Off, i1, 0);
    assert_eq!(r1.next, MediaState::WaitForAudio);
    assert_eq!(r1.cmds, vec![Command::SetAvrRelay(true)]);
    assert!(r1.query.is_none());

    // avr_ready with the tv on: lights on, re-broadcast the captured
    // source, watch.
    let i2 = inputs(
        snap(Some(true), true, None, Some(LogicalAddress::Playback2), 0x3100),
        false,
    );
    let r2 = tick(r1.next, i2, r1.cycles);
    assert_eq!(r2.next, MediaState::Watching);
    assert_eq!(
        r2.cmds,
        vec![Command::SetLight(true), Command::BroadcastActiveSource(0x3100)]
    );
    assert!(r2.query.is_none());
    assert_eq!(r2.cycles, 0);
}

#[test]
fn scenario_b_sentinel_source_not_rebroadcast() {
    let i = inputs(
        snap(Some(true), true, None, Some(LogicalAddress::Playback2), 0xffff),
        false,
    );
    let r = tick(MediaState::WaitForAudio, i, 0);
    assert_eq!(r.next, MediaState::Watching);
    assert_eq!(r.cmds, vec![Command::SetLight(true)]);
}

#[test]
fn scenario_c_activity_reaches_playing() {
    // activity starts while Off and the AVR idle.
    let i1 = inputs(snap(None, false, None, Some(LogicalAddress::Playback2), 0xffff), true);
    let r1 = tick(MediaState::Off, i1, 0);
    assert_eq!(r1.next, MediaState::WaitForAudio);
    assert_eq!(r1.cmds, vec![Command::SetAvrRelay(true)]);

    // the AVR announces itself; activity still on, tv not on: audio
    // focus requested and the power probed.
    let i2 = inputs(snap(None, true, None, Some(LogicalAddress::Playback2), 0xffff), true);
    let r2 = tick(r1.next, i2, r1.cycles);
    assert_eq!(r2.next, MediaState::WaitForAudio);
    assert_eq!(r2.cmds, vec![Command::AudioFocusOn]);
    assert_eq!(r2.query, Some(Query::AvrPower));

    // the AVR is on: capture the baseline volume and play.
    let r3 = on_power_reply(r2.next, i2, PowerStatus::On);
    assert_eq!(r3.next, MediaState::Playing);
    assert_eq!(
        r3.cmds,
        vec![Command::SetVolume { target: 50, capture_baseline: true }]
    );
    assert!(r3.commit);
}

#[test]
fn take_over_probe_standby_nudges_power() {
    let i = inputs(snap(None, true, None, Some(LogicalAddress::Playback2), 0xffff), true);
    let r = on_power_reply(MediaState::WaitForAudio, i, PowerStatus::Standby);
    assert_eq!(r.next, MediaState::WaitForAudio);
    assert_eq!(r.cmds, vec![Command::TurnAvrOn]);
    assert!(!r.commit);

    let r2 = on_power_reply(MediaState::WaitForAudio, i, PowerStatus::Unknown);
    assert_eq!(r2.next, MediaState::WaitForAudio);
    assert!(r2.cmds.is_empty());
}

#[test]
fn wait_for_audio_without_address_waits_for_one() {
    let i = inputs(snap(None, true, None, None, 0xffff), true);
    let r = tick(MediaState::WaitForAudio, i, 0);
    assert_eq!(r.next, MediaState::WaitForAudio);
    assert_eq!(r.cmds, vec![Command::AwaitBusAddress { rescue: true }]);
    assert!(r.query.is_none());
}

#[test]
fn wait_for_audio_idle_switches_off() {
    let i = inputs(snap(Some(false), true, None, Some(LogicalAddress::Playback2), 0xffff), false);
    let r = tick(MediaState::WaitForAudio, i, 0);
    assert_eq!(r.next, MediaState::SwitchingOff);
    assert!(r.cmds.is_empty());
    assert_eq!(r.cycles, 0);
}

#[test]
fn long_wait_reprobes_avr() {
    // counter one below the threshold: the bump makes it equal.
    let i = inputs(snap(Some(true), false, None, Some(LogicalAddress::Playback2), 0xffff), false);
    let r = tick(MediaState::WaitForAudio, i, CYCLES_LONG_WAIT - 1);
    assert_eq!(r.next, MediaState::WaitForAudio);
    assert!(r.cmds.is_empty());
    assert_eq!(r.query, Some(Query::AvrPower));
    assert_eq!(r.cycles, CYCLES_LONG_WAIT);

    // an answer proves the AVR listens; tv on and not confirmed on:
    // nudge power.
    let r2 = on_power_reply(r.next, i, PowerStatus::Standby);
    assert_eq!(r2.cmds, vec![Command::MarkAvrReady, Command::TurnAvrOn]);
    assert!(!r2.commit);

    // already on: nothing more to do.
    let r3 = on_power_reply(r.next, i, PowerStatus::On);
    assert_eq!(r3.cmds, vec![Command::MarkAvrReady]);
}

#[test]
fn long_wait_with_activity_checks_audio_mode() {
    let i = inputs(snap(None, false, None, Some(LogicalAddress::Playback2), 0xffff), true);
    let r = tick(MediaState::WaitForAudio, i, CYCLES_LONG_WAIT - 1);
    assert_eq!(r.query, Some(Query::AvrPower));

    let r2 = on_power_reply(r.next, i, PowerStatus::On);
    assert_eq!(r2.cmds, vec![Command::MarkAvrReady]);
    assert_eq!(r2.query, Some(Query::AudioModeActive));

    let r3 = on_audio_mode_reply(r2.next, i, true);
    assert!(r3.cmds.is_empty());
    let r4 = on_audio_mode_reply(r2.next, i, false);
    assert_eq!(r4.cmds, vec![Command::AudioFocusOn]);

    // not confirmed on: re-request audio focus right away.
    let r5 = on_power_reply(r.next, i, PowerStatus::Unknown);
    assert_eq!(r5.cmds, vec![Command::AudioFocusOn]);
    assert!(r5.query.is_none());
}

#[test]
fn watchdog_forces_switch_off() {
    // stuck in WaitForAudio past the watchdog bound, relay already off:
    // forced through SwitchingOff and out at Off the same tick.
    let i = inputs(snap(None, false, None, None, 0xffff), false);
    let r = tick(MediaState::WaitForAudio, i, CYCLES_TO_SWITCH_OFF);
    assert_eq!(r.next, MediaState::Off);
    assert!(r.cmds.is_empty());
    assert_eq!(r.cycles, 0);
}

#[test]
fn switching_off_cuts_relay_exactly_once() {
    // relay on and standby confirmed: cut it and rest.
    let s = snap(Some(false), false, Some(true), Some(LogicalAddress::Playback2), 0xffff);
    let mut i = inputs(s, false);
    i.relay_avr_on = true;
    let r = tick(MediaState::SwitchingOff, i, 0);
    assert_eq!(r.next, MediaState::Off);
    assert_eq!(r.cmds, vec![Command::SetAvrRelay(false)]);

    // re-evaluating the unchanged snapshot from Off: no second cut.
    let mut i2 = inputs(s, false);
    i2.relay_avr_on = false;
    let r2 = tick(r.next, i2, r.cycles);
    assert_eq!(r2.next, MediaState::Off);
    assert!(r2.cmds.is_empty());
}

#[test]
fn switching_off_sends_standby_first() {
    let s = snap(Some(false), false, None, Some(LogicalAddress::Playback2), 0xffff);
    let mut i = inputs(s, false);
    i.relay_avr_on = true;
    let r = tick(MediaState::SwitchingOff, i, 0);
    assert_eq!(r.next, MediaState::SwitchingOff);
    assert_eq!(r.cmds, vec![Command::SendAvrStandby, Command::RefreshAvrPower]);

    let mut i2 = inputs(s, false);
    i2.relay_avr_on = true;
    i2.snap.cec_addr = None;
    let r2 = tick(MediaState::SwitchingOff, i2, 0);
    assert_eq!(r2.cmds, vec![Command::AwaitBusAddress { rescue: false }]);
}

#[test]
fn switching_off_with_relay_off_rests() {
    let i = inputs(snap(None, false, None, None, 0xffff), false);
    let r = tick(MediaState::SwitchingOff, i, 0);
    assert_eq!(r.next, MediaState::Off);
    assert!(r.cmds.is_empty());
}

#[test]
fn watching_tv_off_with_activity_takes_over() {
    let i = TickInputs {
        snap: snap(Some(false), true, Some(false), Some(LogicalAddress::Playback2), 0x3100),
        activity: true,
        vol_changed: false,
        vol_target: 54,
        relay_avr_on: true,
    };
    let r = tick(MediaState::Watching, i, 0);
    assert_eq!(r.next, MediaState::Playing);
    assert_eq!(
        r.cmds,
        vec![
            Command::SetLight(false),
            Command::AudioFocusOn,
            Command::SetVolume { target: 54, capture_baseline: true },
        ]
    );
}

#[test]
fn watching_tv_off_without_activity_shuts_down() {
    let i = inputs(snap(Some(false), true, Some(false), Some(LogicalAddress::Playback2), 0), false);
    let r = tick(MediaState::Watching, i, 0);
    assert_eq!(r.next, MediaState::SwitchingOff);
    assert_eq!(r.cmds, vec![Command::SetLight(false)]);
}

#[test]
fn watching_avr_asleep_rewakes_it() {
    let i = inputs(snap(Some(true), true, None, Some(LogicalAddress::Playback2), 0), false);
    let r = tick(MediaState::Watching, i, 0);
    assert_eq!(r.next, MediaState::Watching);
    assert_eq!(r.cmds, vec![Command::TurnAvrOn, Command::RefreshAvrPower]);
}

#[test]
fn playing_consumes_volume_target() {
    let i = TickInputs {
        snap: snap(None, true, Some(false), Some(LogicalAddress::Playback2), 0),
        activity: true,
        vol_changed: true,
        vol_target: 60,
        relay_avr_on: true,
    };
    let r = tick(MediaState::Playing, i, 0);
    assert_eq!(r.next, MediaState::Playing);
    assert_eq!(
        r.cmds,
        vec![
            Command::ClearVolumeChanged,
            Command::SetVolume { target: 60, capture_baseline: false },
        ]
    );

    // without a bus address the flag stays for a later tick.
    let mut i2 = i;
    i2.snap.cec_addr = None;
    let r2 = tick(MediaState::Playing, i2, 0);
    assert!(r2.cmds.is_empty());
}

#[test]
fn playing_tv_on_returns_to_watching() {
    let i = inputs(snap(Some(true), true, Some(false), Some(LogicalAddress::Playback2), 0), true);
    let r = tick(MediaState::Playing, i, 0);
    assert_eq!(r.next, MediaState::Watching);
    assert_eq!(
        r.cmds,
        vec![Command::AudioFocusOff, Command::RestoreVolume, Command::SetLight(true)]
    );
}

#[test]
fn playing_activity_stops_shuts_down() {
    let i = inputs(snap(None, true, Some(false), Some(LogicalAddress::Playback2), 0), false);
    let r = tick(MediaState::Playing, i, 0);
    assert_eq!(r.next, MediaState::SwitchingOff);
    assert_eq!(r.cmds, vec![Command::AudioFocusOff, Command::RestoreVolume]);
}

#[test]
fn playing_avr_asleep_refocuses() {
    let i = inputs(snap(None, true, None, Some(LogicalAddress::Playback2), 0), true);
    let r = tick(MediaState::Playing, i, 0);
    assert_eq!(r.next, MediaState::Playing);
    assert_eq!(r.cmds, vec![Command::AudioFocusOn, Command::RefreshAvrPower]);
}

#[test]
fn booting_probes_then_decides() {
    let i = inputs(snap(None, false, None, Some(LogicalAddress::Playback2), 0xffff), false);
    let r = tick(MediaState::Booting, i, 0);
    assert_eq!(r.next, MediaState::Booting);
    assert_eq!(r.query, Some(Query::AvrPower));

    let on = on_power_reply(MediaState::Booting, i, PowerStatus::On);
    assert_eq!(on.next, MediaState::WaitForAudio);
    assert!(on.commit);

    let standby = on_power_reply(MediaState::Booting, i, PowerStatus::Standby);
    assert_eq!(standby.next, MediaState::SwitchingOff);
    assert!(standby.commit);

    let unknown = on_power_reply(MediaState::Booting, i, PowerStatus::Unknown);
    assert_eq!(unknown.next, MediaState::Booting);
    assert!(!unknown.commit);
}

#[test]
fn booting_awake_asks_for_address() {
    let i = inputs(snap(None, false, Some(false), Some(LogicalAddress::Playback2), 0xffff), false);
    let r = tick(MediaState::Booting, i, 0);
    assert_eq!(r.next, MediaState::WaitForAudio);
    assert_eq!(r.cmds, vec![Command::RequestAvrAddress]);

    let i2 = inputs(snap(None, false, Some(true), None, 0xffff), false);
    let r2 = tick(MediaState::Booting, i2, 0);
    assert_eq!(r2.next, MediaState::SwitchingOff);
    assert!(r2.cmds.is_empty());
}

#[test]
fn evaluation_is_deterministic() {
    let i = inputs(snap(Some(true), true, Some(false), Some(LogicalAddress::Playback1), 7), true);
    let a = tick(MediaState::Watching, i, 3);
    let b = tick(MediaState::Watching, i, 3);
    assert_eq!(a.next, b.next);
    assert_eq!(a.cmds, b.cmds);
    assert_eq!(a.query, b.query);
    assert_eq!(a.cycles, b.cycles);
}
