use hid_typer::macro_script::reference_plan;
use hid_typer::trigger::step;
use hid_typer::trigger::TriggerEffect;
use hid_typer::trigger::TriggerEvent;
use hid_typer::trigger::TriggerMonitor;
use hid_typer::trigger::TriggerState;

#[test]
fn two_cycles_produce_identical_playbacks() {
    let mut m = TriggerMonitor::new();
    let mut plans = Vec::new();
    for _ in 0..2 {
        let eff = m.on_event(TriggerEvent::RisingEdge);
        assert_eq!(eff, Some(TriggerEffect::BeginPlayback));
        assert_eq!(m.state, TriggerState::Playing);
        assert!(m.indicator);
        plans.push(reference_plan());
        let eff = m.on_event(TriggerEvent::ScriptComplete);
        assert_eq!(eff, Some(TriggerEffect::EndPlayback));
        assert_eq!(m.state, TriggerState::AwaitingRelease);
        assert!(!m.indicator);
        let eff = m.on_event(TriggerEvent::FallingEdge);
        assert_eq!(eff, None);
        assert_eq!(m.state, TriggerState::Idle);
    }
    assert!(!plans[0].is_empty());
    assert_eq!(plans[0], plans[1]);
}

#[test]
fn rising_edge_mid_script_has_no_effect() {
    let mut m = TriggerMonitor::new();
    assert_eq!(m.on_event(TriggerEvent::RisingEdge), Some(TriggerEffect::BeginPlayback));
    // Simulated double-press before the script completes: not observed.
    assert_eq!(m.on_event(TriggerEvent::RisingEdge), None);
    assert_eq!(m.state, TriggerState::Playing);
    assert!(m.indicator);
    // A release mid-script is not observed either.
    assert_eq!(m.on_event(TriggerEvent::FallingEdge), None);
    assert_eq!(m.state, TriggerState::Playing);
    // No second playback until completion and a fresh release+rise pair.
    assert_eq!(m.on_event(TriggerEvent::ScriptComplete), Some(TriggerEffect::EndPlayback));
    assert_eq!(m.on_event(TriggerEvent::RisingEdge), None);
    assert_eq!(m.state, TriggerState::AwaitingRelease);
    assert_eq!(m.on_event(TriggerEvent::FallingEdge), None);
    assert_eq!(m.state, TriggerState::Idle);
    assert_eq!(m.on_event(TriggerEvent::RisingEdge), Some(TriggerEffect::BeginPlayback));
}

#[test]
fn unmatched_events_leave_state_unchanged() {
    assert_eq!(step(TriggerState::Idle, TriggerEvent::FallingEdge), (TriggerState::Idle, None));
    assert_eq!(step(TriggerState::Idle, TriggerEvent::ScriptComplete), (TriggerState::Idle, None));
    assert_eq!(
        step(TriggerState::Playing, TriggerEvent::RisingEdge),
        (TriggerState::Playing, None)
    );
    assert_eq!(
        step(TriggerState::AwaitingRelease, TriggerEvent::ScriptComplete),
        (TriggerState::AwaitingRelease, None)
    );
}

#[test]
fn indicator_follows_playing_state() {
    let mut m = TriggerMonitor::new();
    assert!(!m.indicator);
    m.on_event(TriggerEvent::RisingEdge);
    assert!(m.indicator);
    m.on_event(TriggerEvent::ScriptComplete);
    assert!(!m.indicator);
    m.on_event(TriggerEvent::FallingEdge);
    assert!(!m.indicator);
}
