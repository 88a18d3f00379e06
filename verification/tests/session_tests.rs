use hid_typer::macro_script::reference_plan;
use hid_typer::player::attempted_writes;
use hid_typer::session::run_session;
use hid_typer::trigger::TriggerEvent;

fn two_cycle_events() -> Vec<TriggerEvent> {
    vec![
        TriggerEvent::RisingEdge,
        TriggerEvent::ScriptComplete,
        TriggerEvent::FallingEdge,
        TriggerEvent::RisingEdge,
        TriggerEvent::ScriptComplete,
        TriggerEvent::FallingEdge,
    ]
}

#[test]
fn two_cycles_write_the_script_twice_identically() {
    let one_playback = attempted_writes(reference_plan(), &Vec::new());
    let writes = run_session(&two_cycle_events(), &Vec::new());
    assert_eq!(writes.len(), 2 * one_playback.len());
    assert_eq!(&writes[..one_playback.len()], &one_playback[..]);
    assert_eq!(&writes[one_playback.len()..], &one_playback[..]);
}

#[test]
fn session_writes_do_not_depend_on_transport_outcomes() {
    let all_fail = vec![false; 200];
    assert_eq!(
        run_session(&two_cycle_events(), &all_fail),
        run_session(&two_cycle_events(), &Vec::new())
    );
}

#[test]
fn double_press_session_plays_once() {
    // A second rising edge arriving mid-script must not add a playback.
    let events = vec![
        TriggerEvent::RisingEdge,
        TriggerEvent::RisingEdge,
        TriggerEvent::ScriptComplete,
        TriggerEvent::FallingEdge,
    ];
    let one_playback = attempted_writes(reference_plan(), &Vec::new());
    assert_eq!(run_session(&events, &Vec::new()), one_playback);
}

#[test]
fn session_without_a_press_writes_nothing() {
    let events = vec![TriggerEvent::FallingEdge, TriggerEvent::ScriptComplete];
    assert!(run_session(&events, &Vec::new()).is_empty());
}
