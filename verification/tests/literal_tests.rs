use hid_typer::keycode::LEFT_SHIFT;
use hid_typer::report::Report;
use hid_typer::script::send_chord_actions;
use hid_typer::script::type_literal_actions;
use hid_typer::script::Action;
use hid_typer::script::INTER_CHAR_MS;

fn key(modifier: u8, keycode: u8) -> Report {
    Report { modifier, keycodes: [keycode, 0, 0, 0, 0, 0] }
}

fn released() -> Report {
    Report { modifier: 0, keycodes: [0; 6] }
}

#[test]
fn literal_truncates_at_first_gap() {
    // "ab@cd": reports for 'a' and 'b' only, nothing for 'c' or 'd'.
    let acts = type_literal_actions(&b"ab@cd".to_vec(), INTER_CHAR_MS);
    assert_eq!(
        acts,
        vec![
            Action::Emit(key(0, 0x04)),
            Action::Emit(released()),
            Action::DelayMs(INTER_CHAR_MS),
            Action::Emit(key(0, 0x05)),
            Action::Emit(released()),
            Action::DelayMs(INTER_CHAR_MS),
        ]
    );
}

#[test]
fn modifier_applied_only_to_shifted_character() {
    // "Az": shift+0x04, released, delay; then 0x1D, released, delay.
    let acts = type_literal_actions(&b"Az".to_vec(), INTER_CHAR_MS);
    assert_eq!(
        acts,
        vec![
            Action::Emit(key(LEFT_SHIFT, 0x04)),
            Action::Emit(released()),
            Action::DelayMs(INTER_CHAR_MS),
            Action::Emit(key(0, 0x1D)),
            Action::Emit(released()),
            Action::DelayMs(INTER_CHAR_MS),
        ]
    );
}

#[test]
fn empty_literal_types_nothing() {
    let acts = type_literal_actions(&Vec::new(), INTER_CHAR_MS);
    assert!(acts.is_empty());
}

#[test]
fn leading_gap_types_nothing() {
    let acts = type_literal_actions(&b"@abc".to_vec(), INTER_CHAR_MS);
    assert!(acts.is_empty());
}

#[test]
fn chord_expands_to_down_then_release() {
    let acts = send_chord_actions(key(0x01, 0x16));
    assert_eq!(acts, vec![Action::Emit(key(0x01, 0x16)), Action::Emit(released())]);
}

#[test]
fn wire_format_is_eight_bytes() {
    let r = Report::key_press(0x08, 0x15);
    assert_eq!(r.to_bytes(), vec![0x08, 0x00, 0x15, 0x00, 0x00, 0x00, 0x00, 0x00]);
    assert_eq!(Report::released().to_bytes(), vec![0x00; 8]);
}
