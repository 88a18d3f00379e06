//! The fixed reference macro script and its flat action plan.

use vstd::prelude::*;

use crate::report::Report;
use crate::script::Action;
use crate::script::INTER_CHAR_MS;
use crate::script::MacroStep;
use crate::script::ScriptEntry;
use crate::script::build_plan;
use crate::script::chord_actions;
use crate::script::entries_actions;
use crate::script::entry_actions;
use crate::script::literal_actions;
use crate::script::plan_of;

verus! {

/// Modifier bit of the left GUI (meta) key.
pub const META_MOD: u8 = 0x08;

/// Modifier bit of the left control key.
pub const CTRL_MOD: u8 = 0x01;

/// Modifier bit of the left alt key.
pub const ALT_MOD: u8 = 0x04;

/// Keycode of `r`.
pub const KEY_R: u8 = 0x15;

/// Keycode of `a`.
pub const KEY_A: u8 = 0x04;

/// Keycode of `s`.
pub const KEY_S: u8 = 0x16;

/// Keycode of F4.
pub const KEY_F4: u8 = 0x3D;

/// The bytes of `notepad.exe` followed by a newline.
pub open spec fn notepad_cmd_bytes() -> Seq<u8> {
    seq![0x6Eu8, 0x6Fu8, 0x74u8, 0x65u8, 0x70u8, 0x61u8, 0x64u8, 0x2Eu8, 0x65u8, 0x78u8, 0x65u8, 0x0Au8]
}

/// The bytes of `Edwin was here!`.
pub open spec fn message_bytes() -> Seq<u8> {
    seq![0x45u8, 0x64u8, 0x77u8, 0x69u8, 0x6Eu8, 0x20u8, 0x77u8, 0x61u8, 0x73u8, 0x20u8, 0x68u8, 0x65u8, 0x72u8, 0x65u8, 0x21u8]
}

/// The bytes of `EdwinWasHere.txt` followed by a newline.
pub open spec fn file_name_bytes() -> Seq<u8> {
    seq![0x45u8, 0x64u8, 0x77u8, 0x69u8, 0x6Eu8, 0x57u8, 0x61u8, 0x73u8, 0x48u8, 0x65u8, 0x72u8, 0x65u8, 0x2Eu8, 0x74u8, 0x78u8, 0x74u8, 0x0Au8]
}

/// `notepad.exe` plus newline, as typed text.
pub fn notepad_cmd_text() -> (t: Vec<u8>)
    ensures
        t@ == notepad_cmd_bytes(),
{
    let mut t: Vec<u8> = Vec::new();
    t.push(0x6E);
    t.push(0x6F);
    t.push(0x74);
    t.push(0x65);
    t.push(0x70);
    t.push(0x61);
    t.push(0x64);
    t.push(0x2E);
    t.push(0x65);
    t.push(0x78);
    t.push(0x65);
    t.push(0x0A);
    proof {
        assert(t@ =~= notepad_cmd_bytes());
    }
    t
}

/// `Edwin was here!`, as typed text.
pub fn message_text() -> (t: Vec<u8>)
    ensures
        t@ == message_bytes(),
{
    let mut t: Vec<u8> = Vec::new();
    t.push(0x45);
    t.push(0x64);
    t.push(0x77);
    t.push(0x69);
    t.push(0x6E);
    t.push(0x20);
    t.push(0x77);
    t.push(0x61);
    t.push(0x73);
    t.push(0x20);
    t.push(0x68);
    t.push(0x65);
    t.push(0x72);
    t.push(0x65);
    t.push(0x21);
    proof {
        assert(t@ =~= message_bytes());
    }
    t
}

/// `EdwinWasHere.txt` plus newline, as typed text.
pub fn file_name_text() -> (t: Vec<u8>)
    ensures
        t@ == file_name_bytes(),
{
    let mut t: Vec<u8> = Vec::new();
    t.push(0x45);
    t.push(0x64);
    t.push(0x77);
    t.push(0x69);
    t.push(0x6E);
    t.push(0x57);
    t.push(0x61);
    t.push(0x73);
    t.push(0x48);
    t.push(0x65);
    t.push(0x72);
    t.push(0x65);
    t.push(0x2E);
    t.push(0x74);
    t.push(0x78);
    t.push(0x74);
    t.push(0x0A);
    proof {
        assert(t@ =~= file_name_bytes());
    }
    t
}

/// The exact action plan of the reference script: meta+R, 600 ms; ctrl+A,
/// 500 ms; type `notepad.exe` and newline, 500 ms; type `Edwin was here!`,
/// 900 ms; ctrl+S, 500 ms; type `EdwinWasHere.txt` and newline, 700 ms;
/// alt+F4, 500 ms; then the final released report with no further delay.
pub open spec fn spec_reference_plan() -> Seq<Action> {
    chord_actions(Report::spec_key_press(META_MOD, KEY_R)) + seq![Action::DelayMs(600)]
        + chord_actions(Report::spec_key_press(CTRL_MOD, KEY_A)) + seq![Action::DelayMs(500)]
        + literal_actions(notepad_cmd_bytes(), INTER_CHAR_MS) + seq![Action::DelayMs(500)]
        + literal_actions(message_bytes(), INTER_CHAR_MS) + seq![Action::DelayMs(900)]
        + chord_actions(Report::spec_key_press(CTRL_MOD, KEY_S)) + seq![Action::DelayMs(500)]
        + literal_actions(file_name_bytes(), INTER_CHAR_MS) + seq![Action::DelayMs(700)]
        + chord_actions(Report::spec_key_press(ALT_MOD, KEY_F4)) + seq![Action::DelayMs(500)]
        + seq![Action::Emit(Report::spec_released())]
}

/// Appending one entry to a script appends exactly that entry's actions.
proof fn lemma_entries_actions_push(entries: Seq<ScriptEntry>, e: ScriptEntry)
    ensures
        entries_actions(entries.push(e)) == entries_actions(entries) + entry_actions(e),
{
    assert(entries.push(e).drop_last() =~= entries);
    assert(entries.push(e).last() == e);
}

/// One chord entry of the script.
fn chord_entry(modifier: u8, keycode: u8, post_delay_ms: u64) -> (e: ScriptEntry)
    ensures
        e.step == (MacroStep::Chord { report: Report::spec_key_press(modifier, keycode) }),
        e.post_delay_ms == post_delay_ms,
{
    ScriptEntry { step: MacroStep::Chord { report: Report::key_press(modifier, keycode) }, post_delay_ms }
}

/// The reference macro script, built once at startup and immutable after.
pub fn reference_script() -> (s: Vec<ScriptEntry>)
    ensures
        s@.len() == 7,
        s@[0].step matches MacroStep::Chord { report: r } && r == Report::spec_key_press(
            META_MOD,
            KEY_R,
        ),
        s@[0].post_delay_ms == 600,
        s@[1].step matches MacroStep::Chord { report: r } && r == Report::spec_key_press(
            CTRL_MOD,
            KEY_A,
        ),
        s@[1].post_delay_ms == 500,
        s@[2].step matches MacroStep::Literal { text, inter_char_ms } && text@
            == notepad_cmd_bytes() && inter_char_ms == INTER_CHAR_MS,
        s@[2].post_delay_ms == 500,
        s@[3].step matches MacroStep::Literal { text, inter_char_ms } && text@ == message_bytes()
            && inter_char_ms == INTER_CHAR_MS,
        s@[3].post_delay_ms == 900,
        s@[4].step matches MacroStep::Chord { report: r } && r == Report::spec_key_press(
            CTRL_MOD,
            KEY_S,
        ),
        s@[4].post_delay_ms == 500,
        s@[5].step matches MacroStep::Literal { text, inter_char_ms } && text@ == file_name_bytes()
            && inter_char_ms == INTER_CHAR_MS,
        s@[5].post_delay_ms == 700,
        s@[6].step matches MacroStep::Chord { report: r } && r == Report::spec_key_press(
            ALT_MOD,
            KEY_F4,
        ),
        s@[6].post_delay_ms == 500,
        plan_of(s@) == spec_reference_plan(),
{
    let mut s: Vec<ScriptEntry> = Vec::new();

    let e0 = chord_entry(META_MOD, KEY_R, 600);
    let ghost g0 = e0;
    let ghost p0 = s@;
    s.push(e0);
    proof {
        lemma_entries_actions_push(p0, g0);
    }

    let e1 = chord_entry(CTRL_MOD, KEY_A, 500);
    let ghost g1 = e1;
    let ghost p1 = s@;
    s.push(e1);
    proof {
        lemma_entries_actions_push(p1, g1);
    }

    let e2 = ScriptEntry {
        step: MacroStep::Literal { text: notepad_cmd_text(), inter_char_ms: INTER_CHAR_MS },
        post_delay_ms: 500,
    };
    let ghost g2 = e2;
    let ghost p2 = s@;
    s.push(e2);
    proof {
        lemma_entries_actions_push(p2, g2);
    }

    let e3 = ScriptEntry {
        step: MacroStep::Literal { text: message_text(), inter_char_ms: INTER_CHAR_MS },
        post_delay_ms: 900,
    };
    let ghost g3 = e3;
    let ghost p3 = s@;
    s.push(e3);
    proof {
        lemma_entries_actions_push(p3, g3);
    }

    let e4 = chord_entry(CTRL_MOD, KEY_S, 500);
    let ghost g4 = e4;
    let ghost p4 = s@;
    s.push(e4);
    proof {
        lemma_entries_actions_push(p4, g4);
    }

    let e5 = ScriptEntry {
        step: MacroStep::Literal { text: file_name_text(), inter_char_ms: INTER_CHAR_MS },
        post_delay_ms: 700,
    };
    let ghost g5 = e5;
    let ghost p5 = s@;
    s.push(e5);
    proof {
        lemma_entries_actions_push(p5, g5);
    }

    let e6 = chord_entry(ALT_MOD, KEY_F4, 500);
    let ghost g6 = e6;
    let ghost p6 = s@;
    s.push(e6);
    proof {
        lemma_entries_actions_push(p6, g6);
        assert(entries_actions(p0) =~= Seq::<Action>::empty());
        assert(plan_of(s@) =~= spec_reference_plan());
    }

    s
}

/// The flat action plan of the reference macro script.
pub fn reference_plan() -> (plan: Vec<Action>)
    ensures
        plan@ == spec_reference_plan(),
{
    let script = reference_script();
    build_plan(&script)
}

} // verus!
