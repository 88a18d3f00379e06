//! Macro steps and their expansion into a flat plan of transport actions.

use vstd::prelude::*;

use crate::keycode::encode;
use crate::keycode::spec_encode;
use crate::report::Report;

verus! {

/// Delay between the key-down/key-up pair of one typed character and the next,
/// in milliseconds.
pub const INTER_CHAR_MS: u64 = 50;

/// Settle delay between the key-down and key-up report of a scripted chord, in
/// milliseconds.  The engine sends the released report immediately after the
/// chord report, so this is zero and no delay action is scheduled between the
/// pair; each chord instead carries a post-step delay of its own.
pub const CHORD_SETTLE_MS: u64 = 0;

/// One scheduled transport action: either a single outbound report write or a
/// timed pause.  Reports are delivered strictly in plan order.
#[derive(Clone, Copy, PartialEq, Eq, Debug)]
pub enum Action {
    /// Write this report to the outbound endpoint.
    Emit(Report),
    /// Wait this many milliseconds before the next action.
    DelayMs(u64),
}

/// One step of a macro script: send one exact chord, or type literal text one
/// character at a time.
#[derive(Clone, PartialEq, Eq, Debug)]
pub enum MacroStep {
    /// Press the chord (one report), then release.
    Chord { report: Report },
    /// Type each byte of `text` in order, waiting `inter_char_ms` between
    /// characters; typing stops at the first byte with no keycode mapping.
    Literal { text: Vec<u8>, inter_char_ms: u64 },
}

/// One script entry: a step followed by an optional post-step delay
/// (zero means no delay action is scheduled).
#[derive(Clone, PartialEq, Eq, Debug)]
pub struct ScriptEntry {
    pub step: MacroStep,
    pub post_delay_ms: u64,
}

/// Actions of one chord: the chord report, then the canonical released report,
/// with no delay between the pair (see `CHORD_SETTLE_MS`).
pub open spec fn chord_actions(report: Report) -> Seq<Action> {
    seq![Action::Emit(report), Action::Emit(Report::spec_released())]
}

/// Actions of typing literal text: for each byte, in order, a key-press
/// report, the released report, and the inter-character delay.  The first
/// byte with no mapping stops the remainder of the text.
pub open spec fn literal_actions(text: Seq<u8>, inter_char_ms: u64) -> Seq<Action>
    decreases text.len(),
{
    if text.len() == 0 {
        Seq::empty()
    } else {
        match spec_encode(text[0]) {
            None => Seq::empty(),
            Some(mk) => seq![
                Action::Emit(Report::spec_key_press(mk.0, mk.1)),
                Action::Emit(Report::spec_released()),
                Action::DelayMs(inter_char_ms),
            ] + literal_actions(text.drop_first(), inter_char_ms),
        }
    }
}

/// Actions of one macro step.
pub open spec fn step_actions(step: MacroStep) -> Seq<Action> {
    match step {
        MacroStep::Chord { report } => chord_actions(report),
        MacroStep::Literal { text, inter_char_ms } => literal_actions(text@, inter_char_ms),
    }
}

/// Actions of one script entry: the step's actions, then its post-step delay
/// if one is configured.
pub open spec fn entry_actions(entry: ScriptEntry) -> Seq<Action> {
    step_actions(entry.step) + (if entry.post_delay_ms > 0 {
        seq![Action::DelayMs(entry.post_delay_ms)]
    } else {
        Seq::empty()
    })
}

/// Actions of a sequence of script entries, in order.
pub open spec fn entries_actions(entries: Seq<ScriptEntry>) -> Seq<Action>
    decreases entries.len(),
{
    if entries.len() == 0 {
        Seq::empty()
    } else {
        entries_actions(entries.drop_last()) + entry_actions(entries.last())
    }
}

/// The full plan of a script: every entry in order, then one final canonical
/// released report so no key is left held down.
pub open spec fn plan_of(entries: Seq<ScriptEntry>) -> Seq<Action> {
    entries_actions(entries) + seq![Action::Emit(Report::spec_released())]
}

/// Truncation on the first gap: if byte `k` is the first with no keycode
/// mapping, typing the text emits exactly the actions of the first `k` bytes
/// and nothing for the remainder.
pub proof fn lemma_literal_truncates(text: Seq<u8>, k: int, inter_char_ms: u64)
    requires
        0 <= k < text.len(),
        spec_encode(text[k]) is None,
        forall|j: int| 0 <= j < k ==> spec_encode(text[j]) is Some,
    ensures
        literal_actions(text, inter_char_ms) == literal_actions(text.take(k), inter_char_ms),
    decreases k,
{
    if k == 0 {
        assert(literal_actions(text.take(0), inter_char_ms) =~= Seq::<Action>::empty());
    } else {
        let rest = text.drop_first();
        assert(forall|j: int| 0 <= j < k - 1 ==> spec_encode(rest[j]) is Some);
        lemma_literal_truncates(rest, k - 1, inter_char_ms);
        assert(text.take(k)[0] == text[0]);
        assert(text.take(k).drop_first() =~= rest.take(k - 1));
    }
}

/// Expand one chord into its two scheduled reports: key-down, then the
/// canonical released report.
pub fn send_chord_actions(report: Report) -> (acts: Vec<Action>)
    ensures
        acts@ == chord_actions(report),
{
    let mut acts: Vec<Action> = Vec::new();
    acts.push(Action::Emit(report));
    acts.push(Action::Emit(Report::released()));
    proof {
        assert(acts@ =~= chord_actions(report));
    }
    acts
}

/// Expand literal text into its scheduled reports and delays.  Processing
/// stops at the first byte with no keycode mapping: the remainder of the text
/// is silently dropped and the actions emitted so far stand.
pub fn type_literal_actions(text: &Vec<u8>, inter_char_ms: u64) -> (acts: Vec<Action>)
    ensures
        acts@ == literal_actions(text@, inter_char_ms),
{
    let mut acts: Vec<Action> = Vec::new();
    let mut i: usize = 0;
    proof {
        assert(text@.skip(0) =~= text@);
    }
    while i < text.len()
        invariant_except_break
            i <= text.len(),
            literal_actions(text@, inter_char_ms) == acts@ + literal_actions(
                text@.skip(i as int),
                inter_char_ms,
            ),
        ensures
            acts@ == literal_actions(text@, inter_char_ms),
        decreases text.len() - i,
    {
        let ghost rest = text@.skip(i as int);
        proof {
            assert(rest[0] == text@[i as int]);
        }
        match encode(text[i]) {
            None => {
                proof {
                    assert(literal_actions(rest, inter_char_ms) =~= Seq::<Action>::empty());
                    assert(acts@ =~= acts@ + literal_actions(rest, inter_char_ms));
                }
                break;
            },
            Some((m, k)) => {
                let ghost acts0 = acts@;
                acts.push(Action::Emit(Report::key_press(m, k)));
                acts.push(Action::Emit(Report::released()));
                acts.push(Action::DelayMs(inter_char_ms));
                proof {
                    assert(rest.drop_first() =~= text@.skip(i + 1));
                    assert(acts@ + literal_actions(text@.skip(i + 1), inter_char_ms)
                        =~= acts0 + literal_actions(rest, inter_char_ms));
                }
                i = i + 1;
            },
        }
    }
    acts
}

/// Expand a whole script into its flat plan: every entry's actions in order,
/// then one final canonical released report.
pub fn build_plan(entries: &Vec<ScriptEntry>) -> (plan: Vec<Action>)
    ensures
        plan@ == plan_of(entries@),
{
    let mut plan: Vec<Action> = Vec::new();
    let mut i: usize = 0;
    proof {
        assert(entries@.take(0) =~= Seq::<ScriptEntry>::empty());
    }
    while i < entries.len()
        invariant
            i <= entries.len(),
            plan@ == entries_actions(entries@.take(i as int)),
        decreases entries.len() - i,
    {
        let ghost plan0 = plan@;
        let entry = &entries[i];
        match &entry.step {
            MacroStep::Chord { report } => {
                let mut acts = send_chord_actions(*report);
                plan.append(&mut acts);
                proof {
                    assert(plan@ =~= plan0 + step_actions(entry.step));
                }
            },
            MacroStep::Literal { text, inter_char_ms } => {
                let mut acts = type_literal_actions(text, *inter_char_ms);
                plan.append(&mut acts);
                proof {
                    assert(plan@ =~= plan0 + step_actions(entry.step));
                }
            },
        }
        if entry.post_delay_ms > 0 {
            plan.push(Action::DelayMs(entry.post_delay_ms));
        }
        proof {
            assert(entries@.take(i + 1).drop_last() =~= entries@.take(i as int));
            assert(entries@.take(i + 1).last() == entries@[i as int]);
            assert(plan@ =~= entries_actions(entries@.take(i + 1)));
        }
        i = i + 1;
    }
    proof {
        assert(entries@.take(entries@.len() as int) =~= entries@);
    }
    plan.push(Action::Emit(Report::released()));
    proof {
        assert(plan@ =~= plan_of(entries@));
    }
    plan
}

} // verus!
