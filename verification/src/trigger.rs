//! The press/release trigger state machine around macro playback.

use vstd::prelude::*;

verus! {

/// State of the trigger monitor.  Transitions: Idle to Playing on a rising
/// edge; Playing to AwaitingRelease once the script completes (release is not
/// polled during playback); AwaitingRelease to Idle on a falling edge.  The
/// machine starts Idle and loops forever.
#[derive(Clone, Copy, PartialEq, Eq, Structural, Debug)]
pub enum TriggerState {
    Idle,
    Playing,
    AwaitingRelease,
}

/// An observation handed to the trigger monitor: a debounced edge of the
/// physical input, or completion of the running script.
#[derive(Clone, Copy, PartialEq, Eq, Structural, Debug)]
pub enum TriggerEvent {
    RisingEdge,
    FallingEdge,
    ScriptComplete,
}

/// What the surrounding program must do after a transition: start playing the
/// macro script from its beginning (with the indicator already lit), or end
/// playback (indicator already dark).  `None` means do nothing.
#[derive(Clone, Copy, PartialEq, Eq, Structural, Debug)]
pub enum TriggerEffect {
    BeginPlayback,
    EndPlayback,
}

/// The transition table.  Every pairing not listed leaves the state unchanged
/// with no effect; in particular a rising edge seen while Playing or
/// AwaitingRelease is not observed, so playback can be neither retriggered
/// nor interrupted.
pub open spec fn spec_step(s: TriggerState, e: TriggerEvent) -> (TriggerState, Option<
    TriggerEffect,
>) {
    match (s, e) {
        (TriggerState::Idle, TriggerEvent::RisingEdge) => (
            TriggerState::Playing,
            Some(TriggerEffect::BeginPlayback),
        ),
        (TriggerState::Playing, TriggerEvent::ScriptComplete) => (
            TriggerState::AwaitingRelease,
            Some(TriggerEffect::EndPlayback),
        ),
        (TriggerState::AwaitingRelease, TriggerEvent::FallingEdge) => (TriggerState::Idle, None),
        _ => (s, None),
    }
}

/// One transition of the trigger state machine.
pub fn step(s: TriggerState, e: TriggerEvent) -> (r: (TriggerState, Option<TriggerEffect>))
    ensures
        r == spec_step(s, e),
{
    match (s, e) {
        (TriggerState::Idle, TriggerEvent::RisingEdge) => (
            TriggerState::Playing,
            Some(TriggerEffect::BeginPlayback),
        ),
        (TriggerState::Playing, TriggerEvent::ScriptComplete) => (
            TriggerState::AwaitingRelease,
            Some(TriggerEffect::EndPlayback),
        ),
        (TriggerState::AwaitingRelease, TriggerEvent::FallingEdge) => (TriggerState::Idle, None),
        (other, _) => (other, None),
    }
}

/// The trigger monitor: the machine's state plus the status indicator it
/// owns exclusively.
pub struct TriggerMonitor {
    pub state: TriggerState,
    pub indicator: bool,
}

impl TriggerMonitor {
    /// The indicator is lit exactly while the script is playing.
    pub open spec fn wf(self) -> bool {
        self.indicator <==> self.state is Playing
    }

    pub fn new() -> (m: TriggerMonitor)
        ensures
            m.state is Idle,
            !m.indicator,
            m.wf(),
    {
        TriggerMonitor { state: TriggerState::Idle, indicator: false }
    }

    /// Feed one observation to the monitor.  The state moves by the
    /// transition table and the indicator follows the state, turning on when
    /// Playing is entered and off when it is left.
    pub fn on_event(&mut self, e: TriggerEvent) -> (eff: Option<TriggerEffect>)
        ensures
            (final(self).state, eff) == spec_step(old(self).state, e),
            final(self).wf(),
    {
        let (next, eff) = step(self.state, e);
        self.state = next;
        self.indicator = match next {
            TriggerState::Playing => true,
            _ => false,
        };
        eff
    }
}

/// The effect of a transition as a (possibly empty) sequence.
pub open spec fn effect_seq(e: Option<TriggerEffect>) -> Seq<TriggerEffect> {
    match e {
        Some(x) => seq![x],
        None => Seq::empty(),
    }
}

/// Folding a whole event sequence through the transition table: the final
/// state, and every effect issued along the way, in order.
pub open spec fn run_events(s: TriggerState, events: Seq<TriggerEvent>) -> (TriggerState, Seq<
    TriggerEffect,
>)
    decreases events.len(),
{
    if events.len() == 0 {
        (s, Seq::empty())
    } else {
        let prev = run_events(s, events.drop_last());
        let last = spec_step(prev.0, events.last());
        (last.0, prev.1 + effect_seq(last.1))
    }
}

/// Running two event sequences back to back is running the first, then the
/// second from where the first left off, with the effects concatenated.
pub proof fn lemma_run_events_append(s: TriggerState, a: Seq<TriggerEvent>, b: Seq<TriggerEvent>)
    ensures
        run_events(s, a + b).0 == run_events(run_events(s, a).0, b).0,
        run_events(s, a + b).1 == run_events(s, a).1 + run_events(run_events(s, a).0, b).1,
    decreases b.len(),
{
    if b.len() == 0 {
        assert(a + b =~= a);
        assert(run_events(s, a).1 + run_events(run_events(s, a).0, b).1 =~= run_events(s, a).1);
    } else {
        lemma_run_events_append(s, a, b.drop_last());
        assert((a + b).drop_last() =~= a + b.drop_last());
        assert((a + b).last() == b.last());
        assert(run_events(s, a + b).1 =~= run_events(s, a).1 + run_events(
            run_events(s, a).0,
            b,
        ).1);
    }
}

/// The events of one full press/script/release cycle: a rising edge, the
/// script running to completion, then a falling edge.
pub open spec fn cycle_events() -> Seq<TriggerEvent> {
    seq![TriggerEvent::RisingEdge, TriggerEvent::ScriptComplete, TriggerEvent::FallingEdge]
}

/// One full cycle from Idle passes through Playing and AwaitingRelease, ends
/// Idle again, and issues exactly one playback: begin, then end.
pub proof fn lemma_cycle_from_idle()
    ensures
        run_events(TriggerState::Idle, cycle_events()).0 == TriggerState::Idle,
        run_events(TriggerState::Idle, cycle_events()).1 == seq![
            TriggerEffect::BeginPlayback,
            TriggerEffect::EndPlayback,
        ],
{
    reveal_with_fuel(run_events, 4);
    let e1 = seq![TriggerEvent::RisingEdge];
    let e2 = seq![TriggerEvent::RisingEdge, TriggerEvent::ScriptComplete];
    assert(e1.drop_last() =~= Seq::<TriggerEvent>::empty());
    assert(e2.drop_last() =~= e1);
    assert(cycle_events().drop_last() =~= e2);
    assert(run_events(TriggerState::Idle, e1).1 =~= seq![TriggerEffect::BeginPlayback]);
    assert(run_events(TriggerState::Idle, e2).1 =~= seq![
        TriggerEffect::BeginPlayback,
        TriggerEffect::EndPlayback,
    ]);
    assert(run_events(TriggerState::Idle, cycle_events()).1 =~= seq![
        TriggerEffect::BeginPlayback,
        TriggerEffect::EndPlayback,
    ]);
}

/// Two consecutive press/release cycles from Idle issue exactly two
/// playbacks, one per cycle, and end Idle.  Each playback replays the same
/// fixed script from its beginning, so the two report sequences are
/// identical.
pub proof fn lemma_two_cycles_from_idle()
    ensures
        run_events(TriggerState::Idle, cycle_events() + cycle_events()).0 == TriggerState::Idle,
        run_events(TriggerState::Idle, cycle_events() + cycle_events()).1 == seq![
            TriggerEffect::BeginPlayback,
            TriggerEffect::EndPlayback,
            TriggerEffect::BeginPlayback,
            TriggerEffect::EndPlayback,
        ],
{
    lemma_cycle_from_idle();
    lemma_run_events_append(TriggerState::Idle, cycle_events(), cycle_events());
    assert(run_events(TriggerState::Idle, cycle_events() + cycle_events()).1 =~= seq![
        TriggerEffect::BeginPlayback,
        TriggerEffect::EndPlayback,
        TriggerEffect::BeginPlayback,
        TriggerEffect::EndPlayback,
    ]);
}

/// A rising edge observed outside Idle has no observable effect: the state
/// stays put and no playback starts, so a second press during playback is
/// simply not seen.
pub proof fn lemma_rising_edge_ignored(s: TriggerState)
    requires
        s != TriggerState::Idle,
    ensures
        spec_step(s, TriggerEvent::RisingEdge) == (s, None::<TriggerEffect>),
{
}

} // verus!
