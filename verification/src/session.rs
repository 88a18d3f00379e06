//! A whole session: trigger events in, attempted report writes out.

use vstd::prelude::*;

use crate::macro_script::reference_plan;
use crate::macro_script::spec_reference_plan;
use crate::player::attempted_writes;
use crate::player::emits_of;
use crate::report::Report;
use crate::trigger::cycle_events;
use crate::trigger::lemma_two_cycles_from_idle;
use crate::trigger::run_events;
use crate::trigger::TriggerEffect;
use crate::trigger::TriggerEvent;
use crate::trigger::TriggerMonitor;
use crate::trigger::TriggerState;

verus! {

/// The reports a sequence of trigger effects causes to be written: each
/// playback begun writes the whole reference plan's reports, from the
/// beginning, and nothing else writes.
pub open spec fn effects_reports(effs: Seq<TriggerEffect>) -> Seq<Report>
    decreases effs.len(),
{
    if effs.len() == 0 {
        Seq::empty()
    } else {
        effects_reports(effs.drop_last()) + (if effs.last() is BeginPlayback {
            emits_of(spec_reference_plan())
        } else {
            Seq::empty()
        })
    }
}

/// Feed a whole event sequence to a fresh trigger monitor, playing the
/// reference script on every playback it begins, against a transport whose
/// k-th write of each playback returns `outcomes[k]`.  The reports written
/// are exactly those of the effects the trigger machine issues — independent
/// of the outcomes, since write failures never stop playback.
pub fn run_session(events: &Vec<TriggerEvent>, outcomes: &Vec<bool>) -> (w: Vec<Report>)
    ensures
        w@ == effects_reports(run_events(TriggerState::Idle, events@).1),
{
    let mut monitor = TriggerMonitor::new();
    let mut w: Vec<Report> = Vec::new();
    let mut i: usize = 0;
    proof {
        assert(events@.take(0) =~= Seq::<TriggerEvent>::empty());
    }
    while i < events.len()
        invariant
            i <= events.len(),
            monitor.state == run_events(TriggerState::Idle, events@.take(i as int)).0,
            w@ == effects_reports(run_events(TriggerState::Idle, events@.take(i as int)).1),
        decreases events.len() - i,
    {
        let ghost prev = run_events(TriggerState::Idle, events@.take(i as int));
        let eff = monitor.on_event(events[i]);
        proof {
            assert(events@.take(i + 1).drop_last() =~= events@.take(i as int));
            assert(events@.take(i + 1).last() == events@[i as int]);
        }
        let ghost cur = run_events(TriggerState::Idle, events@.take(i + 1));
        match eff {
            Some(TriggerEffect::BeginPlayback) => {
                let plan = reference_plan();
                let mut writes = attempted_writes(plan, outcomes);
                w.append(&mut writes);
                proof {
                    assert(cur.1.drop_last() =~= prev.1);
                    assert(w@ =~= effects_reports(cur.1));
                }
            },
            Some(TriggerEffect::EndPlayback) => {
                proof {
                    assert(cur.1.drop_last() =~= prev.1);
                    assert(w@ =~= effects_reports(cur.1));
                }
            },
            None => {
                proof {
                    assert(cur.1 =~= prev.1);
                    assert(w@ =~= effects_reports(cur.1));
                }
            },
        }
        i = i + 1;
    }
    proof {
        assert(events@.take(events@.len() as int) =~= events@);
    }
    w
}

/// Two independent press/release cycles write the macro's report sequence
/// twice over: two complete, identical copies, one per cycle.
pub proof fn lemma_two_cycle_session()
    ensures
        effects_reports(run_events(TriggerState::Idle, cycle_events() + cycle_events()).1)
            == emits_of(spec_reference_plan()) + emits_of(spec_reference_plan()),
{
    lemma_two_cycles_from_idle();
    let effs = seq![
        TriggerEffect::BeginPlayback,
        TriggerEffect::EndPlayback,
        TriggerEffect::BeginPlayback,
        TriggerEffect::EndPlayback,
    ];
    let e1 = seq![TriggerEffect::BeginPlayback];
    let e2 = seq![TriggerEffect::BeginPlayback, TriggerEffect::EndPlayback];
    let e3 = seq![
        TriggerEffect::BeginPlayback,
        TriggerEffect::EndPlayback,
        TriggerEffect::BeginPlayback,
    ];
    reveal_with_fuel(effects_reports, 5);
    assert(e1.drop_last() =~= Seq::<TriggerEffect>::empty());
    assert(e2.drop_last() =~= e1);
    assert(e3.drop_last() =~= e2);
    assert(effs.drop_last() =~= e3);
    assert(effects_reports(e2) =~= emits_of(spec_reference_plan()));
    assert(effects_reports(effs) =~= emits_of(spec_reference_plan()) + emits_of(
        spec_reference_plan(),
    ));
}

} // verus!
