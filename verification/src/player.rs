//! Stepping through a plan, and the non-fatal treatment of write failures.

use vstd::prelude::*;

use crate::report::Report;
use crate::script::Action;

verus! {

/// A cursor over a fixed plan of actions.  The player hands out each action
/// exactly once, in plan order, and never restarts or skips.
pub struct Player {
    pub plan: Vec<Action>,
    pub pos: usize,
}

impl Player {
    /// The cursor never moves past the end of the plan.
    pub open spec fn wf(self) -> bool {
        self.pos <= self.plan@.len()
    }

    pub fn new(plan: Vec<Action>) -> (p: Player)
        ensures
            p.plan@ == plan@,
            p.pos == 0,
            p.wf(),
    {
        Player { plan, pos: 0 }
    }

    /// The next scheduled action, or `None` once the plan is exhausted.  The
    /// caller performs the action; whether its last write succeeded or failed
    /// never changes what comes next (write failures are non-fatal), so this
    /// takes no outcome.
    pub fn next_action(&mut self) -> (a: Option<Action>)
        ensures
            final(self).plan@ == old(self).plan@,
            old(self).wf() ==> final(self).wf(),
            old(self).pos < old(self).plan@.len() ==> a == Some(
                old(self).plan@[old(self).pos as int],
            ) && final(self).pos == old(self).pos + 1,
            old(self).pos >= old(self).plan@.len() ==> a == None::<Action> && final(self).pos
                == old(self).pos,
    {
        if self.pos < self.plan.len() {
            let act = self.plan[self.pos];
            self.pos = self.pos + 1;
            Some(act)
        } else {
            None
        }
    }
}

/// The reports a plan schedules for writing, in order.
pub open spec fn emits_of(plan: Seq<Action>) -> Seq<Report>
    decreases plan.len(),
{
    if plan.len() == 0 {
        Seq::empty()
    } else {
        emits_of(plan.drop_last()) + (match plan.last() {
            Action::Emit(r) => seq![r],
            Action::DelayMs(_) => Seq::empty(),
        })
    }
}

/// Run a plan against a transport whose k-th write returns `outcomes[k]`
/// (`true` for success; a missing entry counts as success) and return every
/// report whose write was attempted, in order.  A failed write is abandoned
/// and playback continues with the next scheduled action, so every report of
/// the plan is attempted whatever the outcomes: the result does not depend on
/// `outcomes` at all.
pub fn attempted_writes(plan: Vec<Action>, outcomes: &Vec<bool>) -> (w: Vec<Report>)
    ensures
        w@ == emits_of(plan@),
{
    let ghost plan_view = plan@;
    let mut player = Player::new(plan);
    let mut w: Vec<Report> = Vec::new();
    let mut writes: usize = 0;
    proof {
        assert(plan_view.take(0) =~= Seq::<Action>::empty());
    }
    loop
        invariant
            player.wf(),
            player.plan@ == plan_view,
            w@ == emits_of(plan_view.take(player.pos as int)),
        ensures
            w@ == emits_of(plan_view),
        decreases plan_view.len() - player.pos,
    {
        let ghost pos0 = player.pos;
        match player.next_action() {
            None => {
                proof {
                    assert(plan_view.take(pos0 as int) =~= plan_view);
                }
                break;
            },
            Some(action) => {
                proof {
                    assert(plan_view.take(pos0 + 1).drop_last() =~= plan_view.take(pos0 as int));
                    assert(plan_view.take(pos0 + 1).last() == plan_view[pos0 as int]);
                }
                match action {
                    Action::Emit(report) => {
                        // The write is attempted; its outcome is observed and
                        // deliberately ignored, so a failure never stops the
                        // remaining actions.
                        let _write_ok = writes >= outcomes.len() || outcomes[writes];
                        w.push(report);
                        if writes < usize::MAX {
                            writes = writes + 1;
                        }
                    },
                    Action::DelayMs(_ms) => {},
                }
            },
        }
    }
    w
}

} // verus!
