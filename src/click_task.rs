//! The decisions of one click task: when its click budget is spent, and what
//! it reports when it ends.
use vstd::prelude::*;

use crate::events::HotkeyEvent;

verus! {

/// The budget of one click run, fixed when the task starts.
#[derive(Clone, Copy, Debug, PartialEq, Eq, Structural)]
pub struct ClickPlan {
    times: usize,
    remaining: usize,
}

/// The model of a plan: the budget (zero means unbounded) and the clicks
/// still owed, counting the one about to be made.
pub struct PlanState {
    pub times: nat,
    pub remaining: nat,
}

impl View for ClickPlan {
    type V = PlanState;

    closed spec fn view(&self) -> PlanState {
        PlanState { times: self.times as nat, remaining: self.remaining as nat }
    }
}

/// A bounded plan always owes at least one click and at most its budget.
pub open spec fn plan_wf(p: PlanState) -> bool {
    p.times > 0 ==> 1 <= p.remaining <= p.times
}

/// Whether the run goes on (after a wait) once the current click is made.
pub open spec fn continues(p: PlanState) -> bool {
    p.times == 0 || p.remaining > 1
}

/// The plan once the current click is made and the run goes on.
pub open spec fn advance(p: PlanState) -> PlanState {
    if p.times == 0 {
        p
    } else {
        PlanState { times: p.times, remaining: (p.remaining - 1) as nat }
    }
}

/// The plan after `k` clicks that each let the run go on.
pub open spec fn advance_by(p: PlanState, k: nat) -> PlanState
    decreases k,
{
    if k == 0 {
        p
    } else {
        advance(advance_by(p, (k - 1) as nat))
    }
}

/// What a task reports when it ends: the status for the observer and the
/// event for the handler, each if any.
#[derive(Clone, Copy, Debug, PartialEq, Eq, Structural)]
pub struct TaskEnd {
    pub notify: Option<bool>,
    pub event: Option<HotkeyEvent>,
}

impl ClickPlan {
    /// A plan of `times` clicks, or unbounded when `times` is zero.
    pub fn new(times: usize) -> (r: ClickPlan)
        ensures
            r@.times == times,
            r@.remaining == times,
            times > 0 ==> plan_wf(r@),
    {
        ClickPlan { times, remaining: times }
    }

    /// The budget the plan was made with.
    pub fn times(&self) -> (r: usize)
        ensures
            r == self@.times,
    {
        self.times
    }

    /// Called after each click: true when the run waits and clicks again,
    /// false when the budget is spent.
    pub fn after_click(&mut self) -> (r: bool)
        requires
            plan_wf(old(self)@),
        ensures
            r == continues(old(self)@),
            r ==> final(self)@ == advance(old(self)@),
            !r ==> final(self)@ == old(self)@,
            plan_wf(final(self)@),
    {
        if self.times > 0 {
            if self.remaining == 1 {
                return false;
            }
            self.remaining = self.remaining - 1;
        }
        true
    }

    /// How a task for `id` ends: on natural completion it reports `false`
    /// and hands back `TaskCompleted`; when cancelled it reports nothing.
    pub fn finish(id: i32, completed: bool) -> (r: TaskEnd)
        ensures
            completed ==> r == (TaskEnd {
                notify: Some(false),
                event: Some(HotkeyEvent::TaskCompleted { id }),
            }),
            !completed ==> r == (TaskEnd { notify: None, event: None }),
    {
        if completed {
            TaskEnd { notify: Some(false), event: Some(HotkeyEvent::TaskCompleted { id }) }
        } else {
            TaskEnd { notify: None, event: None }
        }
    }
}

} // verus!
