//! Properties of the handler, the message loop and click runs over any
//! sequence of events.
use vstd::prelude::*;

use crate::click_task::{advance, advance_by, continues, plan_wf, PlanState};
use crate::events::{Command, HotkeyEvent};
use crate::handler::{handler_wf, step, unchanged, Config, HandlerState, TaskStart};
use crate::message_loop::command_event;

verus! {

/// The state after handling `events` in order.
pub open spec fn run(s: HandlerState, events: Seq<HotkeyEvent>) -> HandlerState
    decreases events.len(),
{
    if events.len() == 0 {
        s
    } else {
        step(run(s, events.drop_last()), events.last()).next
    }
}

/// The ids bound after `events`: registrations add, removals take away.
pub open spec fn bound_ids(ids: Set<i32>, events: Seq<HotkeyEvent>) -> Set<i32>
    decreases events.len(),
{
    if events.len() == 0 {
        ids
    } else {
        let prev = bound_ids(ids, events.drop_last());
        match events.last() {
            HotkeyEvent::Register { id, .. } => prev.insert(id),
            HotkeyEvent::Unregister { id } => prev.remove(id),
            _ => prev,
        }
    }
}

/// The events that the message loop hands on for `cmds`, the system having
/// answered `oks[i]` for `cmds[i]`.
pub open spec fn loop_events(cmds: Seq<Command>, oks: Seq<bool>) -> Seq<HotkeyEvent>
    decreases cmds.len(),
{
    if cmds.len() == 0 || oks.len() == 0 {
        Seq::empty()
    } else {
        let prev = loop_events(cmds.drop_last(), oks.drop_last());
        match command_event(cmds.last(), oks.last()) {
            Some(e) => prev.push(e),
            None => prev,
        }
    }
}

/// The ids acknowledged as registered minus those acknowledged as removed.
pub open spec fn acknowledged_ids(ids: Set<i32>, cmds: Seq<Command>, oks: Seq<bool>) -> Set<i32>
    decreases cmds.len(),
{
    if cmds.len() == 0 || oks.len() == 0 {
        ids
    } else {
        let prev = acknowledged_ids(ids, cmds.drop_last(), oks.drop_last());
        match cmds.last() {
            Command::Register { id, .. } => if oks.last() {
                prev.insert(id)
            } else {
                prev
            },
            Command::Unregister { id, .. } => if oks.last() {
                prev.remove(id)
            } else {
                prev
            },
            _ => prev,
        }
    }
}

/// The set of bound ids after any sequence of events is the starting set
/// with each registered id added and each removed id taken away, in order.
pub proof fn lemma_binding_set(s: HandlerState, events: Seq<HotkeyEvent>)
    ensures
        run(s, events).bindings.dom() == bound_ids(s.bindings.dom(), events),
    decreases events.len(),
{
    if events.len() > 0 {
        lemma_binding_set(s, events.drop_last());
        let p = run(s, events.drop_last());
        let e = events.last();
        match e {
            HotkeyEvent::Register { id, click_type } => {
                assert(step(p, e).next.bindings.dom() =~= p.bindings.dom().insert(id));
            },
            HotkeyEvent::Unregister { id } => {
                assert(step(p, e).next.bindings.dom() =~= p.bindings.dom().remove(id));
            },
            HotkeyEvent::HotKeyPressed { id } => {
                assert(step(p, e).next.bindings.dom() =~= p.bindings.dom());
            },
            HotkeyEvent::ManualToggle { id, start } => {
                assert(step(p, e).next.bindings.dom() =~= p.bindings.dom());
            },
            HotkeyEvent::TaskCompleted { id } => {
                assert(step(p, e).next.bindings.dom() =~= p.bindings.dom());
            },
            HotkeyEvent::ConfigChange { .. } => {},
        }
    }
}

/// Whatever commands come through the message loop, the handler's bound ids
/// are the starting ids plus those whose registration was acknowledged as
/// successful, minus those whose removal was, in order.
pub proof fn lemma_binding_set_of_commands(s: HandlerState, cmds: Seq<Command>, oks: Seq<bool>)
    requires
        cmds.len() == oks.len(),
    ensures
        run(s, loop_events(cmds, oks)).bindings.dom() == acknowledged_ids(
            s.bindings.dom(),
            cmds,
            oks,
        ),
    decreases cmds.len(),
{
    if cmds.len() > 0 {
        lemma_binding_set_of_commands(s, cmds.drop_last(), oks.drop_last());
        let prev = loop_events(cmds.drop_last(), oks.drop_last());
        let evs = loop_events(cmds, oks);
        lemma_binding_set(s, prev);
        lemma_binding_set(s, evs);
        match command_event(cmds.last(), oks.last()) {
            Some(e) => {
                assert(evs.drop_last() =~= prev);
            },
            None => {
                assert(evs == prev);
            },
        }
    }
}

/// Handling any event keeps exactly one task handle for each id whose binding
/// is on, and none for any other id.
pub proof fn lemma_task_handles(s: HandlerState, e: HotkeyEvent)
    requires
        handler_wf(s),
    ensures
        handler_wf(step(s, e).next),
{
    let n = step(s, e).next;
    assert forall|i: i32| #[trigger] n.tasks.contains(i) <==> (n.bindings.contains_key(i)
        && n.bindings[i].status) by {
        if s.tasks.contains(i) {
        }
    }
}

/// Task handles stay one per running binding over any sequence of events.
pub proof fn lemma_task_handles_run(s: HandlerState, events: Seq<HotkeyEvent>)
    requires
        handler_wf(s),
    ensures
        handler_wf(run(s, events)),
    decreases events.len(),
{
    if events.len() > 0 {
        lemma_task_handles_run(s, events.drop_last());
        lemma_task_handles(run(s, events.drop_last()), events.last());
    }
}

/// Two presses of a bound hotkey report the new status, then the old one,
/// start a task on the way on and cancel it on the way off, and leave the
/// bindings and task handles as they were.
pub proof fn lemma_toggle_round_trip(s: HandlerState, id: i32)
    requires
        handler_wf(s),
        s.bindings.contains_key(id),
    ensures
        ({
            let old_status = s.bindings[id].status;
            let first = step(s, HotkeyEvent::HotKeyPressed { id });
            let second = step(first.next, HotkeyEvent::HotKeyPressed { id });
            &&& first.notify == Some(!old_status)
            &&& second.notify == Some(old_status)
            &&& second.next.bindings == s.bindings
            &&& second.next.tasks == s.tasks
            &&& !old_status ==> first.start.is_some() && first.next.tasks.contains(id)
                && second.start.is_none() && !second.next.tasks.contains(id)
        }),
{
    let first = step(s, HotkeyEvent::HotKeyPressed { id });
    let second = step(first.next, HotkeyEvent::HotKeyPressed { id });
    assert(second.next.bindings =~= s.bindings);
    if s.bindings[id].status {
        assert(s.tasks.contains(id));
        assert(second.next.tasks =~= s.tasks);
    } else {
        assert(!s.tasks.contains(id));
        assert(second.next.tasks =~= s.tasks);
    }
}

/// A manual toggle to the status a binding already has, or for an id that is
/// not bound, changes nothing, reports nothing and starts nothing.
pub proof fn lemma_manual_toggle_idempotent(s: HandlerState, id: i32, start: bool)
    requires
        s.bindings.contains_key(id) ==> s.bindings[id].status == start,
    ensures
        step(s, HotkeyEvent::ManualToggle { id, start }) == unchanged(s),
{
}

/// A run with a budget of `n` clicks goes on after each of the first `n - 1`
/// clicks and ends right after click `n`, with no wait after it; a budget of
/// one ends at the first click.
pub proof fn lemma_finite_run(n: nat, k: nat)
    requires
        n > 0,
        k < n,
    ensures
        plan_wf(advance_by(PlanState { times: n, remaining: n }, k)),
        advance_by(PlanState { times: n, remaining: n }, k).times == n,
        advance_by(PlanState { times: n, remaining: n }, k).remaining == n - k,
        continues(advance_by(PlanState { times: n, remaining: n }, k)) <==> k + 1 < n,
    decreases k,
{
    let p0 = PlanState { times: n, remaining: n };
    if k == 0 {
        assert(advance_by(p0, 0) == p0);
    } else {
        lemma_finite_run(n, (k - 1) as nat);
        let prev = advance_by(p0, (k - 1) as nat);
        assert(advance_by(p0, k) == advance(prev));
        assert(advance(prev).remaining == prev.remaining - 1);
    }
}

/// An unbounded run goes on after every click, however many were made.
pub proof fn lemma_unbounded_run(remaining: nat, k: nat)
    ensures
        continues(advance_by(PlanState { times: 0, remaining }, k)),
        advance_by(PlanState { times: 0, remaining }, k) == (PlanState { times: 0, remaining }),
    decreases k,
{
    if k > 0 {
        lemma_unbounded_run(remaining, (k - 1) as nat);
    }
}

/// A configuration change touches no binding and no running task, and a task
/// started afterwards takes over the new values.
pub proof fn lemma_config_isolation(s: HandlerState, times: usize, duration: u64, id: i32)
    ensures
        ({
            let t = step(s, HotkeyEvent::ConfigChange { times, duration });
            &&& t.next.bindings == s.bindings
            &&& t.next.tasks == s.tasks
            &&& t.notify.is_none()
            &&& t.start.is_none()
            &&& t.next.config == (Config { times, duration })
            &&& s.bindings.contains_key(id) && !s.bindings[id].status ==> step(
                t.next,
                HotkeyEvent::HotKeyPressed { id },
            ).start == Some(
                TaskStart { id, click_type: s.bindings[id].click_type, times, duration },
            )
        }),
{
}

/// Removing an id with a running task cancels the task: both the binding and
/// the handle are gone, and nothing is reported or started.
pub proof fn lemma_unregister_cancels(s: HandlerState, id: i32)
    requires
        s.tasks.contains(id),
    ensures
        ({
            let t = step(s, HotkeyEvent::Unregister { id });
            &&& !t.next.bindings.contains_key(id)
            &&& !t.next.tasks.contains(id)
            &&& t.notify.is_none()
            &&& t.start.is_none()
        }),
{
}

} // verus!
