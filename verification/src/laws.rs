//! Laws of the task controller, proved of the state machine in
//! [`crate::model`] that the entry points implement.

use crate::effect::{EffectModel, EventModel};
use crate::model::{
    auth_step, cancel_step, result_step, run, start_step, step, Command, StateModel,
};
use crate::script::TaskModel;
use vstd::prelude::*;

verus! {

/// `effect` publishes a result for the source `id`.
pub open spec fn is_result_for(effect: EffectModel, id: Seq<char>) -> bool {
    effect matches EffectModel::Publish(EventModel::Result { source_id, .. }) && source_id == id
}

/// `effect` publishes an event.
pub open spec fn is_publish(effect: EffectModel) -> bool {
    effect is Publish
}

/// `effect` creates, shows or destroys a surface.
pub open spec fn touches_surface(effect: EffectModel) -> bool {
    effect is CloseSurface || effect is OpenSurface || effect is RevealSurface
}

/// How many results for the source `id` the effects publish.
pub open spec fn result_count(effects: Seq<EffectModel>, id: Seq<char>) -> nat
    decreases effects.len(),
{
    if effects.len() == 0 {
        0
    } else {
        result_count(effects.drop_first(), id) + if is_result_for(effects[0], id) {
            1nat
        } else {
            0nat
        }
    }
}

/// `effect` publishes an authentication event for the source `id`.
pub open spec fn is_auth_for(effect: EffectModel, id: Seq<char>) -> bool {
    effect matches EffectModel::Publish(EventModel::AuthRequired { source_id, .. }) && source_id
        == id
}

/// How many authentication events for the source `id` the effects publish.
pub open spec fn auth_count(effects: Seq<EffectModel>, id: Seq<char>) -> nat
    decreases effects.len(),
{
    if effects.len() == 0 {
        0
    } else {
        auth_count(effects.drop_first(), id) + if is_auth_for(effects[0], id) {
            1nat
        } else {
            0nat
        }
    }
}

/// How many of the commands report an authentication failure for `id`.
pub open spec fn auth_reports(commands: Seq<Command>, id: Seq<char>) -> nat
    decreases commands.len(),
{
    if commands.len() == 0 {
        0
    } else {
        auth_reports(commands.drop_first(), id) + if reports_auth(commands[0], id) {
            1nat
        } else {
            0nat
        }
    }
}

/// `command` starts a task for the source `id`.
pub open spec fn starts(command: Command, id: Seq<char>) -> bool {
    command matches Command::StartTask { task } && task.source_id == id
}

/// `command` reports a payload for the source `id`.
pub open spec fn reports_result(command: Command, id: Seq<char>) -> bool {
    command matches Command::ReportResult { source_id, .. } && source_id == id
}

/// `command` reports an authentication failure for the source `id`.
pub open spec fn reports_auth(command: Command, id: Seq<char>) -> bool {
    command matches Command::ReportAuthRequired { source_id, .. } && source_id == id
}

/// Whether a host that performs `effects` in order, holding a surface
/// before them or not (`live`), holds one after them. `None` if an effect
/// would open a surface while one is held.
pub open spec fn surface_after(live: bool, effects: Seq<EffectModel>) -> Option<bool>
    decreases effects.len(),
{
    if effects.len() == 0 {
        Some(live)
    } else {
        match effects[0] {
            EffectModel::CloseSurface => surface_after(false, effects.drop_first()),
            EffectModel::OpenSurface(_) => if live {
                None
            } else {
                surface_after(true, effects.drop_first())
            },
            _ => surface_after(live, effects.drop_first()),
        }
    }
}

proof fn lemma_count_concat(a: Seq<EffectModel>, b: Seq<EffectModel>, id: Seq<char>)
    ensures
        result_count(a + b, id) == result_count(a, id) + result_count(b, id),
    decreases a.len(),
{
    if a.len() == 0 {
        assert(a + b =~= b);
    } else {
        lemma_count_concat(a.drop_first(), b, id);
        assert((a + b).drop_first() =~= a.drop_first() + b);
    }
}

proof fn lemma_count_short(effects: Seq<EffectModel>, id: Seq<char>)
    requires
        effects.len() <= 2,
    ensures
        result_count(effects, id) == (if effects.len() >= 1 && is_result_for(effects[0], id) {
            1nat
        } else {
            0nat
        }) + (if effects.len() >= 2 && is_result_for(effects[1], id) {
            1nat
        } else {
            0nat
        }),
{
    reveal_with_fuel(result_count, 3);
}

/// The record of a source changes only at its own calls: a call other than
/// a start of `id` publishes one result for `id` and records it if `id` is
/// deliverable and the call reports a payload for it; otherwise it
/// publishes none and leaves `id` recorded or not, as it was.
pub proof fn lemma_step_delivery(s: StateModel, command: Command, id: Seq<char>)
    requires
        !starts(command, id),
    ensures
        ({
            let (next, reply) = step(s, command);
            let fresh = !s.delivered.contains(id) && reports_result(command, id);
            &&& next.delivered.contains(id) == (s.delivered.contains(id) || fresh)
            &&& result_count(reply.effects, id) == if fresh {
                1nat
            } else {
                0nat
            }
        }),
{
    let (next, reply) = step(s, command);
    lemma_count_short(reply.effects, id);
}

/// Between two starts of a source, the first payload reported for it is
/// published and no other: a series of calls that does not start `id`
/// publishes one result for `id` if `id` is deliverable and the series
/// reports a payload for it, and none otherwise. Afterwards `id` is
/// deliverable only if it was and no payload was reported.
pub proof fn lemma_single_delivery(s: StateModel, commands: Seq<Command>, id: Seq<char>)
    requires
        forall|i: int| 0 <= i < commands.len() ==> !starts(#[trigger] commands[i], id),
    ensures
        ({
            let (last, effects) = run(s, commands);
            let reported = exists|i: int|
                0 <= i < commands.len() && reports_result(#[trigger] commands[i], id);
            &&& result_count(effects, id) == if !s.delivered.contains(id) && reported {
                1nat
            } else {
                0nat
            }
            &&& last.delivered.contains(id) == (s.delivered.contains(id) || reported)
        }),
    decreases commands.len(),
{
    if commands.len() > 0 {
        let (next, reply) = step(s, commands[0]);
        let rest = commands.drop_first();
        lemma_step_delivery(s, commands[0], id);
        assert forall|i: int| 0 <= i < rest.len() implies !starts(#[trigger] rest[i], id) by {
            assert(rest[i] == commands[i + 1]);
        }
        lemma_single_delivery(next, rest, id);
        lemma_count_concat(reply.effects, run(next, rest).1, id);
        let reported = exists|i: int|
            0 <= i < commands.len() && reports_result(#[trigger] commands[i], id);
        let reported_later = exists|i: int|
            0 <= i < rest.len() && reports_result(#[trigger] rest[i], id);
        if reported_later {
            let i = choose|i: int| 0 <= i < rest.len() && reports_result(#[trigger] rest[i], id);
            assert(reports_result(commands[i + 1], id));
        }
        if reports_result(commands[0], id) {
            assert(reported);
        }
        if reported {
            let i = choose|i: int|
                0 <= i < commands.len() && reports_result(#[trigger] commands[i], id);
            if i > 0 {
                assert(reports_result(rest[i - 1], id));
            }
        }
        assert(reported == (reports_result(commands[0], id) || reported_later));
    }
}

/// A started task delivers at most once: after `task` is started, whether
/// or not its URL is accepted, a series of calls that does not start its
/// source again publishes exactly one result for that source if the series
/// reports a payload for it, however many times, and none if it does not.
/// Authentication events are not counted and not limited.
pub proof fn lemma_one_result_per_start(
    s: StateModel,
    task: TaskModel,
    url_ok: bool,
    commands: Seq<Command>,
)
    requires
        forall|i: int| 0 <= i < commands.len() ==> !starts(#[trigger] commands[i], task.source_id),
    ensures
        ({
            let started = start_step(s, task, url_ok);
            let effects = run(started.0, commands).1;
            let reported = exists|i: int|
                0 <= i < commands.len() && reports_result(#[trigger] commands[i], task.source_id);
            &&& result_count(started.1.effects, task.source_id) == 0
            &&& result_count(effects, task.source_id) <= 1
            &&& result_count(effects, task.source_id) == 1 <==> reported
        }),
{
    let started = start_step(s, task, url_ok);
    lemma_count_short(started.1.effects, task.source_id);
    lemma_single_delivery(started.0, commands, task.source_id);
}

proof fn lemma_auth_count_concat(a: Seq<EffectModel>, b: Seq<EffectModel>, id: Seq<char>)
    ensures
        auth_count(a + b, id) == auth_count(a, id) + auth_count(b, id),
    decreases a.len(),
{
    if a.len() == 0 {
        assert(a + b =~= b);
    } else {
        lemma_auth_count_concat(a.drop_first(), b, id);
        assert((a + b).drop_first() =~= a.drop_first() + b);
    }
}

/// Authentication events are never held back: a series of calls, from any
/// state, publishes one authentication event for a source for each report
/// of an authentication failure for it, delivered or not, session or not.
pub proof fn lemma_every_auth_report_is_published(
    s: StateModel,
    commands: Seq<Command>,
    id: Seq<char>,
)
    ensures
        auth_count(run(s, commands).1, id) == auth_reports(commands, id),
    decreases commands.len(),
{
    if commands.len() > 0 {
        let (next, reply) = step(s, commands[0]);
        lemma_every_auth_report_is_published(next, commands.drop_first(), id);
        lemma_auth_count_concat(reply.effects, run(next, commands.drop_first()).1, id);
        assert(auth_count(reply.effects, id) == if reports_auth(commands[0], id) {
            1nat
        } else {
            0nat
        }) by {
            reveal_with_fuel(auth_count, 3);
        }
    }
}

/// Delivery is per start, not for ever: once a task is started, the next
/// payload reported for its source is published with its token and data,
/// whether or not one was delivered for that source before the start.
pub proof fn lemma_restart_enables_delivery(
    s: StateModel,
    task: TaskModel,
    url_ok: bool,
    secret_key: Seq<char>,
    data: serde_json::Value,
)
    ensures
        ({
            let started = start_step(s, task, url_ok).0;
            let (last, reply) = result_step(started, task.source_id, secret_key, data);
            &&& !started.delivered.contains(task.source_id)
            &&& reply.effects.len() >= 1
            &&& reply.effects[0] == EffectModel::Publish(
                EventModel::Result { source_id: task.source_id, secret_key, data },
            )
            &&& result_count(reply.effects, task.source_id) == 1
            &&& last.session is None
        }),
{
    let started = start_step(s, task, url_ok).0;
    let (last, reply) = result_step(started, task.source_id, secret_key, data);
    lemma_count_short(reply.effects, task.source_id);
}

/// Two reports for one source, in whichever order the lock admits them:
/// the first is published if the source is deliverable, the second changes
/// nothing and asks for nothing. So the two together publish one result
/// for a deliverable source, that of the first call, and none otherwise.
pub proof fn lemma_second_report_is_absorbed(
    s: StateModel,
    source_id: Seq<char>,
    first_key: Seq<char>,
    first_data: serde_json::Value,
    second_key: Seq<char>,
    second_data: serde_json::Value,
)
    ensures
        ({
            let (mid, first) = result_step(s, source_id, first_key, first_data);
            let (last, second) = result_step(mid, source_id, second_key, second_data);
            &&& last == mid
            &&& second.status is Ok
            &&& second.effects == Seq::<EffectModel>::empty()
            &&& result_count(first.effects + second.effects, source_id) == if s.delivered.contains(
                source_id,
            ) {
                0nat
            } else {
                1nat
            }
            &&& !s.delivered.contains(source_id) ==> first.effects[0] == EffectModel::Publish(
                EventModel::Result {
                    source_id,
                    secret_key: first_key,
                    data: first_data,
                },
            )
        }),
{
    let (mid, first) = result_step(s, source_id, first_key, first_data);
    let (last, second) = result_step(mid, source_id, second_key, second_data);
    lemma_count_short(first.effects, source_id);
    assert(first.effects + second.effects =~= first.effects);
}

/// Cancelling publishes nothing and leaves no session; a payload that
/// arrives afterwards for a source whose result was already delivered is
/// dropped, with no effect and no change of state.
pub proof fn lemma_cancel_then_stale_result(
    s: StateModel,
    source_id: Seq<char>,
    secret_key: Seq<char>,
    data: serde_json::Value,
)
    requires
        s.delivered.contains(source_id),
    ensures
        ({
            let (cancelled, reply) = cancel_step(s);
            let (last, late) = result_step(cancelled, source_id, secret_key, data);
            &&& forall|i: int| 0 <= i < reply.effects.len() ==> !is_publish(#[trigger] reply.effects[i])
            &&& cancelled.session is None
            &&& late.status is Ok
            &&& late.effects == Seq::<EffectModel>::empty()
            &&& last == cancelled
        }),
{
}

/// Reports that arrive after a cancel succeed, find no session, touch no
/// surface and leave none behind.
pub proof fn lemma_reports_after_cancel_touch_no_surface(
    s: StateModel,
    source_id: Seq<char>,
    secret_key: Seq<char>,
    data: serde_json::Value,
    target_url: Seq<char>,
)
    ensures
        ({
            let cancelled = cancel_step(s).0;
            let (after_result, result) = result_step(cancelled, source_id, secret_key, data);
            let (after_auth, auth) = auth_step(cancelled, source_id, target_url);
            &&& result.status is Ok
            &&& auth.status is Ok
            &&& forall|i: int|
                0 <= i < result.effects.len() ==> !touches_surface(#[trigger] result.effects[i])
            &&& forall|i: int|
                0 <= i < auth.effects.len() ==> !touches_surface(#[trigger] auth.effects[i])
            &&& after_result.session is None
            &&& after_auth == cancelled
        }),
{
}

/// Every call leaves a well-formed state well-formed.
pub proof fn lemma_step_keeps_wf(s: StateModel, command: Command)
    requires
        s.wf(),
    ensures
        step(s, command).0.wf(),
{
}

/// Every series of calls leaves a well-formed state well-formed.
pub proof fn lemma_run_keeps_wf(s: StateModel, commands: Seq<Command>)
    requires
        s.wf(),
    ensures
        run(s, commands).0.wf(),
    decreases commands.len(),
{
    if commands.len() > 0 {
        lemma_step_keeps_wf(s, commands[0]);
        lemma_run_keeps_wf(step(s, commands[0]).0, commands.drop_first());
    }
}

/// At most one session at a time: a host that holds a surface exactly when
/// the state has a session, and performs the effects of a call in order,
/// is never asked to open a second surface, and afterwards again holds one
/// exactly when the state has a session.
pub proof fn lemma_one_surface(s: StateModel, command: Command)
    ensures
        surface_after(s.session is Some, step(s, command).1.effects) == Some(
            step(s, command).0.session is Some,
        ),
{
    reveal_with_fuel(surface_after, 3);
}

/// The same of a series of calls.
pub proof fn lemma_one_surface_run(s: StateModel, commands: Seq<Command>)
    ensures
        surface_after(s.session is Some, run(s, commands).1) == Some(
            run(s, commands).0.session is Some,
        ),
    decreases commands.len(),
{
    if commands.len() > 0 {
        let (next, reply) = step(s, commands[0]);
        lemma_one_surface(s, commands[0]);
        lemma_one_surface_run(next, commands.drop_first());
        lemma_surface_concat(s.session is Some, reply.effects, run(next, commands.drop_first()).1);
    }
}

proof fn lemma_surface_concat(live: bool, a: Seq<EffectModel>, b: Seq<EffectModel>)
    ensures
        surface_after(live, a + b) == match surface_after(live, a) {
            Some(mid) => surface_after(mid, b),
            None => None,
        },
    decreases a.len(),
{
    if a.len() == 0 {
        assert(a + b =~= b);
    } else {
        assert((a + b).drop_first() =~= a.drop_first() + b);
        assert((a + b)[0] == a[0]);
        match a[0] {
            EffectModel::CloseSurface => lemma_surface_concat(false, a.drop_first(), b),
            EffectModel::OpenSurface(_) => {
                if !live {
                    lemma_surface_concat(true, a.drop_first(), b);
                }
            },
            _ => lemma_surface_concat(live, a.drop_first(), b),
        }
    }
}

} // verus!
