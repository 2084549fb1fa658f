//! What holds of every run of a session and its drivers: at most one driver
//! at work at a time, the session's invariant, and how cancelling, waiting
//! and running out of time end a flow.

use crate::driver::{
    leave, rest_or_leave, secs_since, step, Stage, Step, TaskActionView, TaskEventView, TaskState,
};
use crate::model::{
    Phase, PollStepView, SessionState, NOT_YET_AUTHORIZED, QUERY_INTERVAL_MILLIS,
    QUERY_TIMEOUT_SECS, TIMEOUT,
};
use crate::reply::HbbHttpResponseView;
use crate::text::contains_text;
use crate::user::{full_fields, local_fields, AuthBodyView, UserField, UserPayloadView};
use vstd::prelude::*;

verus! {

/// A session and every task that was ever handed out for it.
pub struct World {
    pub session: SessionState,
    pub tasks: Seq<TaskState>,
}

/// One thing that happens to a session and its tasks.
pub enum Event {
    /// Someone asks to start a flow.
    Start { op: Seq<char>, id: Seq<char>, uuid: Seq<char>, remember_me: bool },
    /// Someone tells the driver to stop.
    Cancel,
    /// The driver of the task with this number takes a step.
    Step { task: int, api_server: Seq<char>, event: TaskEventView, now: u64 },
}

/// A process at its beginning: a new session, and no task.
pub open spec fn beginning() -> World {
    World { session: SessionState::initial(), tasks: Seq::empty() }
}

/// The world after one event.
pub open spec fn apply(w: World, e: Event) -> World {
    match e {
        Event::Start { op, id, uuid, remember_me } => World {
            session: w.session.start(),
            tasks: if w.session.may_start() {
                w.tasks.push(TaskState::new(op, id, uuid, remember_me))
            } else {
                w.tasks
            },
        },
        Event::Cancel => World { session: w.session.cancel(), tasks: w.tasks },
        Event::Step { task, api_server, event, now } => if 0 <= task < w.tasks.len() {
            let after = step(w.session, w.tasks[task], api_server, event, now);
            World { session: after.session, tasks: w.tasks.update(task, after.task) }
        } else {
            w
        },
    }
}

/// The world after a run of events.
pub open spec fn run(w: World, events: Seq<Event>) -> World
    decreases events.len(),
{
    if events.len() == 0 {
        w
    } else {
        apply(run(w, events.drop_last()), events.last())
    }
}

/// A handle that the provider hands out in this event holds a URL.
pub open spec fn handle_holds_url(e: Event) -> bool {
    match e {
        Event::Step {
            event: TaskEventView::AuthReply(Ok(HbbHttpResponseView::Data(handle))),
            ..
        } => handle.wf(),
        _ => true,
    }
}

/// Every handle that the provider hands out in the run holds a URL.
pub open spec fn handles_hold_urls(events: Seq<Event>) -> bool {
    forall|i: int| 0 <= i < events.len() ==> handle_holds_url(#[trigger] events[i])
}

/// How the session stands while a driver is at the given point of its task:
/// the session says that a driver is at work and shows no failure; it is in
/// the phase `Requesting` until the driver has the handle, and then in
/// `Waiting` with the handle whose code the driver asks with.
pub open spec fn fits(session: SessionState, task: TaskState) -> bool {
    match task.stage {
        Stage::Done => true,
        Stage::Start | Stage::Requesting => {
            &&& session.running
            &&& session.phase == Phase::Requesting
            &&& session.no_failure()
        },
        Stage::Asking | Stage::Resting | Stage::Storing => {
            &&& session.running
            &&& session.phase == Phase::Waiting
            &&& session.no_failure()
            &&& session.code_url matches Some(handle) && handle.code == task.code
            &&& task.stage == Stage::Storing ==> task.pending is Some && task.remember_me
        },
    }
}

/// What holds of a process at all times.
pub open spec fn holds_always(w: World) -> bool {
    &&& w.session.wf()
    &&& forall|i: int| 0 <= i < w.tasks.len() ==> fits(w.session, #[trigger] w.tasks[i])
    &&& forall|i: int, j: int|
        0 <= i < w.tasks.len() && 0 <= j < w.tasks.len() && (#[trigger] w.tasks[i]).live() && (
        #[trigger] w.tasks[j]).live() ==> i == j
    &&& w.session.running ==> exists|i: int|
        0 <= i < w.tasks.len() && (#[trigger] w.tasks[i]).live()
}

/// A step of a driver at work keeps the session's invariant and leaves the
/// session as the task's new stage asks for; the session says that a driver
/// is at work exactly until the driver leaves.
pub proof fn lemma_step_fits(
    session: SessionState,
    task: TaskState,
    api_server: Seq<char>,
    event: TaskEventView,
    now: u64,
)
    requires
        session.wf(),
        fits(session, task),
        task.live(),
        event matches TaskEventView::AuthReply(Ok(HbbHttpResponseView::Data(handle)))
            ==> handle.wf(),
    ensures
        step(session, task, api_server, event, now).session.wf(),
        fits(
            step(session, task, api_server, event, now).session,
            step(session, task, api_server, event, now).task,
        ),
        step(session, task, api_server, event, now).task.live() == step(
            session,
            task,
            api_server,
            event,
            now,
        ).session.running,
{
}

/// A driver that has left changes nothing, whatever it is told.
pub proof fn lemma_left_is_left(
    session: SessionState,
    task: TaskState,
    api_server: Seq<char>,
    event: TaskEventView,
    now: u64,
)
    requires
        !task.live(),
    ensures
        step(session, task, api_server, event, now) == (Step {
            session,
            task,
            action: TaskActionView::Done,
        }),
{
}

/// One event keeps what holds of a process at all times.
pub proof fn lemma_event_keeps_invariant(w: World, e: Event)
    requires
        holds_always(w),
        handle_holds_url(e),
    ensures
        holds_always(apply(w, e)),
{
    let after = apply(w, e);
    match e {
        Event::Start { op, id, uuid, remember_me } => {
            if w.session.may_start() {
                let last = w.tasks.len() as int;
                assert(after.tasks[last].live());
                assert forall|i: int| 0 <= i < after.tasks.len() implies fits(
                    after.session,
                    #[trigger] after.tasks[i],
                ) by {
                    if i < last {
                        assert(after.tasks[i] == w.tasks[i]);
                        assert(fits(w.session, w.tasks[i]));
                    }
                }
                assert forall|i: int, j: int|
                    0 <= i < after.tasks.len() && 0 <= j < after.tasks.len() && (
                    #[trigger] after.tasks[i]).live() && (
                    #[trigger] after.tasks[j]).live() implies i == j by {
                    if i < last {
                        assert(after.tasks[i] == w.tasks[i]);
                        assert(fits(w.session, w.tasks[i]));
                    }
                    if j < last {
                        assert(after.tasks[j] == w.tasks[j]);
                        assert(fits(w.session, w.tasks[j]));
                    }
                }
            } else {
                assert forall|i: int| 0 <= i < after.tasks.len() implies fits(
                    after.session,
                    #[trigger] after.tasks[i],
                ) by {
                    assert(fits(w.session, w.tasks[i]));
                }
                let at_work = choose|i: int|
                    0 <= i < w.tasks.len() && (#[trigger] w.tasks[i]).live();
                assert(after.tasks[at_work].live());
            }
        },
        Event::Cancel => {
            assert forall|i: int| 0 <= i < after.tasks.len() implies fits(
                after.session,
                #[trigger] after.tasks[i],
            ) by {
                assert(fits(w.session, w.tasks[i]));
            }
            if w.session.running {
                let at_work = choose|i: int|
                    0 <= i < w.tasks.len() && (#[trigger] w.tasks[i]).live();
                assert(after.tasks[at_work].live());
            }
        },
        Event::Step { task, api_server, event, now } => {
            if 0 <= task < w.tasks.len() {
                let before = w.tasks[task];
                assert(fits(w.session, before));
                if before.live() {
                    lemma_step_fits(w.session, before, api_server, event, now);
                    assert forall|i: int| 0 <= i < after.tasks.len() implies fits(
                        after.session,
                        #[trigger] after.tasks[i],
                    ) by {
                        if i != task {
                            assert(after.tasks[i] == w.tasks[i]);
                            assert(!w.tasks[i].live());
                        }
                    }
                    assert forall|i: int, j: int|
                        0 <= i < after.tasks.len() && 0 <= j < after.tasks.len() && (
                        #[trigger] after.tasks[i]).live() && (
                        #[trigger] after.tasks[j]).live() implies i == j by {
                        if i != task {
                            assert(after.tasks[i] == w.tasks[i]);
                        }
                        if j != task {
                            assert(after.tasks[j] == w.tasks[j]);
                        }
                    }
                    if after.session.running {
                        assert(after.tasks[task].live());
                    }
                } else {
                    lemma_left_is_left(w.session, before, api_server, event, now);
                    assert(after.tasks =~= w.tasks);
                }
            }
        },
    }
}

/// What holds of a process at all times holds after every run of events
/// from its beginning.
pub proof fn lemma_invariant(events: Seq<Event>)
    requires
        handles_hold_urls(events),
    ensures
        holds_always(run(beginning(), events)),
    decreases events.len(),
{
    if events.len() > 0 {
        let earlier = events.drop_last();
        assert forall|i: int| 0 <= i < earlier.len() implies handle_holds_url(
            #[trigger] earlier[i],
        ) by {
            assert(events[i] == earlier[i]);
        }
        lemma_invariant(earlier);
        let last = events.len() - 1;
        assert(events[last] == events.last());
        lemma_event_keeps_invariant(run(beginning(), earlier), events.last());
    }
}

/// After every run of events from the beginning the provider is asked for
/// 180 seconds, no more and no less.
pub proof fn lemma_time_allowed(events: Seq<Event>)
    requires
        handles_hold_urls(events),
    ensures
        run(beginning(), events).session.query_timeout == QUERY_TIMEOUT_SECS,
{
    lemma_invariant(events);
}

/// After every run of requests to start, cancellations and steps of
/// drivers, at most one driver is at work: of two tasks whose drivers have
/// not left, one is the other. The session says so: it is marked as running
/// exactly while there is such a task, and a driver that has left changes
/// nothing any more.
pub proof fn lemma_single_flight(events: Seq<Event>, i: int, j: int)
    requires
        handles_hold_urls(events),
        0 <= i < run(beginning(), events).tasks.len(),
        0 <= j < run(beginning(), events).tasks.len(),
    ensures
        run(beginning(), events).tasks[i].live() && run(beginning(), events).tasks[j].live() ==> i
            == j,
        run(beginning(), events).tasks[i].live() ==> run(beginning(), events).session.running,
        !run(beginning(), events).session.running ==> !run(beginning(), events).tasks[i].live(),
{
    lemma_invariant(events);
    let w = run(beginning(), events);
    assert(fits(w.session, w.tasks[i]));
}

/// A request to start is granted only while no driver is at work, so a
/// second request that follows a granted one, with no driver having left in
/// between, is not granted: it tells the driver at work to stop.
pub proof fn lemma_second_start_waits(s: SessionState)
    requires
        s.may_start(),
    ensures
        !s.start().may_start(),
        s.start().start() == s.start().cancel(),
        !s.start().start().keep_querying,
{
}

/// A flow that is granted begins on a blank session: what a status query
/// returns then holds nothing of an earlier flow.
pub proof fn lemma_start_forgets(s: SessionState)
    requires
        s.may_start(),
    ensures
        s.start().snapshot() == SessionState::initial().snapshot(),
        s.start().keep_querying,
        s.start().running,
        s.start().query_timeout == s.query_timeout,
        s.wf() ==> s.start().wf(),
{
}

/// Where a result is shown there is no failure and the phase is `LoggedIn`,
/// and the page to visit is shown in every phase but `Requesting`.
pub proof fn lemma_snapshot_of_invariant(s: SessionState)
    requires
        s.wf(),
    ensures
        s.snapshot().auth_body is Some <==> s.phase == Phase::LoggedIn,
        s.snapshot().auth_body is Some ==> s.snapshot().failed_msg.len() == 0,
        s.snapshot().url is Some <==> s.phase != Phase::Requesting,
{
}

/// Cancelling while the user's authorization is awaited and nothing has
/// failed ends the flow in silence, where the driver looks before the time
/// is up. The driver that sleeps leaves when it wakes; the driver whose
/// question is under way leaves when an answer comes that says to wait. The
/// status then shows what it showed: no failure and no result.
pub proof fn lemma_cancel_ends_in_silence(
    s: SessionState,
    task: TaskState,
    api_server: Seq<char>,
    now: u64,
)
    requires
        s.wf(),
        fits(s, task),
        task.stage == Stage::Resting || task.stage == Stage::Asking,
        secs_since(task.begin, now) < s.query_timeout,
    ensures
        step(s.cancel(), task.at(Stage::Resting), api_server, TaskEventView::Slept, now) == leave(
            s.cancel(),
            task,
        ),
        forall|reply|
            s.query_step(reply, task.remember_me) == PollStepView::Wait ==> #[trigger] step(
                s.cancel(),
                task.at(Stage::Asking),
                api_server,
                TaskEventView::QueryReply(reply),
                now,
            ) == leave(s.cancel(), task),
        leave(s.cancel(), task).session.snapshot() == s.snapshot(),
        s.snapshot().failed_msg.len() == 0,
        s.snapshot().auth_body is None,
        !leave(s.cancel(), task).session.running,
{
}

/// From outside the flow only the two flags are touched while a driver is at
/// work: a request to start and a cancellation leave what a status query
/// returns as it was.
pub proof fn lemma_outside_touches_flags_only(s: SessionState)
    ensures
        s.cancel().snapshot() == s.snapshot(),
        s.running ==> s.start().snapshot() == s.snapshot(),
        s.running ==> s.start().running,
{
}

/// To cancel twice is to cancel once.
pub proof fn lemma_cancel_idempotent(s: SessionState)
    ensures
        s.cancel().cancel() == s.cancel(),
{
}

/// An error of the provider that holds the words for "not authorized yet"
/// never ends the flow and never sets a failure: the session is as it was,
/// and the driver does what it does before every sleep. It looks at the
/// session and the clock, and sleeps and asks again unless it was told to
/// stop or the time is up.
pub proof fn lemma_not_yet_authorized_waits(
    s: SessionState,
    task: TaskState,
    api_server: Seq<char>,
    message: Seq<char>,
    now: u64,
)
    requires
        contains_text(message, NOT_YET_AUTHORIZED@),
        task.stage == Stage::Asking,
    ensures
        s.query_step(Ok(HbbHttpResponseView::Error(message)), task.remember_me)
            == PollStepView::Wait,
        s.after_query_reply(Ok(HbbHttpResponseView::Error(message)), task.remember_me) == s,
        step(
            s,
            task,
            api_server,
            TaskEventView::QueryReply(Ok(HbbHttpResponseView::Error(message))),
            now,
        ) == rest_or_leave(s, task, now),
        s.keep_polling(secs_since(task.begin, now)) ==> step(
            s,
            task,
            api_server,
            TaskEventView::QueryReply(Ok(HbbHttpResponseView::Error(message))),
            now,
        ) == (Step {
            session: s,
            task: task.at(Stage::Resting),
            action: TaskActionView::Sleep { millis: QUERY_INTERVAL_MILLIS },
        }),
{
}

/// The event is what the driver asked for and ends nothing: the end of a
/// sleep, or an answer after which the driver waits.
pub open spec fn waits_on(session: SessionState, task: TaskState, event: TaskEventView) -> bool {
    match task.stage {
        Stage::Resting => event == TaskEventView::Slept,
        Stage::Asking => event matches TaskEventView::QueryReply(reply) && session.query_step(
            reply,
            task.remember_me,
        ) == PollStepView::Wait,
        Stage::Done => true,
        _ => false,
    }
}

/// The session and the task after a run of steps of one driver, each with
/// the time at which it is taken.
pub open spec fn run_task(
    session: SessionState,
    task: TaskState,
    api_server: Seq<char>,
    steps: Seq<(TaskEventView, u64)>,
) -> Step
    decreases steps.len(),
{
    if steps.len() == 0 {
        Step { session, task, action: TaskActionView::Done }
    } else {
        let earlier = run_task(session, task, api_server, steps.drop_last());
        step(earlier.session, earlier.task, api_server, steps.last().0, steps.last().1)
    }
}

/// Every event of the run is what the driver asked for and ends nothing.
pub open spec fn only_waits(
    session: SessionState,
    task: TaskState,
    api_server: Seq<char>,
    steps: Seq<(TaskEventView, u64)>,
) -> bool {
    forall|n: int|
        0 <= n < steps.len() ==> waits_on(
            run_task(session, task, api_server, #[trigger] steps.subrange(0, n)).session,
            run_task(session, task, api_server, steps.subrange(0, n)).task,
            steps[n].0,
        )
}

/// Where the user's authorization is awaited, nobody cancels, and no answer
/// brings a result or an error that ends the flow, the flow can end in one
/// way only: while the driver is at work the session is as it was, and once
/// it has left the time was up, the status shows the failure `timeout` and
/// no result, and the session is free for the next flow.
pub proof fn lemma_timeout(
    s: SessionState,
    task: TaskState,
    api_server: Seq<char>,
    steps: Seq<(TaskEventView, u64)>,
)
    requires
        s.wf(),
        fits(s, task),
        s.keep_querying,
        task.stage == Stage::Resting || task.stage == Stage::Asking,
        only_waits(s, task, api_server, steps),
    ensures
        run_task(s, task, api_server, steps).task.live() ==> run_task(
            s,
            task,
            api_server,
            steps,
        ).session == s,
        !run_task(s, task, api_server, steps).task.live() ==> {
            &&& run_task(s, task, api_server, steps).session == s.set_state(
                Phase::Waiting,
                TIMEOUT@,
            ).after_task()
            &&& run_task(s, task, api_server, steps).session.snapshot().failed_msg == TIMEOUT@
            &&& run_task(s, task, api_server, steps).session.snapshot().auth_body is None
            &&& run_task(s, task, api_server, steps).session.wf()
        },
        run_task(s, task, api_server, steps).task.live() ==> run_task(
            s,
            task,
            api_server,
            steps,
        ).task.stage == Stage::Resting || run_task(s, task, api_server, steps).task.stage
            == Stage::Asking,
        run_task(s, task, api_server, steps).task.begin == task.begin,
        run_task(s, task, api_server, steps).task.remember_me == task.remember_me,
    decreases steps.len(),
{
    if steps.len() > 0 {
        let earlier = steps.drop_last();
        let last = steps.len() - 1;
        assert forall|n: int| 0 <= n < earlier.len() implies waits_on(
            run_task(s, task, api_server, #[trigger] earlier.subrange(0, n)).session,
            run_task(s, task, api_server, earlier.subrange(0, n)).task,
            earlier[n].0,
        ) by {
            assert(earlier.subrange(0, n) =~= steps.subrange(0, n));
            assert(earlier[n] == steps[n]);
        }
        lemma_timeout(s, task, api_server, earlier);
        assert(steps.subrange(0, last) =~= earlier);
        let before = run_task(s, task, api_server, earlier);
        assert(waits_on(before.session, before.task, steps[last].0));
    }
}

/// One look at the clock after the time is up ends the flow with the
/// failure `timeout` and without a result, whether or not the driver was
/// told to stop.
pub proof fn lemma_time_is_up(s: SessionState, task: TaskState, api_server: Seq<char>, now: u64)
    requires
        s.wf(),
        fits(s, task),
        task.stage == Stage::Resting,
        secs_since(task.begin, now) >= s.query_timeout,
    ensures
        step(s, task, api_server, TaskEventView::Slept, now) == leave(
            s.set_state(Phase::Waiting, TIMEOUT@),
            task,
        ),
        step(s, task, api_server, TaskEventView::Slept, now).session.snapshot().failed_msg
            == TIMEOUT@,
        step(s, task, api_server, TaskEventView::Slept, now).session.snapshot().auth_body is None,
{
}

/// The record is stored before the login shows: while it is being stored
/// the session still awaits the user's authorization, and it shows the
/// login, in full, once the driver is told that the record is stored.
pub proof fn lemma_stored_before_shown(
    s: SessionState,
    task: TaskState,
    api_server: Seq<char>,
    body: AuthBodyView,
    now: u64,
)
    requires
        s.wf(),
        fits(s, task),
        task.stage == Stage::Asking,
        task.remember_me,
    ensures
        ({
            let storing = step(
                s,
                task,
                api_server,
                TaskEventView::QueryReply(Ok(HbbHttpResponseView::Data(body))),
                now,
            );
            let shown = step(storing.session, storing.task, api_server, TaskEventView::Stored, now);
            &&& storing.session == s
            &&& storing.action matches TaskActionView::Store(record)
            &&& Some(record) == SessionState::stored(body, true)
            &&& record.user.serialized_fields() == local_fields()
            &&& shown.action == TaskActionView::Done
            &&& shown.session.phase == Phase::LoggedIn
            &&& shown.session.auth_body matches Some(kept)
            &&& kept.user == body.user.with_store_local(false)
            &&& kept.user.serialized_fields() == full_fields()
            &&& !shown.session.running
        }),
{
}

/// Which fields of a user record are written out depends on its mark alone:
/// name and status for the device's own storage, all seven otherwise, each
/// once and in one order.
pub proof fn lemma_fields_by_mark(user: UserPayloadView)
    ensures
        user.with_store_local(true).serialized_fields() == local_fields(),
        user.with_store_local(false).serialized_fields() == full_fields(),
        user.serialized_fields() == user.with_store_local(user.ser_store_local).serialized_fields(),
        local_fields().len() == 2,
        full_fields().len() == 7,
        local_fields().no_duplicates(),
        full_fields().no_duplicates(),
        forall|field: UserField| local_fields().contains(field) ==> full_fields().contains(field),
{
    assert(full_fields()[0] == UserField::Name);
    assert(full_fields()[3] == UserField::Status);
}

} // verus!
