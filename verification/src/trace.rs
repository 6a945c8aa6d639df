//! What holds of the supervisor over whole runs.
//!
//! A run is a sequence of events, each one call of a function of the
//! supervisor. The laws here speak of every state that a run can reach, and so
//! of every order in which callers may come to the supervisor.

use vstd::prelude::*;
use crate::error::ErrorView;
use crate::framing::{
    blocked_after_line, frames, lemma_block_then_unblock_restores, lemma_line_round_trip,
    lemma_stream_concat, lemma_stream_of_requests, lines_of, request_of_line, stream,
};
use crate::protocol::{valid_region, RequestView};
use crate::refresher::RefreshReportView;
use crate::supervisor::{Guard, Lifecycle, Stage, StepView, SupervisorState};

verus! {

/// One call of a function of the supervisor, with what the caller passed.
pub enum Event {
    /// `begin_startup` with the report of the refresher's run.
    Startup(RefreshReportView),
    /// `initialize` with what came of the spawn.
    Initialize(Result<(), Seq<char>>),
    /// `mark_guard_broken`.
    GuardBroken,
    /// `dispatch` of a request.
    Dispatch(RequestView),
    /// `complete` with what the caller observed of the channel.
    Complete(Result<Seq<char>, Seq<char>>),
    /// `cleanup`.
    Cleanup,
}

impl SupervisorState {
    /// The state after one event.
    pub open spec fn step(self, event: Event) -> SupervisorState {
        match event {
            Event::Startup(report) => self.after_startup(report),
            Event::Initialize(spawn) => self.after_initialize(spawn),
            Event::GuardBroken => self.with_broken_guard(),
            Event::Dispatch(req) => self.after_dispatch(req),
            Event::Complete(_) => self.after_complete(),
            Event::Cleanup => self.after_cleanup(),
        }
    }

    /// The state after all of `events`, in order.
    pub open spec fn run(self, events: Seq<Event>) -> SupervisorState
        decreases events.len(),
    {
        if events.len() == 0 {
            self
        } else {
            self.run(events.drop_last()).step(events.last())
        }
    }
}

/// Every event keeps a well-formed state well-formed.
pub proof fn lemma_step_preserves_wf(s: SupervisorState, event: Event)
    requires
        s.wf(),
    ensures
        s.step(event).wf(),
{
}

/// Every state that a run reaches from the start is well-formed.
pub proof fn lemma_reachable_wf(events: Seq<Event>)
    ensures
        SupervisorState::initial().run(events).wf(),
    decreases events.len(),
{
    if events.len() > 0 {
        lemma_reachable_wf(events.drop_last());
        lemma_step_preserves_wf(SupervisorState::initial().run(events.drop_last()), events.last());
    }
}

/// However callers come to the supervisor, the lines it has handed out, written
/// in the order in which it admitted them, reach the reader as one complete line
/// per admitted request: no line is cut short, no two run together, and each
/// gives the reader the request it was written for.
pub proof fn lemma_written_stream_is_framed(events: Seq<Event>)
    ensures
        ({
            let sent = SupervisorState::initial().run(events).sent;
            &&& frames(stream(lines_of(sent))) == lines_of(sent)
            &&& forall|i: int|
                0 <= i < sent.len() ==> request_of_line(
                    #[trigger] frames(stream(lines_of(sent)))[i],
                ) == Some(sent[i])
        }),
{
    lemma_reachable_wf(events);
    lemma_stream_of_requests(SupervisorState::initial().run(events).sent);
}

/// The events of callers that the lock lets through one at a time: for each
/// request in turn its dispatch and then its completion.
pub open spec fn cycles(
    requests: Seq<RequestView>,
    outcomes: Seq<Result<Seq<char>, Seq<char>>>,
) -> Seq<Event>
    decreases requests.len(),
{
    if requests.len() == 0 {
        Seq::empty()
    } else {
        cycles(requests.drop_last(), outcomes.drop_last()).push(
            Event::Dispatch(requests.last()),
        ).push(Event::Complete(outcomes.last()))
    }
}

/// Whether caller `k` has a place in `order`.
pub open spec fn has_place(order: Seq<int>, k: int) -> bool {
    exists|i: int| 0 <= i < order.len() && #[trigger] order[i] == k
}

/// Whether `order` names each of `n` callers exactly once: it has `n` places,
/// no caller has two of them, and every caller has one.
pub open spec fn is_order_of(order: Seq<int>, n: nat) -> bool {
    &&& order.len() == n
    &&& forall|i: int| 0 <= i < n ==> 0 <= #[trigger] order[i] < n
    &&& forall|i: int, j: int| 0 <= i < j < n ==> #[trigger] order[i] != #[trigger] order[j]
    &&& forall|k: int| 0 <= k < n ==> #[trigger] has_place(order, k)
}

/// The requests of `callers` in the order in which they were admitted.
pub open spec fn admitted(callers: Seq<RequestView>, order: Seq<int>) -> Seq<RequestView> {
    Seq::new(order.len(), |i: int| callers[order[i]])
}

/// Requests that come to a running process one after another, each completed
/// before the next is dispatched, are all admitted: each is handed out as its
/// line, and what is written grows by exactly these lines, in this order,
/// whatever the channel did for each.
pub proof fn lemma_serialized_requests(
    s: SupervisorState,
    requests: Seq<RequestView>,
    outcomes: Seq<Result<Seq<char>, Seq<char>>>,
)
    requires
        s.stage == Stage::Running,
        s.guard == Guard::Free,
        outcomes.len() == requests.len(),
        forall|i: int| 0 <= i < requests.len() ==> (#[trigger] requests[i]).valid(),
    ensures
        ({
            let end = s.run(cycles(requests, outcomes));
            &&& end.stage == Stage::Running
            &&& end.guard == Guard::Free
            &&& end.sent == s.sent + requests
            &&& stream(lines_of(end.sent)) == stream(lines_of(s.sent)) + stream(lines_of(requests))
            &&& frames(stream(lines_of(requests))) == lines_of(requests)
        }),
        forall|i: int|
            0 <= i < requests.len() ==> s.run(
                cycles(requests.take(i), outcomes.take(i)),
            ).dispatch_result(#[trigger] requests[i]) == Ok::<Seq<char>, ErrorView>(
                requests[i].wire_line(),
            ),
    decreases requests.len(),
{
    let events = cycles(requests, outcomes);
    if requests.len() == 0 {
        assert(s.sent + requests =~= s.sent);
    } else {
        let before = cycles(requests.drop_last(), outcomes.drop_last());
        lemma_serialized_requests(s, requests.drop_last(), outcomes.drop_last());
        let dispatched = before.push(Event::Dispatch(requests.last()));
        assert(events.drop_last() =~= dispatched);
        assert(dispatched.drop_last() =~= before);
        let mid = s.run(before);
        assert(s.run(dispatched) == mid.step(Event::Dispatch(requests.last())));
        assert(s.run(events) == s.run(dispatched).step(Event::Complete(outcomes.last())));
        assert(s.run(events).sent =~= s.sent + requests);
        assert forall|i: int| 0 <= i < requests.len() implies s.run(
            cycles(requests.take(i), outcomes.take(i)),
        ).dispatch_result(#[trigger] requests[i]) == Ok::<Seq<char>, ErrorView>(
            requests[i].wire_line(),
        ) by {
            if i < requests.len() - 1 {
                assert(requests.drop_last().take(i) =~= requests.take(i));
                assert(outcomes.drop_last().take(i) =~= outcomes.take(i));
                assert(requests.drop_last()[i] == requests[i]);
            } else {
                assert(requests.take(i) =~= requests.drop_last());
                assert(outcomes.take(i) =~= outcomes.drop_last());
            }
        }
    }
    lemma_stream_of_requests(requests);
    lemma_stream_concat(lines_of(s.sent), lines_of(requests));
    assert(lines_of(s.sent + requests) =~= lines_of(s.sent) + lines_of(requests));
}

/// Any number of callers that come to a running process at once, and that the
/// lock lets through one at a time in some order: what is written grows by one
/// whole line for each place in the order, the line of the caller who has that
/// place, and by nothing else. As the order names each caller exactly once, so
/// is each caller's line written exactly once.
pub proof fn lemma_concurrent_callers(
    s: SupervisorState,
    callers: Seq<RequestView>,
    order: Seq<int>,
    outcomes: Seq<Result<Seq<char>, Seq<char>>>,
)
    requires
        s.stage == Stage::Running,
        s.guard == Guard::Free,
        is_order_of(order, callers.len()),
        outcomes.len() == callers.len(),
        forall|i: int| 0 <= i < callers.len() ==> (#[trigger] callers[i]).valid(),
    ensures
        ({
            let end = s.run(cycles(admitted(callers, order), outcomes));
            let written = lines_of(admitted(callers, order));
            &&& end.stage == Stage::Running
            &&& end.guard == Guard::Free
            &&& stream(lines_of(end.sent)) == stream(lines_of(s.sent)) + stream(written)
            &&& frames(stream(written)) == written
            &&& written.len() == callers.len()
            &&& forall|i: int|
                0 <= i < callers.len() ==> #[trigger] written[i] == callers[order[i]].wire_line()
        }),
{
    let requests = admitted(callers, order);
    assert forall|i: int| 0 <= i < requests.len() implies (#[trigger] requests[i]).valid() by {
        assert(requests[i] == callers[order[i]]);
    }
    lemma_serialized_requests(s, requests, outcomes);
}

/// Any number of callers that send the same request to a running process at
/// once: its line is written exactly once for each of them, and nothing else.
pub proof fn lemma_concurrent_same_request(
    s: SupervisorState,
    req: RequestView,
    n: nat,
    order: Seq<int>,
    outcomes: Seq<Result<Seq<char>, Seq<char>>>,
)
    requires
        s.stage == Stage::Running,
        s.guard == Guard::Free,
        req.valid(),
        is_order_of(order, n),
        outcomes.len() == n,
    ensures
        ({
            let callers = Seq::new(n, |k: int| req);
            let end = s.run(cycles(admitted(callers, order), outcomes));
            stream(lines_of(end.sent)) == stream(lines_of(s.sent)) + stream(
                Seq::new(n, |i: int| req.wire_line()),
            )
        }),
{
    let callers = Seq::new(n, |k: int| req);
    lemma_concurrent_callers(s, callers, order, outcomes);
    assert(lines_of(admitted(callers, order)) =~= Seq::new(n, |i: int| req.wire_line()));
}

/// An event hands out at most one more line, and hands it out only for a
/// dispatch or a cleanup: what was handed out before stays as it was.
pub proof fn lemma_step_extends_sent(s: SupervisorState, event: Event)
    ensures
        s.step(event).sent == s.sent || (s.step(event).sent.len() == s.sent.len() + 1
            && s.step(event).sent.drop_last() == s.sent && (event is Dispatch || event is Cleanup)),
{
    let t = s.step(event);
    if t.sent != s.sent {
        assert(t.sent.drop_last() =~= s.sent);
    }
}

/// Before a process is registered, every command is refused as not
/// initialized, the state stays as it was, and no line is handed out.
pub proof fn lemma_commands_need_registration(s: SupervisorState, req: RequestView)
    requires
        s.lifecycle() == Lifecycle::Uninitialized,
    ensures
        s.dispatch_result(req) == Err::<Seq<char>, ErrorView>(ErrorView::SidecarNotInitialized),
        s.after_dispatch(req) == s,
{
}

/// A request whose region token is forbidden is never handed out as a line:
/// once a process is registered it is refused for its token, whatever the
/// state of the guard and of the process, and the state stays as it was.
pub proof fn lemma_forbidden_token_sends_nothing(s: SupervisorState, req: RequestView)
    requires
        !req.valid(),
    ensures
        s.dispatch_result(req) is Err,
        s.after_dispatch(req) == s,
        s.lifecycle() != Lifecycle::Uninitialized ==> s.dispatch_result(req) == Err::<
            Seq<char>,
            ErrorView,
        >(ErrorView::InvalidRegionToken),
{
}

/// One request is in flight at a time: while the response to one is awaited,
/// no other is admitted and no line is handed out.
pub proof fn lemma_one_request_in_flight(s: SupervisorState, req: RequestView)
    requires
        s.guard == Guard::Held,
    ensures
        s.dispatch_result(req) is Err,
        s.after_dispatch(req).sent == s.sent,
        s.cleanup_result() is Err || s.cleanup_result() == Ok::<Seq<StepView>, ErrorView>(
            Seq::empty(),
        ),
        s.after_cleanup().sent == s.sent,
{
}

/// The cleanup of a running process with a free guard hands out the line that
/// unblocks everything and then the termination, in this order, and leaves the
/// process terminated. This is so also directly after a command that failed:
/// completing a request in flight frees the guard whatever the channel did.
pub proof fn lemma_cleanup_unblocks_then_terminates(
    s: SupervisorState,
    outcome: Result<Seq<char>, Seq<char>>,
)
    requires
        s.stage == Stage::Running,
        s.guard == Guard::Free || s.guard == Guard::Held,
    ensures
        ({
            let ready = if s.guard == Guard::Held {
                s.step(Event::Complete(outcome))
            } else {
                s
            };
            &&& ready.cleanup_result() == Ok::<Seq<StepView>, ErrorView>(
                seq![StepView::Send(RequestView::UnblockAll.wire_line()), StepView::Terminate],
            )
            &&& ready.after_cleanup().stage == Stage::Terminated
            &&& ready.after_cleanup().sent == s.sent.push(RequestView::UnblockAll)
        }),
{
}

/// In every run, a process that is terminated was sent the request that
/// unblocks everything first: its line is the last that was handed out.
pub proof fn lemma_termination_follows_unblock_all(events: Seq<Event>)
    ensures
        ({
            let end = SupervisorState::initial().run(events);
            end.stage == Stage::Terminated ==> end.sent.len() > 0 && end.sent.last()
                == RequestView::UnblockAll
        }),
{
    lemma_reachable_wf(events);
}

/// A process becomes terminated through the cleanup alone, and the cleanup
/// hands out its steps at most once in a run: on a terminated process it has
/// nothing left to do.
pub proof fn lemma_only_cleanup_terminates(s: SupervisorState, event: Event)
    ensures
        s.stage != Stage::Terminated && s.step(event).stage == Stage::Terminated ==> event
            is Cleanup,
        s.stage == Stage::Terminated && s.guard == Guard::Free ==> s.cleanup_result() == Ok::<
            Seq<StepView>,
            ErrorView,
        >(Seq::empty()) && s.after_cleanup() == s,
{
}

/// A terminated process stays terminated, whatever follows in the run.
pub proof fn lemma_terminated_is_final(s: SupervisorState, events: Seq<Event>)
    requires
        s.stage == Stage::Terminated,
    ensures
        s.run(events).stage == Stage::Terminated,
    decreases events.len(),
{
    if events.len() > 0 {
        lemma_terminated_is_final(s, events.drop_last());
    }
}

/// A process is registered once: as soon as one is registered, every further
/// registration is a conflict and changes nothing.
pub proof fn lemma_registration_is_once(s: SupervisorState, spawn: Result<(), Seq<char>>)
    requires
        s.lifecycle() != Lifecycle::Uninitialized,
    ensures
        s.initialize_result(spawn) == Err::<(), ErrorView>(ErrorView::InitializationConflict),
        s.after_initialize(spawn) == s,
{
}

/// A refresher that fails at startup degrades the run and does not stop it.
/// In every state in which no process is registered, the failure comes back as
/// a refresh failure to report and no launch argument is handed out; and
/// whatever follows in the run, no process is ever registered and no line is
/// ever handed out. Where a process is registered already, the failure is
/// reported all the same and the state stays as it was.
pub proof fn lemma_failed_refresh_degrades_run(
    s: SupervisorState,
    report: RefreshReportView,
    events: Seq<Event>,
)
    requires
        !report.succeeded(),
    ensures
        s.startup_result(report) == Err::<Seq<char>, ErrorView>(report.startup_failure()),
        report.startup_failure() is IPRefreshFailure,
        s.lifecycle() != Lifecycle::Uninitialized ==> s.after_startup(report) == s,
        s.lifecycle() == Lifecycle::Uninitialized ==> ({
            let end = s.after_startup(report).run(events);
            &&& end.stage == Stage::Degraded
            &&& end.lifecycle() == Lifecycle::Uninitialized
            &&& end.sent == s.sent
        }),
    decreases events.len(),
{
    if events.len() > 0 {
        lemma_failed_refresh_degrades_run(s, report, events.drop_last());
    }
}

/// The regions that a helper process which keeps a plain set of blocked
/// regions holds after a dispatch that came to `result`: it reads the line if
/// one was handed out, and sees nothing of a refusal.
pub open spec fn blocked_after_dispatch(
    blocked: Set<Seq<char>>,
    result: Result<Seq<char>, ErrorView>,
) -> Set<Seq<char>> {
    match result {
        Ok(line) => blocked_after_line(blocked, line),
        Err(_) => blocked,
    }
}

/// Blocking a region that is not blocked and then unblocking it leaves such a
/// helper process with the regions it held before. This holds in every state of
/// the supervisor and for every token, also where one of the two requests, or
/// both, are refused.
pub proof fn lemma_block_then_unblock_round_trip(
    s: SupervisorState,
    blocked: Set<Seq<char>>,
    region: Seq<char>,
)
    requires
        !blocked.contains(region),
    ensures
        ({
            let block = RequestView::Block(region);
            let unblock = RequestView::Unblock(region);
            let between = s.after_dispatch(block).after_complete();
            blocked_after_dispatch(
                blocked_after_dispatch(blocked, s.dispatch_result(block)),
                between.dispatch_result(unblock),
            ) == blocked
        }),
{
    if valid_region(region) {
        lemma_line_round_trip(RequestView::Unblock(region));
        lemma_block_then_unblock_restores(blocked, region);
        assert(blocked.remove(region) =~= blocked);
    }
}

} // verus!
