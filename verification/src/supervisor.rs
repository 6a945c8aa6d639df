//! Supervision of the helper process: once-only registration, the guard that
//! admits one request at a time, and termination at shutdown.
//!
//! The supervisor is a state machine. It decides; its caller acts. Each
//! function takes what the caller observed, moves the state, and returns what
//! the caller has to do next: the launch argument, the line to write, the
//! steps of the cleanup. The supervisor never touches the process itself.

use vstd::prelude::*;
use crate::error::{result_view, ErrorView, SidecarError};
use crate::protocol::{CommandRequest, RequestView};
use crate::refresher::{RefreshReport, RefreshReportView};

verus! {

/// Life of the helper process as its users see it.
#[derive(Clone, Copy, Debug, PartialEq, Eq, Structural)]
pub enum Lifecycle {
    Uninitialized,
    Running,
    Terminated,
}

/// How far the supervisor has come. The first three stages are those of a
/// process that is not registered.
#[derive(Clone, Copy, Debug, PartialEq, Eq, Structural)]
pub enum Stage {
    /// Nothing has happened yet.
    Fresh,
    /// The refresher succeeded; the process may be spawned.
    Refreshed,
    /// Startup failed; this run goes on without the helper process.
    Degraded,
    /// The helper process is registered and alive.
    Running,
    /// The helper process was terminated by the cleanup.
    Terminated,
}

/// State of the guard around the helper process.
#[derive(Clone, Copy, Debug, PartialEq, Eq, Structural)]
pub enum Guard {
    /// Nobody holds the guard.
    Free,
    /// A request is in flight: its line was handed out and its response is
    /// awaited.
    Held,
    /// A holder failed in the middle of its operation.
    Poisoned,
}

/// One step of the cleanup at shutdown.
#[derive(Debug, PartialEq, Eq)]
pub enum CleanupStep {
    /// Write this line to the helper process; a failure is logged and ignored.
    Send(String),
    /// Terminate the helper process.
    Terminate,
}

/// Mathematical value of a [`CleanupStep`].
pub enum StepView {
    Send(Seq<char>),
    Terminate,
}

impl View for CleanupStep {
    type V = StepView;

    open spec fn view(&self) -> StepView {
        match self {
            CleanupStep::Send(line) => StepView::Send(line@),
            CleanupStep::Terminate => StepView::Terminate,
        }
    }
}

/// Mathematical value of a cleanup plan.
pub open spec fn plan_view(plan: Seq<CleanupStep>) -> Seq<StepView> {
    Seq::new(plan.len(), |i: int| plan[i]@)
}

/// Mathematical value of the result of a cleanup.
pub open spec fn cleanup_view(r: Result<Vec<CleanupStep>, SidecarError>) -> Result<
    Seq<StepView>,
    ErrorView,
> {
    match r {
        Ok(plan) => Ok(plan_view(plan@)),
        Err(e) => Err(e@),
    }
}

/// Mathematical value of the result of a registration.
pub open spec fn unit_view(r: Result<(), SidecarError>) -> Result<(), ErrorView> {
    match r {
        Ok(_) => Ok(()),
        Err(e) => Err(e@),
    }
}

/// Mathematical value of what the caller observed of the channel: the
/// response text, or the detail of an input/output failure.
pub open spec fn outcome_view(outcome: Result<String, String>) -> Result<Seq<char>, Seq<char>> {
    match outcome {
        Ok(text) => Ok(text@),
        Err(detail) => Err(detail@),
    }
}

/// Mathematical value of what the caller observed of the spawn: success, or
/// the detail of the failure.
pub open spec fn spawn_view(spawn: Result<(), String>) -> Result<(), Seq<char>> {
    match spawn {
        Ok(_) => Ok(()),
        Err(detail) => Err(detail@),
    }
}

/// The supervisor as a mathematical value: its stage, its guard, and the
/// requests whose lines it has handed out for writing, oldest first.
pub struct SupervisorState {
    pub stage: Stage,
    pub guard: Guard,
    pub sent: Seq<RequestView>,
}

impl SupervisorState {
    /// The state at the start of a run.
    pub open spec fn initial() -> SupervisorState {
        SupervisorState { stage: Stage::Fresh, guard: Guard::Free, sent: Seq::empty() }
    }

    /// Life of the helper process in this state.
    pub open spec fn lifecycle(self) -> Lifecycle {
        match self.stage {
            Stage::Running => Lifecycle::Running,
            Stage::Terminated => Lifecycle::Terminated,
            _ => Lifecycle::Uninitialized,
        }
    }

    /// The registered process, if there is one: `None` before registration.
    pub open spec fn registered(self) -> Option<Lifecycle> {
        if self.lifecycle() == Lifecycle::Uninitialized {
            None
        } else {
            Some(self.lifecycle())
        }
    }

    /// The state with the guard found unusable: it is broken from now on.
    pub open spec fn with_broken_guard(self) -> SupervisorState {
        SupervisorState { guard: Guard::Poisoned, ..self }
    }

    /// What the startup hook is told after the refresher ran: the launch
    /// argument for the helper process, or why none is to be spawned. A
    /// refresher that did not succeed is reported as such in every state; a
    /// startup after the first is a conflict.
    pub open spec fn startup_result(self, report: RefreshReportView) -> Result<
        Seq<char>,
        ErrorView,
    > {
        if !report.succeeded() {
            Err(report.startup_failure())
        } else if self.stage != Stage::Fresh {
            Err(ErrorView::InitializationConflict)
        } else {
            Ok("daemon"@)
        }
    }

    /// The state after the startup hook reported the refresher's run. A
    /// refresher that did not succeed degrades a run in which no process is
    /// registered, for good.
    pub open spec fn after_startup(self, report: RefreshReportView) -> SupervisorState {
        if !report.succeeded() {
            if self.lifecycle() == Lifecycle::Uninitialized {
                SupervisorState { stage: Stage::Degraded, ..self }
            } else {
                self
            }
        } else if self.stage == Stage::Fresh {
            SupervisorState { stage: Stage::Refreshed, ..self }
        } else {
            self
        }
    }

    /// What a registration gives for a spawn that went as `spawn` says.
    pub open spec fn initialize_result(self, spawn: Result<(), Seq<char>>) -> Result<
        (),
        ErrorView,
    > {
        if self.stage != Stage::Refreshed {
            Err(ErrorView::InitializationConflict)
        } else {
            match spawn {
                Ok(_) => Ok(()),
                Err(detail) => Err(ErrorView::ProcessSpawnFailure(detail)),
            }
        }
    }

    /// The state after a registration.
    pub open spec fn after_initialize(self, spawn: Result<(), Seq<char>>) -> SupervisorState {
        if self.stage != Stage::Refreshed {
            self
        } else if spawn is Ok {
            SupervisorState { stage: Stage::Running, ..self }
        } else {
            SupervisorState { stage: Stage::Degraded, ..self }
        }
    }

    /// What dispatching `req` gives: the line to write, or the reason why
    /// nothing is written.
    pub open spec fn dispatch_result(self, req: RequestView) -> Result<Seq<char>, ErrorView> {
        if self.lifecycle() == Lifecycle::Uninitialized {
            Err(ErrorView::SidecarNotInitialized)
        } else if !req.valid() {
            Err(ErrorView::InvalidRegionToken)
        } else if self.guard != Guard::Free {
            Err(ErrorView::GuardUnavailable)
        } else if self.stage == Stage::Terminated {
            Err(ErrorView::SidecarUnavailable)
        } else {
            Ok(req.wire_line())
        }
    }

    /// The state after dispatching `req`.
    pub open spec fn after_dispatch(self, req: RequestView) -> SupervisorState {
        if self.lifecycle() == Lifecycle::Uninitialized || !req.valid() {
            self
        } else if self.guard != Guard::Free {
            self.with_broken_guard()
        } else if self.stage == Stage::Terminated {
            self
        } else {
            SupervisorState { guard: Guard::Held, sent: self.sent.push(req), ..self }
        }
    }

    /// What completing the request in flight gives, the channel having
    /// behaved as `outcome` says.
    pub open spec fn complete_result(self, outcome: Result<Seq<char>, Seq<char>>) -> Result<
        Seq<char>,
        ErrorView,
    > {
        if self.guard != Guard::Held {
            Err(ErrorView::GuardUnavailable)
        } else {
            match outcome {
                Ok(text) => Ok(text),
                Err(detail) => Err(ErrorView::SubprocessIOFailure(detail)),
            }
        }
    }

    /// The state after completing the request in flight.
    pub open spec fn after_complete(self) -> SupervisorState {
        if self.guard != Guard::Held {
            self
        } else {
            SupervisorState { guard: Guard::Free, ..self }
        }
    }

    /// What the cleanup gives: the steps to carry out, in order, or the
    /// reason why the process is left alone.
    pub open spec fn cleanup_result(self) -> Result<Seq<StepView>, ErrorView> {
        if self.lifecycle() == Lifecycle::Uninitialized {
            Ok(Seq::empty())
        } else if self.guard != Guard::Free {
            Err(ErrorView::GuardUnavailable)
        } else if self.stage == Stage::Running {
            Ok(seq![StepView::Send(RequestView::UnblockAll.wire_line()), StepView::Terminate])
        } else {
            Ok(Seq::empty())
        }
    }

    /// The state after the cleanup.
    pub open spec fn after_cleanup(self) -> SupervisorState {
        if self.lifecycle() == Lifecycle::Uninitialized {
            self
        } else if self.guard != Guard::Free {
            self.with_broken_guard()
        } else if self.stage == Stage::Running {
            SupervisorState {
                stage: Stage::Terminated,
                sent: self.sent.push(RequestView::UnblockAll),
                ..self
            }
        } else {
            self
        }
    }

    /// What holds of every state that a run reaches from the start: a request
    /// is in flight only against a running process; only requests that may be
    /// sent were handed out, and none before a process was registered; and a
    /// process is terminated only after the request that unblocks everything
    /// was handed out, as the last one.
    pub open spec fn wf(self) -> bool {
        &&& self.guard == Guard::Held ==> self.stage == Stage::Running && self.sent.len() > 0
        &&& forall|i: int| 0 <= i < self.sent.len() ==> (#[trigger] self.sent[i]).valid()
        &&& self.lifecycle() == Lifecycle::Uninitialized ==> self.sent.len() == 0
        &&& self.stage == Stage::Terminated ==> self.sent.len() > 0 && self.sent.last()
            == RequestView::UnblockAll
    }
}

/// Supervisor of the one helper process of a run.
pub struct Supervisor {
    stage: Stage,
    guard: Guard,
    sent: Ghost<Seq<RequestView>>,
}

impl View for Supervisor {
    type V = SupervisorState;

    closed spec fn view(&self) -> SupervisorState {
        SupervisorState { stage: self.stage, guard: self.guard, sent: self.sent@ }
    }
}

impl Supervisor {
    #[verifier::type_invariant]
    spec fn well_formed(&self) -> bool {
        self@.wf()
    }

    /// The supervisor at the start of a run: nothing registered, guard free.
    pub fn new() -> (s: Supervisor)
        ensures
            s@ == SupervisorState::initial(),
    {
        Supervisor { stage: Stage::Fresh, guard: Guard::Free, sent: Ghost(Seq::empty()) }
    }

    /// Life of the helper process.
    pub fn lifecycle(&self) -> (l: Lifecycle)
        ensures
            l == self@.lifecycle(),
    {
        match self.stage {
            Stage::Running => Lifecycle::Running,
            Stage::Terminated => Lifecycle::Terminated,
            _ => Lifecycle::Uninitialized,
        }
    }

    /// How far the supervisor has come. The state of a supervisor is always
    /// well-formed.
    pub fn stage(&self) -> (st: Stage)
        ensures
            st == self@.stage,
            self@.wf(),
    {
        proof {
            use_type_invariant(self);
        }
        self.stage
    }

    /// State of the guard.
    pub fn guard(&self) -> (g: Guard)
        ensures
            g == self@.guard,
            self@.wf(),
    {
        proof {
            use_type_invariant(self);
        }
        self.guard
    }

    /// The registered process, or `None` if none was registered. Changes
    /// nothing and does not wait for the guard.
    pub fn get(&self) -> (r: Option<Lifecycle>)
        ensures
            r == self@.registered(),
    {
        match self.stage {
            Stage::Running => Some(Lifecycle::Running),
            Stage::Terminated => Some(Lifecycle::Terminated),
            _ => None,
        }
    }

    /// Startup, first half: takes the report of the refresher's run. If the
    /// run did not succeed, the refresh failure is returned for reporting and,
    /// unless a process is registered already, the run is degraded: no process
    /// will be registered in it. If the run succeeded and this is the first
    /// startup, returns the launch argument with which the caller is to spawn
    /// the helper process. A later startup changes nothing and is a conflict.
    pub fn begin_startup(&mut self, report: &RefreshReport) -> (r: Result<String, SidecarError>)
        ensures
            final(self)@ == old(self)@.after_startup(report@),
            result_view(r) == old(self)@.startup_result(report@),
    {
        proof {
            use_type_invariant(&*self);
        }
        if !report.succeeded() {
            match self.stage {
                Stage::Running | Stage::Terminated => {},
                _ => {
                    self.stage = Stage::Degraded;
                },
            }
            return Err(report.startup_failure());
        }
        match self.stage {
            Stage::Fresh => {
                self.stage = Stage::Refreshed;
                Ok(String::from_str("daemon"))
            },
            _ => Err(SidecarError::InitializationConflict),
        }
    }

    /// Startup, second half: registers the helper process that the caller
    /// spawned, or takes note that the spawn failed. A process is registered
    /// only directly after a successful refresh and only once; in any other
    /// stage the call changes nothing and is a conflict, and a process the
    /// caller spawned nevertheless is the caller's to dispose of.
    pub fn initialize(&mut self, spawn: Result<(), String>) -> (r: Result<(), SidecarError>)
        ensures
            final(self)@ == old(self)@.after_initialize(spawn_view(spawn)),
            unit_view(r) == old(self)@.initialize_result(spawn_view(spawn)),
    {
        proof {
            use_type_invariant(&*self);
        }
        match self.stage {
            Stage::Refreshed => match spawn {
                Ok(_) => {
                    self.stage = Stage::Running;
                    Ok(())
                },
                Err(detail) => {
                    self.stage = Stage::Degraded;
                    Err(SidecarError::ProcessSpawnFailure(detail))
                },
            },
            _ => Err(SidecarError::InitializationConflict),
        }
    }

    /// Takes note that the lock the caller keeps around the supervisor was
    /// found poisoned.
    pub fn mark_guard_broken(&mut self)
        ensures
            final(self)@ == old(self)@.with_broken_guard(),
    {
        proof {
            use_type_invariant(&*self);
        }
        self.guard = Guard::Poisoned;
    }

    /// Command, first half: admits `request` and returns the line the caller is
    /// to write to the helper process. Refused, in this order: before a process
    /// is registered; if the region token is forbidden; if the guard is not
    /// free, which also breaks it; if the process was terminated. A refusal
    /// hands out no line. On success the guard is held until
    /// [`Supervisor::complete`].
    pub fn dispatch(&mut self, request: &CommandRequest) -> (r: Result<String, SidecarError>)
        ensures
            final(self)@ == old(self)@.after_dispatch(request@),
            result_view(r) == old(self)@.dispatch_result(request@),
    {
        proof {
            use_type_invariant(&*self);
        }
        match self.stage {
            Stage::Running | Stage::Terminated => {},
            _ => {
                return Err(SidecarError::SidecarNotInitialized);
            },
        }
        let line = match request.encode() {
            Ok(line) => line,
            Err(e) => {
                return Err(e);
            },
        };
        match self.guard {
            Guard::Free => {},
            _ => {
                self.guard = Guard::Poisoned;
                return Err(SidecarError::GuardUnavailable);
            },
        }
        match self.stage {
            Stage::Terminated => {
                return Err(SidecarError::SidecarUnavailable);
            },
            _ => {},
        }
        self.sent = Ghost(self.sent@.push(request@));
        self.guard = Guard::Held;
        Ok(line)
    }

    /// Command, second half: takes what the caller observed after writing the
    /// line, releases the guard and returns the response as it came, or the
    /// input/output failure. If no request is in flight the call changes
    /// nothing and reports the guard as unavailable.
    pub fn complete(&mut self, outcome: Result<String, String>) -> (r: Result<String, SidecarError>)
        ensures
            final(self)@ == old(self)@.after_complete(),
            result_view(r) == old(self)@.complete_result(outcome_view(outcome)),
    {
        proof {
            use_type_invariant(&*self);
        }
        match self.guard {
            Guard::Held => {
                self.guard = Guard::Free;
                match outcome {
                    Ok(text) => Ok(text),
                    Err(detail) => Err(SidecarError::SubprocessIOFailure(detail)),
                }
            },
            _ => Err(SidecarError::GuardUnavailable),
        }
    }

    /// Cleanup at shutdown. For a running process with a free guard, returns
    /// the two steps the caller carries out in order, whatever the first comes
    /// to: write the line that unblocks everything, then terminate the
    /// process; the process counts as terminated from here on. With nothing
    /// registered, or the process already terminated, there is nothing to do.
    /// If the guard is not free it is broken and the process is left alone.
    pub fn cleanup(&mut self) -> (r: Result<Vec<CleanupStep>, SidecarError>)
        ensures
            final(self)@ == old(self)@.after_cleanup(),
            cleanup_view(r) == old(self)@.cleanup_result(),
    {
        proof {
            use_type_invariant(&*self);
        }
        match self.stage {
            Stage::Running | Stage::Terminated => {},
            _ => {
                let plan: Vec<CleanupStep> = Vec::new();
                assert(plan_view(plan@) =~= Seq::empty());
                return Ok(plan);
            },
        }
        match self.guard {
            Guard::Free => {},
            _ => {
                self.guard = Guard::Poisoned;
                return Err(SidecarError::GuardUnavailable);
            },
        }
        let mut plan: Vec<CleanupStep> = Vec::new();
        match self.stage {
            Stage::Running => {
                self.sent = Ghost(self.sent@.push(RequestView::UnblockAll));
                self.stage = Stage::Terminated;
                plan.push(CleanupStep::Send(String::from_str("unblock-all\n")));
                plan.push(CleanupStep::Terminate);
                assert(plan_view(plan@) =~= seq![
                    StepView::Send(RequestView::UnblockAll.wire_line()),
                    StepView::Terminate,
                ]);
            },
            _ => {
                assert(plan_view(plan@) =~= Seq::empty());
            },
        }
        Ok(plan)
    }
}

} // verus!
