//! The lifecycle around a long-running task: start it, let it take one
//! step after the other, stop it, and tell every observer where it stands.

use vstd::prelude::*;
use crate::services::state::{State, StateView};
use crate::services::watch::{next_version, Receiver, Watch};

verus! {

/// Why a request to a service was refused.
#[derive(Clone, Copy, Debug, PartialEq, Eq, Structural)]
pub enum Error {
    /// The service was started before and has not come to rest.
    AlreadyStarted,
    /// The service rests: there is nothing to stop and nothing to run.
    NotRunning,
}

/// The state after a request to start: a service at rest goes to
/// `Starting`; any other refuses.
pub open spec fn spec_start(state: StateView) -> Result<StateView, Error> {
    if state.is_at_rest() {
        Ok(StateView::Starting)
    } else {
        Err(Error::AlreadyStarted)
    }
}

/// The state after the task reported that it runs: `Starting` becomes
/// `Running`; any other state stays.
pub open spec fn spec_started(state: StateView) -> StateView {
    if state is Starting {
        StateView::Running
    } else {
        state
    }
}

/// The state after a request to stop: a service that starts or runs goes
/// to `Stopping`; one that is stopping stays so; one at rest refuses.
pub open spec fn spec_stop(state: StateView) -> Result<StateView, Error> {
    if state.is_at_rest() {
        Err(Error::NotRunning)
    } else {
        Ok(StateView::Stopping)
    }
}

/// The state after the task has come to its end, with the cause where it
/// broke: a service at rest stays as it is; any other comes to rest, with
/// the cause where there is one.
pub open spec fn spec_finished(state: StateView, cause: Option<Seq<char>>) -> StateView {
    if state.is_at_rest() {
        state
    } else {
        match cause {
            Some(text) => StateView::StoppedWithError(text),
            None => StateView::Stopped,
        }
    }
}

/// The steps that a service can take from one state to the next.
pub open spec fn is_transition(from: StateView, to: StateView) -> bool {
    ||| from.is_at_rest() && to is Starting
    ||| from is Starting && to is Running
    ||| (from is Starting || from is Running) && to is Stopping
    ||| !from.is_at_rest() && to.is_at_rest()
}

/// What the supervisor of a task does next.
#[derive(Clone, Copy, Debug, PartialEq, Eq, Structural)]
pub enum Directive {
    /// Nothing: the service rests.
    Idle,
    /// Set the task up, then report that it runs.
    Initialize,
    /// Let the task take a step.
    Step,
    /// Let the task release what it holds, then report that it finished.
    Shutdown,
}

/// What the supervisor does in a state.
pub open spec fn spec_directive(state: StateView) -> Directive {
    match state {
        StateView::Stopped | StateView::StoppedWithError(_) => Directive::Idle,
        StateView::Starting => Directive::Initialize,
        StateView::Running => Directive::Step,
        StateView::Stopping => Directive::Shutdown,
    }
}

/// How a step of a task ended.
#[derive(Clone, Debug, PartialEq, Eq)]
pub enum StepOutcome {
    /// The task goes on.
    Continue,
    /// The task has nothing left to do.
    Finished,
    /// The step failed; the task can take another.
    Failed,
    /// The task broke; the text says how.
    Panicked(String),
}

/// The state after a step of the task ended with `outcome`: a running
/// service goes on after a step that went well or failed, starts to stop
/// where the task has nothing left to do, and rests with the cause where
/// the task broke. A service that does not run stays as it is.
pub open spec fn spec_stepped(state: StateView, outcome: StepOutcome) -> StateView {
    if !(state is Running) {
        state
    } else {
        match outcome {
            StepOutcome::Continue | StepOutcome::Failed => StateView::Running,
            StepOutcome::Finished => StateView::Stopping,
            StepOutcome::Panicked(cause) => StateView::StoppedWithError(cause@),
        }
    }
}

/// The lifecycle of a service: its state, held for every observer.
pub struct ServiceRunner {
    state: Watch<State>,
}

impl ServiceRunner {
    /// The state of the service.
    pub closed spec fn spec_state(self) -> StateView {
        self.state.value()@
    }

    /// The number of state changes so far, counted modulo two to the
    /// sixty-fourth.
    pub closed spec fn changes(self) -> u64 {
        self.state.version()
    }

    /// The observer has not seen the state that the service is in.
    pub closed spec fn spec_has_changed(self, receiver: Receiver) -> bool {
        self.state.spec_has_changed(receiver)
    }

    /// Either nothing changed, or the service took one step and every
    /// observer has a change to see.
    pub open spec fn stepped_from(self, before: Self) -> bool {
        if self.spec_state() == before.spec_state() {
            self.changes() == before.changes()
        } else {
            &&& is_transition(before.spec_state(), self.spec_state())
            &&& self.changes() == next_version(before.changes())
        }
    }

    /// A service at rest.
    pub fn new() -> (runner: Self)
        ensures
            runner.spec_state() == StateView::Stopped,
    {
        ServiceRunner { state: Watch::new(State::Stopped) }
    }

    /// The state of the service.
    pub fn state(&self) -> (state: State)
        ensures
            state@ == self.spec_state(),
    {
        self.state.borrow().duplicate()
    }

    /// An observer that has seen the state the service is in.
    pub fn subscribe(&self) -> (receiver: Receiver)
        ensures
            !self.spec_has_changed(receiver),
    {
        self.state.subscribe()
    }

    /// Whether the observer has not seen the state that the service is in.
    pub fn has_changed(&self, receiver: &Receiver) -> (changed: bool)
        ensures
            changed == self.spec_has_changed(*receiver),
    {
        self.state.has_changed(receiver)
    }

    /// The state of the service; the observer has seen it from now on.
    pub fn observe(&self, receiver: &mut Receiver) -> (state: State)
        ensures
            state@ == self.spec_state(),
            !self.spec_has_changed(*final(receiver)),
    {
        self.state.borrow_and_update(receiver).duplicate()
    }

    /// What the supervisor does next.
    pub fn directive(&self) -> (directive: Directive)
        ensures
            directive == spec_directive(self.spec_state()),
    {
        match self.state.borrow() {
            State::Stopped => Directive::Idle,
            State::StoppedWithError(_) => Directive::Idle,
            State::Starting => Directive::Initialize,
            State::Running => Directive::Step,
            State::Stopping => Directive::Shutdown,
        }
    }

    /// Asks the service to start.
    pub fn start(&mut self) -> (outcome: Result<(), Error>)
        ensures
            match spec_start(old(self).spec_state()) {
                Ok(state) => outcome.is_ok() && final(self).spec_state() == state,
                Err(e) => outcome == Err::<(), Error>(e) && final(self).spec_state()
                    == old(self).spec_state(),
            },
            final(self).stepped_from(*old(self)),
    {
        if self.state.borrow().at_rest() {
            let _ = self.state.send_replace(State::Starting);
            Ok(())
        } else {
            Err(Error::AlreadyStarted)
        }
    }

    /// Takes the task's report that it runs.
    pub fn started(&mut self)
        ensures
            final(self).spec_state() == spec_started(old(self).spec_state()),
            final(self).stepped_from(*old(self)),
    {
        if self.state.borrow().starting() {
            let _ = self.state.send_replace(State::Running);
        }
    }

    /// Asks the service to stop. The request may come at any time before
    /// the service rests, and as often as one likes.
    pub fn stop(&mut self) -> (outcome: Result<(), Error>)
        ensures
            match spec_stop(old(self).spec_state()) {
                Ok(state) => outcome.is_ok() && final(self).spec_state() == state,
                Err(e) => outcome == Err::<(), Error>(e) && final(self).spec_state()
                    == old(self).spec_state(),
            },
            final(self).stepped_from(*old(self)),
    {
        if self.state.borrow().at_rest() {
            Err(Error::NotRunning)
        } else if self.state.borrow().stopping() {
            Ok(())
        } else {
            let _ = self.state.send_replace(State::Stopping);
            Ok(())
        }
    }

    /// Takes the end of a step of the task.
    pub fn stepped(&mut self, outcome: StepOutcome)
        ensures
            final(self).spec_state() == spec_stepped(old(self).spec_state(), outcome),
            final(self).stepped_from(*old(self)),
    {
        if self.state.borrow().running() {
            match outcome {
                StepOutcome::Continue => {},
                StepOutcome::Failed => {},
                StepOutcome::Finished => {
                    let _ = self.state.send_replace(State::Stopping);
                },
                StepOutcome::Panicked(cause) => {
                    let _ = self.state.send_replace(State::StoppedWithError(cause));
                },
            }
        }
    }

    /// Takes the end of the task, with the cause where it broke.
    pub fn finished(&mut self, cause: Option<String>)
        ensures
            final(self).spec_state() == spec_finished(
                old(self).spec_state(),
                match cause {
                    Some(text) => Some(text@),
                    None => None,
                },
            ),
            final(self).stepped_from(*old(self)),
    {
        if !self.state.borrow().at_rest() {
            match cause {
                Some(text) => {
                    let _ = self.state.send_replace(State::StoppedWithError(text));
                },
                None => {
                    let _ = self.state.send_replace(State::Stopped);
                },
            }
        }
    }
}

/// A long-running task that a service can supervise. It takes one step for
/// each event that reaches it.
///
/// Beside each method stands a relation that says what the method may
/// answer and leave. A task that does not say leaves the relation open.
pub trait RunnableTask: Sized {
    /// What the task wakes up on.
    type Event;

    /// Why a step can fail.
    type Error;

    /// Whether the task, handed `event`, may answer `outcome` and be left
    /// as `after`.
    open spec fn steps(
        &self,
        after: &Self,
        event: Self::Event,
        outcome: Result<bool, Self::Error>,
    ) -> bool {
        true
    }

    /// Whether the task, told to release what it holds, may answer
    /// `outcome` and be left as `after`.
    open spec fn releases(&self, after: &Self, outcome: Result<(), Self::Error>) -> bool {
        true
    }

    /// Takes one step on `event`. The answer tells whether the task goes
    /// on; an error tells that the step failed and that the task can take
    /// another.
    fn run(&mut self, event: Self::Event) -> (outcome: Result<bool, Self::Error>)
        ensures
            old(self).steps(final(self), event, outcome),
    ;

    /// Releases what the task holds.
    fn shutdown(&mut self) -> (outcome: Result<(), Self::Error>)
        ensures
            old(self).releases(final(self), outcome),
    ;
}

/// Why a step of a service was not taken, or failed.
#[derive(Clone, Copy, Debug, PartialEq, Eq)]
pub enum StepError<E> {
    /// The service does not run.
    NotRunning,
    /// The task's step failed; the service runs on.
    Task(E),
}

/// What a service asked of its task, as the service records it.
pub enum Taken<T: RunnableTask> {
    /// The task was handed an event and answered.
    Step {
        /// The task before.
        before: T,
        /// The event.
        event: T::Event,
        /// The answer.
        outcome: Result<bool, T::Error>,
        /// The task after.
        after: T,
    },
    /// The task was told to release what it holds and answered.
    Shutdown {
        /// The task before.
        stepped: T,
        /// The answer.
        released: Result<(), T::Error>,
        /// The task after.
        rested: T,
    },
}

/// A task with its lifecycle, and the record of what was asked of the
/// task.
pub struct Service<T: RunnableTask> {
    /// The lifecycle.
    pub runner: ServiceRunner,
    /// The task.
    pub task: T,
    /// What was asked of the task so far, oldest first, for the proofs.
    pub history: Ghost<Seq<Taken<T>>>,
}

impl<T: RunnableTask> Service<T> {
    /// Since `before` the task was asked nothing.
    pub open spec fn task_untouched(self, before: Self) -> bool {
        self.task == before.task && self.history@ == before.history@
    }

    /// Since `before` the task was told once to release what it holds, and
    /// nothing else; it answered and was left as it may.
    pub open spec fn shut_down_once(self, before: Self) -> bool {
        &&& self.history@.len() == before.history@.len() + 1
        &&& self.history@.drop_last() == before.history@
        &&& self.history@.last() matches Taken::Shutdown { stepped, released, rested }
        &&& stepped == before.task
        &&& rested == self.task
        &&& stepped.releases(&rested, released)
    }

    /// What holds after a running service let its task take a step on
    /// `event`: the task was handed the event, once, and answered and was
    /// left as it may; where it answered
    /// that it goes on, or failed, the service runs on; where it answered
    /// that it has nothing left to do, it was shut down and the service
    /// rests. The task's answer is the outcome, its error carried as
    /// raised.
    pub open spec fn stepped_once(
        self,
        before: Self,
        event: T::Event,
        outcome: Result<bool, StepError<T::Error>>,
    ) -> bool {
        let taken = self.history@[before.history@.len() as int];
        &&& self.history@.len() > before.history@.len()
        &&& self.history@.subrange(0, before.history@.len() as int) == before.history@
        &&& taken matches Taken::Step { before: task, event: handed, outcome: answer, after: left }
        &&& task == before.task
        &&& handed == event
        &&& task.steps(&left, event, answer)
        &&& match answer {
            Ok(true) => {
                &&& outcome == Ok::<bool, StepError<T::Error>>(true)
                &&& self.history@.len() == before.history@.len() + 1
                &&& self.task == left
                &&& self.runner.spec_state() is Running
            },
            Ok(false) => {
                &&& outcome == Ok::<bool, StepError<T::Error>>(false)
                &&& self.history@.len() == before.history@.len() + 2
                &&& self.history@.last() matches Taken::Shutdown { stepped, released, rested }
                &&& stepped == left
                &&& rested == self.task
                &&& stepped.releases(&rested, released)
                &&& self.runner.spec_state() is Stopped
            },
            Err(e) => {
                &&& outcome == Err::<bool, StepError<T::Error>>(StepError::Task(e))
                &&& self.history@.len() == before.history@.len() + 1
                &&& self.task == left
                &&& self.runner.spec_state() is Running
            },
        }
    }

    /// A service at rest around `task`, of which nothing was asked yet.
    pub fn new(task: T) -> (service: Self)
        ensures
            service.runner.spec_state() == StateView::Stopped,
            service.task == task,
            service.history@.len() == 0,
    {
        Service { runner: ServiceRunner::new(), task, history: Ghost(Seq::empty()) }
    }

    /// The state of the service.
    pub fn state(&self) -> (state: State)
        ensures
            state@ == self.runner.spec_state(),
    {
        self.runner.state()
    }

    /// Starts the service: from rest through `Starting` to `Running`. A
    /// service that has not come to rest refuses.
    pub fn start(&mut self) -> (outcome: Result<(), Error>)
        ensures
            final(self).task_untouched(*old(self)),
            old(self).runner.spec_state().is_at_rest() ==> outcome.is_ok()
                && final(self).runner.spec_state() == StateView::Running,
            !old(self).runner.spec_state().is_at_rest() ==> outcome == Err::<(), Error>(
                Error::AlreadyStarted,
            ) && final(self).runner.spec_state() == old(self).runner.spec_state(),
    {
        match self.runner.start() {
            Err(e) => Err(e),
            Ok(_) => {
                self.runner.started();
                Ok(())
            },
        }
    }

    /// Asks the service to stop, and leaves the shutting down to whoever
    /// drives the task. The request may come at any time before the
    /// service rests, and as often as one likes; a service at rest refuses.
    pub fn stop(&mut self) -> (outcome: Result<(), Error>)
        ensures
            final(self).task_untouched(*old(self)),
            match spec_stop(old(self).runner.spec_state()) {
                Ok(state) => outcome.is_ok() && final(self).runner.spec_state() == state,
                Err(e) => outcome == Err::<(), Error>(e) && final(self).runner.spec_state()
                    == old(self).runner.spec_state(),
            },
    {
        self.runner.stop()
    }

    /// Lets the task take one step on `event`, if the service runs. Where
    /// the task answers that it has nothing left to do, it is shut down and
    /// the service comes to rest. Where the step fails, the error is
    /// handed on and the service runs on. A service that does not run
    /// refuses, and asks nothing of its task.
    pub fn step(&mut self, event: T::Event) -> (outcome: Result<bool, StepError<T::Error>>)
        ensures
            !(old(self).runner.spec_state() is Running) ==> outcome == Err::<
                bool,
                StepError<T::Error>,
            >(StepError::NotRunning) && final(self).task_untouched(*old(self))
                && final(self).runner.spec_state() == old(self).runner.spec_state(),
            old(self).runner.spec_state() is Running ==> final(self).stepped_once(
                *old(self),
                event,
                outcome,
            ),
    {
        if !self.runner.state().running() {
            return Err(StepError::NotRunning);
        }
        let ghost task = self.task;
        let answer = self.task.run(event);
        let ghost left = self.task;
        proof {
            self.history@ = self.history@.push(
                Taken::Step { before: task, event, outcome: answer, after: left },
            );
            assert(self.history@.subrange(0, old(self).history@.len() as int)
                =~= old(self).history@);
        }
        let ghost stepped = self.history@;
        match answer {
            Ok(true) => {
                self.runner.stepped(StepOutcome::Continue);
                Ok(true)
            },
            Ok(false) => {
                self.runner.stepped(StepOutcome::Finished);
                let released = self.task.shutdown();
                proof {
                    self.history@ = self.history@.push(
                        Taken::Shutdown { stepped: left, released, rested: self.task },
                    );
                    let base = old(self).history@.len() as int;
                    assert(self.history@.subrange(0, base) =~= old(self).history@);
                    assert(self.history@[base] == stepped[base]);
                }
                self.runner.finished(None);
                Ok(false)
            },
            Err(e) => {
                self.runner.stepped(StepOutcome::Failed);
                Err(StepError::Task(e))
            },
        }
    }

    /// Stops the service and gives the state it rests in: the task is told,
    /// once, to release what it holds. A service that rests already stays
    /// as it is, and nothing is asked of its task: the call may be
    /// repeated.
    pub fn stop_and_await(&mut self) -> (state: State)
        ensures
            state@ == final(self).runner.spec_state(),
            state@.is_at_rest(),
            old(self).runner.spec_state().is_at_rest() ==> final(self).runner.spec_state()
                == old(self).runner.spec_state() && final(self).task_untouched(*old(self)),
            !old(self).runner.spec_state().is_at_rest() ==> state@ is Stopped
                && final(self).shut_down_once(*old(self)),
    {
        match self.runner.stop() {
            Err(_) => {},
            Ok(_) => {
                let ghost stepped = self.task;
                let released = self.task.shutdown();
                proof {
                    self.history@ = self.history@.push(
                        Taken::Shutdown { stepped, released, rested: self.task },
                    );
                    assert(self.history@.drop_last() =~= old(self).history@);
                }
                self.runner.finished(None);
            },
        }
        self.runner.state()
    }

    /// Takes the news that the task broke: the service comes to rest with
    /// the cause.
    pub fn fail(&mut self, cause: String)
        ensures
            final(self).task_untouched(*old(self)),
            final(self).runner.spec_state() == spec_finished(
                old(self).runner.spec_state(),
                Some(cause@),
            ),
    {
        self.runner.finished(Some(cause));
    }
}

/// A second request to start is refused as long as the service has not
/// come to rest.
pub proof fn lemma_double_start_is_refused(state: StateView)
    requires
        spec_start(state) is Ok,
    ensures
        spec_start(spec_start(state)->Ok_0) == Err::<StateView, Error>(Error::AlreadyStarted),
{
}

/// A request to stop may be repeated: the second one changes nothing and
/// is not refused.
pub proof fn lemma_stop_is_idempotent(state: StateView)
    requires
        spec_stop(state) is Ok,
    ensures
        spec_stop(spec_stop(state)->Ok_0) == spec_stop(state),
{
}

/// A service that rests refuses to be stopped, and stays at rest.
pub proof fn lemma_stop_at_rest_is_refused(state: StateView)
    requires
        state.is_at_rest(),
    ensures
        spec_stop(state) == Err::<StateView, Error>(Error::NotRunning),
{
}

/// There is one way round: a service that was started, ran, was stopped
/// and finished rests again, and each of the four moves is a step.
pub proof fn lemma_one_way_round(state: StateView)
    requires
        state.is_at_rest(),
    ensures
        ({
            let starting = spec_start(state)->Ok_0;
            let running = spec_started(starting);
            let stopping = spec_stop(running)->Ok_0;
            let stopped = spec_finished(stopping, None);
            &&& starting is Starting && is_transition(state, starting)
            &&& running is Running && is_transition(starting, running)
            &&& stopping is Stopping && is_transition(running, stopping)
            &&& stopped is Stopped && is_transition(stopping, stopped)
        }),
{
}

/// A task that breaks brings its service to rest with the cause, whatever
/// the service was doing, and the service can be started again.
pub proof fn lemma_failure_is_terminal(state: StateView, cause: Seq<char>)
    requires
        !state.is_at_rest(),
    ensures
        spec_finished(state, Some(cause)) == StateView::StoppedWithError(cause),
        spec_stop(spec_finished(state, Some(cause))) is Err,
        spec_start(spec_finished(state, Some(cause))) is Ok,
{
}

/// No move leads from `Running` back to `Starting`, nor from `Stopping`
/// back to `Starting` or `Running`.
pub proof fn lemma_no_way_back(from: StateView, to: StateView)
    requires
        is_transition(from, to),
    ensures
        from is Running ==> !(to is Starting),
        from is Stopping ==> to.is_at_rest(),
        to is Running ==> from is Starting,
{
}

} // verus!
