use fuel_node::services::executor::{EmptyStorage, Uncommitted};
use fuel_node::services::service::{
    Directive, Error, RunnableTask, Service, ServiceRunner, StepError, StepOutcome,
};
use fuel_node::services::state::State;
use fuel_node::services::watch::Watch;

struct Countdown {
    left: u32,
    shut_down: bool,
}

impl RunnableTask for Countdown {
    type Event = u32;
    type Error = String;

    fn run(&mut self, event: u32) -> Result<bool, String> {
        if event > self.left {
            return Err(format!("cannot take {event} of {}", self.left));
        }
        self.left -= event;
        Ok(self.left > 0)
    }

    fn shutdown(&mut self) -> Result<(), String> {
        self.shut_down = true;
        Ok(())
    }
}

#[test]
fn service_runs_through_its_states_once() {
    let mut runner = ServiceRunner::new();
    let mut observer = runner.subscribe();
    assert_eq!(runner.state(), State::Stopped);
    assert_eq!(runner.directive(), Directive::Idle);
    assert!(!runner.has_changed(&observer));

    assert_eq!(runner.start(), Ok(()));
    assert_eq!(runner.state(), State::Starting);
    assert_eq!(runner.directive(), Directive::Initialize);
    runner.started();
    assert_eq!(runner.state(), State::Running);
    assert_eq!(runner.directive(), Directive::Step);

    // the observer looks late: it sees the latest state only
    assert!(runner.has_changed(&observer));
    assert_eq!(runner.observe(&mut observer), State::Running);
    assert!(!runner.has_changed(&observer));

    assert_eq!(runner.stop(), Ok(()));
    assert_eq!(runner.state(), State::Stopping);
    assert_eq!(runner.directive(), Directive::Shutdown);
    runner.finished(None);
    assert_eq!(runner.state(), State::Stopped);
    assert!(runner.has_changed(&observer));
}

#[test]
fn double_start_is_an_error() {
    let mut runner = ServiceRunner::new();
    assert_eq!(runner.start(), Ok(()));
    assert_eq!(runner.start(), Err(Error::AlreadyStarted));
    runner.started();
    assert_eq!(runner.start(), Err(Error::AlreadyStarted));
    assert_eq!(runner.stop(), Ok(()));
    assert_eq!(runner.start(), Err(Error::AlreadyStarted));
    runner.finished(None);
    // at rest the service can be started again
    assert_eq!(runner.start(), Ok(()));
}

#[test]
fn stop_is_idempotent_before_rest_and_an_error_at_rest() {
    let mut runner = ServiceRunner::new();
    assert_eq!(runner.stop(), Err(Error::NotRunning));
    runner.start().unwrap();
    // a stop may come before the task runs
    assert_eq!(runner.stop(), Ok(()));
    let observer = runner.subscribe();
    assert_eq!(runner.stop(), Ok(()));
    assert_eq!(runner.state(), State::Stopping);
    assert!(!runner.has_changed(&observer));
    // the task's late report does not bring the service back
    runner.started();
    assert_eq!(runner.state(), State::Stopping);
    runner.finished(None);
    assert_eq!(runner.stop(), Err(Error::NotRunning));
    assert_eq!(runner.state(), State::Stopped);
}

#[test]
fn broken_task_rests_with_its_cause() {
    let mut runner = ServiceRunner::new();
    runner.start().unwrap();
    runner.started();
    runner.stepped(StepOutcome::Failed);
    assert_eq!(runner.state(), State::Running);
    runner.stepped(StepOutcome::Continue);
    assert_eq!(runner.state(), State::Running);
    runner.stepped(StepOutcome::Panicked("index out of bounds".to_string()));
    assert_eq!(runner.state(), State::StoppedWithError("index out of bounds".to_string()));
    assert!(!runner.state().stopped());
    assert!(runner.state().at_rest());
    // nothing moves a service at rest but a start
    runner.stepped(StepOutcome::Finished);
    runner.finished(None);
    assert_eq!(runner.state(), State::StoppedWithError("index out of bounds".to_string()));
    assert_eq!(runner.start(), Ok(()));

    let mut runner = ServiceRunner::new();
    runner.start().unwrap();
    runner.finished(Some("could not set up".to_string()));
    assert_eq!(runner.state(), State::StoppedWithError("could not set up".to_string()));
}

#[test]
fn finished_task_is_shut_down() {
    let mut runner = ServiceRunner::new();
    runner.start().unwrap();
    runner.started();
    runner.stepped(StepOutcome::Finished);
    assert_eq!(runner.state(), State::Stopping);
}

#[test]
fn service_drives_its_task() {
    let mut service = Service::new(Countdown { left: 3, shut_down: false });
    assert_eq!(service.step(1), Err(StepError::NotRunning));
    assert_eq!(service.task.left, 3);
    assert_eq!(service.start(), Ok(()));
    assert_eq!(service.state(), State::Running);
    assert_eq!(service.start(), Err(Error::AlreadyStarted));
    assert_eq!(service.step(1), Ok(true));
    assert_eq!(service.step(5), Err(StepError::Task("cannot take 5 of 2".to_string())));
    assert_eq!(service.state(), State::Running);
    assert_eq!(service.step(2), Ok(false));
    assert_eq!(service.state(), State::Stopped);
    assert!(service.task.shut_down);
}

#[test]
fn stop_and_await_may_be_repeated() {
    let mut service = Service::new(Countdown { left: 3, shut_down: false });
    assert_eq!(service.stop_and_await(), State::Stopped);
    assert!(!service.task.shut_down);
    service.start().unwrap();
    assert_eq!(service.stop_and_await(), State::Stopped);
    assert!(service.task.shut_down);
    assert_eq!(service.stop_and_await(), State::Stopped);

    service.start().unwrap();
    assert_eq!(service.stop(), Ok(()));
    assert_eq!(service.state(), State::Stopping);
    assert_eq!(service.step(1), Err(StepError::NotRunning));
    assert_eq!(service.stop(), Ok(()));
    assert_eq!(service.stop_and_await(), State::Stopped);
    assert_eq!(service.stop(), Err(Error::NotRunning));

    service.start().unwrap();
    service.fail("worker died".to_string());
    assert_eq!(service.stop_and_await(), State::StoppedWithError("worker died".to_string()));
}

#[test]
fn watch_keeps_the_latest_value_only() {
    let mut cell = Watch::new(0u32);
    let mut first = cell.subscribe();
    let mut second = cell.subscribe();
    assert_eq!(cell.send_replace(1), 0);
    assert_eq!(cell.send_replace(2), 1);
    assert_eq!(cell.send_replace(3), 2);
    assert!(cell.has_changed(&first));
    assert_eq!(*cell.borrow_and_update(&mut first), 3);
    assert!(!cell.has_changed(&first));
    assert!(cell.has_changed(&second));
    assert_eq!(*cell.borrow(), 3);
    assert_eq!(*cell.borrow_and_update(&mut second), 3);
    assert!(!cell.has_changed(&second));
}

#[test]
fn uncommitted_result_is_taken_apart_whole() {
    let pair = Uncommitted::new(5u8, EmptyStorage);
    assert_eq!(pair.result(), &5);
    assert_eq!(pair.into_parts(), (5, EmptyStorage));
    assert_eq!(Uncommitted::new(6u8, EmptyStorage).into_result(), 6);
    assert_eq!(Uncommitted::new(6u8, EmptyStorage).into_transaction(), EmptyStorage);
}
