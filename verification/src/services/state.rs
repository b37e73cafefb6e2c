//! The states that a service runs through.

use vstd::prelude::*;

verus! {

/// The state of a service. A service rests in `Stopped`, is started into
/// `Starting`, runs in `Running`, is told to stop into `Stopping` and comes
/// to rest again in `Stopped`, or in `StoppedWithError` where it broke.
#[derive(Clone, Debug, PartialEq, Eq)]
pub enum State {
    /// The service rests.
    Stopped,
    /// The service was told to start and is not running yet.
    Starting,
    /// The service runs.
    Running,
    /// The service was told to stop and is not at rest yet.
    Stopping,
    /// The service broke and rests; the text says why.
    StoppedWithError(String),
}

/// What a state is, as mathematics.
pub enum StateView {
    Stopped,
    Starting,
    Running,
    Stopping,
    StoppedWithError(Seq<char>),
}

impl View for State {
    type V = StateView;

    open spec fn view(&self) -> StateView {
        match *self {
            State::Stopped => StateView::Stopped,
            State::Starting => StateView::Starting,
            State::Running => StateView::Running,
            State::Stopping => StateView::Stopping,
            State::StoppedWithError(cause) => StateView::StoppedWithError(cause@),
        }
    }
}

impl StateView {
    /// The service rests, broken or not.
    pub open spec fn is_at_rest(self) -> bool {
        self is Stopped || self is StoppedWithError
    }
}

impl State {
    /// Whether the service rests without having broken.
    pub fn stopped(&self) -> (b: bool)
        ensures
            b == (self@ is Stopped),
    {
        match self {
            State::Stopped => true,
            _ => false,
        }
    }

    /// Whether the service rests, broken or not.
    pub fn at_rest(&self) -> (b: bool)
        ensures
            b == self@.is_at_rest(),
    {
        match self {
            State::Stopped => true,
            State::StoppedWithError(_) => true,
            _ => false,
        }
    }

    /// Whether the service was told to start and is not running yet.
    pub fn starting(&self) -> (b: bool)
        ensures
            b == (self@ is Starting),
    {
        match self {
            State::Starting => true,
            _ => false,
        }
    }

    /// Whether the service runs.
    pub fn running(&self) -> (b: bool)
        ensures
            b == (self@ is Running),
    {
        match self {
            State::Running => true,
            _ => false,
        }
    }

    /// Whether the service was told to stop and is not at rest yet.
    pub fn stopping(&self) -> (b: bool)
        ensures
            b == (self@ is Stopping),
    {
        match self {
            State::Stopping => true,
            _ => false,
        }
    }

    /// A copy of the state.
    pub fn duplicate(&self) -> (copy: Self)
        ensures
            copy@ == self@,
    {
        match self {
            State::Stopped => State::Stopped,
            State::Starting => State::Starting,
            State::Running => State::Running,
            State::Stopping => State::Stopping,
            State::StoppedWithError(cause) => State::StoppedWithError(cause.clone()),
        }
    }
}

} // verus!
