//! Session configuration and the shutdown coordinator.
//!
//! Exit policy: after the stop signal has been sent, the coordinator waits for
//! the persistence consumer to drain the pipeline before the session is over,
//! so records already enqueued when the interrupt arrives are all written.
use crate::device::Device;
use vstd::prelude::*;

verus! {

#[derive(Clone, Copy, Debug, PartialEq, Eq, Structural)]
pub enum SessionError {
    /// The platform could not list the capture devices.
    Enumeration,
    /// The selected device is missing or has an empty name.
    InvalidSelection,
    /// The capture session could not open the device.
    Start,
    /// The stop signal could not be delivered.
    ShutdownSignal,
}

/// The options of one capture session: the selected device; every other
/// capture-engine option keeps the engine's default.
pub struct SessionConfig {
    device_name: String,
}

impl SessionConfig {
    pub closed spec fn spec_device_name(&self) -> Seq<char> {
        self.device_name@
    }

    pub fn device_name(&self) -> (r: &String)
        ensures
            r@ == self.spec_device_name(),
    {
        &self.device_name
    }
}

/// Builds the configuration for a device name; the name must not be empty.
pub fn build_config(device_name: String) -> (r: Result<SessionConfig, SessionError>)
    ensures
        r is Ok <==> device_name@.len() > 0,
        r matches Ok(c) ==> c.spec_device_name() == device_name@,
        r is Err ==> r == Err::<SessionConfig, SessionError>(SessionError::InvalidSelection),
{
    if device_name.as_str().is_empty() {
        Err(SessionError::InvalidSelection)
    } else {
        Ok(SessionConfig { device_name })
    }
}

/// Builds the configuration for the device at `index` of the catalog.
pub fn select_device(devices: &Vec<Device>, index: usize) -> (r: Result<
    SessionConfig,
    SessionError,
>)
    ensures
        r is Ok <==> index < devices.len() && devices[index as int].name@.len() > 0,
        r matches Ok(c) ==> c.spec_device_name() == devices[index as int].name@,
        r is Err ==> r == Err::<SessionConfig, SessionError>(SessionError::InvalidSelection),
{
    if index >= devices.len() {
        return Err(SessionError::InvalidSelection);
    }
    build_config(devices[index].name.clone())
}

#[derive(Clone, Copy, Debug, PartialEq, Eq, Structural)]
pub enum CoordinatorPhase {
    /// Capturing; the consumer has been launched.
    Running,
    /// The interrupt arrived and the stop signal is being sent.
    ShuttingDown,
    /// The stop signal went out; the consumer is draining the pipeline.
    Draining,
    /// The consumer finished; the session is over.
    Stopped,
}

#[derive(Clone, Copy, Debug, PartialEq, Eq, Structural)]
pub enum CoordinatorEvent {
    /// The operator interrupt (Ctrl-C).
    Interrupt,
    /// The stop signal was sent; `false` where the handle was already closed.
    StopSent(bool),
    /// The persistence consumer has ended.
    Drained,
}

#[derive(Clone, Copy, Debug, PartialEq, Eq, Structural)]
pub enum CoordinatorAction {
    /// Signal the shutdown handle.
    SendStop,
    /// Wait for the persistence consumer to end.
    AwaitDrain,
    /// The session is over; its outcome is `Coordinator::outcome`.
    Exit,
    /// The event does not apply in the current phase; nothing changes.
    Ignore,
}

pub struct Coordinator {
    phase: CoordinatorPhase,
    signal_failed: bool,
    stops_sent: Ghost<nat>,
}

pub struct CoordinatorView {
    pub phase: CoordinatorPhase,
    /// The stop signal could not be delivered.
    pub signal_failed: bool,
    /// How many times the coordinator asked for the stop signal.
    pub stops_sent: nat,
}

impl View for Coordinator {
    type V = CoordinatorView;

    closed spec fn view(&self) -> CoordinatorView {
        CoordinatorView {
            phase: self.phase,
            signal_failed: self.signal_failed,
            stops_sent: self.stops_sent@,
        }
    }
}

/// The stop signal is asked for once, on leaving `Running`.
pub open spec fn coordinator_wf(s: CoordinatorView) -> bool {
    s.stops_sent == (if s.phase == CoordinatorPhase::Running {
        0nat
    } else {
        1nat
    })
}

pub open spec fn coordinator_step(s: CoordinatorView, e: CoordinatorEvent) -> (
    CoordinatorView,
    CoordinatorAction,
) {
    match (s.phase, e) {
        (CoordinatorPhase::Running, CoordinatorEvent::Interrupt) => (
            CoordinatorView {
                phase: CoordinatorPhase::ShuttingDown,
                stops_sent: s.stops_sent + 1,
                ..s
            },
            CoordinatorAction::SendStop,
        ),
        (CoordinatorPhase::ShuttingDown, CoordinatorEvent::StopSent(delivered)) => (
            CoordinatorView { phase: CoordinatorPhase::Draining, signal_failed: !delivered, ..s },
            CoordinatorAction::AwaitDrain,
        ),
        (CoordinatorPhase::Draining, CoordinatorEvent::Drained) => (
            CoordinatorView { phase: CoordinatorPhase::Stopped, ..s },
            CoordinatorAction::Exit,
        ),
        _ => (s, CoordinatorAction::Ignore),
    }
}

/// Signalling shutdown is idempotent: once an interrupt has been handled, a
/// second one changes nothing and asks for no second stop signal, and in no
/// reachable state has the stop signal been asked for more than once.
pub proof fn lemma_interrupt_idempotent(s: CoordinatorView)
    requires
        coordinator_wf(s),
    ensures
        ({
            let (s1, _) = coordinator_step(s, CoordinatorEvent::Interrupt);
            let (s2, a2) = coordinator_step(s1, CoordinatorEvent::Interrupt);
            s2 == s1 && a2 == CoordinatorAction::Ignore && s2.stops_sent <= 1
        }),
{
}

/// Every event keeps the coordinator well formed.
pub proof fn lemma_coordinator_step_wf(s: CoordinatorView, e: CoordinatorEvent)
    requires
        coordinator_wf(s),
    ensures
        coordinator_wf(coordinator_step(s, e).0),
        coordinator_step(s, e).0.stops_sent <= 1,
{
}

impl Coordinator {
    /// Enters `Running` where the capture session started; otherwise the
    /// session fails with `Start` and no consumer is to be launched.
    pub fn start(started: bool) -> (r: Result<Coordinator, SessionError>)
        ensures
            r is Ok <==> started,
            r matches Ok(c) ==> c@ == (CoordinatorView {
                phase: CoordinatorPhase::Running,
                signal_failed: false,
                stops_sent: 0,
            }),
            r matches Err(e) ==> e == SessionError::Start,
    {
        if started {
            Ok(Coordinator { phase: CoordinatorPhase::Running, signal_failed: false, stops_sent: Ghost(0) })
        } else {
            Err(SessionError::Start)
        }
    }

    pub fn phase(&self) -> (r: CoordinatorPhase)
        ensures
            r == self@.phase,
    {
        self.phase
    }

    /// Applies one event and returns the action to perform.
    pub fn handle(&mut self, event: CoordinatorEvent) -> (a: CoordinatorAction)
        requires
            coordinator_wf(old(self)@),
        ensures
            coordinator_wf(final(self)@),
            (final(self)@, a) == coordinator_step(old(self)@, event),
    {
        match (self.phase, event) {
            (CoordinatorPhase::Running, CoordinatorEvent::Interrupt) => {
                self.phase = CoordinatorPhase::ShuttingDown;
                self.stops_sent = Ghost(self.stops_sent@ + 1);
                CoordinatorAction::SendStop
            },
            (CoordinatorPhase::ShuttingDown, CoordinatorEvent::StopSent(delivered)) => {
                self.phase = CoordinatorPhase::Draining;
                self.signal_failed = !delivered;
                CoordinatorAction::AwaitDrain
            },
            (CoordinatorPhase::Draining, CoordinatorEvent::Drained) => {
                self.phase = CoordinatorPhase::Stopped;
                CoordinatorAction::Exit
            },
            _ => CoordinatorAction::Ignore,
        }
    }

    /// The outcome of the session: an error where the stop signal could not
    /// be delivered.
    pub fn outcome(&self) -> (r: Result<(), SessionError>)
        ensures
            r is Ok <==> !self@.signal_failed,
            r matches Err(e) ==> e == SessionError::ShutdownSignal,
    {
        if self.signal_failed {
            Err(SessionError::ShutdownSignal)
        } else {
            Ok(())
        }
    }
}

} // verus!
