//! What the loop and its driver say to each other.
use vstd::prelude::*;

verus! {

/// What the loop asks its driver for next. Every request is non-blocking.
#[derive(Clone, Copy, Debug, PartialEq, Eq, Structural)]
pub enum Request {
    /// Poll the credential source.
    Credentials,
    /// Check whether the running hook process has exited.
    HookExit,
    /// Retrieve the next playback event.
    PlayerEvent,
    /// Poll the control server task once.
    ControlServer,
    /// Poll the pending connect operation.
    Connect,
    /// Build the playback pipeline and the remote-control session on the
    /// session that the connect operation resolved to.
    Wiring,
    /// Poll the interrupt source.
    Interrupt,
    /// Check whether the remote-control task has completed.
    RemoteControlTask,
}

impl Request {
    /// The place of a request in an iteration of the loop: what comes
    /// earlier is asked for earlier.
    pub open spec fn rank(self) -> nat {
        match self {
            Request::Credentials => 0,
            Request::HookExit => 1,
            Request::PlayerEvent => 2,
            Request::ControlServer => 3,
            Request::Connect => 4,
            Request::Wiring => 5,
            Request::Interrupt => 6,
            Request::RemoteControlTask => 7,
        }
    }
}

/// How one poll of a background task ended.
#[derive(Clone, Copy, Debug, PartialEq, Eq, Structural)]
pub enum TaskPoll {
    Pending,
    Finished,
    Failed,
}

/// The driver's answer to a [`Request`]. `C` is a credential set and `E` a
/// playback event; the loop passes both on without looking inside.
#[derive(Debug, PartialEq, Eq)]
pub enum Event<C, E> {
    /// A new credential set, if one is available.
    Credentials(Option<C>),
    /// Whether the hook process is still running. Its handle is let go only
    /// on the answer that it is not.
    HookExit { running: bool },
    /// The next playback event, if one is available.
    PlayerEvent(Option<E>),
    /// The control server task was polled.
    ControlServer(TaskPoll),
    /// Whether the connect operation has resolved to a session.
    Connect { ready: bool },
    /// The pipeline and the remote-control session are built;
    /// `control_server` says whether a control server task came with them.
    Wired { control_server: bool },
    /// Whether a new interrupt notification is there.
    Interrupt { signalled: bool },
    /// Whether the remote-control task has completed.
    RemoteControlTask { finished: bool },
}

/// Something the driver carries out without reporting back.
#[derive(Debug, PartialEq, Eq)]
pub enum Effect<C, E> {
    /// Ask the held remote-control session to shut down. The request is not
    /// awaited, and the session takes duplicates.
    ShutdownRemoteControl,
    /// Start a connect operation with these credentials. It takes the place
    /// of the outstanding one, which is abandoned.
    Connect(C),
    /// Spawn the hook program for this playback event and hold its handle.
    SpawnHook(E),
    /// Let go of the handle of the hook process, which is no longer running.
    ReleaseHook,
}

/// What the driver does once the effects of a step are carried out.
#[derive(Clone, Copy, Debug, PartialEq, Eq, Structural)]
pub enum Status {
    /// Answer the request the loop is now waiting on.
    Continue,
    /// No source had anything: suspend until one of them wakes the driver,
    /// then answer the request the loop is waiting on.
    NotReady,
    /// The loop has ended successfully.
    Ready,
}

/// Why an event was turned away. The loop is unchanged by such an event.
#[derive(Clone, Copy, Debug, PartialEq, Eq, Structural)]
pub enum PollError {
    /// The event does not answer the request the loop is waiting on.
    Unexpected,
    /// The loop has ended.
    Finished,
}

/// What one accepted event leads to.
#[derive(Debug, PartialEq, Eq)]
pub struct Step<C, E> {
    /// To be carried out in this order.
    pub effects: Vec<Effect<C, E>>,
    pub status: Status,
}

/// Whether `event` is an answer to `request`.
pub open spec fn answers<C, E>(event: Event<C, E>, request: Request) -> bool {
    match event {
        Event::Credentials(_) => request == Request::Credentials,
        Event::HookExit { .. } => request == Request::HookExit,
        Event::PlayerEvent(_) => request == Request::PlayerEvent,
        Event::ControlServer(_) => request == Request::ControlServer,
        Event::Connect { .. } => request == Request::Connect,
        Event::Wired { .. } => request == Request::Wiring,
        Event::Interrupt { .. } => request == Request::Interrupt,
        Event::RemoteControlTask { .. } => request == Request::RemoteControlTask,
    }
}

impl<C, E> Event<C, E> {
    /// The request that this event answers.
    pub fn request(&self) -> (r: Request)
        ensures
            answers(*self, r),
            forall|q: Request| answers(*self, q) ==> q == r,
    {
        match self {
            Event::Credentials(_) => Request::Credentials,
            Event::HookExit { .. } => Request::HookExit,
            Event::PlayerEvent(_) => Request::PlayerEvent,
            Event::ControlServer(_) => Request::ControlServer,
            Event::Connect { .. } => Request::Connect,
            Event::Wired { .. } => Request::Wiring,
            Event::Interrupt { .. } => Request::Interrupt,
            Event::RemoteControlTask { .. } => Request::RemoteControlTask,
        }
    }
}

} // verus!
