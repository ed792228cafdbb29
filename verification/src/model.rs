//! The loop as a transition system: what a state of the loop is to its
//! decisions, and what each event leads to.
use vstd::prelude::*;
use crate::protocol::{answers, Effect, Event, PollError, Request, Status, TaskPoll};

verus! {

/// The loop's record of the shared handle to a remote-control session.
#[derive(Clone, Copy, Debug, PartialEq, Eq, Structural)]
pub struct RemoteControlHandle {
    /// Whether the loop has asked this session to shut down. Once set it
    /// stays set.
    pub shutdown_requested: bool,
}

/// What the session connector and the remote-control session are to the
/// loop's decisions.
pub struct ConnectionView {
    /// A connect operation is in flight.
    pub connecting: bool,
    /// The remote-control session that the loop holds, with its task.
    pub remote_control: Option<RemoteControlHandle>,
}

/// What a state of the loop is to its decisions.
pub struct LoopView {
    /// The request that the loop is waiting on; none once the loop has ended.
    pub awaiting: Option<Request>,
    pub connection: ConnectionView,
    /// An interrupt has been acted on.
    pub shutting_down: bool,
    /// A sequence of playback events exists.
    pub player_events: bool,
    /// A hook program is configured.
    pub hook_program: bool,
    /// A control server task exists.
    pub control_server: bool,
    /// A hook process is held.
    pub hook_running: bool,
}

/// What an event leads to: the next state, the effects in order, and what
/// the driver is told.
pub struct Outcome<C, E> {
    pub state: LoopView,
    pub effects: Seq<Effect<C, E>>,
    pub status: Result<Status, PollError>,
}

impl ConnectionView {
    /// The held session, if any, has been asked to shut down.
    pub open spec fn request_shutdown(self) -> ConnectionView {
        ConnectionView {
            remote_control: match self.remote_control {
                Some(_) => Some(RemoteControlHandle { shutdown_requested: true }),
                None => None,
            },
            ..self
        }
    }

    /// A new connect operation takes the place of the outstanding one, and
    /// the held session has been asked to shut down.
    pub open spec fn supersede(self) -> ConnectionView {
        ConnectionView { connecting: true, ..self.request_shutdown() }
    }

    /// The connect operation has resolved; what stands in its place never
    /// resolves.
    pub open spec fn resolve(self) -> ConnectionView {
        ConnectionView { connecting: false, ..self }
    }

    /// A fresh remote-control session and its task take the place of the
    /// held pair. They are built on a session, so no connect operation is in
    /// flight.
    pub open spec fn attach(self) -> ConnectionView {
        ConnectionView {
            connecting: false,
            remote_control: Some(RemoteControlHandle { shutdown_requested: false }),
        }
    }

    /// A session that a connect operation in flight will replace has been
    /// asked to shut down.
    pub open spec fn wf(self) -> bool {
        self.connecting ==> (self.remote_control matches Some(handle)
            ==> handle.shutdown_requested)
    }
}

impl LoopView {
    /// The first request of the hook supervisor's turn.
    pub open spec fn hook_stage(self) -> Request {
        if self.hook_running {
            Request::HookExit
        } else {
            self.event_stage()
        }
    }

    /// The request that follows when no hook process is held.
    pub open spec fn event_stage(self) -> Request {
        if self.player_events {
            Request::PlayerEvent
        } else {
            self.control_stage()
        }
    }

    /// The request that follows the hook supervisor's turn.
    pub open spec fn control_stage(self) -> Request {
        if self.control_server {
            Request::ControlServer
        } else {
            self.connect_stage()
        }
    }

    /// The first request of the branches. Without a connect operation in
    /// flight there is nothing to poll, and the interrupt source is next.
    pub open spec fn connect_stage(self) -> Request {
        if self.connection.connecting {
            Request::Connect
        } else {
            Request::Interrupt
        }
    }

    /// The loop goes on with `next`.
    pub open spec fn proceed<C, E>(self, next: Request, effects: Seq<Effect<C, E>>) -> Outcome<
        C,
        E,
    > {
        Outcome {
            state: LoopView { awaiting: Some(next), ..self },
            effects,
            status: Ok(Status::Continue),
        }
    }

    /// Nothing was ready: the loop suspends, and starts over when woken.
    pub open spec fn suspend<C, E>(self) -> Outcome<C, E> {
        Outcome {
            state: LoopView { awaiting: Some(Request::Credentials), ..self },
            effects: Seq::empty(),
            status: Ok(Status::NotReady),
        }
    }

    /// The loop ends successfully.
    pub open spec fn finish<C, E>(self) -> Outcome<C, E> {
        Outcome {
            state: LoopView { awaiting: None, ..self },
            effects: Seq::empty(),
            status: Ok(Status::Ready),
        }
    }

    /// The event is turned away and nothing changes.
    pub open spec fn reject<C, E>(self, error: PollError) -> Outcome<C, E> {
        Outcome { state: self, effects: Seq::empty(), status: Err(error) }
    }

    /// The request to shut down the held remote-control session, if one is
    /// held.
    pub open spec fn shutdown_effects<C, E>(self) -> Seq<Effect<C, E>> {
        if self.connection.remote_control is Some {
            seq![Effect::ShutdownRemoteControl]
        } else {
            Seq::empty()
        }
    }

    /// New credentials supersede: the held session is asked to shut down, and
    /// a connect operation with them replaces the outstanding one. Then the
    /// hook supervisor has its turn.
    pub open spec fn on_credentials<C, E>(self, credentials: Option<C>) -> Outcome<C, E> {
        match credentials {
            Some(c) => {
                let s = LoopView { connection: self.connection.supersede(), ..self };
                s.proceed(s.hook_stage(), self.shutdown_effects().push(Effect::Connect(c)))
            },
            None => self.proceed(self.hook_stage(), Seq::empty()),
        }
    }

    /// A hook process that still runs is kept, and no playback event is
    /// taken in this iteration. Otherwise its handle is let go, and the next
    /// playback event may be taken at once.
    pub open spec fn on_hook_exit<C, E>(self, running: bool) -> Outcome<C, E> {
        if self.hook_running && running {
            self.proceed(self.control_stage(), Seq::empty())
        } else {
            let s = LoopView { hook_running: false, ..self };
            let effects = if self.hook_running {
                seq![Effect::ReleaseHook]
            } else {
                Seq::empty()
            };
            s.proceed(s.event_stage(), effects)
        }
    }

    /// A playback event starts one hook process where a hook program is
    /// configured and no hook process is held; otherwise the event is
    /// dropped.
    pub open spec fn on_player_event<C, E>(self, event: Option<E>) -> Outcome<C, E> {
        match event {
            Some(e) if self.hook_program && !self.hook_running => {
                let s = LoopView { hook_running: true, ..self };
                s.proceed(s.control_stage(), seq![Effect::SpawnHook(e)])
            },
            _ => self.proceed(self.control_stage(), Seq::empty()),
        }
    }

    /// However the poll of the control server ended, the loop goes on.
    pub open spec fn on_control_server<C, E>(self, poll: TaskPoll) -> Outcome<C, E> {
        self.proceed(self.connect_stage(), Seq::empty())
    }

    /// A resolved connect operation is wired next; an unresolved one leaves
    /// the turn to the interrupt source.
    pub open spec fn on_connect<C, E>(self, ready: bool) -> Outcome<C, E> {
        if ready {
            let s = LoopView { connection: self.connection.resolve(), ..self };
            s.proceed(Request::Wiring, Seq::empty())
        } else {
            self.proceed(Request::Interrupt, Seq::empty())
        }
    }

    /// The new pipeline and remote-control session replace what was held,
    /// and the loop starts over, since they may have work at once.
    pub open spec fn on_wired<C, E>(self, control_server: bool) -> Outcome<C, E> {
        let s = LoopView {
            connection: self.connection.attach(),
            player_events: true,
            control_server,
            ..self
        };
        s.proceed(Request::Credentials, Seq::empty())
    }

    /// The first request after the interrupt source had nothing to act on.
    pub open spec fn await_task<C, E>(self) -> Outcome<C, E> {
        if self.connection.remote_control is Some {
            self.proceed(Request::RemoteControlTask, Seq::empty())
        } else {
            self.suspend()
        }
    }

    /// The first interrupt asks the held remote-control session to shut
    /// down, or ends the loop where none is held. Later ones do nothing.
    pub open spec fn on_interrupt<C, E>(self, signalled: bool) -> Outcome<C, E> {
        if signalled && !self.shutting_down {
            if self.connection.remote_control is Some {
                let s = LoopView {
                    connection: self.connection.request_shutdown(),
                    shutting_down: true,
                    ..self
                };
                s.proceed(Request::Credentials, seq![Effect::ShutdownRemoteControl])
            } else {
                self.finish()
            }
        } else {
            self.await_task()
        }
    }

    /// The loop ends when the remote-control task has completed.
    pub open spec fn on_remote_control_task<C, E>(self, finished: bool) -> Outcome<C, E> {
        if finished {
            self.finish()
        } else {
            self.suspend()
        }
    }

    /// What `event` leads to in this state.
    pub open spec fn step<C, E>(self, event: Event<C, E>) -> Outcome<C, E> {
        match self.awaiting {
            None => self.reject(PollError::Finished),
            Some(request) => if !answers(event, request) {
                self.reject(PollError::Unexpected)
            } else {
                match event {
                    Event::Credentials(credentials) => self.on_credentials(credentials),
                    Event::HookExit { running } => self.on_hook_exit(running),
                    Event::PlayerEvent(event) => self.on_player_event(event),
                    Event::ControlServer(poll) => self.on_control_server(poll),
                    Event::Connect { ready } => self.on_connect(ready),
                    Event::Wired { control_server } => self.on_wired(control_server),
                    Event::Interrupt { signalled } => self.on_interrupt(signalled),
                    Event::RemoteControlTask { finished } => self.on_remote_control_task(
                        finished,
                    ),
                }
            },
        }
    }

    /// The request that the loop waits on fits what it holds, and a session
    /// that is about to be replaced has been asked to shut down.
    pub open spec fn wf(self) -> bool {
        &&& self.awaiting == Some(Request::HookExit) ==> self.hook_running
        &&& self.awaiting == Some(Request::PlayerEvent) ==> !self.hook_running
            && self.player_events
        &&& self.awaiting == Some(Request::ControlServer) ==> self.control_server
        &&& self.awaiting == Some(Request::Connect) ==> self.connection.connecting
        &&& self.awaiting == Some(Request::Wiring) ==> !self.connection.connecting
        &&& self.awaiting == Some(Request::RemoteControlTask)
            ==> self.connection.remote_control is Some
        &&& self.connection.wf()
        &&& self.awaiting == Some(Request::Wiring) ==> (self.connection.remote_control matches Some(
            handle,
        ) ==> handle.shutdown_requested)
    }
}

} // verus!
