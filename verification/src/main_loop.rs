//! The state of the loop and the step that it takes on each event.
use vstd::prelude::*;
use crate::connection::LibreSpotConnection;
use crate::guarantees::step_preserves_wf;
use crate::model::{LoopView, Outcome};
use crate::protocol::{answers, Effect, Event, PollError, Request, Status, Step, TaskPoll};

verus! {

/// The loop's record of the handle to a spawned hook process.
#[derive(Clone, Copy, Debug, PartialEq, Eq, Structural)]
pub struct HookProcessHandle;

/// The loop's record of the sequence of playback events of a pipeline.
#[derive(Clone, Copy, Debug, PartialEq, Eq, Structural)]
pub struct PlayerEventChannel;

/// The loop's record of the background task of a control server.
#[derive(Clone, Copy, Debug, PartialEq, Eq, Structural)]
pub struct ControlServerTask;

/// What the audio sink is built from.
#[derive(Clone, Debug, PartialEq, Eq)]
pub struct AudioSetup {
    pub audio_device: Option<String>,
}

/// The daemon's own part of the state.
#[derive(Clone, Debug, PartialEq, Eq)]
pub struct SpotifydState {
    /// Set by the first interrupt that asks a remote-control session to shut
    /// down, and never cleared.
    pub shutting_down: bool,
    pub device_name: String,
    pub player_event_channel: Option<PlayerEventChannel>,
    /// The hook program, run once for each playback event.
    pub player_event_program: Option<String>,
    pub dbus_mpris_server: Option<ControlServerTask>,
}

/// The whole state of the loop.
#[derive(Clone, Debug, PartialEq, Eq)]
pub struct MainLoopState {
    pub librespot_connection: LibreSpotConnection,
    pub audio_setup: AudioSetup,
    pub spotifyd_state: SpotifydState,
    pub linear_volume: bool,
    pub running_event_program: Option<HookProcessHandle>,
    /// The request that the loop waits on; none once the loop has ended.
    pub awaiting: Option<Request>,
}

impl View for MainLoopState {
    type V = LoopView;

    open spec fn view(&self) -> LoopView {
        LoopView {
            awaiting: self.awaiting,
            connection: self.librespot_connection@,
            shutting_down: self.spotifyd_state.shutting_down,
            player_events: self.spotifyd_state.player_event_channel is Some,
            hook_program: self.spotifyd_state.player_event_program is Some,
            control_server: self.spotifyd_state.dbus_mpris_server is Some,
            hook_running: self.running_event_program is Some,
        }
    }
}

impl MainLoopState {
    /// A loop about to start its first iteration, with no hook process. It
    /// is well formed if the connection is.
    pub fn new(
        librespot_connection: LibreSpotConnection,
        audio_setup: AudioSetup,
        spotifyd_state: SpotifydState,
        linear_volume: bool,
    ) -> (state: MainLoopState)
        ensures
            state.librespot_connection == librespot_connection,
            state.audio_setup == audio_setup,
            state.spotifyd_state == spotifyd_state,
            state.linear_volume == linear_volume,
            state.running_event_program is None,
            state.awaiting == Some(Request::Credentials),
            state@.wf() <==> librespot_connection@.wf(),
    {
        MainLoopState {
            librespot_connection,
            audio_setup,
            spotifyd_state,
            linear_volume,
            running_event_program: None,
            awaiting: Some(Request::Credentials),
        }
    }

    /// What the loop is configured with, which no step changes.
    pub open spec fn configuration(self) -> (AudioSetup, String, Option<String>, bool) {
        (
            self.audio_setup,
            self.spotifyd_state.device_name,
            self.spotifyd_state.player_event_program,
            self.linear_volume,
        )
    }

    /// An accepted event took the loop from `self` to `after` and gave
    /// `step`, as `outcome` says, and the configuration is as it was.
    spec fn took<C, E>(self, outcome: Outcome<C, E>, after: MainLoopState, step: Step<C, E>) -> bool {
        &&& outcome.state == after@
        &&& outcome.effects == step.effects@
        &&& outcome.status == Ok::<Status, PollError>(step.status)
        &&& after.configuration() == self.configuration()
    }

    fn connect_stage(&self) -> (next: Request)
        ensures
            next == self@.connect_stage(),
    {
        if self.librespot_connection.is_connecting() {
            Request::Connect
        } else {
            Request::Interrupt
        }
    }

    fn control_stage(&self) -> (next: Request)
        ensures
            next == self@.control_stage(),
    {
        if self.spotifyd_state.dbus_mpris_server.is_some() {
            Request::ControlServer
        } else {
            self.connect_stage()
        }
    }

    fn event_stage(&self) -> (next: Request)
        ensures
            next == self@.event_stage(),
    {
        if self.spotifyd_state.player_event_channel.is_some() {
            Request::PlayerEvent
        } else {
            self.control_stage()
        }
    }

    fn hook_stage(&self) -> (next: Request)
        ensures
            next == self@.hook_stage(),
    {
        if self.running_event_program.is_some() {
            Request::HookExit
        } else {
            self.event_stage()
        }
    }

    fn proceed<C, E>(&mut self, next: Request, effects: Vec<Effect<C, E>>) -> (step: Step<C, E>)
        ensures
            *final(self) == (MainLoopState { awaiting: Some(next), ..*old(self) }),
            step.effects == effects,
            step.status == Status::Continue,
    {
        self.awaiting = Some(next);
        Step { effects, status: Status::Continue }
    }

    fn suspend<C, E>(&mut self) -> (step: Step<C, E>)
        ensures
            *final(self) == (MainLoopState {
                awaiting: Some(Request::Credentials),
                ..*old(self)
            }),
            step.effects@ == Seq::<Effect<C, E>>::empty(),
            step.status == Status::NotReady,
    {
        self.awaiting = Some(Request::Credentials);
        Step { effects: Vec::new(), status: Status::NotReady }
    }

    fn finish<C, E>(&mut self) -> (step: Step<C, E>)
        ensures
            *final(self) == (MainLoopState { awaiting: None, ..*old(self) }),
            step.effects@ == Seq::<Effect<C, E>>::empty(),
            step.status == Status::Ready,
    {
        self.awaiting = None;
        Step { effects: Vec::new(), status: Status::Ready }
    }

    fn on_credentials<C, E>(&mut self, credentials: Option<C>) -> (step: Step<C, E>)
        ensures
            old(self).took(old(self)@.on_credentials::<C, E>(credentials), *final(self), step),
    {
        let mut effects: Vec<Effect<C, E>> = Vec::new();
        match credentials {
            Some(c) => {
                if self.librespot_connection.supersede() {
                    effects.push(Effect::ShutdownRemoteControl);
                }
                effects.push(Effect::Connect(c));
            },
            None => {},
        }
        let next = self.hook_stage();
        self.proceed(next, effects)
    }

    fn on_hook_exit<C, E>(&mut self, running: bool) -> (step: Step<C, E>)
        ensures
            old(self).took(old(self)@.on_hook_exit::<C, E>(running), *final(self), step),
    {
        let mut effects: Vec<Effect<C, E>> = Vec::new();
        if self.running_event_program.is_some() && running {
            let next = self.control_stage();
            self.proceed(next, effects)
        } else {
            if self.running_event_program.is_some() {
                self.running_event_program = None;
                effects.push(Effect::ReleaseHook);
            }
            let next = self.event_stage();
            self.proceed(next, effects)
        }
    }

    fn on_player_event<C, E>(&mut self, event: Option<E>) -> (step: Step<C, E>)
        ensures
            old(self).took(old(self)@.on_player_event::<C, E>(event), *final(self), step),
    {
        let mut effects: Vec<Effect<C, E>> = Vec::new();
        match event {
            Some(e) => {
                if self.spotifyd_state.player_event_program.is_some()
                    && self.running_event_program.is_none() {
                    self.running_event_program = Some(HookProcessHandle);
                    effects.push(Effect::SpawnHook(e));
                }
            },
            None => {},
        }
        let next = self.control_stage();
        self.proceed(next, effects)
    }

    fn on_control_server<C, E>(&mut self, poll: TaskPoll) -> (step: Step<C, E>)
        ensures
            old(self).took(old(self)@.on_control_server::<C, E>(poll), *final(self), step),
    {
        let next = self.connect_stage();
        self.proceed(next, Vec::new())
    }

    fn on_connect<C, E>(&mut self, ready: bool) -> (step: Step<C, E>)
        ensures
            old(self).took(old(self)@.on_connect::<C, E>(ready), *final(self), step),
    {
        if ready {
            self.librespot_connection.resolve();
            self.proceed(Request::Wiring, Vec::new())
        } else {
            self.proceed(Request::Interrupt, Vec::new())
        }
    }

    fn on_wired<C, E>(&mut self, control_server: bool) -> (step: Step<C, E>)
        ensures
            old(self).took(old(self)@.on_wired::<C, E>(control_server), *final(self), step),
    {
        self.librespot_connection.attach();
        self.spotifyd_state.player_event_channel = Some(PlayerEventChannel);
        self.spotifyd_state.dbus_mpris_server = if control_server {
            Some(ControlServerTask)
        } else {
            None
        };
        self.proceed(Request::Credentials, Vec::new())
    }

    fn await_task<C, E>(&mut self) -> (step: Step<C, E>)
        ensures
            old(self).took(old(self)@.await_task::<C, E>(), *final(self), step),
    {
        if self.librespot_connection.has_task() {
            self.proceed(Request::RemoteControlTask, Vec::new())
        } else {
            self.suspend()
        }
    }

    fn on_interrupt<C, E>(&mut self, signalled: bool) -> (step: Step<C, E>)
        ensures
            old(self).took(old(self)@.on_interrupt::<C, E>(signalled), *final(self), step),
    {
        if signalled && !self.spotifyd_state.shutting_down {
            if self.librespot_connection.request_shutdown() {
                self.spotifyd_state.shutting_down = true;
                let mut effects: Vec<Effect<C, E>> = Vec::new();
                effects.push(Effect::ShutdownRemoteControl);
                self.proceed(Request::Credentials, effects)
            } else {
                self.finish()
            }
        } else {
            self.await_task()
        }
    }

    fn on_remote_control_task<C, E>(&mut self, finished: bool) -> (step: Step<C, E>)
        ensures
            old(self).took(old(self)@.on_remote_control_task::<C, E>(finished), *final(self), step),
    {
        if finished {
            self.finish()
        } else {
            self.suspend()
        }
    }

    /// Takes the driver's answer to the request that the loop waits on.
    ///
    /// An event that answers it is accepted: the loop moves on as
    /// [`LoopView::step`] says, and the effects and the status of that step
    /// are returned. Any other event is turned away with
    /// [`PollError::Unexpected`], and every event with [`PollError::Finished`]
    /// once the loop has ended; the loop is then unchanged. No step changes
    /// what the loop is configured with.
    pub fn poll<C, E>(&mut self, event: Event<C, E>) -> (result: Result<Step<C, E>, PollError>)
        ensures
            final(self)@ == old(self)@.step(event).state,
            final(self).configuration() == old(self).configuration(),
            old(self)@.wf() ==> final(self)@.wf(),
            match result {
                Ok(step) => {
                    &&& old(self).awaiting matches Some(request) && answers(event, request)
                    &&& step.effects@ == old(self)@.step(event).effects
                    &&& old(self)@.step(event).status == Ok::<Status, PollError>(step.status)
                },
                Err(PollError::Finished) => {
                    &&& old(self).awaiting is None
                    &&& *final(self) == *old(self)
                },
                Err(PollError::Unexpected) => {
                    &&& old(self).awaiting matches Some(request) && !answers(event, request)
                    &&& *final(self) == *old(self)
                },
            },
    {
        proof {
            if self@.wf() {
                step_preserves_wf(self@, event);
            }
        }
        let request = match self.awaiting {
            Some(request) => request,
            None => {
                return Err(PollError::Finished);
            },
        };
        if event.request() != request {
            return Err(PollError::Unexpected);
        }
        let step = match event {
            Event::Credentials(credentials) => self.on_credentials(credentials),
            Event::HookExit { running } => self.on_hook_exit(running),
            Event::PlayerEvent(event) => self.on_player_event(event),
            Event::ControlServer(poll) => self.on_control_server(poll),
            Event::Connect { ready } => self.on_connect(ready),
            Event::Wired { control_server } => self.on_wired(control_server),
            Event::Interrupt { signalled } => self.on_interrupt(signalled),
            Event::RemoteControlTask { finished } => self.on_remote_control_task(finished),
        };
        Ok(step)
    }
}

} // verus!
