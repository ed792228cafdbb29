use spotifyd::connection::{Connection, LibreSpotConnection};
use spotifyd::main_loop::{AudioSetup, HookProcessHandle, MainLoopState, SpotifydState};
use spotifyd::protocol::{Effect, Event, PollError, Request, Status};

type Ev = Event<u8, String>;
type Fx = Effect<u8, String>;

fn playing(program: Option<&str>) -> MainLoopState {
    let mut state = MainLoopState::new(
        LibreSpotConnection::new(Connection::Pending),
        AudioSetup { audio_device: None },
        SpotifydState {
            shutting_down: false,
            device_name: String::from("den"),
            player_event_channel: None,
            player_event_program: program.map(String::from),
            dbus_mpris_server: None,
        },
        false,
    );
    feed(&mut state, vec![
        Event::Credentials(None),
        Event::Connect { ready: true },
        Event::Wired { control_server: false },
    ]);
    state
}

fn feed(state: &mut MainLoopState, events: Vec<Ev>) -> Vec<Fx> {
    let mut effects = Vec::new();
    for event in events {
        effects.extend(state.poll(event).unwrap().effects);
    }
    effects
}

fn live_after(effects: &[Fx]) -> Vec<i32> {
    let mut live = 0;
    effects
        .iter()
        .map(|effect| {
            match effect {
                Effect::SpawnHook(_) => live += 1,
                Effect::ReleaseHook => live -= 1,
                _ => {}
            }
            live
        })
        .collect()
}

#[test]
fn one_spawn_for_each_event_in_order_of_arrival() {
    let mut state = playing(Some("on_event"));
    let names = ["start", "change", "stop", "volume"];
    let mut effects = Vec::new();
    for name in names {
        effects.extend(feed(&mut state, vec![Event::Credentials(None)]));
        if state.awaiting == Some(Request::HookExit) {
            effects.extend(feed(&mut state, vec![Event::HookExit { running: false }]));
        }
        assert_eq!(state.awaiting, Some(Request::PlayerEvent));
        effects.extend(feed(&mut state, vec![
            Event::PlayerEvent(Some(String::from(name))),
            Event::Interrupt { signalled: false },
            Event::RemoteControlTask { finished: false },
        ]));
    }
    assert_eq!(effects, vec![
        Effect::SpawnHook(String::from("start")),
        Effect::ReleaseHook,
        Effect::SpawnHook(String::from("change")),
        Effect::ReleaseHook,
        Effect::SpawnHook(String::from("stop")),
        Effect::ReleaseHook,
        Effect::SpawnHook(String::from("volume")),
    ]);
    assert_eq!(live_after(&effects), vec![1, 0, 1, 0, 1, 0, 1]);
    assert_eq!(state.running_event_program, Some(HookProcessHandle));
}

#[test]
fn never_two_hook_processes() {
    let mut state = playing(Some("on_event"));
    let mut effects = Vec::new();
    let mut event = 0u8;
    for round in 0..40u32 {
        effects.extend(feed(&mut state, vec![Event::Credentials(None)]));
        if state.awaiting == Some(Request::HookExit) {
            let running = round % 3 != 0;
            effects.extend(feed(&mut state, vec![Event::HookExit { running }]));
        }
        if state.awaiting == Some(Request::PlayerEvent) {
            let next = if round % 2 == 0 {
                event += 1;
                Some(format!("event {}", event))
            } else {
                None
            };
            effects.extend(feed(&mut state, vec![Event::PlayerEvent(next)]));
        }
        effects.extend(feed(&mut state, vec![
            Event::Interrupt { signalled: false },
            Event::RemoteControlTask { finished: false },
        ]));
    }
    let live = live_after(&effects);
    assert!(!live.is_empty());
    assert!(live.iter().all(|n| *n == 0 || *n == 1));
    assert_eq!(*live.last().unwrap() == 1, state.running_event_program.is_some());
}

#[test]
fn without_a_hook_program_an_event_is_dropped() {
    let mut state = playing(None);
    let effects = feed(&mut state, vec![
        Event::Credentials(None),
        Event::PlayerEvent(Some(String::from("start"))),
    ]);
    assert_eq!(effects, vec![]);
    assert_eq!(state.running_event_program, None);
    assert_eq!(state.awaiting, Some(Request::Interrupt));
    // The next event is asked for in the next iteration.
    feed(&mut state, vec![
        Event::Interrupt { signalled: false },
        Event::RemoteControlTask { finished: false },
        Event::Credentials(None),
    ]);
    assert_eq!(state.awaiting, Some(Request::PlayerEvent));
}

#[test]
fn without_playback_events_the_supervisor_only_reaps() {
    let mut state = MainLoopState::new(
        LibreSpotConnection::new(Connection::Idle),
        AudioSetup { audio_device: None },
        SpotifydState {
            shutting_down: false,
            device_name: String::from("den"),
            player_event_channel: None,
            player_event_program: Some(String::from("on_event")),
            dbus_mpris_server: None,
        },
        false,
    );
    state.running_event_program = Some(HookProcessHandle);
    let effects = feed(&mut state, vec![Event::Credentials(None)]);
    assert_eq!(effects, vec![]);
    assert_eq!(state.awaiting, Some(Request::HookExit));
    let effects = feed(&mut state, vec![Event::HookExit { running: false }]);
    assert_eq!(effects, vec![Effect::ReleaseHook]);
    assert_eq!(state.running_event_program, None);
    assert_eq!(state.awaiting, Some(Request::Interrupt));
}

#[test]
fn a_running_hook_keeps_the_next_event_waiting() {
    let mut state = playing(Some("on_event"));
    feed(&mut state, vec![
        Event::Credentials(None),
        Event::PlayerEvent(Some(String::from("start"))),
        Event::Interrupt { signalled: false },
        Event::RemoteControlTask { finished: false },
        Event::Credentials(None),
    ]);
    assert_eq!(state.awaiting, Some(Request::HookExit));
    let step = state.poll(Ev::HookExit { running: true }).unwrap();
    assert_eq!(step.effects, vec![]);
    assert_eq!(step.status, Status::Continue);
    assert_eq!(state.running_event_program, Some(HookProcessHandle));
    assert_eq!(state.awaiting, Some(Request::Interrupt));
    assert_eq!(
        state.poll(Ev::PlayerEvent(Some(String::from("change")))),
        Err(PollError::Unexpected)
    );
}

#[test]
fn a_report_of_a_hook_that_is_not_held_releases_nothing() {
    let mut state = playing(Some("on_event"));
    state.awaiting = Some(Request::HookExit);
    let effects = feed(&mut state, vec![Event::HookExit { running: true }]);
    assert_eq!(effects, vec![]);
    assert_eq!(state.running_event_program, None);
    assert_eq!(state.awaiting, Some(Request::PlayerEvent));
}

#[test]
fn an_event_taken_while_a_hook_is_held_spawns_nothing() {
    let mut state = playing(Some("on_event"));
    state.running_event_program = Some(HookProcessHandle);
    state.awaiting = Some(Request::PlayerEvent);
    let effects = feed(&mut state, vec![Event::PlayerEvent(Some(String::from("start")))]);
    assert_eq!(effects, vec![]);
    assert_eq!(state.running_event_program, Some(HookProcessHandle));
}
