use bluefang_player::hci::{ConnectionEvent, LinkKey, RemoteAddr};
use bluefang_player::player::{
    initialized_message, window_message, App, Effect, Message, Screen, Source, State, WindowEvent,
};
use bluefang_player::states::devices::PairedDevice;
use bluefang_player::states::running;
use bluefang_player::states::running::Surroundings;

fn around() -> Surroundings {
    Surroundings {
        addr_text: String::new(),
        volume_above_zero: true,
        volume_below_one: true,
    }
}

fn notice(app: &App) -> String {
    match app.view(around()) {
        Screen::Notice(text) => text,
        Screen::Running(_) => panic!("the player is at work"),
    }
}

fn at_work() -> App {
    let (mut app, _) = App::new(None);
    app.update(Message::HciInitialized);
    app
}

#[test]
fn the_player_starts() {
    let (mut app, effects) = App::new(Some((1, 2)));
    assert_eq!(effects, vec![Effect::InitializeHci(Some((1, 2)))]);
    assert_eq!(app.title(), "Bluefang Player");
    assert_eq!(notice(&app), "Initializing...");
    assert_eq!(app.subscription(), vec![Source::WindowEvents]);
    assert_eq!(
        app.update(Message::HciInitialized),
        vec![Effect::Running(running::Effect::LoadPairedDevices)]
    );
    assert!(matches!(app.view(around()), Screen::Running(_)));
    assert_eq!(
        app.subscription(),
        vec![
            Source::WindowEvents,
            Source::Running(running::Source::ConnectionEvents),
            Source::Running(running::Source::L2capServers),
        ]
    );
}

#[test]
fn a_failure_is_shown_and_can_be_made_good() {
    let (mut app, _) = App::new(None);
    assert_eq!(app.update(Message::HciFailure("no device".to_string())), vec![]);
    assert_eq!(notice(&app), "Failed to initialize HCI: no device");
    app.update(Message::HciInitialized);
    assert!(matches!(app.state, State::Running(_, true)));
}

#[test]
fn a_player_that_does_not_run_closes_at_once() {
    let (mut app, _) = App::new(None);
    assert_eq!(app.update(Message::CloseRequested), vec![Effect::CloseWindow]);
    app.update(Message::HciFailure(String::new()));
    assert_eq!(app.update(Message::CloseRequested), vec![Effect::CloseWindow]);
}

#[test]
fn the_player_shuts_down_once() {
    let mut app = at_work();
    let addr = RemoteAddr { value: 8 };
    let key = LinkKey { value: 3 };
    app.update_at(
        Message::Running(running::Message::ConnectionEvent(
            ConnectionEvent::LinkKeyNotification { addr, key },
        )),
        1,
    );
    assert_eq!(
        app.update(Message::CloseRequested),
        vec![Effect::ShutDown(vec![PairedDevice {
            addr,
            name: None,
            link_key: key,
            last_connected: 0
        }])]
    );
    assert_eq!(notice(&app), "Shutting down...");
    assert_eq!(app.update(Message::CloseRequested), vec![]);
    assert!(matches!(app.state, State::Running(_, false)));
    assert_eq!(app.update(Message::ShutdownCompleted), vec![Effect::CloseWindow]);
}

#[test]
fn messages_for_a_player_that_does_not_run_are_dropped() {
    let (mut app, _) = App::new(None);
    assert_eq!(app.update(Message::Running(running::Message::ServersStarted)), vec![]);
    let mut app = at_work();
    assert_eq!(app.update(Message::Running(running::Message::ServersStarted)), vec![]);
    match &app.state {
        State::Running(running, _) => assert!(running.servers_started),
        _ => panic!("the player is not at work"),
    }
}

#[test]
fn only_an_ignored_request_to_close_counts() {
    let ask = WindowEvent { of_main_window: true, asks_to_close: true, ignored: true };
    assert_eq!(window_message(ask), Some(Message::CloseRequested));
    assert_eq!(window_message(WindowEvent { of_main_window: false, ..ask }), None);
    assert_eq!(window_message(WindowEvent { asks_to_close: false, ..ask }), None);
    assert_eq!(window_message(WindowEvent { ignored: false, ..ask }), None);
}

#[test]
fn the_controller_is_up_or_not() {
    assert_eq!(initialized_message(Ok(())), Message::HciInitialized);
    assert_eq!(
        initialized_message(Err("no".to_string())),
        Message::HciFailure("no".to_string())
    );
}
