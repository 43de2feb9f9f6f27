//! The player as a whole, call by call.

use crate::player::{
    initialized_message, window_message, App, Effect, Message, Screen, Source, State, StateModel,
    WindowEvent,
};
use crate::states::devices::PairedDevice;
use crate::states::running;
use crate::states::running::{Running, RunningScreen, Surroundings};
use crate::states::SubState;
use crate::time::current_unix_time;
use vstd::prelude::*;

verus! {

/// The player begins by bringing up the controller that was asked for, under its own title.
pub proof fn player_brings_up_the_controller(
    adapter: Option<(u16, u16)>,
    r: (App, Vec<Effect>),
    app: App,
    title: String,
)
    requires
        call_ensures(App::new, (adapter,), r),
        call_ensures(App::title, (&app,), title),
    ensures
        r.0.state is Initializing,
        r.1@ == seq![Effect::InitializeHci(adapter)],
        title@ == "Bluefang Player"@,
{
}

/// A controller that is up sets the player to work, as a player that just begins.
pub proof fn controller_sets_the_player_to_work(
    app: &mut App,
    now: u64,
    effects: Vec<Effect>,
)
    requires
        !(old(app).state is Running),
        call_ensures(App::update_at, (app, Message::HciInitialized, now), effects),
    ensures
        effects@ == seq![Effect::Running(running::Effect::LoadPairedDevices)],
        final(app).state matches State::Running(running, active) && {
            &&& active
            &&& running.connection_state is Disconnected
            &&& running.paired_devices@ == Map::<u64, PairedDevice>::empty()
            &&& running.remote_control_session is None
            &&& !running.servers_started
        },
{
    reads_as_it_stands(*final(app));
}

/// A controller that failed is reported with its error, whatever was before.
pub proof fn failure_is_kept(app: &mut App, error: String, now: u64, effects: Vec<Effect>)
    requires
        old(app).well_formed(),
        call_ensures(App::update_at, (app, Message::HciFailure(error), now), effects),
    ensures
        effects@.len() == 0,
        final(app).state == State::Failed(error),
{
    reads_as_it_stands(*final(app));
}

/// A player at work that is asked to close shuts down once, and saves what it would save; while it
/// shuts down a further request does nothing; and one that is not at work closes at once.
pub proof fn closing_shuts_down_first(
    app: &mut App,
    now: u64,
    effects: Vec<Effect>,
    saved: Vec<PairedDevice>,
)
    requires
        old(app).well_formed(),
        old(app).state matches State::Running(running, _) ==> call_ensures(
            Running::shutdown,
            (&running,),
            saved,
        ),
        call_ensures(App::update_at, (app, Message::CloseRequested, now), effects),
    ensures
        match old(app).state {
            State::Running(before, active) => {
                &&& final(app).state matches State::Running(after, still_active)
                &&& !still_active
                &&& after.connection_state == before.connection_state
                &&& after.paired_devices@ == before.paired_devices@
                &&& after.remote_control_session == before.remote_control_session
                &&& after.servers_started == before.servers_started
                &&& if active {
                    &&& effects@.len() == 1
                    &&& effects@[0] matches Effect::ShutDown(list)
                    &&& list@ == saved@
                } else {
                    effects@.len() == 0
                }
            },
            _ => {
                &&& effects@ == seq![Effect::CloseWindow]
                &&& final(app).state == old(app).state
            },
        },
{
    reads_as_it_stands(*final(app));
    reads_as_it_stands(*old(app));
    if let State::Running(running, active) = old(app).state {
        if active {
            if let Effect::ShutDown(list) = effects@[0] {
                crate::states::devices::valid_list_is_unique(
                    running.paired_devices@,
                    list@,
                    saved@,
                );
            }
        }
    }
}

/// The end of the shutdown closes the window, and changes nothing.
pub proof fn end_of_the_shutdown_closes_the_window(
    app: &mut App,
    now: u64,
    effects: Vec<Effect>,
)
    requires
        old(app).well_formed(),
        call_ensures(App::update_at, (app, Message::ShutdownCompleted, now), effects),
    ensures
        effects@ == seq![Effect::CloseWindow],
        final(app).model() == old(app).model(),
{
}

/// A message for the player at work goes to it, and what it asks for is passed on as it is; one
/// that comes while there is none is dropped.
pub proof fn player_at_work_is_passed_on_to(
    app: &mut App,
    message: running::Message,
    now: u64,
    effects: Vec<Effect>,
    at_work: &mut Running,
    asked: Vec<running::Effect>,
)
    requires
        old(app).well_formed(),
        old(app).model().can_take(Message::Running(message)),
        old(app).state matches State::Running(running, _) ==> {
            &&& *old(at_work) == running
            &&& call_ensures(Running::update_at, (at_work, message, now), asked)
        },
        call_ensures(App::update_at, (app, Message::Running(message), now), effects),
    ensures
        match old(app).state {
            State::Running(_, active) => {
                &&& final(app).state matches State::Running(after, still_active)
                &&& still_active == active
                &&& after.connection_state == final(at_work).connection_state
                &&& after.paired_devices@ == final(at_work).paired_devices@
                &&& after.remote_control_session == final(at_work).remote_control_session
                &&& after.servers_started == final(at_work).servers_started
                &&& effects@.len() == asked@.len()
                &&& forall|i: int|
                    0 <= i < asked@.len() ==> #[trigger] effects@[i] == Effect::Running(asked@[i])
            },
            _ => {
                &&& effects@.len() == 0
                &&& final(app).state == old(app).state
            },
        },
{
    reads_as_it_stands(*final(app));
    reads_as_it_stands(*old(app));
}

/// Taking a message is taking it at the time that the clock then tells.
pub proof fn messages_are_taken_now(app: &mut App, message: Message, effects: Vec<Effect>)
    requires
        old(app).well_formed(),
        old(app).model().can_take(message),
        call_ensures(App::update, (app, message), effects),
    ensures
        exists|now: u64| #[trigger]
            call_ensures(current_unix_time, (), now) && forall|again: &mut App, asked: Vec<Effect>|
                *again == *old(app) && #[trigger] call_ensures(
                    App::update_at,
                    (again, message, now),
                    asked,
                ) ==> {
                    &&& (*final(again)).model() == final(app).model()
                    &&& asked@.len() == effects@.len()
                    &&& forall|i: int|
                        0 <= i < asked@.len() ==> ((#[trigger] asked@[i]) is ShutDown
                            && effects@[i] is ShutDown) || asked@[i] == effects@[i]
                },
{
    let now = choose|now: u64|
        call_ensures(current_unix_time, (), now) && final(app).model()
            == #[trigger] old(app).model().after(message, now);
    assert(call_ensures(current_unix_time, (), now));
}

/// What a message that is taken now saves is what the player at work would save.
pub proof fn closing_now_saves_the_same(
    app: &mut App,
    effects: Vec<Effect>,
    running: Running,
    saved: Vec<PairedDevice>,
)
    requires
        old(app).well_formed(),
        old(app).state == State::Running(running, true),
        call_ensures(Running::shutdown, (&running,), saved),
        call_ensures(App::update, (app, Message::CloseRequested), effects),
    ensures
        effects@.len() == 1,
        effects@[0] matches Effect::ShutDown(list) && list@ == saved@,
{
    if let Effect::ShutDown(list) = effects@[0] {
        crate::states::devices::valid_list_is_unique(
            running.paired_devices@,
            list@,
            saved@,
        );
    }
}

/// What the player is specified as is where it stands.
pub proof fn reads_as_it_stands(app: App)
    ensures
        match app.state {
            State::Initializing => app.model() is Initializing,
            State::Failed(error) => app.model() == StateModel::Failed(error),
            State::Running(running, active) => {
                &&& app.model() matches StateModel::Running(m, a)
                &&& a == active
                &&& m.connection == running.connection_state
                &&& m.devices == running.paired_devices@
                &&& m.session == running.remote_control_session
                &&& m.servers_started == running.servers_started
            },
        },
        app.well_formed() <==> (app.state matches State::Running(running, _)
            ==> running.well_formed()),
{
}

/// The controller comes up once only, and a message for the player at work can come whenever that
/// player can take it.
pub proof fn messages_can_come(app: App, message: Message)
    ensures
        app.model().can_take(message) <==> match (message, app.state) {
            (Message::HciInitialized, State::Running(_, _)) => false,
            (Message::Running(m), State::Running(running, _)) => running.model().can_take(m),
            _ => true,
        },
{
}

/// The window shows the player at work as it shows itself, and until and after that a notice of
/// where things stand.
pub proof fn player_shows_where_it_stands(
    app: App,
    around: Surroundings,
    screen: Screen,
)
    requires
        app.well_formed(),
        call_ensures(App::view, (&app, around), screen),
    ensures
        match app.state {
            State::Initializing => screen matches Screen::Notice(text) && text@
                == "Initializing..."@,
            State::Failed(error) => screen matches Screen::Notice(text) && text@
                == "Failed to initialize HCI: "@ + error@,
            State::Running(_, false) => screen matches Screen::Notice(text) && text@
                == "Shutting down..."@,
            State::Running(_, true) => screen is Running,
        },
{
}

/// What the window shows of the player at work is what that player shows.
pub proof fn player_at_work_is_shown(
    app: App,
    running: Running,
    around: Surroundings,
    screen: Screen,
    shown: RunningScreen,
)
    requires
        app.well_formed(),
        app.state == State::Running(running, true),
        call_ensures(App::view, (&app, around), screen),
        call_ensures(<Running as SubState>::view, (&running, around), shown),
    ensures
        screen matches Screen::Running(s) && {
            &&& s.status@ == shown.status@
            &&& s.volume == shown.volume
            &&& s.reconnect is Some <==> shown.reconnect is Some
            &&& s.reconnect matches Some(button) ==> {
                &&& button.label@ == shown.reconnect->0.label@
                &&& button.on_press == shown.reconnect->0.on_press
            }
            &&& s.remote_control is Ok <==> shown.remote_control is Ok
            &&& s.remote_control matches Err(notice) ==> notice@ == shown.remote_control->Err_0@
            &&& s.remote_control matches Ok(control) ==> {
                let of_session = shown.remote_control->Ok_0;
                &&& control.artist@ == of_session.artist@
                &&& control.title@ == of_session.title@
                &&& control.current_time@ == of_session.current_time@
                &&& control.end_time@ == of_session.end_time@
                &&& control.progress == of_session.progress
                &&& control.controls@ == of_session.controls@
            }
        },
{
}

/// The player listens to its window, and to what the player at work listens to, in that order.
pub proof fn player_listens(
    app: App,
    sources: Vec<Source>,
    running: Running,
    inner: Vec<running::Source>,
)
    requires
        call_ensures(App::subscription, (&app,), sources),
        call_ensures(<Running as SubState>::subscription, (&running,), inner),
    ensures
        sources@.len() > 0 && sources@[0] is WindowEvents,
        !(app.state is Running) ==> sources@.len() == 1,
        app.state matches State::Running(at_work, _) ==> at_work == running ==> {
            &&& sources@.len() == inner@.len() + 1
            &&& forall|i: int|
                0 <= i < inner@.len() ==> sources@[i + 1] == Source::Running(#[trigger] inner@[i])
        },
{
}

/// Only a request to close, of the window of the player, that nothing else took, asks the player to
/// close.
pub proof fn only_a_request_to_close_closes(event: WindowEvent, message: Option<Message>)
    requires
        call_ensures(window_message, (event,), message),
    ensures
        message is Some <==> event.of_main_window && event.asks_to_close && event.ignored,
        message matches Some(m) ==> m is CloseRequested,
{
}

/// What came of bringing up the controller is told as it is.
pub proof fn outcome_of_the_controller_is_told(result: Result<(), String>, message: Message)
    requires
        call_ensures(initialized_message, (result,), message),
    ensures
        result is Ok ==> message is HciInitialized,
        result matches Err(error) ==> message == Message::HciFailure(error),
{
}

}
