//! The player as a whole, from its start to the closing of its window.

use crate::states::devices;
use crate::states::devices::PairedDevice;
use crate::states::running;
use crate::states::running::{Running, RunningModel, RunningScreen, Surroundings};
use crate::states::SubState;
use crate::time::current_unix_time;
use vstd::prelude::*;

verus! {

/// What the player is told.
#[derive(Debug, PartialEq, Eq)]
pub enum Message {
    HciInitialized,
    HciFailure(String),
    CloseRequested,
    ShutdownCompleted,
    Running(running::Message),
}

/// What the player asks to be done.
#[derive(Debug, PartialEq, Eq)]
pub enum Effect {
    /// Bring up the controller.
    InitializeHci(Option<(u16, u16)>),
    /// Shut down the controller, and then save these devices.
    ShutDown(Vec<PairedDevice>),
    CloseWindow,
    Running(running::Effect),
}

/// What the player listens to.
#[derive(Clone, Copy, Debug, PartialEq, Eq, Structural)]
pub enum Source {
    WindowEvents,
    Running(running::Source),
}

/// Where the player stands. The flag of a player at work tells that it is not shutting down.
pub enum State {
    Initializing,
    Running(Running, bool),
    Failed(String),
}

/// Where the player stands, in the terms in which it is specified.
pub enum StateModel {
    Initializing,
    Running(RunningModel, bool),
    Failed(String),
}

/// The player.
pub struct App {
    pub state: State,
}

impl StateModel {
    pub open spec fn well_formed(self) -> bool {
        self matches StateModel::Running(m, _) ==> m.well_formed()
    }

    /// Whether the message can come in this state: the controller comes up once only.
    pub open spec fn can_take(self, message: Message) -> bool {
        match message {
            Message::HciInitialized => !(self is Running),
            Message::Running(m) => self matches StateModel::Running(running, _) ==> running.can_take(
                m,
            ),
            _ => true,
        }
    }

    /// Where the player stands after a message at a given time.
    pub open spec fn after(self, message: Message, now: u64) -> Self {
        match (message, self) {
            (Message::HciFailure(error), _) => StateModel::Failed(error),
            (Message::HciInitialized, _) => StateModel::Running(RunningModel::fresh(), true),
            (Message::CloseRequested, StateModel::Running(m, _)) => StateModel::Running(m, false),
            (Message::Running(message), StateModel::Running(m, active)) => StateModel::Running(
                m.after(message, now),
                active,
            ),
            _ => self,
        }
    }

    /// Whether these are what a message makes the player ask for.
    pub open spec fn asks_for(self, message: Message, effects: Seq<Effect>) -> bool {
        match (message, self) {
            (Message::HciInitialized, _) => effects == seq![
                Effect::Running(running::Effect::LoadPairedDevices),
            ],
            (Message::CloseRequested, StateModel::Running(m, true)) => {
                &&& effects.len() == 1
                &&& effects[0] matches Effect::ShutDown(keys) && devices::is_valid_list(
                    m.devices,
                    keys@,
                )
            },
            (Message::CloseRequested, StateModel::Running(_, false)) => effects
                == Seq::<Effect>::empty(),
            (Message::CloseRequested, _) => effects == seq![Effect::CloseWindow],
            (Message::ShutdownCompleted, _) => effects == seq![Effect::CloseWindow],
            (Message::Running(message), StateModel::Running(m, _)) => effects == passed_on(
                m.effects(message),
            ),
            _ => effects == Seq::<Effect>::empty(),
        }
    }
}

/// What the player at work asks for, asked for by the player.
pub open spec fn passed_on(effects: Seq<running::Effect>) -> Seq<Effect> {
    effects.map_values(|e: running::Effect| Effect::Running(e))
}

fn pass_on(effects: Vec<running::Effect>) -> (r: Vec<Effect>)
    ensures
        r@ == passed_on(effects@),
{
    let mut r: Vec<Effect> = Vec::new();
    for e in it: effects
        invariant
            it.seq() == effects@,
            r@ == passed_on(effects@.take(it.index() as int)),
    {
        r.push(Effect::Running(e));
        assert(r@ =~= passed_on(effects@.take(it.index() + 1)));
    }
    assert(r@ =~= passed_on(effects@));
    r
}

fn close_window() -> (r: Vec<Effect>)
    ensures
        r@ == seq![Effect::CloseWindow],
{
    vec![Effect::CloseWindow]
}

/// What the player shows.
#[derive(Debug, PartialEq, Eq)]
pub enum Screen {
    Notice(String),
    Running(RunningScreen),
}

impl App {
    pub open spec fn model(self) -> StateModel {
        match self.state {
            State::Initializing => StateModel::Initializing,
            State::Running(running, active) => StateModel::Running(running.model(), active),
            State::Failed(error) => StateModel::Failed(error),
        }
    }

    pub open spec fn well_formed(self) -> bool {
        self.model().well_formed()
    }

    /// The player as it begins, which first brings up the controller.
    pub fn new(adapter: Option<(u16, u16)>) -> (r: (Self, Vec<Effect>))
        ensures
            r.0.model() is Initializing,
            r.0.well_formed(),
            r.1@ == seq![Effect::InitializeHci(adapter)],
    {
        (App { state: State::Initializing }, vec![Effect::InitializeHci(adapter)])
    }

    pub fn title(&self) -> (title: String)
        ensures
            title@ == "Bluefang Player"@,
    {
        "Bluefang Player".to_owned()
    }

    /// Takes a message at a given time.
    pub fn update_at(&mut self, message: Message, now: u64) -> (effects: Vec<Effect>)
        requires
            old(self).well_formed(),
            old(self).model().can_take(message),
        ensures
            final(self).model() == old(self).model().after(message, now),
            old(self).model().asks_for(message, effects@),
            final(self).well_formed(),
    {
        match message {
            Message::HciFailure(error) => {
                self.state = State::Failed(error);
                Vec::new()
            },
            Message::HciInitialized => {
                let (running, effects) = Running::new();
                self.state = State::Running(running, true);
                let r = pass_on(effects);
                assert(r@ =~= seq![Effect::Running(running::Effect::LoadPairedDevices)]);
                r
            },
            Message::CloseRequested => match &mut self.state {
                State::Running(running, active) => {
                    if *active {
                        *active = false;
                        vec![Effect::ShutDown(running.shutdown())]
                    } else {
                        Vec::new()
                    }
                },
                _ => close_window(),
            },
            Message::Running(m) => match &mut self.state {
                State::Running(running, _) => pass_on(running.update_at(m, now)),
                _ => Vec::new(),
            },
            Message::ShutdownCompleted => close_window(),
        }
    }

    /// Takes a message now.
    pub fn update(&mut self, message: Message) -> (effects: Vec<Effect>)
        requires
            old(self).well_formed(),
            old(self).model().can_take(message),
        ensures
            exists|now: u64|
                {
                    &&& call_ensures(current_unix_time, (), now)
                    &&& final(self).model() == #[trigger] old(self).model().after(message, now)
                },
            old(self).model().asks_for(message, effects@),
            final(self).well_formed(),
    {
        let now = current_unix_time();
        self.update_at(message, now)
    }

    pub fn view(&self, around: Surroundings) -> (screen: Screen)
        requires
            self.well_formed(),
        ensures
            match self.model() {
                StateModel::Running(m, true) => screen matches Screen::Running(shown)
                    && m.is_shown_by(shown, around),
                StateModel::Running(_, false) => screen matches Screen::Notice(text) && text@
                    == "Shutting down..."@,
                StateModel::Initializing => screen matches Screen::Notice(text) && text@
                    == "Initializing..."@,
                StateModel::Failed(error) => screen matches Screen::Notice(text) && text@
                    == "Failed to initialize HCI: "@ + error@,
            },
    {
        match &self.state {
            State::Initializing => Screen::Notice("Initializing...".to_owned()),
            State::Failed(error) => Screen::Notice(
                "Failed to initialize HCI: ".to_owned().concat(error.as_str()),
            ),
            State::Running(running, active) => if *active {
                Screen::Running(running.view(around))
            } else {
                Screen::Notice("Shutting down...".to_owned())
            },
        }
    }

    pub fn subscription(&self) -> (sources: Vec<Source>)
        ensures
            sources@ == seq![Source::WindowEvents] + (match self.model() {
                StateModel::Running(m, _) => m.sources().map_values(
                    |s: running::Source| Source::Running(s),
                ),
                _ => Seq::<Source>::empty(),
            }),
    {
        let mut sources = vec![Source::WindowEvents];
        if let State::Running(running, _) = &self.state {
            let inner = running.subscription();
            let mut i: usize = 0;
            while i < inner.len()
                invariant
                    i <= inner.len(),
                    sources@ == seq![Source::WindowEvents] + inner@.take(i as int).map_values(
                        |s: running::Source| Source::Running(s),
                    ),
                decreases inner.len() - i,
            {
                sources.push(Source::Running(inner[i]));
                i = i + 1;
                assert(sources@ =~= seq![Source::WindowEvents] + inner@.take(i as int).map_values(
                    |s: running::Source| Source::Running(s),
                ));
            }
            assert(inner@.take(i as int) =~= inner@);
        }
        assert(sources@ =~= seq![Source::WindowEvents] + (match self.model() {
            StateModel::Running(m, _) => m.sources().map_values(
                |s: running::Source| Source::Running(s),
            ),
            _ => Seq::<Source>::empty(),
        }));
        sources
    }
}

/// What the window system reports.
#[derive(Clone, Copy, Debug, PartialEq, Eq, Structural)]
pub struct WindowEvent {
    /// Whether it is about the window of the player.
    pub of_main_window: bool,
    /// Whether the window is asked to close.
    pub asks_to_close: bool,
    /// Whether nothing else in the window took it.
    pub ignored: bool,
}

/// The message that a report of the window system brings.
pub fn window_message(event: WindowEvent) -> (message: Option<Message>)
    ensures
        message == (if event.of_main_window && event.asks_to_close && event.ignored {
            Some(Message::CloseRequested)
        } else {
            None
        }),
{
    if event.of_main_window && event.asks_to_close && event.ignored {
        Some(Message::CloseRequested)
    } else {
        None
    }
}

/// The message that bringing up the controller brings.
pub fn initialized_message(result: Result<(), String>) -> (message: Message)
    ensures
        message == (match result {
            Ok(()) => Message::HciInitialized,
            Err(error) => Message::HciFailure(error),
        }),
{
    match result {
        Ok(()) => Message::HciInitialized,
        Err(error) => Message::HciFailure(error),
    }
}

/// Where the player stands after a number of messages, each with the time it came.
pub open spec fn run(start: StateModel, script: Seq<(Message, u64)>) -> StateModel
    decreases script.len(),
{
    if script.len() == 0 {
        start
    } else {
        run(start, script.drop_last()).after(script.last().0, script.last().1)
    }
}

/// Whether each message of a script can come when it does, and none reports that the controller
/// failed.
pub open spec fn runs_well(start: StateModel, script: Seq<(Message, u64)>) -> bool
    decreases script.len(),
{
    script.len() > 0 ==> {
        &&& runs_well(start, script.drop_last())
        &&& run(start, script.drop_last()).can_take(script.last().0)
        &&& !(script.last().0 is HciFailure)
    }
}

/// The player shuts down once: after the first request to close, as long as the controller does
/// not fail, it stays in shutting down, no further request makes it save anything, and only the
/// end of the shutdown closes the window.
pub proof fn player_shuts_down_once(m: RunningModel, script: Seq<(Message, u64)>)
    requires
        runs_well(StateModel::Running(m, false), script),
    ensures
        run(StateModel::Running(m, false), script) matches StateModel::Running(_, active) && !active,
        forall|message: Message, effects: Seq<Effect>, i: int|
            #![trigger run(StateModel::Running(m, false), script).asks_for(message, effects), effects[i]]
            {
                let state = run(StateModel::Running(m, false), script);
                state.can_take(message) && state.asks_for(message, effects) && 0 <= i < effects.len()
            } ==> {
                &&& !(effects[i] is ShutDown)
                &&& effects[i] is CloseWindow ==> message is ShutdownCompleted
            },
    decreases script.len(),
{
    if script.len() > 0 {
        player_shuts_down_once(m, script.drop_last());
    }
}

/// A player at work that is asked to close begins to shut down, and saves what it knows.
pub proof fn closing_begins_the_shutdown(m: RunningModel, now: u64, effects: Seq<Effect>)
    requires
        StateModel::Running(m, true).asks_for(Message::CloseRequested, effects),
    ensures
        StateModel::Running(m, true).after(Message::CloseRequested, now) == StateModel::Running(
            m,
            false,
        ),
        effects.len() == 1,
        effects[0] matches Effect::ShutDown(keys) && devices::is_valid_list(m.devices, keys@),
{
}

}
