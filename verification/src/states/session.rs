//! The conversation with the playing device, as steps to take and answers to wait for.

use crate::states::remote_control;
use crate::states::remote_control::{
    MediaControlEvent, MediaInfo, Message, PassThroughOp, PlaybackStatus, RemoteControlCommand,
};
use crate::text::parse_u64;
use crate::time::Duration;
use vstd::prelude::*;

verus! {

/// What the playing device can give notice of.
#[derive(Clone, Copy, Debug, PartialEq, Eq, Structural)]
pub enum EventId {
    CurrentTrack,
    PlaybackStatus,
    PlaybackPosition,
    Other(u8),
}

/// A notice of the playing device. The volume is the bit pattern of a single-precision number.
#[derive(Clone, Copy, Debug, PartialEq, Eq, Structural)]
pub enum SessionEvent {
    TrackChanged,
    PlaybackStatusChanged,
    PlaybackPositionChanged,
    VolumeChanged(u32),
}

/// What the conversation gets to hear.
#[derive(Debug, PartialEq, Eq)]
pub enum SessionInput {
    /// What the device can give notice of, if it told.
    SupportedEvents(Option<Vec<EventId>>),
    /// A command from the player, or the end of its channel.
    Command(Option<RemoteControlCommand>),
    /// A notice of the device, or the end of the session.
    Event(Option<SessionEvent>),
    /// Whether the key that was sent got through.
    OpSent(bool),
}

/// What the conversation asks to be done next.
#[derive(Debug, PartialEq, Eq)]
pub enum SessionStep {
    /// Pass a message on to the remote control.
    Tell(Message),
    /// Tell the device the volume here.
    NotifyLocalVolume,
    AskSupportedEvents,
    /// Ask to be notified once, and pass on what is the case now; the time is how far playback
    /// moves between notices.
    Register(EventId, Option<Duration>),
    SendOp(PassThroughOp),
    /// Take over the volume of the device.
    StoreVolume(u32),
}

/// Where the conversation stands.
#[derive(Clone, Copy, Debug, PartialEq, Eq, Structural)]
pub enum SessionLoop {
    /// Waiting to hear what the device can give notice of.
    Starting,
    /// Waiting for a command or a notice.
    Listening,
    /// Waiting to hear whether a key got through.
    Sending(PassThroughOp),
    Ended,
}

/// Asking for a notice.
pub open spec fn registration(id: EventId) -> SessionStep {
    SessionStep::Register(
        id,
        if id is PlaybackPosition {
            Some(Duration { secs: 1, nanos: 0 })
        } else {
            None
        },
    )
}

/// Asking for a notice, if the device can give it.
pub open spec fn registration_if(supported: Seq<EventId>, id: EventId) -> Seq<SessionStep> {
    if supported.contains(id) {
        seq![registration(id)]
    } else {
        seq![]
    }
}

/// The status that a key brings about once it got through.
pub open spec fn status_after(op: PassThroughOp) -> Option<PlaybackStatus> {
    match op {
        PassThroughOp::Play => Some(PlaybackStatus::Playing),
        PassThroughOp::Pause => Some(PlaybackStatus::Paused),
        _ => None,
    }
}

/// What is done on a notice of the device.
pub open spec fn steps_on_event(event: SessionEvent) -> Seq<SessionStep> {
    match event {
        SessionEvent::TrackChanged => seq![registration(EventId::CurrentTrack)],
        SessionEvent::PlaybackStatusChanged => seq![registration(EventId::PlaybackStatus)],
        SessionEvent::PlaybackPositionChanged => seq![registration(EventId::PlaybackPosition)],
        SessionEvent::VolumeChanged(volume) => seq![
            SessionStep::StoreVolume(volume),
            SessionStep::Tell(Message::VolumeChanged),
        ],
    }
}

impl SessionLoop {
    /// Whether this is something that the conversation waits for.
    pub open spec fn awaits(self, input: SessionInput) -> bool {
        match self {
            SessionLoop::Starting => input is SupportedEvents,
            SessionLoop::Listening => input is Command || input is Event,
            SessionLoop::Sending(_) => input is OpSent,
            SessionLoop::Ended => false,
        }
    }

    /// Where the conversation stands after it heard something.
    pub open spec fn after(self, input: SessionInput) -> Self {
        match input {
            SessionInput::Command(Some(RemoteControlCommand::Op(op))) => SessionLoop::Sending(op),
            SessionInput::Command(None) | SessionInput::Event(None) => SessionLoop::Ended,
            _ => SessionLoop::Listening,
        }
    }

    /// What is done when the conversation heard something.
    pub open spec fn steps(self, input: SessionInput) -> Seq<SessionStep> {
        match input {
            SessionInput::SupportedEvents(supported) => {
                let ids = match supported {
                    Some(ids) => ids@,
                    None => Seq::<EventId>::empty(),
                };
                registration_if(ids, EventId::CurrentTrack) + registration_if(
                    ids,
                    EventId::PlaybackStatus,
                ) + registration_if(ids, EventId::PlaybackPosition)
            },
            SessionInput::Command(Some(RemoteControlCommand::Op(op))) => seq![
                SessionStep::SendOp(op),
            ],
            SessionInput::Command(Some(RemoteControlCommand::VolumeChanged)) => seq![
                SessionStep::NotifyLocalVolume,
            ],
            SessionInput::OpSent(true) => match status_after(self->Sending_0) {
                Some(status) => seq![SessionStep::Tell(Message::PlaybackStatusChanged(status))],
                None => seq![],
            },
            SessionInput::Event(Some(event)) => steps_on_event(event),
            _ => seq![],
        }
    }

    /// Opens the conversation.
    pub fn start() -> (r: (Self, Vec<SessionStep>))
        ensures
            r.0 is Starting,
            r.1@ == seq![
                SessionStep::Tell(Message::MediaCommandChannel),
                SessionStep::NotifyLocalVolume,
                SessionStep::AskSupportedEvents,
            ],
    {
        (
            SessionLoop::Starting,
            vec![
                SessionStep::Tell(Message::MediaCommandChannel),
                SessionStep::NotifyLocalVolume,
                SessionStep::AskSupportedEvents,
            ],
        )
    }

    /// Carries the conversation on with what it waited for.
    pub fn advance(&mut self, input: SessionInput) -> (steps: Vec<SessionStep>)
        requires
            old(self).awaits(input),
        ensures
            *final(self) == old(self).after(input),
            steps@ == old(self).steps(input),
    {
        let mut steps: Vec<SessionStep> = Vec::new();
        match input {
            SessionInput::SupportedEvents(supported) => {
                let ids = match supported {
                    Some(ids) => ids,
                    None => Vec::new(),
                };
                if lists_event(&ids, EventId::CurrentTrack) {
                    steps.push(register(EventId::CurrentTrack));
                }
                if lists_event(&ids, EventId::PlaybackStatus) {
                    steps.push(register(EventId::PlaybackStatus));
                }
                if lists_event(&ids, EventId::PlaybackPosition) {
                    steps.push(register(EventId::PlaybackPosition));
                }
                assert(ids@ =~= match supported {
                    Some(ids) => ids@,
                    None => Seq::<EventId>::empty(),
                });
                *self = SessionLoop::Listening;
            },
            SessionInput::Command(Some(RemoteControlCommand::Op(op))) => {
                steps.push(SessionStep::SendOp(op));
                *self = SessionLoop::Sending(op);
            },
            SessionInput::Command(Some(RemoteControlCommand::VolumeChanged)) => {
                steps.push(SessionStep::NotifyLocalVolume);
                *self = SessionLoop::Listening;
            },
            SessionInput::OpSent(sent) => {
                if sent {
                    match *self {
                        SessionLoop::Sending(PassThroughOp::Play) => {
                            steps.push(
                                SessionStep::Tell(
                                    Message::PlaybackStatusChanged(PlaybackStatus::Playing),
                                ),
                            );
                        },
                        SessionLoop::Sending(PassThroughOp::Pause) => {
                            steps.push(
                                SessionStep::Tell(
                                    Message::PlaybackStatusChanged(PlaybackStatus::Paused),
                                ),
                            );
                        },
                        _ => {},
                    }
                }
                *self = SessionLoop::Listening;
            },
            SessionInput::Event(Some(event)) => {
                match event {
                    SessionEvent::TrackChanged => steps.push(register(EventId::CurrentTrack)),
                    SessionEvent::PlaybackStatusChanged => steps.push(
                        register(EventId::PlaybackStatus),
                    ),
                    SessionEvent::PlaybackPositionChanged => steps.push(
                        register(EventId::PlaybackPosition),
                    ),
                    SessionEvent::VolumeChanged(volume) => {
                        steps.push(SessionStep::StoreVolume(volume));
                        steps.push(SessionStep::Tell(Message::VolumeChanged));
                    },
                }
                *self = SessionLoop::Listening;
            },
            SessionInput::Command(None) | SessionInput::Event(None) => {
                *self = SessionLoop::Ended;
            },
        }
        assert(steps@ =~= old(self).steps(input));
        steps
    }
}

fn register(id: EventId) -> (step: SessionStep)
    ensures
        step == registration(id),
{
    match id {
        EventId::PlaybackPosition => SessionStep::Register(id, Some(Duration::from_secs(1))),
        _ => SessionStep::Register(id, None),
    }
}

fn lists_event(ids: &Vec<EventId>, id: EventId) -> (b: bool)
    ensures
        b == ids@.contains(id),
{
    let mut i: usize = 0;
    while i < ids.len()
        invariant
            i <= ids.len(),
            forall|j: int| 0 <= j < i ==> ids@[j] != id,
        decreases ids.len() - i,
    {
        if ids[i] == id {
            return true;
        }
        i = i + 1;
    }
    false
}

/// The status that is passed on when a notice of the status was asked for: a device that does not
/// answer counts as stopped.
pub fn registered_status(answer: Option<PlaybackStatus>) -> (message: Message)
    ensures
        message == Message::PlaybackStatusChanged(
            match answer {
                Some(status) => status,
                None => PlaybackStatus::Stopped,
            },
        ),
{
    Message::PlaybackStatusChanged(
        match answer {
            Some(status) => status,
            None => PlaybackStatus::Stopped,
        },
    )
}

/// What the device says of the track that plays.
#[derive(Clone, Copy, Debug, PartialEq, Eq, Structural)]
pub enum CurrentTrack {
    NotSelected,
    Selected,
    Id(u64),
}

/// A property of the track that plays.
#[derive(Clone, Copy, Debug, PartialEq, Eq, Structural)]
pub enum MediaAttributeId {
    Title,
    ArtistName,
    PlayingTime,
}

/// The properties of a track that the device told; the playing time is milliseconds in decimal.
#[derive(Debug, PartialEq, Eq)]
pub struct TrackAttributes {
    pub title: Option<String>,
    pub artist: Option<String>,
    pub playing_time: Option<String>,
}

/// What follows when a notice of the track was asked for.
#[derive(Debug, PartialEq, Eq)]
pub enum TrackStep {
    /// The device did not answer: nothing is passed on.
    Nothing,
    /// Pass a message on to the remote control.
    Tell(Message),
    /// Ask for these properties of the track.
    Ask(Vec<MediaAttributeId>),
}

/// Takes the answer to asking for a notice of the track. Only a track that is selected has
/// properties to ask for.
pub fn registered_track(answer: Option<CurrentTrack>) -> (step: TrackStep)
    ensures
        match answer {
            None => step is Nothing,
            Some(CurrentTrack::Selected) => step matches TrackStep::Ask(ids) && ids@ == seq![
                MediaAttributeId::Title,
                MediaAttributeId::ArtistName,
                MediaAttributeId::PlayingTime,
            ],
            Some(_) => step == TrackStep::Tell(Message::TrackChanged(None)),
        },
{
    match answer {
        None => TrackStep::Nothing,
        Some(CurrentTrack::NotSelected) | Some(CurrentTrack::Id(_)) => TrackStep::Tell(
            Message::TrackChanged(None),
        ),
        Some(CurrentTrack::Selected) => TrackStep::Ask(
            vec![
                MediaAttributeId::Title,
                MediaAttributeId::ArtistName,
                MediaAttributeId::PlayingTime,
            ],
        ),
    }
}

/// The characters of a text that may be missing.
pub open spec fn text_or_empty(s: Option<String>) -> Seq<char> {
    match s {
        Some(s) => s@,
        None => Seq::<char>::empty(),
    }
}

impl TrackAttributes {
    /// The length of the track in milliseconds: zero where it is not told, or not a number.
    pub open spec fn millis(self) -> u64 {
        match self.playing_time {
            Some(time) => match crate::text::parsed_u64(time@) {
                Some(millis) => millis,
                None => 0,
            },
            None => 0,
        }
    }

    /// Whether `info` is the track that the properties tell of.
    pub open spec fn describes(self, info: MediaInfo) -> bool {
        &&& info.title@ == text_or_empty(self.title)
        &&& info.artist@ == text_or_empty(self.artist)
        &&& info.duration.well_formed()
        &&& info.duration.as_nanos() == self.millis() * 1_000_000
    }

    /// Whether the properties tell nothing of the track.
    pub open spec fn are_blank(self) -> bool {
        &&& text_or_empty(self.title) == Seq::<char>::empty()
        &&& text_or_empty(self.artist) == Seq::<char>::empty()
        &&& self.millis() == 0
    }

    /// The track that the properties tell of, if they tell anything.
    pub fn into_media_info(self) -> (info: Option<MediaInfo>)
        ensures
            info is None <==> self.are_blank(),
            info matches Some(info) ==> self.describes(info),
    {
        let duration = match &self.playing_time {
            Some(time) => match parse_u64(time.as_str()) {
                Some(millis) => Duration::from_millis(millis),
                None => Duration::default(),
            },
            None => Duration::default(),
        };
        let title = match self.title {
            Some(title) => title,
            None => String::new(),
        };
        let artist = match self.artist {
            Some(artist) => artist,
            None => String::new(),
        };
        MediaInfo { title, artist, duration }.validate()
    }
}

/// Takes the answer to asking for the properties of the track: nothing is passed on if there was
/// none.
pub fn received_attributes(answer: Option<TrackAttributes>) -> (message: Option<Message>)
    ensures
        match answer {
            None => message is None,
            Some(attributes) => {
                &&& message matches Some(Message::TrackChanged(info))
                &&& info is None <==> attributes.are_blank()
                &&& info matches Some(info) ==> attributes.describes(info)
            },
        },
{
    match answer {
        None => None,
        Some(attributes) => Some(Message::TrackChanged(attributes.into_media_info())),
    }
}

/// The conversation ends only where one of its two channels does, and then for good.
pub proof fn conversation_ends_with_its_channels(state: SessionLoop, input: SessionInput)
    requires
        state.awaits(input),
    ensures
        state.after(input) is Ended <==> (input matches SessionInput::Command(cmd) && cmd is None)
            || (input matches SessionInput::Event(event) && event is None),
        forall|next: SessionInput| !SessionLoop::Ended.awaits(next),
{
}

/// A key that got through is shown: after the play key the session plays, and its middle button
/// pauses; after the pause key it is paused, and its middle button plays.
pub proof fn sent_key_is_shown(
    op: PassThroughOp,
    session: remote_control::RemoteControlSession,
)
    requires
        op is Play || op is Pause,
    ensures
        ({
            let status = status_after(op)->0;
            let message = Message::PlaybackStatusChanged(status);
            let after = session.after(message);
            &&& SessionLoop::Sending(op).steps(SessionInput::OpSent(true)) == seq![
                SessionStep::Tell(message),
            ]
            &&& after.status == status
            &&& remote_control::controls_of(after.status)[1].on_press == Some(
                if op is Play {
                    PassThroughOp::Pause
                } else {
                    PassThroughOp::Play
                },
            )
        }),
{
}

/// A media key of the computer that means something reaches the playing device.
pub proof fn media_key_reaches_the_device(event: MediaControlEvent)
    requires
        !(event is Other),
    ensures
        ({
            let command = SessionInput::Command(remote_control::command_of_key(event));
            let op = remote_control::op_of_key(event)->0;
            &&& remote_control::op_of_key(event) is Some
            &&& SessionLoop::Listening.awaits(command)
            &&& SessionLoop::Listening.steps(command) == seq![SessionStep::SendOp(op)]
            &&& SessionLoop::Listening.after(command) == SessionLoop::Sending(op)
        }),
{
}

}
