//! The conversation with the playing device, call by call.

use crate::states::remote_control::{
    MediaInfo, Message, PassThroughOp, PlaybackStatus, RemoteControlCommand,
};
use crate::states::session::{
    received_attributes, registered_status, registered_track, CurrentTrack, EventId,
    MediaAttributeId, SessionEvent, SessionInput, SessionLoop, SessionStep, TrackAttributes,
    TrackStep,
};
use crate::text::parse_u64;
use crate::time::Duration;
use vstd::prelude::*;

verus! {

/// The conversation opens with the channel, the volume and the question what the device supports.
pub proof fn conversation_opens(r: (SessionLoop, Vec<SessionStep>))
    requires
        call_ensures(SessionLoop::start, (), r),
    ensures
        r.0 is Starting,
        r.1@ == seq![
            SessionStep::Tell(Message::MediaCommandChannel),
            SessionStep::NotifyLocalVolume,
            SessionStep::AskSupportedEvents,
        ],
{
}

/// Each of the three notices is asked for exactly if the device can give it, whatever else it can
/// give, in the order of track, status and position; the position every second.
pub proof fn supported_notices_are_asked_for(
    state: &mut SessionLoop,
    supported: Option<Vec<EventId>>,
    steps: Vec<SessionStep>,
)
    requires
        *old(state) is Starting,
        call_ensures(
            SessionLoop::advance,
            (state, SessionInput::SupportedEvents(supported)),
            steps,
        ),
    ensures
        *final(state) is Listening,
        supported is None ==> steps@.len() == 0,
        supported matches Some(ids) ==> {
            &&& steps@.contains(SessionStep::Register(EventId::CurrentTrack, None))
                <==> ids@.contains(EventId::CurrentTrack)
            &&& steps@.contains(SessionStep::Register(EventId::PlaybackStatus, None))
                <==> ids@.contains(EventId::PlaybackStatus)
            &&& steps@.contains(
                SessionStep::Register(
                    EventId::PlaybackPosition,
                    Some(Duration { secs: 1, nanos: 0 }),
                ),
            ) <==> ids@.contains(EventId::PlaybackPosition)
            &&& steps@ == (if ids@.contains(EventId::CurrentTrack) {
                seq![SessionStep::Register(EventId::CurrentTrack, None)]
            } else {
                seq![]
            }) + (if ids@.contains(EventId::PlaybackStatus) {
                seq![SessionStep::Register(EventId::PlaybackStatus, None)]
            } else {
                seq![]
            }) + (if ids@.contains(EventId::PlaybackPosition) {
                seq![
                    SessionStep::Register(
                        EventId::PlaybackPosition,
                        Some(Duration { secs: 1, nanos: 0 }),
                    ),
                ]
            } else {
                seq![]
            })
        },
{
    if let Some(ids) = supported {
        let track = SessionStep::Register(EventId::CurrentTrack, None);
        let status = SessionStep::Register(EventId::PlaybackStatus, None);
        let position = SessionStep::Register(
            EventId::PlaybackPosition,
            Some(Duration { secs: 1, nanos: 0 }),
        );
        let a: nat = if ids@.contains(EventId::CurrentTrack) {
            1
        } else {
            0
        };
        let b: nat = if ids@.contains(EventId::PlaybackStatus) {
            1
        } else {
            0
        };
        assert(ids@.contains(EventId::CurrentTrack) ==> steps@[0] == track);
        assert(ids@.contains(EventId::PlaybackStatus) ==> steps@[a as int] == status);
        assert(ids@.contains(EventId::PlaybackPosition) ==> steps@[(a + b) as int] == position);
        assert(forall|i: int|
            0 <= i < steps@.len() ==> (#[trigger] steps@[i]) == track || steps@[i] == status
                || steps@[i] == position);
    }
}

/// A key goes to the playing device as it is, and the conversation waits to hear of it.
pub proof fn keys_go_to_the_device(
    state: &mut SessionLoop,
    op: PassThroughOp,
    steps: Vec<SessionStep>,
)
    requires
        *old(state) is Listening,
        call_ensures(
            SessionLoop::advance,
            (state, SessionInput::Command(Some(RemoteControlCommand::Op(op)))),
            steps,
        ),
    ensures
        steps@ == seq![SessionStep::SendOp(op)],
        *final(state) == SessionLoop::Sending(op),
{
}

/// A key that got through is taken to have worked: play plays and pause pauses. One that did not
/// changes nothing, and no other key tells of a status.
pub proof fn keys_that_got_through_are_told(
    state: &mut SessionLoop,
    op: PassThroughOp,
    sent: bool,
    steps: Vec<SessionStep>,
)
    requires
        *old(state) == SessionLoop::Sending(op),
        call_ensures(SessionLoop::advance, (state, SessionInput::OpSent(sent)), steps),
    ensures
        *final(state) is Listening,
        sent && op is Play ==> steps@ == seq![
            SessionStep::Tell(Message::PlaybackStatusChanged(PlaybackStatus::Playing)),
        ],
        sent && op is Pause ==> steps@ == seq![
            SessionStep::Tell(Message::PlaybackStatusChanged(PlaybackStatus::Paused)),
        ],
        !sent || !(op is Play || op is Pause) ==> steps@.len() == 0,
{
}

/// The volume is kept in step both ways: a change here is told to the device, and one there is
/// taken over and passed on.
pub proof fn volumes_are_kept_in_step(
    here: &mut SessionLoop,
    told: Vec<SessionStep>,
    there: &mut SessionLoop,
    volume: u32,
    taken: Vec<SessionStep>,
)
    requires
        *old(here) is Listening,
        call_ensures(
            SessionLoop::advance,
            (here, SessionInput::Command(Some(RemoteControlCommand::VolumeChanged))),
            told,
        ),
        *old(there) is Listening,
        call_ensures(
            SessionLoop::advance,
            (there, SessionInput::Event(Some(SessionEvent::VolumeChanged(volume)))),
            taken,
        ),
    ensures
        told@ == seq![SessionStep::NotifyLocalVolume],
        *final(here) is Listening,
        taken@ == seq![
            SessionStep::StoreVolume(volume),
            SessionStep::Tell(Message::VolumeChanged),
        ],
        *final(there) is Listening,
{
}

/// A notice is given once, so it is asked for again when it came.
pub proof fn notices_are_asked_for_again(
    state: &mut SessionLoop,
    event: SessionEvent,
    steps: Vec<SessionStep>,
)
    requires
        *old(state) is Listening,
        call_ensures(SessionLoop::advance, (state, SessionInput::Event(Some(event))), steps),
    ensures
        *final(state) is Listening,
        event is TrackChanged ==> steps@ == seq![
            SessionStep::Register(EventId::CurrentTrack, None),
        ],
        event is PlaybackStatusChanged ==> steps@ == seq![
            SessionStep::Register(EventId::PlaybackStatus, None),
        ],
        event is PlaybackPositionChanged ==> steps@ == seq![
            SessionStep::Register(EventId::PlaybackPosition, Some(Duration { secs: 1, nanos: 0 })),
        ],
{
}

/// The conversation ends when either of its channels does, without a further step.
pub proof fn either_channel_ends_the_conversation(
    state: &mut SessionLoop,
    input: SessionInput,
    steps: Vec<SessionStep>,
)
    requires
        *old(state) is Listening,
        input == SessionInput::Command(None) || input == SessionInput::Event(None),
        call_ensures(SessionLoop::advance, (state, input), steps),
    ensures
        *final(state) is Ended,
        steps@.len() == 0,
{
}

/// What the conversation waits for.
pub proof fn conversation_waits_for_what_it_asked(state: SessionLoop, input: SessionInput)
    ensures
        state.awaits(input) <==> match input {
            SessionInput::SupportedEvents(_) => state is Starting,
            SessionInput::Command(_) => state is Listening,
            SessionInput::Event(_) => state is Listening,
            SessionInput::OpSent(_) => state is Sending,
        },
{
}

/// The status that the device tells is passed on as it is; one that does not answer is stopped.
pub proof fn told_status_is_passed_on(answer: Option<PlaybackStatus>, message: Message)
    requires
        call_ensures(registered_status, (answer,), message),
    ensures
        message matches Message::PlaybackStatusChanged(status) && match answer {
            Some(told) => status == told,
            None => status is Stopped,
        },
{
}

/// A selected track, and no other, is asked for its title, artist and playing time.
pub proof fn selected_track_is_asked_about(answer: Option<CurrentTrack>, step: TrackStep)
    requires
        call_ensures(registered_track, (answer,), step),
    ensures
        answer is None <==> step is Nothing,
        answer == Some(CurrentTrack::Selected) <==> step is Ask,
        step matches TrackStep::Ask(ids) ==> ids@ == seq![
            MediaAttributeId::Title,
            MediaAttributeId::ArtistName,
            MediaAttributeId::PlayingTime,
        ],
        step matches TrackStep::Tell(message) ==> message == Message::TrackChanged(None),
{
}

/// The title and the artist of a track are those that the device told, and its length is the
/// number that the told time reads as, in milliseconds; what was not told, or does not read as a
/// number, is empty or nothing. A track of which nothing at all is known is none.
pub proof fn told_track_is_the_track(
    attributes: TrackAttributes,
    millis: Option<u64>,
    info: Option<MediaInfo>,
)
    requires
        attributes.playing_time matches Some(time) ==> exists|text: &str|
            text@ == time@ && #[trigger] call_ensures(parse_u64, (text,), millis),
        attributes.playing_time is None ==> millis is None,
        call_ensures(TrackAttributes::into_media_info, (attributes,), info),
    ensures
        ({
            let length: u64 = match millis {
                Some(m) => m,
                None => 0,
            };
            let title = match attributes.title {
                Some(title) => title@,
                None => Seq::<char>::empty(),
            };
            let artist = match attributes.artist {
                Some(artist) => artist@,
                None => Seq::<char>::empty(),
            };
            &&& info is None <==> title.len() == 0 && artist.len() == 0 && length == 0
            &&& info matches Some(track) ==> {
                &&& track.title@ == title
                &&& track.artist@ == artist
                &&& track.duration.secs == length / 1000
                &&& track.duration.nanos == (length % 1000) * 1_000_000
            }
        }),
{
    if let Some(time) = attributes.playing_time {
        let text: &str = choose|text: &str|
            text@ == time@ && #[trigger] call_ensures(parse_u64, (text,), millis);
        assert(millis == crate::text::parsed_u64(text@));
    }
    if attributes.title matches Some(title) && title@.len() == 0 {
        assert(attributes.title->0@ =~= Seq::<char>::empty());
    }
    if attributes.artist matches Some(artist) && artist@.len() == 0 {
        assert(attributes.artist->0@ =~= Seq::<char>::empty());
    }
}

/// What is told of a track is passed on whenever the device answers, and is then the track that
/// the properties make.
pub proof fn told_track_is_passed_on(
    attributes: Option<TrackAttributes>,
    message: Option<Message>,
)
    requires
        call_ensures(received_attributes, (attributes,), message),
    ensures
        attributes is None <==> message is None,
        attributes matches Some(a) ==> {
            let length: u64 = match a.playing_time {
                Some(time) => match crate::text::parsed_u64(time@) {
                    Some(m) => m,
                    None => 0,
                },
                None => 0,
            };
            let title = match a.title {
                Some(title) => title@,
                None => Seq::<char>::empty(),
            };
            let artist = match a.artist {
                Some(artist) => artist@,
                None => Seq::<char>::empty(),
            };
            &&& message matches Some(Message::TrackChanged(info))
            &&& info is None <==> title.len() == 0 && artist.len() == 0 && length == 0
            &&& info matches Some(track) ==> {
                &&& track.title@ == title
                &&& track.artist@ == artist
                &&& track.duration.secs == length / 1000
                &&& track.duration.nanos == (length % 1000) * 1_000_000
            }
        },
{
    if let Some(a) = attributes {
        if a.title matches Some(title) && title@.len() == 0 {
            assert(a.title->0@ =~= Seq::<char>::empty());
        }
        if a.artist matches Some(artist) && artist@.len() == 0 {
            assert(a.artist->0@ =~= Seq::<char>::empty());
        }
    }
}

}
