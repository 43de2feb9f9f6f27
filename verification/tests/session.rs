use bluefang_player::states::remote_control::{
    MediaInfo, Message, PassThroughOp, PlaybackStatus, RemoteControlCommand,
};
use bluefang_player::states::session::{
    received_attributes, registered_status, registered_track, CurrentTrack, EventId,
    MediaAttributeId, SessionEvent, SessionInput, SessionLoop, SessionStep, TrackAttributes,
    TrackStep,
};
use bluefang_player::time::Duration;

fn listening() -> SessionLoop {
    let (mut session, _) = SessionLoop::start();
    session.advance(SessionInput::SupportedEvents(None));
    session
}

#[test]
fn the_conversation_opens() {
    let (session, steps) = SessionLoop::start();
    assert_eq!(session, SessionLoop::Starting);
    assert_eq!(
        steps,
        vec![
            SessionStep::Tell(Message::MediaCommandChannel),
            SessionStep::NotifyLocalVolume,
            SessionStep::AskSupportedEvents,
        ]
    );
}

#[test]
fn supported_notices_are_asked_for_in_order() {
    let (mut session, _) = SessionLoop::start();
    let steps = session.advance(SessionInput::SupportedEvents(Some(vec![
        EventId::PlaybackPosition,
        EventId::Other(8),
        EventId::CurrentTrack,
        EventId::PlaybackStatus,
    ])));
    assert_eq!(
        steps,
        vec![
            SessionStep::Register(EventId::CurrentTrack, None),
            SessionStep::Register(EventId::PlaybackStatus, None),
            SessionStep::Register(EventId::PlaybackPosition, Some(Duration::from_secs(1))),
        ]
    );
    assert_eq!(session, SessionLoop::Listening);
}

#[test]
fn unsupported_notices_are_not_asked_for() {
    let (mut session, _) = SessionLoop::start();
    let steps =
        session.advance(SessionInput::SupportedEvents(Some(vec![EventId::PlaybackStatus])));
    assert_eq!(steps, vec![SessionStep::Register(EventId::PlaybackStatus, None)]);
    let (mut session, _) = SessionLoop::start();
    assert_eq!(session.advance(SessionInput::SupportedEvents(None)), vec![]);
    assert_eq!(session, SessionLoop::Listening);
}

#[test]
fn a_sent_key_is_reported() {
    for (op, status) in [
        (PassThroughOp::Play, PlaybackStatus::Playing),
        (PassThroughOp::Pause, PlaybackStatus::Paused),
    ] {
        let mut session = listening();
        let steps = session.advance(SessionInput::Command(Some(RemoteControlCommand::Op(op))));
        assert_eq!(steps, vec![SessionStep::SendOp(op)]);
        assert_eq!(session, SessionLoop::Sending(op));
        let steps = session.advance(SessionInput::OpSent(true));
        assert_eq!(steps, vec![SessionStep::Tell(Message::PlaybackStatusChanged(status))]);
        assert_eq!(session, SessionLoop::Listening);
    }
}

#[test]
fn other_keys_and_lost_keys_are_not_reported() {
    let mut session = listening();
    let forward = RemoteControlCommand::Op(PassThroughOp::Forward);
    session.advance(SessionInput::Command(Some(forward)));
    assert_eq!(session.advance(SessionInput::OpSent(true)), vec![]);
    let play = RemoteControlCommand::Op(PassThroughOp::Play);
    session.advance(SessionInput::Command(Some(play)));
    assert_eq!(session.advance(SessionInput::OpSent(false)), vec![]);
    assert_eq!(session, SessionLoop::Listening);
}

#[test]
fn notices_are_asked_for_again() {
    let mut session = listening();
    for (event, step) in [
        (SessionEvent::TrackChanged, SessionStep::Register(EventId::CurrentTrack, None)),
        (
            SessionEvent::PlaybackStatusChanged,
            SessionStep::Register(EventId::PlaybackStatus, None),
        ),
        (
            SessionEvent::PlaybackPositionChanged,
            SessionStep::Register(EventId::PlaybackPosition, Some(Duration::from_secs(1))),
        ),
    ] {
        assert_eq!(session.advance(SessionInput::Event(Some(event))), vec![step]);
        assert_eq!(session, SessionLoop::Listening);
    }
}

#[test]
fn the_volume_goes_both_ways() {
    let mut session = listening();
    let volume = 0.25f32.to_bits();
    assert_eq!(
        session.advance(SessionInput::Event(Some(SessionEvent::VolumeChanged(volume)))),
        vec![SessionStep::StoreVolume(volume), SessionStep::Tell(Message::VolumeChanged)]
    );
    assert_eq!(
        session.advance(SessionInput::Command(Some(RemoteControlCommand::VolumeChanged))),
        vec![SessionStep::NotifyLocalVolume]
    );
}

#[test]
fn either_channel_ends_the_conversation() {
    let mut session = listening();
    assert_eq!(session.advance(SessionInput::Command(None)), vec![]);
    assert_eq!(session, SessionLoop::Ended);
    let mut session = listening();
    assert_eq!(session.advance(SessionInput::Event(None)), vec![]);
    assert_eq!(session, SessionLoop::Ended);
}

#[test]
fn a_status_that_is_not_told_is_stopped() {
    assert_eq!(
        registered_status(None),
        Message::PlaybackStatusChanged(PlaybackStatus::Stopped)
    );
    assert_eq!(
        registered_status(Some(PlaybackStatus::Paused)),
        Message::PlaybackStatusChanged(PlaybackStatus::Paused)
    );
}

#[test]
fn only_a_selected_track_is_asked_about() {
    assert_eq!(registered_track(None), TrackStep::Nothing);
    let none = TrackStep::Tell(Message::TrackChanged(None));
    assert_eq!(registered_track(Some(CurrentTrack::NotSelected)), none);
    assert_eq!(registered_track(Some(CurrentTrack::Id(4))), none);
    assert_eq!(
        registered_track(Some(CurrentTrack::Selected)),
        TrackStep::Ask(vec![
            MediaAttributeId::Title,
            MediaAttributeId::ArtistName,
            MediaAttributeId::PlayingTime,
        ])
    );
}

fn attributes(title: Option<&str>, artist: Option<&str>, time: Option<&str>) -> TrackAttributes {
    TrackAttributes {
        title: title.map(str::to_string),
        artist: artist.map(str::to_string),
        playing_time: time.map(str::to_string),
    }
}

fn length_of(time: &str) -> Duration {
    attributes(Some("t"), None, Some(time)).into_media_info().unwrap().duration
}

#[test]
fn attributes_make_a_track() {
    assert_eq!(
        received_attributes(Some(attributes(Some("t"), Some("a"), Some("215500")))),
        Some(Message::TrackChanged(Some(MediaInfo {
            title: "t".to_string(),
            artist: "a".to_string(),
            duration: Duration { secs: 215, nanos: 500_000_000 },
        })))
    );
    assert_eq!(received_attributes(None), None);
    assert_eq!(
        received_attributes(Some(attributes(None, None, None))),
        Some(Message::TrackChanged(None))
    );
    assert_eq!(
        received_attributes(Some(attributes(Some(""), None, Some("0")))),
        Some(Message::TrackChanged(None))
    );
}

#[test]
fn playing_times_are_read_as_numbers() {
    assert_eq!(length_of("1000"), Duration::from_secs(1));
    assert_eq!(length_of("+1000"), Duration::from_secs(1));
    assert_eq!(length_of("0001000"), Duration::from_secs(1));
    assert_eq!(length_of("18446744073709551615"), Duration::from_millis(u64::MAX));
    for text in ["", "+", "-1", "1 ", " 1", "1.5", "abc", "++1", "18446744073709551616", "\u{0661}"] {
        assert!(length_of(text).is_zero(), "{:?}", text);
    }
}
