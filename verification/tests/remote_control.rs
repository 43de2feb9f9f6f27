use bluefang_player::states::remote_control::{
    media_key_command, ControlButton, Effect, MediaControlEvent, MediaInfo, MediaMetadata,
    MediaPlayback, Message, PassThroughOp, PlaybackStatus, RemoteControlCommand,
    RemoteControlSession,
};
use bluefang_player::states::SubState;
use bluefang_player::time::Duration;

fn track(title: &str, artist: &str, secs: u64) -> MediaInfo {
    MediaInfo {
        title: title.to_string(),
        artist: artist.to_string(),
        duration: Duration::from_secs(secs),
    }
}

fn with_controls() -> RemoteControlSession {
    let (mut session, effects) = RemoteControlSession::new();
    assert_eq!(effects, vec![]);
    assert_eq!(
        session.update(Message::MediaCommandChannel),
        vec![Effect::InitializeMediaControls]
    );
    assert_eq!(
        session.update(Message::MediaControlsInitialized(true)),
        vec![Effect::AttachMediaKeys]
    );
    session
}

#[test]
fn a_blank_track_is_none() {
    assert_eq!(MediaInfo::default().validate(), None);
    assert_eq!(track("", "", 0).validate(), None);
    assert_eq!(track("a", "", 0).validate(), Some(track("a", "", 0)));
    assert_eq!(track("", "b", 0).validate(), Some(track("", "b", 0)));
    assert_eq!(track("", "", 1).validate(), Some(track("", "", 1)));
}

#[test]
fn media_keys() {
    let op = |op| Some(RemoteControlCommand::Op(op));
    assert_eq!(media_key_command(MediaControlEvent::Play), op(PassThroughOp::Play));
    assert_eq!(media_key_command(MediaControlEvent::Pause), op(PassThroughOp::Pause));
    assert_eq!(media_key_command(MediaControlEvent::Previous), op(PassThroughOp::Backward));
    assert_eq!(media_key_command(MediaControlEvent::Next), op(PassThroughOp::Forward));
    assert_eq!(media_key_command(MediaControlEvent::Other), None);
}

#[test]
fn controls_that_cannot_be_had_are_not_attached() {
    let (mut session, _) = RemoteControlSession::new();
    assert_eq!(session.update(Message::MediaControlsInitialized(false)), vec![]);
    assert_eq!(session.update(Message::TrackChanged(Some(track("a", "b", 1)))), vec![]);
    assert_eq!(session.update(Message::PlaybackStatusChanged(PlaybackStatus::Playing)), vec![]);
    assert_eq!(session.status, PlaybackStatus::Playing);
}

#[test]
fn playback_is_passed_on() {
    let mut session = with_controls();
    let position = Some(Duration::from_secs(5));
    assert_eq!(
        session.update(Message::PlaybackPositionChanged(position)),
        vec![Effect::SetPlayback(MediaPlayback::Stopped)]
    );
    for status in [PlaybackStatus::Playing, PlaybackStatus::FwdSeek, PlaybackStatus::RevSeek] {
        assert_eq!(
            session.update(Message::PlaybackStatusChanged(status)),
            vec![Effect::SetPlayback(MediaPlayback::Playing { progress: position })]
        );
    }
    assert_eq!(
        session.update(Message::PlaybackStatusChanged(PlaybackStatus::Paused)),
        vec![Effect::SetPlayback(MediaPlayback::Paused { progress: position })]
    );
    assert_eq!(
        session.update(Message::PlaybackStatusChanged(PlaybackStatus::Error)),
        vec![Effect::SetPlayback(MediaPlayback::Stopped)]
    );
    assert_eq!(
        session.update(Message::PlaybackPositionChanged(None)),
        vec![Effect::SetPlayback(MediaPlayback::Stopped)]
    );
}

#[test]
fn the_track_is_passed_on() {
    let mut session = with_controls();
    assert_eq!(
        session.update(Message::TrackChanged(Some(track("a", "b", 7)))),
        vec![Effect::SetMetadata(MediaMetadata {
            title: Some("a".to_string()),
            artist: Some("b".to_string()),
            duration: Some(Duration::from_secs(7)),
        })]
    );
    assert_eq!(
        session.update(Message::TrackChanged(None)),
        vec![Effect::SetMetadata(MediaMetadata { title: None, artist: None, duration: None })]
    );
}

#[test]
fn commands_need_a_channel() {
    let (mut session, _) = RemoteControlSession::new();
    assert_eq!(session.update(Message::Button(PassThroughOp::Play)), vec![]);
    assert_eq!(session.notify_volume_change(), vec![]);
    session.update(Message::MediaCommandChannel);
    assert_eq!(
        session.update(Message::Button(PassThroughOp::Forward)),
        vec![Effect::Send(RemoteControlCommand::Op(PassThroughOp::Forward))]
    );
    assert_eq!(
        session.notify_volume_change(),
        vec![Effect::Send(RemoteControlCommand::VolumeChanged)]
    );
    assert_eq!(session.update(Message::VolumeChanged), vec![]);
}

#[test]
fn nothing_is_shown_of_no_track() {
    let (session, _) = RemoteControlSession::new();
    let screen = session.view(());
    assert_eq!(screen.artist, "");
    assert_eq!(screen.title, "No Track Selected");
    assert_eq!(screen.current_time, "00:00");
    assert_eq!(screen.end_time, "00:00");
    assert_eq!(screen.progress, None);
    assert_eq!(
        screen.controls,
        vec![
            ControlButton { icon: '\u{e774}', on_press: None },
            ControlButton { icon: '\u{e71c}', on_press: None },
            ControlButton { icon: '\u{e775}', on_press: None },
        ]
    );
    assert_eq!(session.subscription(), vec![()]);
}

#[test]
fn a_long_track_shows_hours_on_both_sides() {
    let (mut session, _) = RemoteControlSession::new();
    session.update(Message::TrackChanged(Some(track("t", "a", 3725))));
    session.update(Message::PlaybackPositionChanged(Some(Duration::from_secs(65))));
    session.update(Message::PlaybackStatusChanged(PlaybackStatus::Playing));
    let screen = session.view(());
    assert_eq!(screen.title, "t");
    assert_eq!(screen.artist, "a");
    assert_eq!(screen.current_time, "00:01:05");
    assert_eq!(screen.end_time, "01:02:05");
    assert_eq!(
        screen.progress,
        Some((Duration::from_secs(65), Duration::from_secs(3725)))
    );
    assert_eq!(
        screen.controls,
        vec![
            ControlButton { icon: '\u{e774}', on_press: Some(PassThroughOp::Backward) },
            ControlButton { icon: '\u{e71d}', on_press: Some(PassThroughOp::Pause) },
            ControlButton { icon: '\u{e775}', on_press: Some(PassThroughOp::Forward) },
        ]
    );
}

#[test]
fn a_paused_track_can_be_played() {
    let (mut session, _) = RemoteControlSession::new();
    session.update(Message::TrackChanged(Some(track("t", "a", 60))));
    session.update(Message::PlaybackStatusChanged(PlaybackStatus::Paused));
    let screen = session.view(());
    assert_eq!(screen.current_time, "00:00");
    assert_eq!(screen.end_time, "01:00");
    assert_eq!(
        screen.controls[1],
        ControlButton { icon: '\u{e71c}', on_press: Some(PassThroughOp::Play) }
    );
}

#[test]
fn a_track_without_a_length_shows_no_progress() {
    let (mut session, _) = RemoteControlSession::new();
    session.update(Message::TrackChanged(Some(track("t", "a", 0))));
    session.update(Message::PlaybackPositionChanged(Some(Duration::from_secs(30))));
    let screen = session.view(());
    assert_eq!(screen.current_time, "00:00");
    assert_eq!(screen.progress, None);
}

#[test]
fn reports_in_any_order_end_alike() {
    let (mut a, _) = RemoteControlSession::new();
    let (mut b, _) = RemoteControlSession::new();
    a.update(Message::TrackChanged(Some(track("t", "a", 9))));
    a.update(Message::PlaybackStatusChanged(PlaybackStatus::Playing));
    b.update(Message::PlaybackStatusChanged(PlaybackStatus::Playing));
    b.update(Message::TrackChanged(Some(track("t", "a", 9))));
    assert_eq!(a, b);
}
