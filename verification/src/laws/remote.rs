//! The control of the playing device, call by call.

use crate::states::remote_control::{
    media_key_command, ControlButton, Effect, MediaControlEvent, MediaInfo, MediaMetadata,
    MediaPlayback, Message, PassThroughOp, PlaybackStatus, RemoteControlCommand,
    RemoteControlScreen, RemoteControlSession,
};
use crate::states::SubState;
use crate::time::{Duration, Timestamp};
use vstd::prelude::*;

verus! {

/// A track is dropped only if its title, its artist and its length are all missing, and is
/// otherwise kept as it is.
pub proof fn blank_tracks_are_dropped(info: MediaInfo, kept: Option<MediaInfo>)
    requires
        call_ensures(MediaInfo::validate, (info,), kept),
    ensures
        kept is None <==> info.title@.len() == 0 && info.artist@.len() == 0 && info.duration.secs
            == 0 && info.duration.nanos == 0,
        kept matches Some(k) ==> k == info,
{
    if info.title@.len() == 0 {
        assert(info.title@ =~= Seq::<char>::empty());
    }
    if info.artist@.len() == 0 {
        assert(info.artist@ =~= Seq::<char>::empty());
    }
}

/// A copy of a track is the same in everything, and a track of which nothing is told is blank.
pub proof fn tracks_are_copied_whole(info: MediaInfo, copy: MediaInfo, blank: MediaInfo)
    requires
        call_ensures(<MediaInfo as Clone>::clone, (&info,), copy),
        call_ensures(<MediaInfo as Default>::default, (), blank),
    ensures
        copy.title == info.title,
        copy.artist == info.artist,
        copy.duration == info.duration,
        blank.title@.len() == 0,
        blank.artist@.len() == 0,
        blank.duration.secs == 0 && blank.duration.nanos == 0,
{
}

/// Each media key of the computer is the key of the playing device that does the same.
pub proof fn media_keys_do_what_they_say(
    event: MediaControlEvent,
    command: Option<RemoteControlCommand>,
)
    requires
        call_ensures(media_key_command, (event,), command),
    ensures
        event is Play <==> command == Some(RemoteControlCommand::Op(PassThroughOp::Play)),
        event is Pause <==> command == Some(RemoteControlCommand::Op(PassThroughOp::Pause)),
        event is Previous <==> command == Some(RemoteControlCommand::Op(PassThroughOp::Backward)),
        event is Next <==> command == Some(RemoteControlCommand::Op(PassThroughOp::Forward)),
        event is Other <==> command is None,
{
}

/// A session begins with nothing reported, nothing connected and nothing to do.
pub proof fn sessions_begin_empty(r: (RemoteControlSession, Vec<Effect>))
    requires
        call_ensures(RemoteControlSession::new, (), r),
    ensures
        !r.0.media_controls,
        !r.0.media_commands,
        r.0.info is None,
        r.0.position is None,
        r.0.status is Stopped,
        r.1@.len() == 0,
{
}

/// A change of the volume is sent to the playing device whenever there is a channel to it.
pub proof fn volume_changes_are_sent(session: RemoteControlSession, effects: Vec<Effect>)
    requires
        call_ensures(RemoteControlSession::notify_volume_change, (&session,), effects),
    ensures
        session.media_commands ==> effects@ == seq![
            Effect::Send(RemoteControlCommand::VolumeChanged),
        ],
        !session.media_commands ==> effects@.len() == 0,
{
}

/// The session holds what was last reported: each report sets what it reports on, whatever was
/// there before, and leaves the rest alone.
pub proof fn reports_are_kept(
    session: &mut RemoteControlSession,
    message: Message,
    effects: Vec<Effect>,
)
    requires
        message matches Message::MediaControlsInitialized(up) ==> up ==> old(session).media_commands,
        call_ensures(<RemoteControlSession as SubState>::update, (session, message), effects),
    ensures
        final(session).status == (match message {
            Message::PlaybackStatusChanged(status) => status,
            _ => old(session).status,
        }),
        final(session).position == (match message {
            Message::PlaybackPositionChanged(position) => position,
            _ => old(session).position,
        }),
        final(session).info == (match message {
            Message::TrackChanged(info) => info,
            _ => old(session).info,
        }),
        final(session).media_controls == (match message {
            Message::MediaControlsInitialized(up) => up,
            _ => old(session).media_controls,
        }),
        final(session).media_commands == (old(session).media_commands
            || message is MediaCommandChannel),
{
}

/// What the media controls show of a playback: playing and seeking as playing, with the position;
/// paused as paused, with the position; and all else as stopped.
pub proof fn media_controls_are_told_of_the_playback(
    session: &mut RemoteControlSession,
    message: Message,
    effects: Vec<Effect>,
)
    requires
        message is PlaybackStatusChanged || message is PlaybackPositionChanged,
        call_ensures(<RemoteControlSession as SubState>::update, (session, message), effects),
    ensures
        !old(session).media_controls ==> effects@.len() == 0,
        old(session).media_controls ==> {
            let status = match message {
                Message::PlaybackStatusChanged(status) => status,
                _ => old(session).status,
            };
            let progress = match message {
                Message::PlaybackPositionChanged(position) => position,
                _ => old(session).position,
            };
            effects@ == seq![
                Effect::SetPlayback(
                    match status {
                        PlaybackStatus::Playing => MediaPlayback::Playing { progress },
                        PlaybackStatus::FwdSeek => MediaPlayback::Playing { progress },
                        PlaybackStatus::RevSeek => MediaPlayback::Playing { progress },
                        PlaybackStatus::Paused => MediaPlayback::Paused { progress },
                        PlaybackStatus::Stopped => MediaPlayback::Stopped,
                        PlaybackStatus::Error => MediaPlayback::Stopped,
                    },
                ),
            ]
        },
{
}

/// The media controls are told of each track that is reported, and of there being none.
pub proof fn media_controls_are_told_of_the_track(
    session: &mut RemoteControlSession,
    info: Option<MediaInfo>,
    effects: Vec<Effect>,
)
    requires
        call_ensures(
            <RemoteControlSession as SubState>::update,
            (session, Message::TrackChanged(info)),
            effects,
        ),
    ensures
        !old(session).media_controls ==> effects@.len() == 0,
        old(session).media_controls ==> effects@ == seq![
            Effect::SetMetadata(
                match info {
                    Some(info) => MediaMetadata {
                        title: Some(info.title),
                        artist: Some(info.artist),
                        duration: Some(info.duration),
                    },
                    None => MediaMetadata { title: None, artist: None, duration: None },
                },
            ),
        ],
{
}

/// A button that is pressed is sent to the playing device as it is, whenever there is a channel.
pub proof fn buttons_are_sent(
    session: &mut RemoteControlSession,
    op: PassThroughOp,
    effects: Vec<Effect>,
)
    requires
        call_ensures(
            <RemoteControlSession as SubState>::update,
            (session, Message::Button(op)),
            effects,
        ),
    ensures
        old(session).media_commands ==> effects@ == seq![
            Effect::Send(RemoteControlCommand::Op(op)),
        ],
        !old(session).media_commands ==> effects@.len() == 0,
{
}

/// The media controls are brought up once there is a channel, and their keys attached once they
/// are up.
pub proof fn media_controls_come_up(
    session: &mut RemoteControlSession,
    message: Message,
    effects: Vec<Effect>,
)
    requires
        message matches Message::MediaControlsInitialized(up) ==> up ==> old(session).media_commands,
        message is MediaCommandChannel || message is MediaControlsInitialized
            || message is VolumeChanged,
        call_ensures(<RemoteControlSession as SubState>::update, (session, message), effects),
    ensures
        message is MediaCommandChannel ==> effects@ == seq![Effect::InitializeMediaControls],
        message matches Message::MediaControlsInitialized(up) ==> if up {
            effects@ == seq![Effect::AttachMediaKeys]
        } else {
            effects@.len() == 0
        },
        message is VolumeChanged ==> effects@.len() == 0,
{
}

/// The buttons on the screen: back, play or pause, and forward. They can be pressed while
/// something plays, seeks or is paused, and the middle one pauses what plays or seeks and plays
/// all else.
pub proof fn buttons_follow_the_status(session: RemoteControlSession, screen: RemoteControlScreen)
    requires
        call_ensures(<RemoteControlSession as SubState>::view, (&session, ()), screen),
    ensures
        screen.controls@.len() == 3,
        screen.controls@[0].icon == '\u{e774}',
        screen.controls@[2].icon == '\u{e775}',
        match session.status {
            PlaybackStatus::Stopped | PlaybackStatus::Error => {
                &&& screen.controls@[0].on_press is None
                &&& screen.controls@[1] == (ControlButton { icon: '\u{e71c}', on_press: None })
                &&& screen.controls@[2].on_press is None
            },
            PlaybackStatus::Playing | PlaybackStatus::FwdSeek | PlaybackStatus::RevSeek => {
                &&& screen.controls@[0].on_press == Some(PassThroughOp::Backward)
                &&& screen.controls@[1] == (ControlButton {
                    icon: '\u{e71d}',
                    on_press: Some(PassThroughOp::Pause),
                })
                &&& screen.controls@[2].on_press == Some(PassThroughOp::Forward)
            },
            PlaybackStatus::Paused => {
                &&& screen.controls@[0].on_press == Some(PassThroughOp::Backward)
                &&& screen.controls@[1] == (ControlButton {
                    icon: '\u{e71c}',
                    on_press: Some(PassThroughOp::Play),
                })
                &&& screen.controls@[2].on_press == Some(PassThroughOp::Forward)
            },
        },
{
}

/// The screen shows the track that was reported, or that there is none.
pub proof fn track_is_shown(session: RemoteControlSession, screen: RemoteControlScreen)
    requires
        call_ensures(<RemoteControlSession as SubState>::view, (&session, ()), screen),
    ensures
        match session.info {
            Some(info) => screen.artist@ == info.artist@ && screen.title@ == info.title@,
            None => screen.artist@.len() == 0 && screen.title@ == "No Track Selected"@,
        },
        screen.progress is Some <==> (session.info matches Some(info) && (info.duration.secs != 0
            || info.duration.nanos != 0)),
        screen.progress matches Some((current, end)) ==> {
            &&& end == session.info->0.duration
            &&& session.position matches Some(position) ==> current == position
            &&& session.position is None ==> current.secs == 0 && current.nanos == 0
        },
{
}

/// The times on the screen are the timestamps of the position and of the length of the track, both
/// with hours if the length has them; without a length both are those of no time at all.
pub proof fn times_are_shown(
    session: RemoteControlSession,
    screen: RemoteControlScreen,
    end_stamp: Timestamp,
    end_text: String,
    has_hours: bool,
    current_stamp: Timestamp,
    current_text: String,
    nil: Timestamp,
    nil_text: String,
)
    requires
        call_ensures(<RemoteControlSession as SubState>::view, (&session, ()), screen),
        session.info matches Some(info) ==> call_ensures(
            Timestamp::new,
            (info.duration, false),
            end_stamp,
        ),
        call_ensures(Timestamp::to_string, (&end_stamp,), end_text),
        call_ensures(Timestamp::has_hours, (&end_stamp,), has_hours),
        call_ensures(
            Timestamp::new,
            (
                match session.position {
                    Some(position) => position,
                    None => Duration { secs: 0, nanos: 0 },
                },
                has_hours,
            ),
            current_stamp,
        ),
        call_ensures(Timestamp::to_string, (&current_stamp,), current_text),
        call_ensures(<Timestamp as Default>::default, (), nil),
        call_ensures(Timestamp::to_string, (&nil,), nil_text),
    ensures
        if session.info matches Some(info) && (info.duration.secs != 0 || info.duration.nanos != 0) {
            screen.end_time@ == end_text@ && screen.current_time@ == current_text@
        } else {
            screen.end_time@ == nil_text@ && screen.current_time@ == nil_text@
        },
{
}

/// A session listens to its one channel.
pub proof fn sessions_listen_to_one_channel(session: RemoteControlSession, sources: Vec<()>)
    requires
        call_ensures(<RemoteControlSession as SubState>::subscription, (&session,), sources),
    ensures
        sources@.len() == 1,
{
}

/// A device that stops is shown as stopped, whatever it did before: over the report and the screen
/// after it.
pub proof fn reported_status_is_shown(
    session: &mut RemoteControlSession,
    status: PlaybackStatus,
    effects: Vec<Effect>,
    screen: RemoteControlScreen,
)
    requires
        call_ensures(
            <RemoteControlSession as SubState>::update,
            (session, Message::PlaybackStatusChanged(status)),
            effects,
        ),
        call_ensures(<RemoteControlSession as SubState>::view, (&*final(session), ()), screen),
    ensures
        status is Stopped || status is Error ==> forall|i: int|
            0 <= i < 3 ==> (#[trigger] screen.controls@[i]).on_press is None,
        status is Paused ==> screen.controls@[1].on_press == Some(PassThroughOp::Play),
        status is Playing || status is FwdSeek || status is RevSeek
            ==> screen.controls@[1].on_press == Some(PassThroughOp::Pause),
{
}

}
