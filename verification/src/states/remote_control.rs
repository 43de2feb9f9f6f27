//! The control of the playing device: what it plays, and the keys that steer it.

use crate::states::SubState;
use crate::time::{Duration, Timestamp};
use vstd::prelude::*;

verus! {

/// A key of the remote control.
#[derive(Clone, Copy, Debug, PartialEq, Eq, Structural)]
pub enum PassThroughOp {
    Play,
    Pause,
    Backward,
    Forward,
    Other(u8),
}

/// What the playing device reports of its playback.
#[derive(Clone, Copy, Debug, PartialEq, Eq, Structural)]
pub enum PlaybackStatus {
    Stopped,
    Playing,
    Paused,
    FwdSeek,
    RevSeek,
    Error,
}

/// A media key of the computer.
#[derive(Clone, Copy, Debug, PartialEq, Eq, Structural)]
pub enum MediaControlEvent {
    Play,
    Pause,
    Previous,
    Next,
    Other,
}

/// What the computer's media controls are told of the playback.
#[derive(Clone, Copy, Debug, PartialEq, Eq, Structural)]
pub enum MediaPlayback {
    Stopped,
    Paused { progress: Option<Duration> },
    Playing { progress: Option<Duration> },
}

/// What the computer's media controls are told of the track.
#[derive(Debug, PartialEq, Eq)]
pub struct MediaMetadata {
    pub title: Option<String>,
    pub artist: Option<String>,
    pub duration: Option<Duration>,
}

/// A track that plays.
#[derive(Debug, PartialEq, Eq)]
pub struct MediaInfo {
    pub title: String,
    pub artist: String,
    pub duration: Duration,
}

impl Clone for MediaInfo {
    fn clone(&self) -> (info: Self)
        ensures
            info == *self,
    {
        MediaInfo {
            title: self.title.clone(),
            artist: self.artist.clone(),
            duration: self.duration,
        }
    }
}

impl Default for MediaInfo {
    fn default() -> (info: Self)
        ensures
            info.is_blank(),
    {
        MediaInfo { title: String::new(), artist: String::new(), duration: Duration::default() }
    }
}

impl MediaInfo {
    /// Whether nothing is told of the track.
    pub open spec fn is_blank(self) -> bool {
        &&& self.title@ == Seq::<char>::empty()
        &&& self.artist@ == Seq::<char>::empty()
        &&& self.duration.as_nanos() == 0
    }

    /// The track, unless nothing is told of it.
    pub fn validate(self) -> (info: Option<Self>)
        ensures
            info == (if self.is_blank() {
                None
            } else {
                Some(self)
            }),
    {
        if self.title.as_str().is_empty() && self.artist.as_str().is_empty()
            && self.duration.is_zero() {
            assert(self.title@ =~= Seq::<char>::empty());
            assert(self.artist@ =~= Seq::<char>::empty());
            None
        } else {
            Some(self)
        }
    }
}

/// What is sent to the playing device.
#[derive(Clone, Copy, Debug, PartialEq, Eq, Structural)]
pub enum RemoteControlCommand {
    Op(PassThroughOp),
    VolumeChanged,
}

/// What the remote control is told.
#[derive(Debug, PartialEq, Eq)]
pub enum Message {
    /// The media controls of the computer are up, or cannot be had.
    MediaControlsInitialized(bool),
    /// There is a channel to the playing device.
    MediaCommandChannel,
    TrackChanged(Option<MediaInfo>),
    PlaybackStatusChanged(PlaybackStatus),
    PlaybackPositionChanged(Option<Duration>),
    Button(PassThroughOp),
    VolumeChanged,
}

/// What the remote control asks to be done.
#[derive(Debug, PartialEq, Eq)]
pub enum Effect {
    /// Bring up the media controls of the computer.
    InitializeMediaControls,
    /// Send what the media keys mean over the channel, from now on.
    AttachMediaKeys,
    SetPlayback(MediaPlayback),
    SetMetadata(MediaMetadata),
    /// Send a command over the channel to the playing device.
    Send(RemoteControlCommand),
}

/// What a media key of the computer means to the playing device.
pub open spec fn op_of_key(event: MediaControlEvent) -> Option<PassThroughOp> {
    match event {
        MediaControlEvent::Play => Some(PassThroughOp::Play),
        MediaControlEvent::Pause => Some(PassThroughOp::Pause),
        MediaControlEvent::Previous => Some(PassThroughOp::Backward),
        MediaControlEvent::Next => Some(PassThroughOp::Forward),
        MediaControlEvent::Other => None,
    }
}

/// The command that a media key of the computer gives, if it means anything here.
pub open spec fn command_of_key(event: MediaControlEvent) -> Option<RemoteControlCommand> {
    match op_of_key(event) {
        Some(op) => Some(RemoteControlCommand::Op(op)),
        None => None,
    }
}

/// The command that a media key of the computer gives, if it means anything here.
pub fn media_key_command(event: MediaControlEvent) -> (cmd: Option<RemoteControlCommand>)
    ensures
        cmd == command_of_key(event),
{
    match event {
        MediaControlEvent::Play => Some(RemoteControlCommand::Op(PassThroughOp::Play)),
        MediaControlEvent::Pause => Some(RemoteControlCommand::Op(PassThroughOp::Pause)),
        MediaControlEvent::Previous => Some(RemoteControlCommand::Op(PassThroughOp::Backward)),
        MediaControlEvent::Next => Some(RemoteControlCommand::Op(PassThroughOp::Forward)),
        MediaControlEvent::Other => None,
    }
}

/// Whether a status counts as playing: seeking does.
pub open spec fn is_playing(status: PlaybackStatus) -> bool {
    status is Playing || status is FwdSeek || status is RevSeek
}

/// What the media controls are told of a status and a position.
pub open spec fn playback_of(status: PlaybackStatus, position: Option<Duration>) -> MediaPlayback {
    if is_playing(status) {
        MediaPlayback::Playing { progress: position }
    } else if status is Paused {
        MediaPlayback::Paused { progress: position }
    } else {
        MediaPlayback::Stopped
    }
}

/// What the media controls are told of a track.
pub open spec fn metadata_of(info: Option<MediaInfo>) -> MediaMetadata {
    match info {
        Some(info) => MediaMetadata {
            title: Some(info.title),
            artist: Some(info.artist),
            duration: Some(info.duration),
        },
        None => MediaMetadata { title: None, artist: None, duration: None },
    }
}

/// The control of one playing device.
#[derive(Debug, PartialEq, Eq)]
pub struct RemoteControlSession {
    /// Whether the media controls of the computer are up.
    pub media_controls: bool,
    /// Whether there is a channel to the playing device.
    pub media_commands: bool,
    pub info: Option<MediaInfo>,
    pub position: Option<Duration>,
    pub status: PlaybackStatus,
}

impl RemoteControlSession {
    /// The media keys have a channel to go over.
    pub open spec fn well_formed(self) -> bool {
        self.media_controls ==> self.media_commands
    }

    /// The session as it begins.
    pub open spec fn fresh() -> Self {
        RemoteControlSession {
            media_controls: false,
            media_commands: false,
            info: None,
            position: None,
            status: PlaybackStatus::Stopped,
        }
    }

    pub fn new() -> (r: (Self, Vec<Effect>))
        ensures
            r.0 == RemoteControlSession::fresh(),
            r.0.well_formed(),
            r.1@ == Seq::<Effect>::empty(),
    {
        (
            RemoteControlSession {
                media_controls: false,
                media_commands: false,
                info: None,
                position: None,
                status: PlaybackStatus::Stopped,
            },
            Vec::new(),
        )
    }

    /// Telling the media controls of the status and the position, if they are up.
    pub open spec fn status_effects(self) -> Seq<Effect> {
        if self.media_controls {
            seq![Effect::SetPlayback(playback_of(self.status, self.position))]
        } else {
            seq![]
        }
    }

    /// Telling the media controls of the track, if they are up.
    pub open spec fn info_effects(self) -> Seq<Effect> {
        if self.media_controls {
            seq![Effect::SetMetadata(metadata_of(self.info))]
        } else {
            seq![]
        }
    }

    /// Sending a command to the playing device, if there is a channel.
    pub open spec fn command_effects(self, cmd: RemoteControlCommand) -> Seq<Effect> {
        if self.media_commands {
            seq![Effect::Send(cmd)]
        } else {
            seq![]
        }
    }

    fn update_media_status(&self) -> (effects: Vec<Effect>)
        ensures
            effects@ == self.status_effects(),
    {
        if self.media_controls {
            let playback = match self.status {
                PlaybackStatus::Stopped | PlaybackStatus::Error => MediaPlayback::Stopped,
                PlaybackStatus::Playing | PlaybackStatus::FwdSeek | PlaybackStatus::RevSeek =>
                MediaPlayback::Playing { progress: self.position },
                PlaybackStatus::Paused => MediaPlayback::Paused { progress: self.position },
            };
            vec![Effect::SetPlayback(playback)]
        } else {
            Vec::new()
        }
    }

    fn update_media_info(&self) -> (effects: Vec<Effect>)
        ensures
            effects@ == self.info_effects(),
    {
        if self.media_controls {
            let metadata = match &self.info {
                Some(info) => MediaMetadata {
                    title: Some(info.title.clone()),
                    artist: Some(info.artist.clone()),
                    duration: Some(info.duration),
                },
                None => MediaMetadata { title: None, artist: None, duration: None },
            };
            vec![Effect::SetMetadata(metadata)]
        } else {
            Vec::new()
        }
    }

    fn send(&self, cmd: RemoteControlCommand) -> (effects: Vec<Effect>)
        ensures
            effects@ == self.command_effects(cmd),
    {
        if self.media_commands {
            vec![Effect::Send(cmd)]
        } else {
            Vec::new()
        }
    }

    /// Lets the playing device know that the volume changed here.
    pub fn notify_volume_change(&self) -> (effects: Vec<Effect>)
        ensures
            effects@ == self.command_effects(RemoteControlCommand::VolumeChanged),
    {
        self.send(RemoteControlCommand::VolumeChanged)
    }

    /// The session after a message.
    pub open spec fn after(self, message: Message) -> Self {
        match message {
            Message::MediaCommandChannel => RemoteControlSession { media_commands: true, ..self },
            Message::MediaControlsInitialized(up) => RemoteControlSession {
                media_controls: up,
                ..self
            },
            Message::TrackChanged(info) => RemoteControlSession { info, ..self },
            Message::PlaybackStatusChanged(status) => RemoteControlSession { status, ..self },
            Message::PlaybackPositionChanged(position) => RemoteControlSession { position, ..self },
            Message::Button(_) | Message::VolumeChanged => self,
        }
    }

    /// What a message makes the session ask for.
    pub open spec fn effects_of(self, message: Message) -> Seq<Effect> {
        match message {
            Message::MediaCommandChannel => seq![Effect::InitializeMediaControls],
            Message::MediaControlsInitialized(up) => if up {
                seq![Effect::AttachMediaKeys]
            } else {
                seq![]
            },
            Message::TrackChanged(_) => self.after(message).info_effects(),
            Message::PlaybackStatusChanged(_) | Message::PlaybackPositionChanged(_) => self.after(
                message,
            ).status_effects(),
            Message::Button(op) => self.command_effects(RemoteControlCommand::Op(op)),
            Message::VolumeChanged => seq![],
        }
    }

    /// Whether the message can come: the media controls come up only once there is a channel.
    pub open spec fn can_take(self, message: Message) -> bool {
        message matches Message::MediaControlsInitialized(up) ==> up ==> self.media_commands
    }
}

/// A button and what it does; one that does nothing cannot be pressed.
#[derive(Clone, Copy, Debug, PartialEq, Eq, Structural)]
pub struct ControlButton {
    pub icon: char,
    pub on_press: Option<PassThroughOp>,
}

/// What is shown of the playing device.
#[derive(Debug, PartialEq, Eq)]
pub struct RemoteControlScreen {
    pub artist: String,
    pub title: String,
    pub current_time: String,
    /// The position and the length of the track, where it has a length.
    pub progress: Option<(Duration, Duration)>,
    pub end_time: String,
    pub controls: Vec<ControlButton>,
}

pub const ICON_BACKWARD: char = '\u{e774}';

pub const ICON_FORWARD: char = '\u{e775}';

pub const ICON_PLAY: char = '\u{e71c}';

pub const ICON_PAUSE: char = '\u{e71d}';

/// The buttons of a status: they do nothing while the playback is stopped, and the middle one
/// pauses what plays and plays what does not.
pub open spec fn controls_of(status: PlaybackStatus) -> Seq<ControlButton> {
    let press = |op: PassThroughOp|
        if is_playing(status) || status is Paused {
            Some(op)
        } else {
            None
        };
    seq![
        ControlButton { icon: ICON_BACKWARD, on_press: press(PassThroughOp::Backward) },
        if is_playing(status) {
            ControlButton { icon: ICON_PAUSE, on_press: press(PassThroughOp::Pause) }
        } else {
            ControlButton { icon: ICON_PLAY, on_press: press(PassThroughOp::Play) }
        },
        ControlButton { icon: ICON_FORWARD, on_press: press(PassThroughOp::Forward) },
    ]
}

/// The position and the length to show: none without a track, or where it has no length.
pub open spec fn progress_of(info: Option<MediaInfo>, position: Option<Duration>) -> Option<
    (Duration, Duration),
> {
    match info {
        Some(info) => if info.duration.as_nanos() != 0 {
            Some(
                (
                    match position {
                        Some(position) => position,
                        None => Duration { secs: 0, nanos: 0 },
                    },
                    info.duration,
                ),
            )
        } else {
            None
        },
        None => None,
    }
}

impl RemoteControlScreen {
    /// Whether this is what a session shows.
    pub open spec fn shows(self, session: RemoteControlSession) -> bool {
        &&& self.controls@ == controls_of(session.status)
        &&& self.artist@ == (match session.info {
            Some(info) => info.artist@,
            None => Seq::<char>::empty(),
        })
        &&& self.title@ == (match session.info {
            Some(info) => info.title@,
            None => "No Track Selected"@,
        })
        &&& self.progress == progress_of(session.info, session.position)
        &&& match self.progress {
            Some((current, end)) => {
                let end_stamp = Timestamp::of(end, false);
                &&& self.end_time@ == end_stamp.text()
                &&& self.current_time@ == Timestamp::of(current, end_stamp.hours is Some).text()
            },
            None => {
                let nil = Timestamp { hours: None, minutes: 0, seconds: 0 };
                self.end_time@ == nil.text() && self.current_time@ == nil.text()
            },
        }
    }
}

impl SubState for RemoteControlSession {
    type Message = Message;

    type Effect = Effect;

    type Surroundings = ();

    type Screen = RemoteControlScreen;

    /// The one source is the channel of the session itself.
    type Source = ();

    open spec fn accepts(&self, message: Message) -> bool {
        self.can_take(message)
    }

    open spec fn can_show(&self) -> bool {
        true
    }

    fn update(&mut self, message: Message) -> (effects: Vec<Effect>)
        ensures
            *final(self) == old(self).after(message),
            effects@ == old(self).effects_of(message),
            old(self).well_formed() ==> final(self).well_formed(),
    {
        match message {
            Message::MediaCommandChannel => {
                self.media_commands = true;
                vec![Effect::InitializeMediaControls]
            },
            Message::MediaControlsInitialized(up) => {
                self.media_controls = up;
                if up {
                    vec![Effect::AttachMediaKeys]
                } else {
                    Vec::new()
                }
            },
            Message::TrackChanged(info) => {
                self.info = info;
                self.update_media_info()
            },
            Message::PlaybackStatusChanged(status) => {
                self.status = status;
                self.update_media_status()
            },
            Message::PlaybackPositionChanged(position) => {
                self.position = position;
                self.update_media_status()
            },
            Message::Button(op) => self.send(RemoteControlCommand::Op(op)),
            Message::VolumeChanged => Vec::new(),
        }
    }

    fn view(&self, surroundings: ()) -> (screen: RemoteControlScreen)
        ensures
            screen.shows(*self),
    {
        let (enabled, icon, op) = match self.status {
            PlaybackStatus::Stopped | PlaybackStatus::Error => (
                false,
                ICON_PLAY,
                PassThroughOp::Play,
            ),
            PlaybackStatus::FwdSeek | PlaybackStatus::Playing | PlaybackStatus::RevSeek => (
                true,
                ICON_PAUSE,
                PassThroughOp::Pause,
            ),
            PlaybackStatus::Paused => (true, ICON_PLAY, PassThroughOp::Play),
        };
        let controls = vec![
            control_button(enabled, ICON_BACKWARD, PassThroughOp::Backward),
            control_button(enabled, icon, op),
            control_button(enabled, ICON_FORWARD, PassThroughOp::Forward),
        ];
        assert(controls@ =~= controls_of(self.status));
        let current = match self.position {
            Some(position) => position,
            None => Duration::default(),
        };
        let end = match &self.info {
            Some(info) => if !info.duration.is_zero() {
                Some(info.duration)
            } else {
                None
            },
            None => None,
        };
        let end_time = match end {
            Some(time) => Some(Timestamp::new(time, false)),
            None => None,
        };
        let current_time = match end_time {
            Some(end) => Some(Timestamp::new(current, end.has_hours())),
            None => None,
        };
        RemoteControlScreen {
            artist: match &self.info {
                Some(info) => info.artist.clone(),
                None => String::new(),
            },
            title: match &self.info {
                Some(info) => info.title.clone(),
                None => "No Track Selected".to_owned(),
            },
            current_time: current_time.unwrap_or_default().to_string(),
            progress: match end {
                Some(end) => Some((current, end)),
                None => None,
            },
            end_time: end_time.unwrap_or_default().to_string(),
            controls,
        }
    }

    fn subscription(&self) -> (sources: Vec<()>)
        ensures
            sources@ == seq![()],
    {
        vec![()]
    }
}

fn control_button(enabled: bool, icon: char, op: PassThroughOp) -> (b: ControlButton)
    ensures
        b == (ControlButton {
            icon,
            on_press: if enabled {
                Some(op)
            } else {
                None
            },
        }),
{
    ControlButton {
        icon,
        on_press: if enabled {
            Some(op)
        } else {
            None
        },
    }
}

/// The media controls of the computer follow the playing device: while they are up, each report
/// of it is passed on as it then stands.
pub proof fn media_controls_follow_the_device(session: RemoteControlSession, message: Message)
    requires
        session.media_controls,
    ensures
        ({
            let after = session.after(message);
            &&& message is PlaybackStatusChanged || message is PlaybackPositionChanged
                ==> session.effects_of(message) == seq![
                Effect::SetPlayback(playback_of(after.status, after.position)),
            ]
            &&& message is TrackChanged ==> session.effects_of(message) == seq![
                Effect::SetMetadata(metadata_of(after.info)),
            ]
        }),
{
}

/// The media keys stay connected: once there is a channel there is always one, and the keys are
/// attached only where there is.
pub proof fn channel_stays(session: RemoteControlSession, message: Message)
    requires
        session.can_take(message),
    ensures
        session.media_commands ==> session.after(message).media_commands,
        session.well_formed() ==> session.after(message).well_formed(),
        session.effects_of(message).contains(Effect::AttachMediaKeys) ==> session.media_commands,
{
    if session.effects_of(message).contains(Effect::AttachMediaKeys) {
        let i = session.effects_of(message).index_of(Effect::AttachMediaKeys);
        assert(session.effects_of(message)[i] is AttachMediaKeys);
    }
}

/// Reports of the device on different matters can come in any order.
pub proof fn reports_can_come_in_any_order(
    session: RemoteControlSession,
    info: Option<MediaInfo>,
    status: PlaybackStatus,
    position: Option<Duration>,
)
    ensures
        ({
            let t = Message::TrackChanged(info);
            let s = Message::PlaybackStatusChanged(status);
            let p = Message::PlaybackPositionChanged(position);
            &&& session.after(t).after(s) == session.after(s).after(t)
            &&& session.after(s).after(p) == session.after(p).after(s)
            &&& session.after(p).after(t) == session.after(t).after(p)
        }),
{
}

}
