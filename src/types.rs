use vstd::prelude::*;

verus! {

/// A playback intent understood by the native command sink.
#[derive(Debug, Clone, Copy, PartialEq, Eq, Structural)]
pub enum Command {
    Play,
    Pause,
    TogglePlayPause,
    Stop,
    NextTrack,
    PreviousTrack,
    ToggleShuffle,
    ToggleRepeat,
    StartForwardSeek,
    EndForwardSeek,
    StartBackwardSeek,
    EndBackwardSeek,
    GoBackFifteenSeconds,
    SkipFifteenSeconds,
}

impl Command {
    /// The fixed integer code of each command.
    pub open spec fn spec_code(self) -> i32 {
        match self {
            Command::Play => 0,
            Command::Pause => 1,
            Command::TogglePlayPause => 2,
            Command::Stop => 3,
            Command::NextTrack => 4,
            Command::PreviousTrack => 5,
            Command::ToggleShuffle => 6,
            Command::ToggleRepeat => 7,
            Command::StartForwardSeek => 8,
            Command::EndForwardSeek => 9,
            Command::StartBackwardSeek => 10,
            Command::EndBackwardSeek => 11,
            Command::GoBackFifteenSeconds => 12,
            Command::SkipFifteenSeconds => 13,
        }
    }

    /// The code handed to the native command sink.
    pub fn code(&self) -> (r: i32)
        ensures
            r == self.spec_code(),
    {
        match self {
            Command::Play => 0,
            Command::Pause => 1,
            Command::TogglePlayPause => 2,
            Command::Stop => 3,
            Command::NextTrack => 4,
            Command::PreviousTrack => 5,
            Command::ToggleShuffle => 6,
            Command::ToggleRepeat => 7,
            Command::StartForwardSeek => 8,
            Command::EndForwardSeek => 9,
            Command::StartBackwardSeek => 10,
            Command::EndBackwardSeek => 11,
            Command::GoBackFifteenSeconds => 12,
            Command::SkipFifteenSeconds => 13,
        }
    }
}

impl From<Command> for i32 {
    fn from(c: Command) -> (r: i32) {
        c.code()
    }
}

impl vstd::std_specs::convert::FromSpecImpl<Command> for i32 {
    open spec fn obeys_from_spec() -> bool {
        true
    }

    open spec fn from_spec(c: Command) -> i32 {
        c.spec_code()
    }
}

/// A change event posted by the native notification center.
#[derive(Debug, Clone, Copy, PartialEq, Eq, Structural)]
pub enum Notification {
    NowPlayingInfoDidChange,
    NowPlayingPlaybackQueueDidChange,
    NowPlayingApplicationDidChange,
    NowPlayingApplicationIsPlayingDidChange,
    PickableRoutesDidChange,
    RouteStatusDidChange,
    NowPlayingPlaybackQueueChanged,
    PlaybackQueueContentItemsChanged,
    NowPlayingApplicationClientStateDidChange,
}

impl Notification {
    /// The name under which the native notification center posts the event.
    pub open spec fn name(self) -> Seq<char> {
        match self {
            Notification::NowPlayingInfoDidChange =>
                "kMRMediaRemoteNowPlayingInfoDidChangeNotification"@,
            Notification::NowPlayingPlaybackQueueDidChange =>
                "kMRMediaRemoteNowPlayingPlaybackQueueDidChangeNotification"@,
            Notification::NowPlayingApplicationDidChange =>
                "kMRMediaRemoteNowPlayingApplicationDidChangeNotification"@,
            Notification::NowPlayingApplicationIsPlayingDidChange =>
                "kMRMediaRemoteNowPlayingApplicationIsPlayingDidChangeNotification"@,
            Notification::PickableRoutesDidChange =>
                "kMRMediaRemotePickableRoutesDidChangeNotification"@,
            Notification::RouteStatusDidChange =>
                "kMRMediaRemoteRouteStatusDidChangeNotification"@,
            Notification::NowPlayingPlaybackQueueChanged =>
                "kMRNowPlayingPlaybackQueueChangedNotification"@,
            Notification::PlaybackQueueContentItemsChanged =>
                "kMRPlaybackQueueContentItemsChangedNotification"@,
            Notification::NowPlayingApplicationClientStateDidChange =>
                "kMRMediaRemoteNowPlayingApplicationClientStateDidChange"@,
        }
    }

    pub fn as_str(&self) -> (r: &'static str)
        ensures
            r@ == self.name(),
    {
        match self {
            Notification::NowPlayingInfoDidChange => {
                "kMRMediaRemoteNowPlayingInfoDidChangeNotification"
            },
            Notification::NowPlayingPlaybackQueueDidChange => {
                "kMRMediaRemoteNowPlayingPlaybackQueueDidChangeNotification"
            },
            Notification::NowPlayingApplicationDidChange => {
                "kMRMediaRemoteNowPlayingApplicationDidChangeNotification"
            },
            Notification::NowPlayingApplicationIsPlayingDidChange => {
                "kMRMediaRemoteNowPlayingApplicationIsPlayingDidChangeNotification"
            },
            Notification::PickableRoutesDidChange => {
                "kMRMediaRemotePickableRoutesDidChangeNotification"
            },
            Notification::RouteStatusDidChange => {
                "kMRMediaRemoteRouteStatusDidChangeNotification"
            },
            Notification::NowPlayingPlaybackQueueChanged => {
                "kMRNowPlayingPlaybackQueueChangedNotification"
            },
            Notification::PlaybackQueueContentItemsChanged => {
                "kMRPlaybackQueueContentItemsChangedNotification"
            },
            Notification::NowPlayingApplicationClientStateDidChange => {
                "kMRMediaRemoteNowPlayingApplicationClientStateDidChange"
            },
        }
    }
}

/// A numeric value of the native info dictionary. A floating-point value is
/// held in thousandths, so that seconds arrive as milliseconds.
#[derive(Debug, Clone, Copy, PartialEq, Eq, Structural)]
pub enum Number {
    Signed(i64),
    Unsigned(u64),
    Floating(i64),
}

/// A value of the native info dictionary, as the marshalling layer hands it
/// over. A time is held as milliseconds since the Unix epoch; a value of a
/// kind that the marshalling layer does not know is `Unsupported`.
#[derive(Debug, Clone)]
pub enum InfoTypes {
    String(String),
    SystemTime(u64),
    Data(Vec<u8>),
    Number(Number),
    Unsupported,
}

} // verus!
