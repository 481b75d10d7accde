use vstd::prelude::*;

verus! {

/// The size of a transfer, in bytes.
pub type FileSize = u64;

/// A keyboard key, reduced to what the dispatch logic reads.
#[derive(Clone, Copy, Debug, PartialEq, Eq, Structural)]
pub enum Key {
    Enter,
    Esc,
    Up,
    Down,
    Left,
    Right,
    Tab,
    BackTab,
    Char(char),
    Other,
}

/// A gamepad button, reduced to what the dispatch logic reads.
#[derive(Clone, Copy, Debug, PartialEq, Eq, Structural)]
pub enum Button {
    South,
    East,
    North,
    West,
    DPadUp,
    DPadDown,
    DPadLeft,
    DPadRight,
    LeftTrigger,
    RightTrigger,
    LeftTrigger2,
    RightTrigger2,
    Other,
}

/// A gamepad analog axis.
#[derive(Clone, Copy, Debug, PartialEq, Eq, Structural)]
pub enum Axis {
    LeftStickX,
    LeftStickY,
    Other,
}

/// The sign of an axis deflection. The dispatch logic only ever reads
/// whether the raw reading was strictly positive.
#[derive(Clone, Copy, Debug, PartialEq, Eq, Structural)]
pub enum AxisSign {
    Positive,
    NonPositive,
}

/// One notification on the event bus. Each variant is produced by exactly
/// one component and consumed once by the UI loop.
#[derive(Debug)]
pub enum Event {
    Input(Key),
    ControllerInput(Button),
    ControllerAxisMoved(Axis, AxisSign),
    TerminalFocusChanged(bool),
    Tick,
    Resize,
    AccessingOnlineHash,
    OfflineError(String),
    RemoteHash(String),
    LocalHash(String),
    ComputingLocalHash,
    HashAreEqual(bool),
    StartDownloadingBinary(Option<FileSize>),
    DownloadProgress(FileSize),
    BinaryDownloadError(String),
    RemoteBinaryDownloaded,
    NoLocalBinaryFound,
    GameExecutionError(String),
    GameBinaryUpdated,
    Launching,
    GameOutput(String),
    GameErrorOutput(String),
    LauncherError(String),
    CheckingForLauncherUpdate,
    LauncherUpdateAvailable(String),
    LauncherNoUpdateAvailable,
    StartDownloadingLauncherUpdate,
    LauncherDownloadProgress(FileSize, Option<FileSize>),
    LauncherUpdateDownloaded,
    LauncherApplyingUpdate,
    LauncherUpdateApplied,
    RequestLauncherUpdate,
}

/// Model of an event: string payloads become character sequences, so that
/// contracts can speak of an event's content independently of allocation.
pub enum EventModel {
    Input(Key),
    ControllerInput(Button),
    ControllerAxisMoved(Axis, AxisSign),
    TerminalFocusChanged(bool),
    Tick,
    Resize,
    AccessingOnlineHash,
    OfflineError(Seq<char>),
    RemoteHash(Seq<char>),
    LocalHash(Seq<char>),
    ComputingLocalHash,
    HashAreEqual(bool),
    StartDownloadingBinary(Option<FileSize>),
    DownloadProgress(FileSize),
    BinaryDownloadError(Seq<char>),
    RemoteBinaryDownloaded,
    NoLocalBinaryFound,
    GameExecutionError(Seq<char>),
    GameBinaryUpdated,
    Launching,
    GameOutput(Seq<char>),
    GameErrorOutput(Seq<char>),
    LauncherError(Seq<char>),
    CheckingForLauncherUpdate,
    LauncherUpdateAvailable(Seq<char>),
    LauncherNoUpdateAvailable,
    StartDownloadingLauncherUpdate,
    LauncherDownloadProgress(FileSize, Option<FileSize>),
    LauncherUpdateDownloaded,
    LauncherApplyingUpdate,
    LauncherUpdateApplied,
    RequestLauncherUpdate,
}

impl View for Event {
    type V = EventModel;

    open spec fn view(&self) -> EventModel {
        match self {
            Event::Input(k) => EventModel::Input(*k),
            Event::ControllerInput(b) => EventModel::ControllerInput(*b),
            Event::ControllerAxisMoved(a, s) => EventModel::ControllerAxisMoved(*a, *s),
            Event::TerminalFocusChanged(f) => EventModel::TerminalFocusChanged(*f),
            Event::Tick => EventModel::Tick,
            Event::Resize => EventModel::Resize,
            Event::AccessingOnlineHash => EventModel::AccessingOnlineHash,
            Event::OfflineError(s) => EventModel::OfflineError(s@),
            Event::RemoteHash(s) => EventModel::RemoteHash(s@),
            Event::LocalHash(s) => EventModel::LocalHash(s@),
            Event::ComputingLocalHash => EventModel::ComputingLocalHash,
            Event::HashAreEqual(b) => EventModel::HashAreEqual(*b),
            Event::StartDownloadingBinary(t) => EventModel::StartDownloadingBinary(*t),
            Event::DownloadProgress(n) => EventModel::DownloadProgress(*n),
            Event::BinaryDownloadError(s) => EventModel::BinaryDownloadError(s@),
            Event::RemoteBinaryDownloaded => EventModel::RemoteBinaryDownloaded,
            Event::NoLocalBinaryFound => EventModel::NoLocalBinaryFound,
            Event::GameExecutionError(s) => EventModel::GameExecutionError(s@),
            Event::GameBinaryUpdated => EventModel::GameBinaryUpdated,
            Event::Launching => EventModel::Launching,
            Event::GameOutput(s) => EventModel::GameOutput(s@),
            Event::GameErrorOutput(s) => EventModel::GameErrorOutput(s@),
            Event::LauncherError(s) => EventModel::LauncherError(s@),
            Event::CheckingForLauncherUpdate => EventModel::CheckingForLauncherUpdate,
            Event::LauncherUpdateAvailable(s) => EventModel::LauncherUpdateAvailable(s@),
            Event::LauncherNoUpdateAvailable => EventModel::LauncherNoUpdateAvailable,
            Event::StartDownloadingLauncherUpdate => EventModel::StartDownloadingLauncherUpdate,
            Event::LauncherDownloadProgress(n, t) => EventModel::LauncherDownloadProgress(*n, *t),
            Event::LauncherUpdateDownloaded => EventModel::LauncherUpdateDownloaded,
            Event::LauncherApplyingUpdate => EventModel::LauncherApplyingUpdate,
            Event::LauncherUpdateApplied => EventModel::LauncherUpdateApplied,
            Event::RequestLauncherUpdate => EventModel::RequestLauncherUpdate,
        }
    }
}

/// The model of a sequence of events.
pub open spec fn events_view(s: Seq<Event>) -> Seq<EventModel> {
    s.map_values(|e: Event| e@)
}

} // verus!
