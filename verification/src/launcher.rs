use vstd::prelude::*;

use crate::event::{Event, EventModel, events_view};

verus! {

/// Where the launcher pipeline stands: fetching the remote hash, comparing
/// it with the local one, downloading a fresh binary, or launching.
pub enum LauncherPhase {
    Idle,
    FetchingRemoteHash,
    CheckingCachedBinary,
    ComputingLocal { remote: String },
    PreparingCached,
    RequestingDownload,
    Downloading { downloaded: u64 },
    FinishingDownload,
    SpawningGame,
    Stopped,
}

/// Model of a pipeline phase.
pub enum LauncherPhaseModel {
    Idle,
    FetchingRemoteHash,
    CheckingCachedBinary,
    ComputingLocal(Seq<char>),
    PreparingCached,
    RequestingDownload,
    Downloading(u64),
    FinishingDownload,
    SpawningGame,
    Stopped,
}

impl View for LauncherPhase {
    type V = LauncherPhaseModel;

    open spec fn view(&self) -> LauncherPhaseModel {
        match self {
            LauncherPhase::Idle => LauncherPhaseModel::Idle,
            LauncherPhase::FetchingRemoteHash => LauncherPhaseModel::FetchingRemoteHash,
            LauncherPhase::CheckingCachedBinary => LauncherPhaseModel::CheckingCachedBinary,
            LauncherPhase::ComputingLocal { remote } => LauncherPhaseModel::ComputingLocal(
                remote@,
            ),
            LauncherPhase::PreparingCached => LauncherPhaseModel::PreparingCached,
            LauncherPhase::RequestingDownload => LauncherPhaseModel::RequestingDownload,
            LauncherPhase::Downloading { downloaded } => LauncherPhaseModel::Downloading(
                *downloaded,
            ),
            LauncherPhase::FinishingDownload => LauncherPhaseModel::FinishingDownload,
            LauncherPhase::SpawningGame => LauncherPhaseModel::SpawningGame,
            LauncherPhase::Stopped => LauncherPhaseModel::Stopped,
        }
    }
}

/// What computing the local content hash found on disk.
pub enum LocalHashOutcome {
    Found(String),
    Missing,
    Failed(String),
}

/// Model of a local-hash outcome.
pub enum LocalHashOutcomeModel {
    Found(Seq<char>),
    Missing,
    Failed(Seq<char>),
}

impl View for LocalHashOutcome {
    type V = LocalHashOutcomeModel;

    open spec fn view(&self) -> LocalHashOutcomeModel {
        match self {
            LocalHashOutcome::Found(h) => LocalHashOutcomeModel::Found(h@),
            LocalHashOutcome::Missing => LocalHashOutcomeModel::Missing,
            LocalHashOutcome::Failed(e) => LocalHashOutcomeModel::Failed(e@),
        }
    }
}

/// The outcome of one outside step, handed back to the pipeline by its
/// driver. A `ChunkWritten` of zero bytes means the download stream ended.
pub enum LauncherInput {
    Start,
    RemoteHashFetched(Result<String, String>),
    CachedBinaryChecked(Result<bool, String>),
    LocalHashComputed(LocalHashOutcome),
    PermissionsSet(Result<(), String>),
    DownloadStarted(Result<Option<u64>, String>),
    ChunkWritten(Result<u64, String>),
    DownloadFinalized(Result<(), String>),
    GameSpawned(Result<(), String>),
}

/// Model of a pipeline input.
pub enum LauncherInputModel {
    Start,
    RemoteHashFetched(Result<Seq<char>, Seq<char>>),
    CachedBinaryChecked(Result<bool, Seq<char>>),
    LocalHashComputed(LocalHashOutcomeModel),
    PermissionsSet(Result<(), Seq<char>>),
    DownloadStarted(Result<Option<u64>, Seq<char>>),
    ChunkWritten(Result<u64, Seq<char>>),
    DownloadFinalized(Result<(), Seq<char>>),
    GameSpawned(Result<(), Seq<char>>),
}

/// A `Result` whose error is a message, with the message viewed as chars.
pub open spec fn err_view<T>(r: Result<T, String>) -> Result<T, Seq<char>> {
    match r {
        Ok(v) => Ok(v),
        Err(e) => Err(e@),
    }
}

pub open spec fn res_str_view(r: Result<String, String>) -> Result<Seq<char>, Seq<char>> {
    match r {
        Ok(s) => Ok(s@),
        Err(e) => Err(e@),
    }
}

impl View for LauncherInput {
    type V = LauncherInputModel;

    open spec fn view(&self) -> LauncherInputModel {
        match self {
            LauncherInput::Start => LauncherInputModel::Start,
            LauncherInput::RemoteHashFetched(r) => LauncherInputModel::RemoteHashFetched(
                res_str_view(*r),
            ),
            LauncherInput::CachedBinaryChecked(r) => LauncherInputModel::CachedBinaryChecked(
                err_view(*r),
            ),
            LauncherInput::LocalHashComputed(o) => LauncherInputModel::LocalHashComputed(o@),
            LauncherInput::PermissionsSet(r) => LauncherInputModel::PermissionsSet(err_view(*r)),
            LauncherInput::DownloadStarted(r) => LauncherInputModel::DownloadStarted(
                err_view(*r),
            ),
            LauncherInput::ChunkWritten(r) => LauncherInputModel::ChunkWritten(err_view(*r)),
            LauncherInput::DownloadFinalized(r) => LauncherInputModel::DownloadFinalized(
                err_view(*r),
            ),
            LauncherInput::GameSpawned(r) => LauncherInputModel::GameSpawned(err_view(*r)),
        }
    }
}

/// The outside work the driver owes the pipeline after a step. The driver
/// performs it and hands the outcome back as the next input. `Wait` is
/// returned for an input that does not belong to the current phase, which a
/// correct driver never produces.
#[derive(Debug, Clone, Copy, PartialEq, Eq, Structural)]
pub enum LauncherAction {
    FetchRemoteHash,
    CheckCachedBinary,
    ComputeLocalHash,
    SetCachedPermissions,
    BeginDownload,
    ReadChunk,
    FinalizeDownload,
    SpawnGame,
    Wait,
    Stop,
}

/// The model of one pipeline step: the events to put on the bus, the outside
/// action the driver owes, and the next phase.
pub struct StepModel {
    pub events: Seq<EventModel>,
    pub action: LauncherAction,
    pub phase: LauncherPhaseModel,
}

/// The transition relation of the launcher pipeline.
///
/// The hash comparison decides the route: equal hashes run the cached binary
/// with no download; differing hashes or a missing local binary download
/// first; a failed remote fetch falls back to the cached binary if one
/// exists and otherwise reports that no local binary was found and stops. A
/// download failure after a mismatch is terminal: the pipeline does not fall
/// back to the binary it just proved stale.
pub open spec fn spec_step(p: LauncherPhaseModel, i: LauncherInputModel) -> StepModel {
    match (p, i) {
        (LauncherPhaseModel::Idle, LauncherInputModel::Start) => StepModel {
            events: seq![EventModel::AccessingOnlineHash],
            action: LauncherAction::FetchRemoteHash,
            phase: LauncherPhaseModel::FetchingRemoteHash,
        },
        (
            LauncherPhaseModel::FetchingRemoteHash,
            LauncherInputModel::RemoteHashFetched(Ok(h)),
        ) => StepModel {
            events: seq![EventModel::RemoteHash(h), EventModel::ComputingLocalHash],
            action: LauncherAction::ComputeLocalHash,
            phase: LauncherPhaseModel::ComputingLocal(h),
        },
        (
            LauncherPhaseModel::FetchingRemoteHash,
            LauncherInputModel::RemoteHashFetched(Err(e)),
        ) => StepModel {
            events: seq![EventModel::OfflineError(e)],
            action: LauncherAction::CheckCachedBinary,
            phase: LauncherPhaseModel::CheckingCachedBinary,
        },
        (
            LauncherPhaseModel::CheckingCachedBinary,
            LauncherInputModel::CachedBinaryChecked(Ok(exists_cached)),
        ) => if exists_cached {
            StepModel {
                events: seq![EventModel::Launching],
                action: LauncherAction::SpawnGame,
                phase: LauncherPhaseModel::SpawningGame,
            }
        } else {
            StepModel {
                events: seq![EventModel::NoLocalBinaryFound],
                action: LauncherAction::Stop,
                phase: LauncherPhaseModel::Stopped,
            }
        },
        (
            LauncherPhaseModel::CheckingCachedBinary,
            LauncherInputModel::CachedBinaryChecked(Err(e)),
        ) => StepModel {
            events: seq![EventModel::LauncherError("Failed to find XDG directories: "@ + e)],
            action: LauncherAction::Stop,
            phase: LauncherPhaseModel::Stopped,
        },
        (
            LauncherPhaseModel::ComputingLocal(remote),
            LauncherInputModel::LocalHashComputed(LocalHashOutcomeModel::Found(local)),
        ) => if local == remote {
            StepModel {
                events: seq![EventModel::LocalHash(local), EventModel::HashAreEqual(true)],
                action: LauncherAction::SetCachedPermissions,
                phase: LauncherPhaseModel::PreparingCached,
            }
        } else {
            StepModel {
                events: seq![EventModel::LocalHash(local), EventModel::HashAreEqual(false)],
                action: LauncherAction::BeginDownload,
                phase: LauncherPhaseModel::RequestingDownload,
            }
        },
        (
            LauncherPhaseModel::ComputingLocal(_),
            LauncherInputModel::LocalHashComputed(LocalHashOutcomeModel::Missing),
        ) => StepModel {
            events: Seq::empty(),
            action: LauncherAction::BeginDownload,
            phase: LauncherPhaseModel::RequestingDownload,
        },
        (
            LauncherPhaseModel::ComputingLocal(_),
            LauncherInputModel::LocalHashComputed(LocalHashOutcomeModel::Failed(e)),
        ) => StepModel {
            events: seq![EventModel::LauncherError("Failed to compute local hash: "@ + e)],
            action: LauncherAction::Stop,
            phase: LauncherPhaseModel::Stopped,
        },
        (LauncherPhaseModel::PreparingCached, LauncherInputModel::PermissionsSet(Ok(_))) => StepModel {
            events: seq![EventModel::Launching],
            action: LauncherAction::SpawnGame,
            phase: LauncherPhaseModel::SpawningGame,
        },
        (
            LauncherPhaseModel::PreparingCached,
            LauncherInputModel::PermissionsSet(Err(e)),
        ) => StepModel {
            events: seq![
                EventModel::LauncherError("Failed to set exec permissions: "@ + e),
                EventModel::Launching,
            ],
            action: LauncherAction::SpawnGame,
            phase: LauncherPhaseModel::SpawningGame,
        },
        (
            LauncherPhaseModel::RequestingDownload,
            LauncherInputModel::DownloadStarted(Ok(total)),
        ) => StepModel {
            events: seq![EventModel::StartDownloadingBinary(total)],
            action: LauncherAction::ReadChunk,
            phase: LauncherPhaseModel::Downloading(0u64),
        },
        (
            LauncherPhaseModel::RequestingDownload,
            LauncherInputModel::DownloadStarted(Err(e)),
        ) => StepModel {
            events: seq![EventModel::BinaryDownloadError(e)],
            action: LauncherAction::Stop,
            phase: LauncherPhaseModel::Stopped,
        },
        (LauncherPhaseModel::Downloading(d), LauncherInputModel::ChunkWritten(Ok(n))) => if n
            == 0 {
            StepModel {
                events: seq![EventModel::RemoteBinaryDownloaded],
                action: LauncherAction::FinalizeDownload,
                phase: LauncherPhaseModel::FinishingDownload,
            }
        } else {
            StepModel {
                events: seq![EventModel::DownloadProgress((d + n) as u64)],
                action: LauncherAction::ReadChunk,
                phase: LauncherPhaseModel::Downloading((d + n) as u64),
            }
        },
        (LauncherPhaseModel::Downloading(_), LauncherInputModel::ChunkWritten(Err(e))) => StepModel {
            events: seq![EventModel::BinaryDownloadError(e)],
            action: LauncherAction::Stop,
            phase: LauncherPhaseModel::Stopped,
        },
        (
            LauncherPhaseModel::FinishingDownload,
            LauncherInputModel::DownloadFinalized(Ok(_)),
        ) => StepModel {
            events: seq![EventModel::GameBinaryUpdated, EventModel::Launching],
            action: LauncherAction::SpawnGame,
            phase: LauncherPhaseModel::SpawningGame,
        },
        (
            LauncherPhaseModel::FinishingDownload,
            LauncherInputModel::DownloadFinalized(Err(e)),
        ) => StepModel {
            events: seq![EventModel::BinaryDownloadError(e)],
            action: LauncherAction::Stop,
            phase: LauncherPhaseModel::Stopped,
        },
        (LauncherPhaseModel::SpawningGame, LauncherInputModel::GameSpawned(Ok(_))) => StepModel {
            events: Seq::empty(),
            action: LauncherAction::Stop,
            phase: LauncherPhaseModel::Stopped,
        },
        (LauncherPhaseModel::SpawningGame, LauncherInputModel::GameSpawned(Err(e))) => StepModel {
            events: seq![EventModel::GameExecutionError(e)],
            action: LauncherAction::Stop,
            phase: LauncherPhaseModel::Stopped,
        },
        (other, _) => StepModel {
            events: Seq::empty(),
            action: LauncherAction::Wait,
            phase: other,
        },
    }
}

/// The launcher pipeline as a stepwise machine. The driver performs each
/// returned action, sends each returned event on the bus, and hands the
/// action's outcome back to `step`; it stops driving as soon as a send
/// fails, which aborts the pipeline with no further side effects.
pub struct LauncherMachine {
    pub phase: LauncherPhase,
}

impl View for LauncherMachine {
    type V = LauncherPhaseModel;

    open spec fn view(&self) -> LauncherPhaseModel {
        self.phase@
    }
}

pub(crate) fn no_events() -> (v: Vec<Event>)
    ensures
        events_view(v@) == Seq::<EventModel>::empty(),
{
    let v: Vec<Event> = Vec::new();
    proof {
        assert(events_view(v@) =~= Seq::<EventModel>::empty());
    }
    v
}

pub(crate) fn one_event(e: Event) -> (v: Vec<Event>)
    ensures
        events_view(v@) == seq![e@],
{
    let mut v: Vec<Event> = Vec::new();
    v.push(e);
    proof {
        assert(events_view(v@) =~= seq![v@[0]@]);
    }
    v
}

fn two_events(e1: Event, e2: Event) -> (v: Vec<Event>)
    ensures
        events_view(v@) == seq![e1@, e2@],
{
    let mut v: Vec<Event> = Vec::new();
    v.push(e1);
    v.push(e2);
    proof {
        assert(events_view(v@) =~= seq![v@[0]@, v@[1]@]);
    }
    v
}

impl LauncherMachine {
    /// A pipeline that has not started yet.
    pub fn new() -> (m: LauncherMachine)
        ensures
            m@ == LauncherPhaseModel::Idle,
    {
        LauncherMachine { phase: LauncherPhase::Idle }
    }

    /// Fold one outside outcome into the pipeline: returns the events to put
    /// on the bus, in order, and the next outside action the driver owes.
    pub fn step(&mut self, input: LauncherInput) -> (r: (Vec<Event>, LauncherAction))
        requires
            old(self)@ matches LauncherPhaseModel::Downloading(d) ==> (input@
                matches LauncherInputModel::ChunkWritten(Ok(n)) ==> d + n <= u64::MAX),
        ensures
            final(self)@ == spec_step(old(self)@, input@).phase,
            events_view(r.0@) == spec_step(old(self)@, input@).events,
            r.1 == spec_step(old(self)@, input@).action,
    {
        match (&self.phase, input) {
            (LauncherPhase::Idle, LauncherInput::Start) => {
                self.phase = LauncherPhase::FetchingRemoteHash;
                (one_event(Event::AccessingOnlineHash), LauncherAction::FetchRemoteHash)
            },
            (LauncherPhase::FetchingRemoteHash, LauncherInput::RemoteHashFetched(Ok(h))) => {
                let remote = h.clone();
                self.phase = LauncherPhase::ComputingLocal { remote };
                (
                    two_events(Event::RemoteHash(h), Event::ComputingLocalHash),
                    LauncherAction::ComputeLocalHash,
                )
            },
            (LauncherPhase::FetchingRemoteHash, LauncherInput::RemoteHashFetched(Err(e))) => {
                self.phase = LauncherPhase::CheckingCachedBinary;
                (one_event(Event::OfflineError(e)), LauncherAction::CheckCachedBinary)
            },
            (LauncherPhase::CheckingCachedBinary, LauncherInput::CachedBinaryChecked(Ok(found)))
                => {
                if found {
                    self.phase = LauncherPhase::SpawningGame;
                    (one_event(Event::Launching), LauncherAction::SpawnGame)
                } else {
                    self.phase = LauncherPhase::Stopped;
                    (one_event(Event::NoLocalBinaryFound), LauncherAction::Stop)
                }
            },
            (LauncherPhase::CheckingCachedBinary, LauncherInput::CachedBinaryChecked(Err(e)))
                => {
                self.phase = LauncherPhase::Stopped;
                (
                    one_event(
                        Event::LauncherError(
                            String::from_str("Failed to find XDG directories: ").concat(
                                e.as_str(),
                            ),
                        ),
                    ),
                    LauncherAction::Stop,
                )
            },
            (
                LauncherPhase::ComputingLocal { remote },
                LauncherInput::LocalHashComputed(LocalHashOutcome::Found(local)),
            ) => {
                let equal = local == *remote;
                if equal {
                    self.phase = LauncherPhase::PreparingCached;
                    (
                        two_events(Event::LocalHash(local), Event::HashAreEqual(true)),
                        LauncherAction::SetCachedPermissions,
                    )
                } else {
                    self.phase = LauncherPhase::RequestingDownload;
                    (
                        two_events(Event::LocalHash(local), Event::HashAreEqual(false)),
                        LauncherAction::BeginDownload,
                    )
                }
            },
            (
                LauncherPhase::ComputingLocal { .. },
                LauncherInput::LocalHashComputed(LocalHashOutcome::Missing),
            ) => {
                self.phase = LauncherPhase::RequestingDownload;
                (no_events(), LauncherAction::BeginDownload)
            },
            (
                LauncherPhase::ComputingLocal { .. },
                LauncherInput::LocalHashComputed(LocalHashOutcome::Failed(e)),
            ) => {
                self.phase = LauncherPhase::Stopped;
                (
                    one_event(
                        Event::LauncherError(
                            String::from_str("Failed to compute local hash: ").concat(e.as_str()),
                        ),
                    ),
                    LauncherAction::Stop,
                )
            },
            (LauncherPhase::PreparingCached, LauncherInput::PermissionsSet(Ok(()))) => {
                self.phase = LauncherPhase::SpawningGame;
                (one_event(Event::Launching), LauncherAction::SpawnGame)
            },
            (LauncherPhase::PreparingCached, LauncherInput::PermissionsSet(Err(e))) => {
                self.phase = LauncherPhase::SpawningGame;
                (
                    two_events(
                        Event::LauncherError(
                            String::from_str("Failed to set exec permissions: ").concat(
                                e.as_str(),
                            ),
                        ),
                        Event::Launching,
                    ),
                    LauncherAction::SpawnGame,
                )
            },
            (LauncherPhase::RequestingDownload, LauncherInput::DownloadStarted(Ok(total))) => {
                self.phase = LauncherPhase::Downloading { downloaded: 0 };
                (one_event(Event::StartDownloadingBinary(total)), LauncherAction::ReadChunk)
            },
            (LauncherPhase::RequestingDownload, LauncherInput::DownloadStarted(Err(e))) => {
                self.phase = LauncherPhase::Stopped;
                (one_event(Event::BinaryDownloadError(e)), LauncherAction::Stop)
            },
            (LauncherPhase::Downloading { downloaded }, LauncherInput::ChunkWritten(Ok(n))) => {
                if n == 0 {
                    self.phase = LauncherPhase::FinishingDownload;
                    (one_event(Event::RemoteBinaryDownloaded), LauncherAction::FinalizeDownload)
                } else {
                    let new_total = *downloaded + n;
                    self.phase = LauncherPhase::Downloading { downloaded: new_total };
                    (one_event(Event::DownloadProgress(new_total)), LauncherAction::ReadChunk)
                }
            },
            (LauncherPhase::Downloading { .. }, LauncherInput::ChunkWritten(Err(e))) => {
                self.phase = LauncherPhase::Stopped;
                (one_event(Event::BinaryDownloadError(e)), LauncherAction::Stop)
            },
            (LauncherPhase::FinishingDownload, LauncherInput::DownloadFinalized(Ok(()))) => {
                self.phase = LauncherPhase::SpawningGame;
                (
                    two_events(Event::GameBinaryUpdated, Event::Launching),
                    LauncherAction::SpawnGame,
                )
            },
            (LauncherPhase::FinishingDownload, LauncherInput::DownloadFinalized(Err(e))) => {
                self.phase = LauncherPhase::Stopped;
                (one_event(Event::BinaryDownloadError(e)), LauncherAction::Stop)
            },
            (LauncherPhase::SpawningGame, LauncherInput::GameSpawned(Ok(()))) => {
                self.phase = LauncherPhase::Stopped;
                (no_events(), LauncherAction::Stop)
            },
            (LauncherPhase::SpawningGame, LauncherInput::GameSpawned(Err(e))) => {
                self.phase = LauncherPhase::Stopped;
                (one_event(Event::GameExecutionError(e)), LauncherAction::Stop)
            },
            (_, _) => { (no_events(), LauncherAction::Wait) },
        }
    }
}

/// The result of driving the pipeline over a whole trace of outside
/// outcomes: every event put on the bus and every action performed, in
/// order, and the final phase.
pub struct RunModel {
    pub events: Seq<EventModel>,
    pub actions: Seq<LauncherAction>,
    pub phase: LauncherPhaseModel,
}

/// Fold a whole input trace through the transition relation.
pub open spec fn spec_run(p: LauncherPhaseModel, inputs: Seq<LauncherInputModel>) -> RunModel
    decreases inputs.len(),
{
    if inputs.len() == 0 {
        RunModel { events: Seq::empty(), actions: Seq::empty(), phase: p }
    } else {
        let s = spec_step(p, inputs[0]);
        let rest = spec_run(s.phase, inputs.skip(1));
        RunModel {
            events: s.events + rest.events,
            actions: seq![s.action] + rest.actions,
            phase: rest.phase,
        }
    }
}

/// Running a trace split in two runs the first part and then the second
/// from where the first left off.
pub proof fn lemma_run_concat(
    p: LauncherPhaseModel,
    a: Seq<LauncherInputModel>,
    b: Seq<LauncherInputModel>,
)
    ensures
        spec_run(p, a + b).phase == spec_run(spec_run(p, a).phase, b).phase,
        spec_run(p, a + b).events == spec_run(p, a).events + spec_run(
            spec_run(p, a).phase,
            b,
        ).events,
        spec_run(p, a + b).actions == spec_run(p, a).actions + spec_run(
            spec_run(p, a).phase,
            b,
        ).actions,
    decreases a.len(),
{
    if a.len() == 0 {
        assert(a + b =~= b);
        assert(spec_run(p, a).events + spec_run(spec_run(p, a).phase, b).events =~= spec_run(
            p,
            b,
        ).events);
        assert(spec_run(p, a).actions + spec_run(spec_run(p, a).phase, b).actions =~= spec_run(
            p,
            b,
        ).actions);
    } else {
        let s = spec_step(p, a[0]);
        assert((a + b)[0] == a[0]);
        assert((a + b).skip(1) =~= a.skip(1) + b);
        lemma_run_concat(s.phase, a.skip(1), b);
        assert(spec_run(p, a + b).events =~= spec_run(p, a).events + spec_run(
            spec_run(p, a).phase,
            b,
        ).events);
        assert(spec_run(p, a + b).actions =~= spec_run(p, a).actions + spec_run(
            spec_run(p, a).phase,
            b,
        ).actions);
    }
}

/// How many times an action occurs in a trace of actions.
pub open spec fn count_action(s: Seq<LauncherAction>, a: LauncherAction) -> int
    decreases s.len(),
{
    if s.len() == 0 {
        0
    } else {
        (if s[0] == a {
            1int
        } else {
            0int
        }) + count_action(s.skip(1), a)
    }
}

pub proof fn lemma_count_action_concat(
    x: Seq<LauncherAction>,
    y: Seq<LauncherAction>,
    a: LauncherAction,
)
    ensures
        count_action(x + y, a) == count_action(x, a) + count_action(y, a),
    decreases x.len(),
{
    if x.len() == 0 {
        assert(x + y =~= y);
    } else {
        assert((x + y)[0] == x[0]);
        assert((x + y).skip(1) =~= x.skip(1) + y);
        lemma_count_action_concat(x.skip(1), y, a);
    }
}

pub proof fn lemma_count_action_absent(s: Seq<LauncherAction>, a: LauncherAction)
    requires
        forall|i: int| 0 <= i < s.len() ==> s[i] != a,
    ensures
        count_action(s, a) == 0,
    decreases s.len(),
{
    if s.len() > 0 {
        lemma_count_action_absent(s.skip(1), a);
    }
}

/// The sum of a sequence of chunk sizes.
pub open spec fn total_bytes(chunks: Seq<u64>) -> int
    decreases chunks.len(),
{
    if chunks.len() == 0 {
        0
    } else {
        chunks[0] + total_bytes(chunks.skip(1))
    }
}

pub proof fn lemma_total_bytes_nonneg(chunks: Seq<u64>)
    ensures
        total_bytes(chunks) >= 0,
    decreases chunks.len(),
{
    if chunks.len() > 0 {
        lemma_total_bytes_nonneg(chunks.skip(1));
    }
}

pub proof fn lemma_total_bytes_concat(x: Seq<u64>, y: Seq<u64>)
    ensures
        total_bytes(x + y) == total_bytes(x) + total_bytes(y),
    decreases x.len(),
{
    if x.len() == 0 {
        assert(x + y =~= y);
    } else {
        assert((x + y)[0] == x[0]);
        assert((x + y).skip(1) =~= x.skip(1) + y);
        lemma_total_bytes_concat(x.skip(1), y);
    }
}

pub proof fn lemma_total_bytes_take_monotone(chunks: Seq<u64>, i: int, j: int)
    requires
        0 <= i <= j <= chunks.len(),
    ensures
        total_bytes(chunks.take(i)) <= total_bytes(chunks.take(j)),
{
    assert(chunks.take(j) =~= chunks.take(i) + chunks.subrange(i, j));
    lemma_total_bytes_concat(chunks.take(i), chunks.subrange(i, j));
    lemma_total_bytes_nonneg(chunks.subrange(i, j));
}

/// The model of a trace of successfully written chunks.
pub open spec fn chunk_inputs(chunks: Seq<u64>) -> Seq<LauncherInputModel> {
    chunks.map_values(|n: u64| LauncherInputModel::ChunkWritten(Ok(n)))
}

/// While chunks keep arriving, the pipeline stays in the downloading phase,
/// asks for the next chunk after each one, and reports exactly one progress
/// event per chunk, carrying the cumulative byte count.
pub proof fn lemma_downloading_chunks(d: u64, chunks: Seq<u64>)
    requires
        forall|i: int| 0 <= i < chunks.len() ==> chunks[i] > 0,
        d + total_bytes(chunks) <= u64::MAX,
    ensures
        ({
            let run = spec_run(LauncherPhaseModel::Downloading(d), chunk_inputs(chunks));
            run.phase == LauncherPhaseModel::Downloading((d + total_bytes(chunks)) as u64)
                && run.actions == Seq::new(chunks.len(), |i: int| LauncherAction::ReadChunk)
                && run.events.len() == chunks.len() && (forall|i: int|
                0 <= i < chunks.len() ==> run.events[i] == EventModel::DownloadProgress(
                    (d + total_bytes(chunks.take(i + 1))) as u64,
                ))
        }),
    decreases chunks.len(),
{
    let run = spec_run(LauncherPhaseModel::Downloading(d), chunk_inputs(chunks));
    if chunks.len() == 0 {
        assert(chunks.take(0) =~= chunks);
        assert(run.actions =~= Seq::new(0, |i: int| LauncherAction::ReadChunk));
    } else {
        let n = chunks[0];
        lemma_total_bytes_nonneg(chunks.skip(1));
        let d1 = (d + n) as u64;
        let s = spec_step(
            LauncherPhaseModel::Downloading(d),
            LauncherInputModel::ChunkWritten(Ok(n)),
        );
        assert(chunk_inputs(chunks)[0] == LauncherInputModel::ChunkWritten(Ok(n)));
        assert(s.phase == LauncherPhaseModel::Downloading(d1));
        assert(chunk_inputs(chunks).skip(1) =~= chunk_inputs(chunks.skip(1)));
        lemma_downloading_chunks(d1, chunks.skip(1));
        let rest = spec_run(LauncherPhaseModel::Downloading(d1), chunk_inputs(chunks.skip(1)));
        assert(run.actions =~= Seq::new(chunks.len(), |i: int| LauncherAction::ReadChunk));
        assert forall|i: int| 0 <= i < chunks.len() implies run.events[i]
            == EventModel::DownloadProgress((d + total_bytes(chunks.take(i + 1))) as u64) by {
            assert(chunks.take(i + 1) =~= seq![n] + chunks.skip(1).take(i));
            lemma_total_bytes_concat(seq![n], chunks.skip(1).take(i));
            assert(seq![n].skip(1) =~= Seq::<u64>::empty());
            assert(total_bytes(Seq::<u64>::empty()) == 0);
            assert(total_bytes(seq![n]) == n);
            if i == 0 {
                assert(chunks.skip(1).take(0) =~= Seq::<u64>::empty());
                assert(run.events[0] == s.events[0]);
            } else {
                assert(run.events[i] == rest.events[i - 1]);
                lemma_total_bytes_take_monotone(chunks.skip(1), 0, i);
            }
        }
    }
}

/// The cumulative byte counts in the progress events of one download are
/// non-decreasing: later progress never reports fewer bytes.
pub proof fn lemma_download_progress_monotone(d: u64, chunks: Seq<u64>, i: int, j: int)
    requires
        forall|k: int| 0 <= k < chunks.len() ==> chunks[k] > 0,
        d + total_bytes(chunks) <= u64::MAX,
        0 <= i <= j < chunks.len(),
    ensures
        ({
            let run = spec_run(LauncherPhaseModel::Downloading(d), chunk_inputs(chunks));
            run.events[i] matches EventModel::DownloadProgress(a) && run.events[j]
                matches EventModel::DownloadProgress(b) && a <= b
        }),
{
    lemma_downloading_chunks(d, chunks);
    lemma_total_bytes_take_monotone(chunks, i + 1, j + 1);
    lemma_total_bytes_nonneg(chunks.take(i + 1));
    lemma_total_bytes_take_monotone(chunks, j + 1, chunks.len() as int);
    assert(chunks.take(chunks.len() as int) =~= chunks);
}

pub proof fn lemma_count_action_unique(s: Seq<LauncherAction>, a: LauncherAction, k: int)
    requires
        0 <= k < s.len(),
        s[k] == a,
        forall|i: int| 0 <= i < s.len() && i != k ==> s[i] != a,
    ensures
        count_action(s, a) == 1,
    decreases s.len(),
{
    if k == 0 {
        lemma_count_action_absent(s.skip(1), a);
    } else {
        lemma_count_action_unique(s.skip(1), a, k - 1);
    }
}

/// Whether an event belongs to the download step of the pipeline.
pub open spec fn is_download_event(e: EventModel) -> bool {
    ||| e is StartDownloadingBinary
    ||| e is DownloadProgress
    ||| e is RemoteBinaryDownloaded
    ||| e is BinaryDownloadError
    ||| e is GameBinaryUpdated
}

/// When the remote and local hashes are equal, the pipeline runs the cached
/// binary without ever invoking the download step: whatever the permission
/// fix-up and the spawn return, the actions are exactly fetch, compare, fix
/// permissions and spawn, no download action occurs, and no download event
/// is emitted.
pub proof fn lemma_equal_hashes_run_cached(
    h: Seq<char>,
    perm: Result<(), Seq<char>>,
    spawn: Result<(), Seq<char>>,
)
    ensures
        ({
            let inputs = seq![
                LauncherInputModel::Start,
                LauncherInputModel::RemoteHashFetched(Ok(h)),
                LauncherInputModel::LocalHashComputed(LocalHashOutcomeModel::Found(h)),
                LauncherInputModel::PermissionsSet(perm),
                LauncherInputModel::GameSpawned(spawn),
            ];
            let run = spec_run(LauncherPhaseModel::Idle, inputs);
            run.actions == seq![
                LauncherAction::FetchRemoteHash,
                LauncherAction::ComputeLocalHash,
                LauncherAction::SetCachedPermissions,
                LauncherAction::SpawnGame,
                LauncherAction::Stop,
            ] && count_action(run.actions, LauncherAction::BeginDownload) == 0 && (forall|i: int|
                0 <= i < run.events.len() ==> !is_download_event(run.events[i]))
                && run.phase == LauncherPhaseModel::Stopped
        }),
{
    let i0 = LauncherInputModel::Start;
    let i1 = LauncherInputModel::RemoteHashFetched(Ok(h));
    let i2 = LauncherInputModel::LocalHashComputed(LocalHashOutcomeModel::Found(h));
    let i3 = LauncherInputModel::PermissionsSet(perm);
    let i4 = LauncherInputModel::GameSpawned(spawn);
    let inputs = seq![i0, i1, i2, i3, i4];
    let t1 = seq![i1, i2, i3, i4];
    let t2 = seq![i2, i3, i4];
    let t3 = seq![i3, i4];
    let t4 = seq![i4];
    assert(inputs.skip(1) =~= t1);
    assert(t1.skip(1) =~= t2);
    assert(t2.skip(1) =~= t3);
    assert(t3.skip(1) =~= t4);
    assert(t4.skip(1) =~= Seq::<LauncherInputModel>::empty());
    let s0 = spec_step(LauncherPhaseModel::Idle, i0);
    let s1 = spec_step(s0.phase, i1);
    let s2 = spec_step(s1.phase, i2);
    let s3 = spec_step(s2.phase, i3);
    let s4 = spec_step(s3.phase, i4);
    let run = spec_run(LauncherPhaseModel::Idle, inputs);
    assert(spec_run(s4.phase, Seq::<LauncherInputModel>::empty()).actions
        =~= Seq::<LauncherAction>::empty());
    assert(spec_run(s4.phase, Seq::<LauncherInputModel>::empty()).events
        =~= Seq::<EventModel>::empty());
    assert(spec_run(s3.phase, t4).actions =~= seq![s4.action]);
    assert(spec_run(s3.phase, t4).events =~= s4.events);
    assert(spec_run(s2.phase, t3).actions =~= seq![s3.action, s4.action]);
    assert(spec_run(s2.phase, t3).events =~= s3.events + s4.events);
    assert(spec_run(s1.phase, t2).actions =~= seq![s2.action, s3.action, s4.action]);
    assert(spec_run(s1.phase, t2).events =~= s2.events + (s3.events + s4.events));
    assert(spec_run(s0.phase, t1).actions =~= seq![s1.action, s2.action, s3.action, s4.action]);
    assert(spec_run(s0.phase, t1).events =~= s1.events + (s2.events + (s3.events + s4.events)));
    assert(run.actions =~= seq![
        LauncherAction::FetchRemoteHash,
        LauncherAction::ComputeLocalHash,
        LauncherAction::SetCachedPermissions,
        LauncherAction::SpawnGame,
        LauncherAction::Stop,
    ]);
    lemma_count_action_absent(run.actions, LauncherAction::BeginDownload);
    assert(run.events =~= s0.events + (s1.events + (s2.events + (s3.events + s4.events))));
    assert(forall|i: int| 0 <= i < run.events.len() ==> !is_download_event(run.events[i]));
}

/// When the remote fetch fails and no cached binary exists, the pipeline
/// emits the offline error and then "no local binary found" and stops: it
/// performs no download and no launch.
pub proof fn lemma_offline_no_cached_binary_stops(e: Seq<char>)
    ensures
        ({
            let inputs = seq![
                LauncherInputModel::Start,
                LauncherInputModel::RemoteHashFetched(Err(e)),
                LauncherInputModel::CachedBinaryChecked(Ok(false)),
            ];
            let run = spec_run(LauncherPhaseModel::Idle, inputs);
            run.events == seq![
                EventModel::AccessingOnlineHash,
                EventModel::OfflineError(e),
                EventModel::NoLocalBinaryFound,
            ] && run.events.last() == EventModel::NoLocalBinaryFound && run.actions == seq![
                LauncherAction::FetchRemoteHash,
                LauncherAction::CheckCachedBinary,
                LauncherAction::Stop,
            ] && count_action(run.actions, LauncherAction::BeginDownload) == 0 && count_action(
                run.actions,
                LauncherAction::SpawnGame,
            ) == 0 && (forall|i: int|
                0 <= i < run.events.len() ==> !is_download_event(run.events[i])
                    && !(run.events[i] is Launching)) && run.phase == LauncherPhaseModel::Stopped
        }),
{
    let i0 = LauncherInputModel::Start;
    let i1 = LauncherInputModel::RemoteHashFetched(Err(e));
    let i2 = LauncherInputModel::CachedBinaryChecked(Ok(false));
    let inputs = seq![i0, i1, i2];
    let t1 = seq![i1, i2];
    let t2 = seq![i2];
    assert(inputs.skip(1) =~= t1);
    assert(t1.skip(1) =~= t2);
    assert(t2.skip(1) =~= Seq::<LauncherInputModel>::empty());
    let s0 = spec_step(LauncherPhaseModel::Idle, i0);
    let s1 = spec_step(s0.phase, i1);
    let s2 = spec_step(s1.phase, i2);
    let run = spec_run(LauncherPhaseModel::Idle, inputs);
    assert(spec_run(s2.phase, Seq::<LauncherInputModel>::empty()).actions
        =~= Seq::<LauncherAction>::empty());
    assert(spec_run(s2.phase, Seq::<LauncherInputModel>::empty()).events
        =~= Seq::<EventModel>::empty());
    assert(spec_run(s1.phase, t2).actions =~= seq![s2.action]);
    assert(spec_run(s1.phase, t2).events =~= s2.events);
    assert(spec_run(s0.phase, t1).actions =~= seq![s1.action, s2.action]);
    assert(spec_run(s0.phase, t1).events =~= s1.events + s2.events);
    assert(run.events =~= seq![
        EventModel::AccessingOnlineHash,
        EventModel::OfflineError(e),
        EventModel::NoLocalBinaryFound,
    ]);
    assert(run.actions =~= seq![
        LauncherAction::FetchRemoteHash,
        LauncherAction::CheckCachedBinary,
        LauncherAction::Stop,
    ]);
    lemma_count_action_absent(run.actions, LauncherAction::BeginDownload);
    lemma_count_action_absent(run.actions, LauncherAction::SpawnGame);
}

/// When the remote and local hashes differ, exactly one download occurs,
/// and it occurs before the process is launched: over the whole run the
/// download is begun once, the game is spawned once, and every download
/// action precedes the spawn.
pub proof fn lemma_differing_hashes_download_once(
    h: Seq<char>,
    l: Seq<char>,
    total: Option<u64>,
    chunks: Seq<u64>,
    spawn: Result<(), Seq<char>>,
)
    requires
        h != l,
        forall|i: int| 0 <= i < chunks.len() ==> chunks[i] > 0,
        total_bytes(chunks) <= u64::MAX,
    ensures
        ({
            let inputs = (seq![
                LauncherInputModel::Start,
                LauncherInputModel::RemoteHashFetched(Ok(h)),
                LauncherInputModel::LocalHashComputed(LocalHashOutcomeModel::Found(l)),
                LauncherInputModel::DownloadStarted(Ok(total)),
            ] + chunk_inputs(chunks)) + seq![
                LauncherInputModel::ChunkWritten(Ok(0u64)),
                LauncherInputModel::DownloadFinalized(Ok(())),
                LauncherInputModel::GameSpawned(spawn),
            ];
            let run = spec_run(LauncherPhaseModel::Idle, inputs);
            count_action(run.actions, LauncherAction::BeginDownload) == 1 && count_action(
                run.actions,
                LauncherAction::SpawnGame,
            ) == 1 && (forall|i: int, j: int|
                0 <= i < run.actions.len() && 0 <= j < run.actions.len() && run.actions[i]
                    == LauncherAction::BeginDownload && run.actions[j]
                    == LauncherAction::SpawnGame ==> i < j) && run.phase
                == LauncherPhaseModel::Stopped
        }),
{
    let i0 = LauncherInputModel::Start;
    let i1 = LauncherInputModel::RemoteHashFetched(Ok(h));
    let i2 = LauncherInputModel::LocalHashComputed(LocalHashOutcomeModel::Found(l));
    let i3 = LauncherInputModel::DownloadStarted(Ok(total));
    let prefix = seq![i0, i1, i2, i3];
    let mid = chunk_inputs(chunks);
    let j0 = LauncherInputModel::ChunkWritten(Ok(0u64));
    let j1 = LauncherInputModel::DownloadFinalized(Ok(()));
    let j2 = LauncherInputModel::GameSpawned(spawn);
    let suffix = seq![j0, j1, j2];
    let inputs = (prefix + mid) + suffix;

    // The four opening steps end poised to download, with nothing read yet.
    let t1 = seq![i1, i2, i3];
    let t2 = seq![i2, i3];
    let t3 = seq![i3];
    assert(prefix.skip(1) =~= t1);
    assert(t1.skip(1) =~= t2);
    assert(t2.skip(1) =~= t3);
    assert(t3.skip(1) =~= Seq::<LauncherInputModel>::empty());
    let s0 = spec_step(LauncherPhaseModel::Idle, i0);
    let s1 = spec_step(s0.phase, i1);
    let s2 = spec_step(s1.phase, i2);
    let s3 = spec_step(s2.phase, i3);
    let rp = spec_run(LauncherPhaseModel::Idle, prefix);
    assert(spec_run(s3.phase, Seq::<LauncherInputModel>::empty()).actions
        =~= Seq::<LauncherAction>::empty());
    assert(spec_run(s2.phase, t3).actions =~= seq![s3.action]);
    assert(spec_run(s1.phase, t2).actions =~= seq![s2.action, s3.action]);
    assert(spec_run(s0.phase, t1).actions =~= seq![s1.action, s2.action, s3.action]);
    assert(rp.actions =~= seq![
        LauncherAction::FetchRemoteHash,
        LauncherAction::ComputeLocalHash,
        LauncherAction::BeginDownload,
        LauncherAction::ReadChunk,
    ]);
    assert(rp.phase == LauncherPhaseModel::Downloading(0u64));

    // The chunk steps stay in the downloading phase and only read on.
    lemma_downloading_chunks(0u64, chunks);
    let rm = spec_run(rp.phase, mid);
    let d_end = (total_bytes(chunks)) as u64;
    assert(rm.phase == LauncherPhaseModel::Downloading(d_end));
    assert(rm.actions =~= Seq::new(chunks.len(), |i: int| LauncherAction::ReadChunk));

    // The closing steps finalize, spawn once, and stop.
    let u1 = seq![j1, j2];
    let u2 = seq![j2];
    assert(suffix.skip(1) =~= u1);
    assert(u1.skip(1) =~= u2);
    assert(u2.skip(1) =~= Seq::<LauncherInputModel>::empty());
    let q0 = spec_step(rm.phase, j0);
    let q1 = spec_step(q0.phase, j1);
    let q2 = spec_step(q1.phase, j2);
    let rs = spec_run(rm.phase, suffix);
    assert(spec_run(q2.phase, Seq::<LauncherInputModel>::empty()).actions
        =~= Seq::<LauncherAction>::empty());
    assert(spec_run(q1.phase, u2).actions =~= seq![q2.action]);
    assert(spec_run(q0.phase, u1).actions =~= seq![q1.action, q2.action]);
    assert(rs.actions =~= seq![
        LauncherAction::FinalizeDownload,
        LauncherAction::SpawnGame,
        LauncherAction::Stop,
    ]);
    assert(rs.phase == LauncherPhaseModel::Stopped);

    // Stitch the three segments together.
    lemma_run_concat(LauncherPhaseModel::Idle, prefix, mid);
    lemma_run_concat(LauncherPhaseModel::Idle, prefix + mid, suffix);
    let run = spec_run(LauncherPhaseModel::Idle, inputs);
    let k = chunks.len() as int;
    assert(run.actions =~= (rp.actions + rm.actions) + rs.actions);
    assert(run.actions.len() == k + 7);
    assert forall|i: int| 0 <= i < run.actions.len() && run.actions[i]
        == LauncherAction::BeginDownload implies i == 2 by {
        if 4 <= i < 4 + k {
            assert(run.actions[i] == rm.actions[i - 4]);
        }
    }
    assert forall|j: int| 0 <= j < run.actions.len() && run.actions[j]
        == LauncherAction::SpawnGame implies j == k + 5 by {
        if 4 <= j < 4 + k {
            assert(run.actions[j] == rm.actions[j - 4]);
        }
    }
    assert(run.actions[2] == LauncherAction::BeginDownload);
    assert(run.actions[k + 5] == LauncherAction::SpawnGame);
    lemma_count_action_unique(run.actions, LauncherAction::BeginDownload, 2);
    lemma_count_action_unique(run.actions, LauncherAction::SpawnGame, k + 5);
}

/// The event a resolved line of the game's standard output becomes: the line
/// itself, or an execution error naming the stream when the line failed to
/// decode.
pub fn stdout_line_event(line: Result<String, String>) -> (e: Event)
    ensures
        e@ == (match res_str_view(line) {
            Ok(l) => EventModel::GameOutput(l),
            Err(err) => EventModel::GameExecutionError("stdout read: "@ + err),
        }),
{
    match line {
        Ok(l) => Event::GameOutput(l),
        Err(err) => Event::GameExecutionError(
            String::from_str("stdout read: ").concat(err.as_str()),
        ),
    }
}

/// As `stdout_line_event`, for the game's standard error stream.
pub fn stderr_line_event(line: Result<String, String>) -> (e: Event)
    ensures
        e@ == (match res_str_view(line) {
            Ok(l) => EventModel::GameErrorOutput(l),
            Err(err) => EventModel::GameExecutionError("stderr read: "@ + err),
        }),
{
    match line {
        Ok(l) => Event::GameErrorOutput(l),
        Err(err) => Event::GameExecutionError(
            String::from_str("stderr read: ").concat(err.as_str()),
        ),
    }
}

} // verus!
