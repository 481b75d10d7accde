use grav_launcher::event::Event;
use grav_launcher::launcher::{
    stderr_line_event, stdout_line_event, LauncherAction, LauncherInput, LauncherMachine,
    LocalHashOutcome,
};

fn start(machine: &mut LauncherMachine) -> (Vec<Event>, LauncherAction) {
    machine.step(LauncherInput::Start)
}

#[test]
fn fresh_download_path_emits_the_expected_sequence() {
    // Remote hash "abc", no local binary: the pipeline downloads and then
    // launches, with no hash-equality event anywhere.
    let mut m = LauncherMachine::new();
    let mut all: Vec<Event> = Vec::new();

    let (ev, a) = start(&mut m);
    all.extend(ev);
    assert_eq!(a, LauncherAction::FetchRemoteHash);

    let (ev, a) = m.step(LauncherInput::RemoteHashFetched(Ok(String::from("abc"))));
    all.extend(ev);
    assert_eq!(a, LauncherAction::ComputeLocalHash);

    let (ev, a) = m.step(LauncherInput::LocalHashComputed(LocalHashOutcome::Missing));
    assert!(ev.is_empty());
    assert_eq!(a, LauncherAction::BeginDownload);

    let (ev, a) = m.step(LauncherInput::DownloadStarted(Ok(Some(100))));
    all.extend(ev);
    assert_eq!(a, LauncherAction::ReadChunk);

    let (ev, a) = m.step(LauncherInput::ChunkWritten(Ok(60)));
    all.extend(ev);
    assert_eq!(a, LauncherAction::ReadChunk);
    let (ev, a) = m.step(LauncherInput::ChunkWritten(Ok(40)));
    all.extend(ev);
    assert_eq!(a, LauncherAction::ReadChunk);
    let (ev, a) = m.step(LauncherInput::ChunkWritten(Ok(0)));
    all.extend(ev);
    assert_eq!(a, LauncherAction::FinalizeDownload);

    let (ev, a) = m.step(LauncherInput::DownloadFinalized(Ok(())));
    all.extend(ev);
    assert_eq!(a, LauncherAction::SpawnGame);

    let (ev, a) = m.step(LauncherInput::GameSpawned(Ok(())));
    assert!(ev.is_empty());
    assert_eq!(a, LauncherAction::Stop);

    assert!(matches!(all[0], Event::AccessingOnlineHash));
    assert!(matches!(all[1], Event::RemoteHash(ref h) if h.as_str() == "abc"));
    assert!(matches!(all[2], Event::ComputingLocalHash));
    assert!(matches!(all[3], Event::StartDownloadingBinary(Some(100))));
    assert!(matches!(all[4], Event::DownloadProgress(60)));
    assert!(matches!(all[5], Event::DownloadProgress(100)));
    assert!(matches!(all[6], Event::RemoteBinaryDownloaded));
    assert!(matches!(all[7], Event::GameBinaryUpdated));
    assert!(matches!(all[8], Event::Launching));
    assert_eq!(all.len(), 9);
    assert!(
        !all.iter().any(|e| matches!(e, Event::HashAreEqual(_))),
        "no hash-equality event on the no-local-binary path"
    );
}

#[test]
fn equal_hashes_run_the_cached_binary_without_downloading() {
    let mut m = LauncherMachine::new();
    let mut all: Vec<Event> = Vec::new();
    let mut actions: Vec<LauncherAction> = Vec::new();

    let (ev, a) = start(&mut m);
    all.extend(ev);
    actions.push(a);
    let (ev, a) = m.step(LauncherInput::RemoteHashFetched(Ok(String::from("abc"))));
    all.extend(ev);
    actions.push(a);
    let (ev, a) = m.step(LauncherInput::LocalHashComputed(LocalHashOutcome::Found(
        String::from("abc"),
    )));
    all.extend(ev);
    actions.push(a);
    assert_eq!(*actions.last().unwrap(), LauncherAction::SetCachedPermissions);
    let (ev, a) = m.step(LauncherInput::PermissionsSet(Ok(())));
    all.extend(ev);
    actions.push(a);
    assert_eq!(*actions.last().unwrap(), LauncherAction::SpawnGame);
    let (ev, a) = m.step(LauncherInput::GameSpawned(Ok(())));
    all.extend(ev);
    actions.push(a);

    assert!(!actions.contains(&LauncherAction::BeginDownload));
    assert!(all.iter().any(|e| matches!(e, Event::HashAreEqual(true))));
    assert!(
        !all.iter().any(|e| matches!(
            e,
            Event::StartDownloadingBinary(_) | Event::DownloadProgress(_)
        )),
        "no download events on the cached path"
    );
    assert!(matches!(all.last().unwrap(), Event::Launching));
}

#[test]
fn chmod_failure_on_cached_path_is_reported_but_still_launches() {
    let mut m = LauncherMachine::new();
    start(&mut m);
    m.step(LauncherInput::RemoteHashFetched(Ok(String::from("h"))));
    m.step(LauncherInput::LocalHashComputed(LocalHashOutcome::Found(
        String::from("h"),
    )));
    let (ev, a) = m.step(LauncherInput::PermissionsSet(Err(String::from("denied"))));
    assert_eq!(a, LauncherAction::SpawnGame);
    assert_eq!(ev.len(), 2);
    assert!(
        matches!(ev[0], Event::LauncherError(ref msg) if msg.as_str() == "Failed to set exec permissions: denied")
    );
    assert!(matches!(ev[1], Event::Launching));
}

#[test]
fn differing_hashes_download_exactly_once_before_launch() {
    let mut m = LauncherMachine::new();
    let mut actions: Vec<LauncherAction> = Vec::new();
    let mut all: Vec<Event> = Vec::new();

    for input in [
        LauncherInput::Start,
        LauncherInput::RemoteHashFetched(Ok(String::from("new"))),
        LauncherInput::LocalHashComputed(LocalHashOutcome::Found(String::from("old"))),
        LauncherInput::DownloadStarted(Ok(None)),
        LauncherInput::ChunkWritten(Ok(10)),
        LauncherInput::ChunkWritten(Ok(0)),
        LauncherInput::DownloadFinalized(Ok(())),
        LauncherInput::GameSpawned(Ok(())),
    ] {
        let (ev, a) = m.step(input);
        all.extend(ev);
        actions.push(a);
    }

    assert!(all.iter().any(|e| matches!(e, Event::HashAreEqual(false))));
    let downloads = actions
        .iter()
        .filter(|a| **a == LauncherAction::BeginDownload)
        .count();
    assert_eq!(downloads, 1, "exactly one download");
    let dl_pos = actions
        .iter()
        .position(|a| *a == LauncherAction::BeginDownload)
        .unwrap();
    let spawn_pos = actions
        .iter()
        .position(|a| *a == LauncherAction::SpawnGame)
        .unwrap();
    assert!(dl_pos < spawn_pos, "the download precedes the launch");
}

#[test]
fn download_progress_is_cumulative_and_non_decreasing() {
    let mut m = LauncherMachine::new();
    start(&mut m);
    m.step(LauncherInput::RemoteHashFetched(Ok(String::from("h"))));
    m.step(LauncherInput::LocalHashComputed(LocalHashOutcome::Missing));
    m.step(LauncherInput::DownloadStarted(Ok(Some(1000))));
    let mut last: u64 = 0;
    for chunk in [100u64, 1, 399, 500] {
        let (ev, _) = m.step(LauncherInput::ChunkWritten(Ok(chunk)));
        assert_eq!(ev.len(), 1);
        match ev[0] {
            Event::DownloadProgress(n) => {
                assert!(n >= last, "progress never decreases");
                last = n;
            }
            _ => panic!("each chunk yields one progress event"),
        }
    }
    assert_eq!(last, 1000);
}

#[test]
fn offline_with_cached_binary_runs_it() {
    let mut m = LauncherMachine::new();
    start(&mut m);
    let (ev, a) = m.step(LauncherInput::RemoteHashFetched(Err(String::from(
        "no route to host",
    ))));
    assert_eq!(a, LauncherAction::CheckCachedBinary);
    assert!(matches!(ev[0], Event::OfflineError(ref msg) if msg.as_str() == "no route to host"));
    let (ev, a) = m.step(LauncherInput::CachedBinaryChecked(Ok(true)));
    assert_eq!(a, LauncherAction::SpawnGame);
    assert!(matches!(ev[0], Event::Launching));
}

#[test]
fn offline_without_cached_binary_stops_with_no_download_or_launch() {
    let mut m = LauncherMachine::new();
    let mut all: Vec<Event> = Vec::new();
    let (ev, _) = start(&mut m);
    all.extend(ev);
    let (ev, _) = m.step(LauncherInput::RemoteHashFetched(Err(String::from("down"))));
    all.extend(ev);
    let (ev, a) = m.step(LauncherInput::CachedBinaryChecked(Ok(false)));
    all.extend(ev);
    assert_eq!(a, LauncherAction::Stop);
    assert!(matches!(all.last().unwrap(), Event::NoLocalBinaryFound));
    assert!(!all.iter().any(|e| matches!(
        e,
        Event::StartDownloadingBinary(_) | Event::DownloadProgress(_) | Event::Launching
    )));
}

#[test]
fn download_failure_after_mismatch_is_terminal() {
    // The pipeline does not fall back to the binary it just proved stale.
    let mut m = LauncherMachine::new();
    start(&mut m);
    m.step(LauncherInput::RemoteHashFetched(Ok(String::from("new"))));
    m.step(LauncherInput::LocalHashComputed(LocalHashOutcome::Found(
        String::from("old"),
    )));
    let (ev, a) = m.step(LauncherInput::DownloadStarted(Err(String::from(
        "http 500",
    ))));
    assert_eq!(a, LauncherAction::Stop);
    assert!(matches!(ev[0], Event::BinaryDownloadError(ref msg) if msg.as_str() == "http 500"));
}

#[test]
fn spawn_failure_is_reported_as_execution_error() {
    let mut m = LauncherMachine::new();
    start(&mut m);
    m.step(LauncherInput::RemoteHashFetched(Err(String::from("down"))));
    m.step(LauncherInput::CachedBinaryChecked(Ok(true)));
    let (ev, a) = m.step(LauncherInput::GameSpawned(Err(String::from("not found"))));
    assert_eq!(a, LauncherAction::Stop);
    assert!(matches!(ev[0], Event::GameExecutionError(ref msg) if msg.as_str() == "not found"));
}

#[test]
fn local_hash_failure_stops_the_pipeline() {
    let mut m = LauncherMachine::new();
    start(&mut m);
    m.step(LauncherInput::RemoteHashFetched(Ok(String::from("h"))));
    let (ev, a) = m.step(LauncherInput::LocalHashComputed(LocalHashOutcome::Failed(
        String::from("io error"),
    )));
    assert_eq!(a, LauncherAction::Stop);
    assert!(
        matches!(ev[0], Event::LauncherError(ref msg) if msg.as_str() == "Failed to compute local hash: io error")
    );
}

#[test]
fn relayed_lines_become_output_events() {
    let e = stdout_line_event(Ok(String::from("hello")));
    assert!(matches!(e, Event::GameOutput(ref l) if l.as_str() == "hello"));
    let e = stdout_line_event(Err(String::from("bad utf8")));
    assert!(matches!(e, Event::GameExecutionError(ref m) if m.as_str() == "stdout read: bad utf8"));
    let e = stderr_line_event(Ok(String::from("oops")));
    assert!(matches!(e, Event::GameErrorOutput(ref l) if l.as_str() == "oops"));
    let e = stderr_line_event(Err(String::from("bad utf8")));
    assert!(matches!(e, Event::GameExecutionError(ref m) if m.as_str() == "stderr read: bad utf8"));
}
