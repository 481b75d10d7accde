use vstd::prelude::*;

verus! {

/// Progress record for one in-flight transfer (game binary or launcher update).
pub struct Download {
    pub total: Option<u64>,
    pub current: u64,
    pub status: DownloadStatus,
}

pub enum DownloadStatus {
    InProgress,
    Complete,
    Errored(String),
}

/// Model of a download status: the error message as a character sequence.
pub enum StatusModel {
    InProgress,
    Complete,
    Errored(Seq<char>),
}

/// Model of a download: totals and progress as plain numbers, status abstracted.
pub struct DownloadModel {
    pub total: Option<u64>,
    pub current: u64,
    pub status: StatusModel,
}

impl View for DownloadStatus {
    type V = StatusModel;

    open spec fn view(&self) -> StatusModel {
        match self {
            DownloadStatus::InProgress => StatusModel::InProgress,
            DownloadStatus::Complete => StatusModel::Complete,
            DownloadStatus::Errored(e) => StatusModel::Errored(e@),
        }
    }
}

impl View for Download {
    type V = DownloadModel;

    open spec fn view(&self) -> DownloadModel {
        DownloadModel { total: self.total, current: self.current, status: self.status@ }
    }
}

impl Download {
    /// A fresh download: nothing transferred yet, in progress.
    pub fn new(total: Option<u64>) -> (d: Download)
        ensures
            d@ == (DownloadModel { total, current: 0u64, status: StatusModel::InProgress }),
    {
        Download { total, current: 0, status: DownloadStatus::InProgress }
    }

    pub fn current(&self) -> (c: u64)
        ensures
            c == self@.current,
    {
        self.current
    }

    pub fn status(&self) -> (s: &DownloadStatus)
        ensures
            s@ == self@.status,
    {
        &self.status
    }

    pub fn total(&self) -> (t: &Option<u64>)
        ensures
            *t == self@.total,
    {
        &self.total
    }

    pub fn set_progress(&mut self, current: u64)
        ensures
            final(self)@ == (DownloadModel { current, ..old(self)@ }),
    {
        self.current = current;
    }

    pub fn set_total(&mut self, total: Option<u64>)
        ensures
            final(self)@ == (DownloadModel { total, ..old(self)@ }),
    {
        self.total = total;
    }

    pub fn mark_complete(&mut self)
        ensures
            final(self)@ == (DownloadModel { status: StatusModel::Complete, ..old(self)@ }),
    {
        self.status = DownloadStatus::Complete;
    }

    pub fn set_error(&mut self, error: String)
        ensures
            final(self)@ == (DownloadModel { status: StatusModel::Errored(error@), ..old(self)@ }),
    {
        self.status = DownloadStatus::Errored(error);
    }
}

impl Clone for DownloadStatus {
    fn clone(&self) -> (s: Self)
        ensures
            s@ == self@,
    {
        match self {
            DownloadStatus::InProgress => DownloadStatus::InProgress,
            DownloadStatus::Complete => DownloadStatus::Complete,
            DownloadStatus::Errored(e) => DownloadStatus::Errored(e.clone()),
        }
    }
}

impl Clone for Download {
    fn clone(&self) -> (d: Self)
        ensures
            d@ == self@,
    {
        Download { total: self.total, current: self.current, status: self.status.clone() }
    }
}

/// One entry of the launcher log: plain text with an optional title, or one
/// of the in-flight download slots.
pub enum Entry {
    Text(Option<String>, String),
    Download(Download),
    LauncherUpdate(Download),
    GameDownload(Download),
}

/// Model of a log entry.
pub enum EntryModel {
    Text(Option<Seq<char>>, Seq<char>),
    Download(DownloadModel),
    LauncherUpdate(DownloadModel),
    GameDownload(DownloadModel),
}

impl View for Entry {
    type V = EntryModel;

    open spec fn view(&self) -> EntryModel {
        match self {
            Entry::Text(title, text) => EntryModel::Text(
                match title {
                    Some(t) => Some(t@),
                    None => None,
                },
                text@,
            ),
            Entry::Download(d) => EntryModel::Download(d@),
            Entry::LauncherUpdate(d) => EntryModel::LauncherUpdate(d@),
            Entry::GameDownload(d) => EntryModel::GameDownload(d@),
        }
    }
}

impl Entry {
    pub fn titled_text(title: String, text: String) -> (e: Entry)
        ensures
            e@ == EntryModel::Text(Some(title@), text@),
    {
        Entry::Text(Some(title), text)
    }

    pub fn text(text: String) -> (e: Entry)
        ensures
            e@ == EntryModel::Text(None, text@),
    {
        Entry::Text(None, text)
    }
}

/// The model of a sequence of log entries.
pub open spec fn entries_view(s: Seq<Entry>) -> Seq<EntryModel> {
    s.map_values(|e: Entry| e@)
}

/// The launcher log: three updatable message slots, two updatable download
/// slots, and an append-only tail of plain text lines. Insertion order is
/// display order, reconstructed by `entries`.
pub struct Log {
    pub local_hash_msg: Option<String>,
    pub remote_hash_msg: Option<String>,
    pub launcher_status_msg: Option<String>,
    pub game_download: Option<Download>,
    pub launcher_update: Option<Download>,
    pub extra_log: Vec<String>,
}

/// Model of the log.
pub struct LogModel {
    pub local_hash_msg: Option<Seq<char>>,
    pub remote_hash_msg: Option<Seq<char>>,
    pub launcher_status_msg: Option<Seq<char>>,
    pub game_download: Option<DownloadModel>,
    pub launcher_update: Option<DownloadModel>,
    pub extra_log: Seq<Seq<char>>,
}

pub open spec fn opt_string_view(s: Option<String>) -> Option<Seq<char>> {
    match s {
        Some(x) => Some(x@),
        None => None,
    }
}

pub open spec fn opt_download_view(d: Option<Download>) -> Option<DownloadModel> {
    match d {
        Some(x) => Some(x@),
        None => None,
    }
}

impl View for Log {
    type V = LogModel;

    open spec fn view(&self) -> LogModel {
        LogModel {
            local_hash_msg: opt_string_view(self.local_hash_msg),
            remote_hash_msg: opt_string_view(self.remote_hash_msg),
            launcher_status_msg: opt_string_view(self.launcher_status_msg),
            game_download: opt_download_view(self.game_download),
            launcher_update: opt_download_view(self.launcher_update),
            extra_log: self.extra_log@.map_values(|t: String| t@),
        }
    }
}

/// The displayed entries of a log model, in display order: launcher status,
/// launcher-update download, remote hash, local hash, game download, then
/// every plain text line.
pub open spec fn spec_entries(m: LogModel) -> Seq<EntryModel> {
    (match m.launcher_status_msg {
        Some(s) => seq![EntryModel::Text(Some("Launcher Status"@), s)],
        None => Seq::empty(),
    }) + (match m.launcher_update {
        Some(d) => seq![EntryModel::LauncherUpdate(d)],
        None => Seq::empty(),
    }) + (match m.remote_hash_msg {
        Some(s) => seq![EntryModel::Text(Some("Remote hash"@), s)],
        None => Seq::empty(),
    }) + (match m.local_hash_msg {
        Some(s) => seq![EntryModel::Text(Some("Local hash"@), s)],
        None => Seq::empty(),
    }) + (match m.game_download {
        Some(d) => seq![EntryModel::GameDownload(d)],
        None => Seq::empty(),
    }) + m.extra_log.map_values(|t: Seq<char>| EntryModel::Text(None, t))
}

impl Log {
    /// An empty log.
    pub fn new() -> (l: Log)
        ensures
            l@ == (LogModel {
                local_hash_msg: None,
                remote_hash_msg: None,
                launcher_status_msg: None,
                game_download: None,
                launcher_update: None,
                extra_log: Seq::empty(),
            }),
    {
        let l = Log {
            local_hash_msg: None,
            remote_hash_msg: None,
            launcher_status_msg: None,
            game_download: None,
            launcher_update: None,
            extra_log: Vec::new(),
        };
        proof {
            assert(l@.extra_log =~= Seq::<Seq<char>>::empty());
        }
        l
    }

    /// Append a titled entry: it is stored as one text line "title: text".
    pub fn add_titled(&mut self, title: String, text: String)
        ensures
            final(self)@ == (LogModel {
                extra_log: old(self)@.extra_log.push(title@ + ": "@ + text@),
                ..old(self)@
            }),
    {
        self.push(Entry::titled_text(title, text));
    }

    /// Append a plain text entry.
    pub fn add_text(&mut self, text: String)
        ensures
            final(self)@ == (LogModel {
                extra_log: old(self)@.extra_log.push(text@),
                ..old(self)@
            }),
    {
        self.push_text(text);
    }

    /// Append a text entry to the tail; download entries are held in their
    /// dedicated slots and are not appended here.
    fn push(&mut self, entry: Entry)
        ensures
            final(self)@ == (LogModel {
                extra_log: match entry@ {
                    EntryModel::Text(Some(title), text) => old(self)@.extra_log.push(
                        title + ": "@ + text,
                    ),
                    EntryModel::Text(None, text) => old(self)@.extra_log.push(text),
                    _ => old(self)@.extra_log,
                },
                ..old(self)@
            }),
    {
        match entry {
            Entry::Text(Some(title), text) => {
                let line = title.concat(": ").concat(text.as_str());
                self.extra_log.push(line);
                proof {
                    assert(self@.extra_log =~= old(self)@.extra_log.push(
                        entry@->Text_0->Some_0 + ": "@ + entry@->Text_1,
                    ));
                }
            },
            Entry::Text(None, text) => {
                self.extra_log.push(text);
                proof {
                    assert(self@.extra_log =~= old(self)@.extra_log.push(entry@->Text_1));
                }
            },
            _ => {},
        }
    }

    fn push_text(&mut self, text: String)
        ensures
            final(self)@ == (LogModel {
                extra_log: old(self)@.extra_log.push(text@),
                ..old(self)@
            }),
    {
        self.extra_log.push(text);
        proof {
            assert(self@.extra_log =~= old(self)@.extra_log.push(text@));
        }
    }

    /// Rebuild the full display list from the slots and the text tail.
    pub fn entries(&self) -> (r: Vec<Entry>)
        ensures
            entries_view(r@) == spec_entries(self@),
    {
        let mut accumulator: Vec<Entry> = Vec::new();

        if let Some(status) = &self.launcher_status_msg {
            accumulator.push(Entry::titled_text(String::from_str("Launcher Status"), status.clone()));
        }
        if let Some(launcher_update) = &self.launcher_update {
            accumulator.push(Entry::LauncherUpdate(launcher_update.clone()));
        }
        if let Some(remote_hash) = &self.remote_hash_msg {
            accumulator.push(Entry::titled_text(String::from_str("Remote hash"), remote_hash.clone()));
        }
        if let Some(local_hash) = &self.local_hash_msg {
            accumulator.push(Entry::titled_text(String::from_str("Local hash"), local_hash.clone()));
        }
        if let Some(game_download) = &self.game_download {
            accumulator.push(Entry::GameDownload(game_download.clone()));
        }

        proof {
            assert(entries_view(accumulator@) =~= spec_entries(self@).take(
                accumulator@.len() as int,
            ));
        }

        proof {
            assert(spec_entries(self@).len() == accumulator@.len() + self@.extra_log.len());
        }
        let ghost prefix_len = accumulator@.len() as int;
        let mut i: usize = 0;
        while i < self.extra_log.len()
            invariant
                i <= self.extra_log.len(),
                accumulator@.len() == prefix_len + i,
                spec_entries(self@).len() == prefix_len + self@.extra_log.len(),
                entries_view(accumulator@) =~= spec_entries(self@).take(prefix_len + i),
            decreases self.extra_log.len() - i,
        {
            let ghost acc_pre = accumulator@;
            accumulator.push(Entry::text(self.extra_log[i].clone()));
            i += 1;
            proof {
                assert(entries_view(accumulator@) =~= entries_view(acc_pre).push(
                    EntryModel::Text(None, self@.extra_log[i - 1]),
                ));
                assert(spec_entries(self@)[prefix_len + i - 1] == EntryModel::Text(
                    None,
                    self@.extra_log[i - 1],
                ));
                assert(entries_view(accumulator@) =~= spec_entries(self@).take(prefix_len + i));
            }
        }
        proof {
            assert(entries_view(accumulator@) =~= spec_entries(self@));
        }
        accumulator
    }

    /// Begin tracking the game-binary download.
    pub fn start_download(&mut self, total: Option<u64>)
        ensures
            final(self)@ == (LogModel {
                game_download: Some(
                    DownloadModel { total, current: 0u64, status: StatusModel::InProgress },
                ),
                ..old(self)@
            }),
    {
        self.game_download = Some(Download::new(total));
    }

    /// Record cumulative progress of the game-binary download, if one is tracked.
    pub fn set_download_progress(&mut self, downloaded: u64)
        ensures
            final(self)@ == (LogModel {
                game_download: match old(self)@.game_download {
                    Some(d) => Some(DownloadModel { current: downloaded, ..d }),
                    None => None,
                },
                ..old(self)@
            }),
    {
        if let Some(download) = &mut self.game_download {
            download.set_progress(downloaded);
        }
    }

    /// Mark the game-binary download complete, if one is tracked.
    pub fn mark_download_complete(&mut self)
        ensures
            final(self)@ == (LogModel {
                game_download: match old(self)@.game_download {
                    Some(d) => Some(DownloadModel { status: StatusModel::Complete, ..d }),
                    None => None,
                },
                ..old(self)@
            }),
    {
        if let Some(download) = &mut self.game_download {
            download.mark_complete();
        }
    }

    /// Mark the game-binary download errored, if one is tracked.
    pub fn set_download_error(&mut self, error: String)
        ensures
            final(self)@ == (LogModel {
                game_download: match old(self)@.game_download {
                    Some(d) => Some(DownloadModel { status: StatusModel::Errored(error@), ..d }),
                    None => None,
                },
                ..old(self)@
            }),
    {
        if let Some(download) = &mut self.game_download {
            download.set_error(error);
        }
    }
}

} // verus!
