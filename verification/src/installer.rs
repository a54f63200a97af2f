//! Clean install engine: download the full game archive, then unpack it
//! into the install root and hand over to a sync pass.
//!
//! The archive is streamed to a scratch file with progress reporting, then
//! read back entry by entry: directory entries become directories, file
//! entries are copied to `<root>/<entry name>`. When the last entry is
//! unpacked the engine asks the caller to start an update pass.

use vstd::prelude::*;

verus! {

use crate::channel::RunSignal;
use crate::config::Configuration;
use crate::errors::ErrorKind;
use crate::progress::{permille_of, ProgressState};
use crate::sync::err_text;
use crate::text::path_join;

/// Name of the scratch file the archive is streamed to.
pub open spec fn archive_name() -> Seq<char> {
    "game.zip"@
}

/// Where the clean install pass stands.
#[derive(Debug)]
pub enum CleanState {
    /// Not started.
    Idle,
    /// Asked for the install root directory to exist.
    AwaitRootDir,
    /// Asked for the archive download stream to be opened.
    AwaitStream,
    /// Receiving archive chunks.
    Downloading,
    /// Asked for the downloaded archive to be opened.
    AwaitArchive,
    /// Asked for the metadata of archive entry `idx` of `count`.
    AwaitEntryMeta { idx: usize, count: usize },
    /// Asked for archive entry `idx` of `count` to be unpacked.
    AwaitExtract { idx: usize, count: usize },
    /// Finished; a sync pass should follow.
    Done,
    /// Stopped on an error.
    Failed { err: ErrorKind },
}

/// What the caller reports back to the engine.
#[derive(Debug)]
pub enum CleanEvent {
    /// Begin the pass.
    Start,
    /// The requested directory, write or unpack action completed.
    WriteDone,
    /// The download stream opened; `total` is the announced content length,
    /// 0 when the server announced none.
    StreamStarted { total: u64 },
    /// One chunk of the open stream.
    Chunk { bytes: Vec<u8> },
    /// The open stream ended.
    StreamEnd,
    /// The archive opened and holds `count` entries.
    ArchiveOpened { count: usize },
    /// Name and kind of the queried archive entry.
    EntryMeta { name: String, is_dir: bool },
    /// The requested action failed.
    Failure { err: ErrorKind },
}

/// What the caller must do next.
#[derive(Debug)]
pub enum CleanAction {
    /// Create the directory at `path` (and its parents) if missing.
    EnsureDir { path: String },
    /// Open a download stream for `url`.
    OpenStream { url: String },
    /// Create (or truncate) the file at `path`, ready for appending.
    CreateFile { path: String },
    /// Append exactly `bytes` to the created file.
    AppendChunk { bytes: Vec<u8> },
    /// Open the downloaded archive at `path` and report its entry count.
    OpenArchive { path: String },
    /// Report name and kind of archive entry `idx`.
    QueryEntry { idx: usize },
    /// Unpack the queried entry to `dest`: create the directory when
    /// `is_dir`, else create parent directories and copy the entry's data.
    ExtractEntry { dest: String, is_dir: bool },
    /// Start a sync pass over the same configuration.
    StartSync,
    /// Nothing to do; the pass is over or the event was ignored.
    Nothing,
}

/// One step's result.
#[derive(Debug)]
pub struct CleanOutput {
    /// Status line to publish, if any.
    pub status: Option<String>,
    /// Run-signal change to publish, if any.
    pub signal: Option<RunSignal>,
    /// Progress fraction in permille to publish, if any.
    pub progress: Option<u16>,
    /// Next action for the caller.
    pub action: CleanAction,
}

/// Completed pass: terminal state, hand-off to the updater with its status
/// line and a success signal.
pub open spec fn c_done_outcome(post: CleanEngine, out: CleanOutput) -> bool {
    &&& post.state is Done
    &&& out.action is StartSync
    &&& (out.status matches Some(s) && s@ == "Starting Updater..."@)
    &&& out.signal == Some(RunSignal::DoneOk)
}

/// Aborted run: terminal failure state carrying `err`.
pub open spec fn c_failure_outcome(post: CleanEngine, out: CleanOutput, err: ErrorKind) -> bool {
    &&& (post.state matches CleanState::Failed { err: e } && e == err)
    &&& out.action is Nothing
    &&& (out.status matches Some(s) && s@ == "Error: "@ + err_text(err))
    &&& out.signal == Some(RunSignal::DoneErr)
}

/// The engine asks for archive entry `i` of `n`.
pub open spec fn query_outcome(post: CleanEngine, out: CleanOutput, i: int, n: int) -> bool {
    &&& (post.state matches CleanState::AwaitEntryMeta { idx, count } && idx == i && count == n)
    &&& (out.action matches CleanAction::QueryEntry { idx } && idx == i)
    &&& out.status is None
    &&& out.signal is None
}

/// The machine is mid-run.
pub open spec fn c_running(st: CleanState) -> bool {
    !(st is Idle) && !(st is Done) && !(st is Failed)
}

/// The event answers what the current state asked for.
pub open spec fn c_fits(st: CleanState, ev: CleanEvent) -> bool {
    ||| (st is Idle && ev is Start)
    ||| (st is AwaitRootDir && ev is WriteDone)
    ||| (st is AwaitStream && ev is StreamStarted)
    ||| (st is Downloading && (ev is Chunk || ev is StreamEnd))
    ||| (st is AwaitArchive && ev is ArchiveOpened)
    ||| (st is AwaitEntryMeta && ev is EntryMeta)
    ||| (st is AwaitExtract && ev is WriteDone)
    ||| (c_running(st) && ev is Failure)
}

/// The clean install state machine.
pub struct CleanEngine {
    /// Manifest, install root, archive source and connection string.
    pub cfg: Configuration,
    /// Byte accounting of the archive download.
    pub progress: ProgressState,
    /// Current state.
    pub state: CleanState,
}

impl CleanEngine {
    /// Indices in the state stay inside the archive, and the manifest is
    /// well-formed.
    pub open spec fn wf(self) -> bool {
        &&& self.cfg.wf()
        &&& (self.state matches CleanState::AwaitEntryMeta { idx, count } ==> idx < count)
        &&& (self.state matches CleanState::AwaitExtract { idx, count } ==> idx < count)
    }

    /// A fresh, not yet started engine for one pass over `cfg`.
    pub fn new(cfg: Configuration) -> (r: CleanEngine)
        requires
            cfg.wf(),
        ensures
            r.cfg == cfg,
            r.state is Idle,
            r.wf(),
    {
        CleanEngine { cfg, progress: ProgressState::begin(0), state: CleanState::Idle }
    }

    /// The pass reached a terminal state.
    pub fn is_finished(&self) -> (r: bool)
        ensures
            r == (self.state is Done || self.state is Failed),
    {
        match self.state {
            CleanState::Done => true,
            CleanState::Failed { .. } => true,
            _ => false,
        }
    }

    /// Enters the terminal failure state for `err`.
    fn enter_failed(&mut self, err: ErrorKind) -> (out: CleanOutput)
        ensures
            final(self).cfg == old(self).cfg,
            final(self).progress == old(self).progress,
            c_failure_outcome(*final(self), out, err),
            old(self).wf() ==> final(self).wf(),
    {
        let status = "Error: ".to_owned().concat(err.describe());
        self.state = CleanState::Failed { err };
        CleanOutput {
            status: Some(status),
            signal: Some(RunSignal::DoneErr),
            progress: None,
            action: CleanAction::Nothing,
        }
    }

    /// Finishes the pass and hands over to the updater.
    fn enter_done(&mut self) -> (out: CleanOutput)
        ensures
            final(self).cfg == old(self).cfg,
            final(self).progress == old(self).progress,
            c_done_outcome(*final(self), out),
            old(self).wf() ==> final(self).wf(),
    {
        self.state = CleanState::Done;
        CleanOutput {
            status: Some("Starting Updater...".to_owned()),
            signal: Some(RunSignal::DoneOk),
            progress: None,
            action: CleanAction::StartSync,
        }
    }

    /// One transition of the machine. The event must answer the pending
    /// action; an event that does not fit the current state is ignored.
    pub fn step(&mut self, ev: CleanEvent) -> (out: CleanOutput)
        requires
            old(self).wf(),
        ensures
            final(self).wf(),
            final(self).cfg == old(self).cfg,
            // Starting: announce the download, make sure the install root
            // exists.
            (old(self).state is Idle && ev is Start) ==> {
                &&& final(self).state is AwaitRootDir
                &&& (out.action matches CleanAction::EnsureDir { path } && path@ == old(
                    self,
                ).cfg.path@)
                &&& (out.status matches Some(s) && s@ == "Downloading game files..."@)
                &&& out.signal == Some(RunSignal::Running)
            },
            // Root in place: open the archive download stream.
            (old(self).state is AwaitRootDir && ev is WriteDone) ==> {
                &&& final(self).state is AwaitStream
                &&& (out.action matches CleanAction::OpenStream { url } && url@ == old(
                    self,
                ).cfg.wow@)
                &&& out.status is None
                &&& out.signal is None
            },
            // Stream opened: fresh progress accounting, stream into the
            // scratch file.
            ev matches CleanEvent::StreamStarted { total } ==> old(self).state is AwaitStream
                ==> {
                &&& final(self).state is Downloading
                &&& final(self).progress.downloaded == 0
                &&& final(self).progress.total == total
                &&& (out.action matches CleanAction::CreateFile { path } && path@
                    == archive_name())
                &&& out.status is None
                &&& out.signal is None
            },
            // One chunk: append exactly the received bytes, account them,
            // and report the fraction.
            ev matches CleanEvent::Chunk { bytes } ==> old(self).state is Downloading ==> {
                &&& final(self).state is Downloading
                &&& (out.action matches CleanAction::AppendChunk { bytes: b } && b@ == bytes@)
                &&& final(self).progress.total == old(self).progress.total
                &&& final(self).progress.downloaded >= old(self).progress.downloaded
                &&& final(self).progress.downloaded == if old(self).progress.downloaded
                    + bytes@.len() <= u64::MAX {
                    old(self).progress.downloaded + bytes@.len()
                } else {
                    u64::MAX as int
                }
                &&& (out.progress matches Some(p) && p as int == permille_of(
                    final(self).progress.downloaded,
                    final(self).progress.total,
                ) && p as int >= permille_of(
                    old(self).progress.downloaded,
                    old(self).progress.total,
                ))
                &&& out.status is None
                &&& out.signal is None
            },
            // Download finished: open the archive for unpacking.
            (old(self).state is Downloading && ev is StreamEnd) ==> {
                &&& final(self).state is AwaitArchive
                &&& (out.action matches CleanAction::OpenArchive { path } && path@
                    == archive_name())
                &&& (out.status matches Some(s) && s@ == "Installing game files..."@)
                &&& out.signal is None
            },
            // Archive opened: walk its entries; an empty archive finishes
            // at once.
            ev matches CleanEvent::ArchiveOpened { count } ==> old(self).state is AwaitArchive
                ==> {
                if count == 0 {
                    c_done_outcome(*final(self), out)
                } else {
                    query_outcome(*final(self), out, 0, count as int)
                }
            },
            // Entry metadata: unpack it under the install root.
            old(self).state matches CleanState::AwaitEntryMeta { idx, count } ==> ev
                matches CleanEvent::EntryMeta { name, is_dir } ==> {
                &&& (final(self).state matches CleanState::AwaitExtract { idx: i2, count: n2 }
                    && i2 == idx && n2 == count)
                &&& (out.action matches CleanAction::ExtractEntry { dest, is_dir: d } && dest@
                    == old(self).cfg.path@ + "/"@ + name@ && d == is_dir)
                &&& out.status is None
                &&& out.signal is None
            },
            // Entry unpacked: next entry, or finish after the last.
            old(self).state matches CleanState::AwaitExtract { idx, count } ==> ev is WriteDone
                ==> {
                if idx + 1 < count {
                    query_outcome(*final(self), out, idx + 1, count as int)
                } else {
                    c_done_outcome(*final(self), out)
                }
            },
            // Any failure mid-run aborts the whole pass.
            ev matches CleanEvent::Failure { err } ==> c_running(old(self).state)
                ==> c_failure_outcome(*final(self), out, err),
            // An event that does not fit is ignored.
            !c_fits(old(self).state, ev) ==> {
                &&& *final(self) == *old(self)
                &&& out.action is Nothing
                &&& out.status is None
                &&& out.signal is None
                &&& out.progress is None
            },
    {
        let mut st = CleanState::Idle;
        core::mem::swap(&mut st, &mut self.state);
        match (st, ev) {
            (CleanState::Idle, CleanEvent::Start) => {
                self.state = CleanState::AwaitRootDir;
                CleanOutput {
                    status: Some("Downloading game files...".to_owned()),
                    signal: Some(RunSignal::Running),
                    progress: None,
                    action: CleanAction::EnsureDir { path: self.cfg.path.clone() },
                }
            },
            (CleanState::AwaitRootDir, CleanEvent::WriteDone) => {
                self.state = CleanState::AwaitStream;
                CleanOutput {
                    status: None,
                    signal: None,
                    progress: None,
                    action: CleanAction::OpenStream { url: self.cfg.wow.clone() },
                }
            },
            (CleanState::AwaitStream, CleanEvent::StreamStarted { total }) => {
                self.progress = ProgressState::begin(total);
                self.state = CleanState::Downloading;
                CleanOutput {
                    status: None,
                    signal: None,
                    progress: None,
                    action: CleanAction::CreateFile { path: "game.zip".to_owned() },
                }
            },
            (CleanState::Downloading, CleanEvent::Chunk { bytes }) => {
                let ghost before = self.progress;
                self.progress.on_chunk(bytes.len());
                let p = self.progress.permille();
                proof {
                    crate::progress::lemma_permille_monotone(
                        before.downloaded,
                        self.progress.downloaded,
                        self.progress.total,
                    );
                }
                self.state = CleanState::Downloading;
                CleanOutput {
                    status: None,
                    signal: None,
                    progress: Some(p),
                    action: CleanAction::AppendChunk { bytes },
                }
            },
            (CleanState::Downloading, CleanEvent::StreamEnd) => {
                self.state = CleanState::AwaitArchive;
                CleanOutput {
                    status: Some("Installing game files...".to_owned()),
                    signal: None,
                    progress: None,
                    action: CleanAction::OpenArchive { path: "game.zip".to_owned() },
                }
            },
            (CleanState::AwaitArchive, CleanEvent::ArchiveOpened { count }) => {
                if count == 0 {
                    self.enter_done()
                } else {
                    self.state = CleanState::AwaitEntryMeta { idx: 0, count };
                    CleanOutput {
                        status: None,
                        signal: None,
                        progress: None,
                        action: CleanAction::QueryEntry { idx: 0 },
                    }
                }
            },
            (CleanState::AwaitEntryMeta { idx, count }, CleanEvent::EntryMeta { name, is_dir }) => {
                let dest = path_join(self.cfg.path.as_str(), name.as_str());
                self.state = CleanState::AwaitExtract { idx, count };
                CleanOutput {
                    status: None,
                    signal: None,
                    progress: None,
                    action: CleanAction::ExtractEntry { dest, is_dir },
                }
            },
            (CleanState::AwaitExtract { idx, count }, CleanEvent::WriteDone) => {
                if idx < count - 1 {
                    self.state = CleanState::AwaitEntryMeta { idx: idx + 1, count };
                    CleanOutput {
                        status: None,
                        signal: None,
                        progress: None,
                        action: CleanAction::QueryEntry { idx: idx + 1 },
                    }
                } else {
                    self.enter_done()
                }
            },
            (other, CleanEvent::Failure { err }) => {
                let was_running = match other {
                    CleanState::Idle => false,
                    CleanState::Done => false,
                    CleanState::Failed { .. } => false,
                    _ => true,
                };
                if was_running {
                    self.enter_failed(err)
                } else {
                    self.state = other;
                    CleanOutput {
                        status: None,
                        signal: None,
                        progress: None,
                        action: CleanAction::Nothing,
                    }
                }
            },
            (other, _) => {
                self.state = other;
                CleanOutput {
                    status: None,
                    signal: None,
                    progress: None,
                    action: CleanAction::Nothing,
                }
            },
        }
    }
}

/// Entry point kept thin: holds the configuration and hands out a fresh
/// clean install engine per pass.
pub struct Installer {
    /// Configuration of this installer.
    pub cfg: Configuration,
}

impl Installer {
    /// An installer over a well-formed configuration.
    pub fn new(cfg: Configuration) -> (r: Self)
        requires
            cfg.wf(),
        ensures
            r.cfg == cfg,
    {
        Installer { cfg }
    }

    /// Begins one clean install pass: a fresh engine in its idle state.
    pub fn clean_install(&self) -> (r: CleanEngine)
        requires
            self.cfg.wf(),
        ensures
            r.cfg.equiv(self.cfg),
            r.state is Idle,
            r.wf(),
    {
        CleanEngine::new(self.cfg.clone())
    }
}

} // verus!
