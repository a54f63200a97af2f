//! Full install engine: one unconditional "reinstall all" pass.
//!
//! Unlike the sync pass there is no version-tag check: for every
//! sub-installation found directly under the install root, the engine
//! relocates and rewrites that sub-installation's server-list file and then
//! re-downloads every manifest entry, streaming chunk by chunk and
//! reporting a progress fraction after every chunk.

use vstd::prelude::*;

verus! {

use crate::channel::RunSignal;
use crate::config::Configuration;
use crate::errors::ErrorKind;
use crate::progress::{permille_of, ProgressState};
use crate::resolve::{find_first_dir, find_matching_file, is_match_file, DirEntryInfo};
use crate::sync::{asset_dir_name, entry_target, err_text, server_list_pat, Updater};
use crate::text::path_join;

/// Where the full install pass stands.
#[derive(Debug)]
pub enum InstallState {
    /// Not started.
    Idle,
    /// Asked for the listing of the install root (the sub-installations).
    AwaitRootList,
    /// Asked for the listing of this sub-installation's asset directory.
    AwaitAssetList { sub: usize },
    /// Asked for the listing of the locale directory at this path.
    AwaitLocaleList { sub: usize, locale_dir: String },
    /// Asked for the server-list file to be overwritten.
    AwaitServerListWrite { sub: usize },
    /// Asked for the download stream of entry `idx` to be opened.
    AwaitStream { sub: usize, idx: usize },
    /// Receiving chunks of entry `idx`.
    Streaming { sub: usize, idx: usize },
    /// Finished successfully.
    Done,
    /// Stopped on an error.
    Failed { err: ErrorKind },
}

/// What the caller reports back to the engine.
#[derive(Debug)]
pub enum InstallEvent {
    /// Begin the pass.
    Start,
    /// The requested directory listing.
    Listing { entries: Vec<DirEntryInfo> },
    /// The requested file write completed.
    WriteDone,
    /// The download stream opened; `total` is the announced content length,
    /// 0 when the server announced none.
    StreamStarted { total: u64 },
    /// One chunk of the open stream.
    Chunk { bytes: Vec<u8> },
    /// The open stream ended.
    StreamEnd,
    /// The requested action failed.
    Failure { err: ErrorKind },
}

/// What the caller must do next.
#[derive(Debug)]
pub enum InstallAction {
    /// List the directory at `path` and report a `Listing` event.
    ListDir { path: String },
    /// Truncate the file at `path` and write exactly `content`.
    WriteFile { path: String, content: String },
    /// Open a download stream for `url`.
    OpenStream { url: String },
    /// Create (or truncate) the file at `path`, ready for appending.
    CreateFile { path: String },
    /// Append exactly `bytes` to the file created for the current entry.
    AppendChunk { bytes: Vec<u8> },
    /// Nothing to do; the pass is over or the event was ignored.
    Nothing,
}

/// One step's result: status line, run signal and progress fraction for the
/// observer, and the next action for the caller.
#[derive(Debug)]
pub struct InstallOutput {
    /// Status line to publish, if any.
    pub status: Option<String>,
    /// Run-signal change to publish, if any.
    pub signal: Option<RunSignal>,
    /// Progress fraction in permille to publish, if any.
    pub progress: Option<u16>,
    /// Next action for the caller.
    pub action: InstallAction,
}

/// The full install state machine.
pub struct InstallEngine {
    /// Manifest, install root and connection string for this pass.
    pub cfg: Configuration,
    /// Paths of the sub-installations, fixed once the root is listed.
    pub subs: Vec<String>,
    /// Byte accounting of the entry currently streaming.
    pub progress: ProgressState,
    /// Current state.
    pub state: InstallState,
}

/// The sub-installation paths a root listing yields: one path `root/name`
/// for each directory entry, in listing order.
pub open spec fn sub_paths_of(root: Seq<char>, entries: Seq<DirEntryInfo>) -> Seq<Seq<char>>
    decreases entries.len(),
{
    if entries.len() == 0 {
        Seq::empty()
    } else {
        let rest = sub_paths_of(root, entries.drop_last());
        if entries.last().is_dir {
            rest.push(root + "/"@ + entries.last().name@)
        } else {
            rest
        }
    }
}

/// A listing yields some sub-installation exactly when it holds a
/// directory entry.
pub proof fn lemma_sub_paths_nonempty(root: Seq<char>, entries: Seq<DirEntryInfo>)
    ensures
        (sub_paths_of(root, entries).len() > 0) <==> (exists|j: int|
            0 <= j < entries.len() && (#[trigger] entries[j]).is_dir),
    decreases entries.len(),
{
    if entries.len() > 0 {
        lemma_sub_paths_nonempty(root, entries.drop_last());
        if entries.last().is_dir {
            assert(entries[entries.len() - 1].is_dir);
        } else {
            if exists|j: int| 0 <= j < entries.len() && (#[trigger] entries[j]).is_dir {
                let j = choose|j: int| 0 <= j < entries.len() && (#[trigger] entries[j]).is_dir;
                assert(entries.drop_last()[j] == entries[j]);
            }
        }
    }
}

/// Successful completion: terminal state, "Idle" status, success signal.
pub open spec fn i_done_outcome(post: InstallEngine, out: InstallOutput) -> bool {
    &&& post.state is Done
    &&& out.action is Nothing
    &&& (out.status matches Some(s) && s@ == "Idle"@)
    &&& out.signal == Some(RunSignal::DoneOk)
}

/// Aborted run: terminal failure state carrying `err`, an error status
/// line, a failure signal, and no further action.
pub open spec fn i_failure_outcome(post: InstallEngine, out: InstallOutput, err: ErrorKind) -> bool {
    &&& (post.state matches InstallState::Failed { err: e } && e == err)
    &&& out.action is Nothing
    &&& (out.status matches Some(s) && s@ == "Error: "@ + err_text(err))
    &&& out.signal == Some(RunSignal::DoneErr)
}

/// The engine turns to entry `i` of sub-installation `s`: announce the file
/// and ask for its download stream.
pub open spec fn next_file_outcome(
    pre: InstallEngine,
    post: InstallEngine,
    out: InstallOutput,
    s: int,
    i: int,
) -> bool {
    &&& (post.state matches InstallState::AwaitStream { sub, idx } && sub == s && idx == i)
    &&& (out.action matches InstallAction::OpenStream { url } && url@ == pre.cfg.files@[i].url@)
    &&& (out.status matches Some(t) && t@ == "Patching file: "@ + pre.cfg.files@[i].name@)
    &&& out.signal is None
}

/// Outcome of leaving sub-installation `s`: the engine either turns to the
/// next sub-installation's asset directory or finishes the pass.
pub open spec fn advanced_sub_from(
    pre: InstallEngine,
    post: InstallEngine,
    out: InstallOutput,
    s: int,
) -> bool {
    if s + 1 < pre.subs@.len() {
        &&& (post.state matches InstallState::AwaitAssetList { sub } && sub == s + 1)
        &&& (out.action matches InstallAction::ListDir { path } && path@ == pre.subs@[s + 1]@
            + "/"@ + asset_dir_name())
        &&& out.status is None
        &&& out.signal is None
    } else {
        i_done_outcome(post, out)
    }
}

/// The machine is mid-run (a failure event is meaningful).
pub open spec fn i_running(st: InstallState) -> bool {
    !(st is Idle) && !(st is Done) && !(st is Failed)
}

/// The event answers what the current state asked for.
pub open spec fn i_fits(st: InstallState, ev: InstallEvent) -> bool {
    ||| (st is Idle && ev is Start)
    ||| (st is AwaitRootList && ev is Listing)
    ||| (st is AwaitAssetList && ev is Listing)
    ||| (st is AwaitLocaleList && ev is Listing)
    ||| (st is AwaitServerListWrite && ev is WriteDone)
    ||| (st is AwaitStream && ev is StreamStarted)
    ||| (st is Streaming && (ev is Chunk || ev is StreamEnd))
    ||| (i_running(st) && ev is Failure)
}

impl InstallEngine {
    /// Indices in the state stay inside the sub-installation list and the
    /// manifest, and the manifest is well-formed.
    pub open spec fn wf(self) -> bool {
        &&& self.cfg.wf()
        &&& (self.state matches InstallState::AwaitAssetList { sub } ==> sub < self.subs@.len())
        &&& (self.state matches InstallState::AwaitLocaleList { sub, .. } ==> sub
            < self.subs@.len())
        &&& (self.state matches InstallState::AwaitServerListWrite { sub } ==> sub
            < self.subs@.len())
        &&& (self.state matches InstallState::AwaitStream { sub, idx } ==> sub < self.subs@.len()
            && idx < self.cfg.files@.len())
        &&& (self.state matches InstallState::Streaming { sub, idx } ==> sub < self.subs@.len()
            && idx < self.cfg.files@.len())
    }

    /// A fresh, not yet started engine for one pass over `cfg`.
    pub fn new(cfg: Configuration) -> (r: InstallEngine)
        requires
            cfg.wf(),
        ensures
            r.cfg == cfg,
            r.state is Idle,
            r.wf(),
    {
        InstallEngine {
            cfg,
            subs: Vec::new(),
            progress: ProgressState::begin(0),
            state: InstallState::Idle,
        }
    }

    /// The pass reached a terminal state.
    pub fn is_finished(&self) -> (r: bool)
        ensures
            r == (self.state is Done || self.state is Failed),
    {
        match self.state {
            InstallState::Done => true,
            InstallState::Failed { .. } => true,
            _ => false,
        }
    }

    /// Turns to entry `i` of sub-installation `s`.
    fn enter_file(&mut self, s: usize, i: usize) -> (out: InstallOutput)
        requires
            i < old(self).cfg.files@.len(),
            s < old(self).subs@.len(),
        ensures
            final(self).cfg == old(self).cfg,
            final(self).subs == old(self).subs,
            final(self).progress == old(self).progress,
            next_file_outcome(*old(self), *final(self), out, s as int, i as int),
            old(self).wf() ==> final(self).wf(),
    {
        let status = "Patching file: ".to_owned().concat(self.cfg.files[i].name.as_str());
        let url = self.cfg.files[i].url.clone();
        self.state = InstallState::AwaitStream { sub: s, idx: i };
        InstallOutput {
            status: Some(status),
            signal: None,
            progress: None,
            action: InstallAction::OpenStream { url },
        }
    }

    /// Leaves sub-installation `s` behind: turns to the next one, or ends
    /// the pass when `s` was the last.
    fn advance_sub(&mut self, s: usize) -> (out: InstallOutput)
        requires
            s < old(self).subs@.len(),
        ensures
            final(self).cfg == old(self).cfg,
            final(self).subs == old(self).subs,
            final(self).progress == old(self).progress,
            advanced_sub_from(*old(self), *final(self), out, s as int),
            old(self).wf() ==> final(self).wf(),
    {
        let n = self.subs.len();
        if s < n - 1 {
            self.state = InstallState::AwaitAssetList { sub: s + 1 };
            InstallOutput {
                status: None,
                signal: None,
                progress: None,
                action: InstallAction::ListDir {
                    path: path_join(self.subs[s + 1].as_str(), "Data"),
                },
            }
        } else {
            self.state = InstallState::Done;
            InstallOutput {
                status: Some("Idle".to_owned()),
                signal: Some(RunSignal::DoneOk),
                progress: None,
                action: InstallAction::Nothing,
            }
        }
    }

    /// Enters the terminal failure state for `err`.
    fn enter_failed(&mut self, err: ErrorKind) -> (out: InstallOutput)
        ensures
            final(self).cfg == old(self).cfg,
            final(self).subs == old(self).subs,
            final(self).progress == old(self).progress,
            i_failure_outcome(*final(self), out, err),
            old(self).wf() ==> final(self).wf(),
    {
        let status = "Error: ".to_owned().concat(err.describe());
        self.state = InstallState::Failed { err };
        InstallOutput {
            status: Some(status),
            signal: Some(RunSignal::DoneErr),
            progress: None,
            action: InstallAction::Nothing,
        }
    }

    /// One transition of the machine. The event must answer the pending
    /// action; an event that does not fit the current state is ignored.
    pub fn step(&mut self, ev: InstallEvent) -> (out: InstallOutput)
        requires
            old(self).wf(),
        ensures
            final(self).wf(),
            final(self).cfg == old(self).cfg,
            !(old(self).state is AwaitRootList) ==> final(self).subs == old(self).subs,
            // Starting: announce the run and ask for the root listing.
            (old(self).state is Idle && ev is Start) ==> {
                &&& final(self).state is AwaitRootList
                &&& (out.action matches InstallAction::ListDir { path } && path@ == old(
                    self,
                ).cfg.path@)
                &&& (out.status matches Some(s) && s@ == "Patching.."@)
                &&& out.signal == Some(RunSignal::Running)
            },
            // Root listing: the sub-installations are exactly the directory
            // entries, in order; start on the first, or finish at once when
            // there is none.
            ev matches InstallEvent::Listing { entries } ==> old(self).state is AwaitRootList
                ==> {
                &&& final(self).subs@.len() == sub_paths_of(old(self).cfg.path@, entries@).len()
                &&& forall|k: int|
                    0 <= k < final(self).subs@.len() ==> (#[trigger] final(self).subs@[k])@
                        == sub_paths_of(old(self).cfg.path@, entries@)[k]
                &&& if exists|j: int| 0 <= j < entries@.len() && (#[trigger] entries@[j]).is_dir {
                    &&& final(self).subs@.len() > 0
                    &&& (final(self).state matches InstallState::AwaitAssetList { sub } && sub
                        == 0)
                    &&& (out.action matches InstallAction::ListDir { path } && path@
                        == final(self).subs@[0]@ + "/"@ + asset_dir_name())
                    &&& out.status is None
                    &&& out.signal is None
                } else {
                    i_done_outcome(*final(self), out)
                }
            },
            // Asset listing: the locale folder is the first directory entry.
            ev matches InstallEvent::Listing { entries } ==> old(
                self,
            ).state matches InstallState::AwaitAssetList { sub } ==> {
                if exists|j: int| 0 <= j < entries@.len() && (#[trigger] entries@[j]).is_dir {
                    exists|i: int|
                        {
                            &&& 0 <= i < entries@.len()
                            &&& (#[trigger] entries@[i]).is_dir
                            &&& forall|j: int| 0 <= j < i ==> !(#[trigger] entries@[j]).is_dir
                            &&& (final(self).state matches InstallState::AwaitLocaleList {
                                sub: s2,
                                locale_dir,
                            } && s2 == sub && locale_dir@ == old(self).subs@[sub as int]@ + "/"@
                                + asset_dir_name() + "/"@ + entries@[i].name@)
                            &&& (out.action matches InstallAction::ListDir { path } && path@
                                == old(self).subs@[sub as int]@ + "/"@ + asset_dir_name() + "/"@
                                + entries@[i].name@)
                        }
                } else {
                    i_failure_outcome(*final(self), out, ErrorKind::FilesystemAccess)
                }
            },
            // Locale listing: the server-list file is the first entry whose
            // name holds the fixed substring; rewrite it wholesale with the
            // configured connection string.
            ev matches InstallEvent::Listing { entries } ==> old(
                self,
            ).state matches InstallState::AwaitLocaleList { sub, locale_dir } ==> {
                if exists|j: int|
                    0 <= j < entries@.len() && is_match_file(#[trigger] entries@[j], server_list_pat()) {
                    exists|i: int|
                        {
                            &&& 0 <= i < entries@.len()
                            &&& is_match_file(#[trigger] entries@[i], server_list_pat())
                            &&& forall|j: int|
                                0 <= j < i ==> !is_match_file(
                                    #[trigger] entries@[j],
                                    server_list_pat(),
                                )
                            &&& (final(self).state matches InstallState::AwaitServerListWrite {
                                sub: s2,
                            } && s2 == sub)
                            &&& (out.action matches InstallAction::WriteFile { path, content }
                                && path@ == locale_dir@ + "/"@ + entries@[i].name@ && content@
                                == old(self).cfg.realmlist@)
                        }
                } else {
                    i_failure_outcome(*final(self), out, ErrorKind::FilesystemAccess)
                }
            },
            // Server list written: walk the manifest of this
            // sub-installation, or move on when the manifest is empty.
            old(self).state matches InstallState::AwaitServerListWrite { sub } ==> ev
                is WriteDone ==> {
                if old(self).cfg.files@.len() == 0 {
                    advanced_sub_from(*old(self), *final(self), out, sub as int)
                } else {
                    next_file_outcome(*old(self), *final(self), out, sub as int, 0)
                }
            },
            // Stream opened: fresh progress accounting for the announced
            // total, and create the entry's target file under the
            // sub-installation.
            old(self).state matches InstallState::AwaitStream { sub, idx } ==> ev
                matches InstallEvent::StreamStarted { total } ==> {
                &&& (final(self).state matches InstallState::Streaming { sub: s2, idx: i2 } && s2
                    == sub && i2 == idx)
                &&& final(self).progress.downloaded == 0
                &&& final(self).progress.total == total
                &&& (out.action matches InstallAction::CreateFile { path } && path@
                    == entry_target(old(self).subs@[sub as int]@, old(self).cfg.files@[idx as int]))
                &&& out.status is None
                &&& out.signal is None
                &&& out.progress is None
            },
            // One chunk: append exactly the received bytes, account them,
            // and report the fraction — which never decreases within the
            // file and reaches 1000 exactly when a known total is complete.
            old(self).state matches InstallState::Streaming { sub, idx } ==> ev
                matches InstallEvent::Chunk { bytes } ==> {
                &&& (final(self).state matches InstallState::Streaming { sub: s2, idx: i2 } && s2
                    == sub && i2 == idx)
                &&& (out.action matches InstallAction::AppendChunk { bytes: b } && b@ == bytes@)
                &&& final(self).progress.total == old(self).progress.total
                &&& final(self).progress.downloaded >= old(self).progress.downloaded
                &&& final(self).progress.downloaded == if old(self).progress.downloaded
                    + bytes@.len() <= u64::MAX {
                    old(self).progress.downloaded + bytes@.len()
                } else {
                    u64::MAX as int
                }
                &&& (out.progress matches Some(p) && p as int == permille_of(
                    final(self).progress.downloaded,
                    final(self).progress.total,
                ) && p as int >= permille_of(
                    old(self).progress.downloaded,
                    old(self).progress.total,
                ))
                &&& out.status is None
                &&& out.signal is None
            },
            // Stream ended: next entry, or next sub-installation after the
            // last entry.
            old(self).state matches InstallState::Streaming { sub, idx } ==> ev is StreamEnd
                ==> {
                if idx + 1 < old(self).cfg.files@.len() {
                    next_file_outcome(*old(self), *final(self), out, sub as int, idx + 1)
                } else {
                    advanced_sub_from(*old(self), *final(self), out, sub as int)
                }
            },
            // Any failure mid-run aborts the whole pass.
            ev matches InstallEvent::Failure { err } ==> i_running(old(self).state)
                ==> i_failure_outcome(*final(self), out, err),
            // An event that does not fit is ignored.
            !i_fits(old(self).state, ev) ==> {
                &&& *final(self) == *old(self)
                &&& out.action is Nothing
                &&& out.status is None
                &&& out.signal is None
                &&& out.progress is None
            },
    {
        let mut st = InstallState::Idle;
        core::mem::swap(&mut st, &mut self.state);
        match (st, ev) {
            (InstallState::Idle, InstallEvent::Start) => {
                self.state = InstallState::AwaitRootList;
                InstallOutput {
                    status: Some("Patching..".to_owned()),
                    signal: Some(RunSignal::Running),
                    progress: None,
                    action: InstallAction::ListDir { path: self.cfg.path.clone() },
                }
            },
            (InstallState::AwaitRootList, InstallEvent::Listing { entries }) => {
                let mut subs: Vec<String> = Vec::new();
                let mut i: usize = 0;
                while i < entries.len()
                    invariant
                        self.cfg == old(self).cfg,
                        self.subs == old(self).subs,
                        self.progress == old(self).progress,
                        i <= entries@.len(),
                        subs@.len() == sub_paths_of(
                            old(self).cfg.path@,
                            entries@.subrange(0, i as int),
                        ).len(),
                        forall|k: int|
                            0 <= k < subs@.len() ==> (#[trigger] subs@[k])@ == sub_paths_of(
                                old(self).cfg.path@,
                                entries@.subrange(0, i as int),
                            )[k],
                    decreases entries@.len() - i,
                {
                    proof {
                        assert(entries@.subrange(0, i + 1).drop_last() =~= entries@.subrange(
                            0,
                            i as int,
                        ));
                        assert(entries@.subrange(0, i + 1).last() == entries@[i as int]);
                    }
                    if entries[i].is_dir {
                        let p = path_join(self.cfg.path.as_str(), entries[i].name.as_str());
                        subs.push(p);
                    }
                    i = i + 1;
                }
                proof {
                    assert(entries@.subrange(0, entries@.len() as int) =~= entries@);
                    lemma_sub_paths_nonempty(old(self).cfg.path@, entries@);
                }
                if subs.len() == 0 {
                    self.subs = subs;
                    self.state = InstallState::Done;
                    InstallOutput {
                        status: Some("Idle".to_owned()),
                        signal: Some(RunSignal::DoneOk),
                        progress: None,
                        action: InstallAction::Nothing,
                    }
                } else {
                    let path = path_join(subs[0].as_str(), "Data");
                    self.subs = subs;
                    self.state = InstallState::AwaitAssetList { sub: 0 };
                    InstallOutput {
                        status: None,
                        signal: None,
                        progress: None,
                        action: InstallAction::ListDir { path },
                    }
                }
            },
            (InstallState::AwaitAssetList { sub }, InstallEvent::Listing { entries }) => {
                match find_first_dir(&entries) {
                    Some(i) => {
                        let asset = path_join(self.subs[sub].as_str(), "Data");
                        let locale_dir = path_join(asset.as_str(), entries[i].name.as_str());
                        let listing_path = locale_dir.clone();
                        self.state = InstallState::AwaitLocaleList { sub, locale_dir };
                        InstallOutput {
                            status: None,
                            signal: None,
                            progress: None,
                            action: InstallAction::ListDir { path: listing_path },
                        }
                    },
                    None => self.enter_failed(ErrorKind::FilesystemAccess),
                }
            },
            (InstallState::AwaitLocaleList { sub, locale_dir }, InstallEvent::Listing {
                entries,
            }) => {
                match find_matching_file(&entries, "realmlist") {
                    Some(i) => {
                        let path = path_join(locale_dir.as_str(), entries[i].name.as_str());
                        let content = self.cfg.realmlist.clone();
                        self.state = InstallState::AwaitServerListWrite { sub };
                        InstallOutput {
                            status: None,
                            signal: None,
                            progress: None,
                            action: InstallAction::WriteFile { path, content },
                        }
                    },
                    None => self.enter_failed(ErrorKind::FilesystemAccess),
                }
            },
            (InstallState::AwaitServerListWrite { sub }, InstallEvent::WriteDone) => {
                if self.cfg.files.len() == 0 {
                    self.advance_sub(sub)
                } else {
                    self.enter_file(sub, 0)
                }
            },
            (InstallState::AwaitStream { sub, idx }, InstallEvent::StreamStarted { total }) => {
                self.progress = ProgressState::begin(total);
                let inner = path_join(
                    self.subs[sub].as_str(),
                    self.cfg.files[idx].path.as_str(),
                );
                let path = path_join(inner.as_str(), self.cfg.files[idx].name.as_str());
                self.state = InstallState::Streaming { sub, idx };
                InstallOutput {
                    status: None,
                    signal: None,
                    progress: None,
                    action: InstallAction::CreateFile { path },
                }
            },
            (InstallState::Streaming { sub, idx }, InstallEvent::Chunk { bytes }) => {
                let ghost before = self.progress;
                self.progress.on_chunk(bytes.len());
                let p = self.progress.permille();
                proof {
                    crate::progress::lemma_permille_monotone(
                        before.downloaded,
                        self.progress.downloaded,
                        self.progress.total,
                    );
                }
                self.state = InstallState::Streaming { sub, idx };
                InstallOutput {
                    status: None,
                    signal: None,
                    progress: Some(p),
                    action: InstallAction::AppendChunk { bytes },
                }
            },
            (InstallState::Streaming { sub, idx }, InstallEvent::StreamEnd) => {
                let n = self.cfg.files.len();
                if idx < n - 1 {
                    self.enter_file(sub, idx + 1)
                } else {
                    self.advance_sub(sub)
                }
            },
            (other, InstallEvent::Failure { err }) => {
                let was_running = match other {
                    InstallState::Idle => false,
                    InstallState::Done => false,
                    InstallState::Failed { .. } => false,
                    _ => true,
                };
                if was_running {
                    self.enter_failed(err)
                } else {
                    self.state = other;
                    InstallOutput {
                        status: None,
                        signal: None,
                        progress: None,
                        action: InstallAction::Nothing,
                    }
                }
            },
            (other, _) => {
                self.state = other;
                InstallOutput {
                    status: None,
                    signal: None,
                    progress: None,
                    action: InstallAction::Nothing,
                }
            },
        }
    }
}

impl Updater {
    /// Begins one full install pass: a fresh engine in its idle state.
    pub fn install_patches(&self) -> (r: InstallEngine)
        requires
            self.cfg.wf(),
        ensures
            r.cfg.equiv(self.cfg),
            r.state is Idle,
            r.wf(),
    {
        InstallEngine::new(self.cfg.clone())
    }
}

} // verus!
