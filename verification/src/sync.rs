//! Sync engine: one incremental "check/update" pass.
//!
//! The engine is a state machine. The caller performs the returned action
//! (a directory listing, an HTTP fetch, a file write), feeds the outcome
//! back as the next event, and forwards the emitted status, run-signal and
//! progress values to the observer. The pass rewrites the server-list file,
//! then walks the manifest in order: for each entry it fetches the remote
//! version tag and replaces the local file only on mismatch; a matching tag
//! causes no write and no body download. A response that carries no version
//! tag is not an error: the entry is treated as unconditionally stale and
//! replaced, so a tagless server still updates. Any failure aborts the
//! whole pass.
//!
//! Files are written to `<root>/<path>/<name>` for an entry `{name, path}`;
//! both engines use this one convention.

use vstd::prelude::*;

verus! {

use crate::channel::RunSignal;
use crate::config::{Configuration, File};
use crate::errors::ErrorKind;
use crate::resolve::{
    find_first_dir, find_matching_file, find_named_dir, is_match_file, is_named_dir, DirEntryInfo,
};
use crate::text::{path_join, strip_outer, strip_surrounding};

/// Fixed name of the asset directory under an install root.
pub open spec fn asset_dir_name() -> Seq<char> {
    "Data"@
}

/// Substring that identifies the server-list file inside the locale folder.
pub open spec fn server_list_pat() -> Seq<char> {
    "realmlist"@
}

/// A fetched tag matches the stored one when, after stripping surrounding
/// quote characters from the fetched value, the two are equal.
pub open spec fn tag_matches(fetched: Seq<char>, expected: Seq<char>) -> bool {
    strip_outer(fetched, '"') == expected
}

/// Staleness decision for one manifest entry: stale exactly when the
/// normalized fetched tag differs from the stored tag.
pub fn is_stale(fetched: &str, expected: &String) -> (r: bool)
    ensures
        r == !tag_matches(fetched@, expected@),
{
    let n = strip_surrounding(fetched, '"');
    !(n == *expected)
}

/// Install target of a manifest entry under a given root directory.
pub open spec fn entry_target(root: Seq<char>, f: File) -> Seq<char> {
    root + "/"@ + f.path@ + "/"@ + f.name@
}

/// Where the sync pass stands.
#[derive(Debug)]
pub enum SyncState {
    /// Not started.
    Idle,
    /// Asked for the listing of the install root.
    AwaitRootList,
    /// Asked for the listing of the asset directory.
    AwaitAssetList,
    /// Asked for the listing of the locale directory at this path.
    AwaitLocaleList { locale_dir: String },
    /// Asked for the server-list file to be overwritten.
    AwaitServerListWrite,
    /// Asked for the remote version tag of entry `idx`.
    AwaitTag { idx: usize },
    /// Asked for the full body of stale entry `idx`.
    AwaitBody { idx: usize },
    /// Asked for the replacement of entry `idx` on disk.
    AwaitFileWrite { idx: usize },
    /// Finished successfully.
    Done,
    /// Stopped on an error.
    Failed { err: ErrorKind },
}

/// What the caller reports back to the engine.
#[derive(Debug)]
pub enum SyncEvent {
    /// Begin the pass.
    Start,
    /// The requested directory listing.
    Listing { entries: Vec<DirEntryInfo> },
    /// The requested file write completed.
    WriteDone,
    /// The version-tag header of the current entry.
    TagFetched { tag: String },
    /// The response carried no version-tag header.
    TagMissing,
    /// The full body of the current entry.
    Body { bytes: Vec<u8> },
    /// The requested action failed.
    Failure { err: ErrorKind },
}

/// What the caller must do next.
#[derive(Debug)]
pub enum SyncAction {
    /// List the directory at `path` and report a `Listing` event.
    ListDir { path: String },
    /// Truncate the file at `path` and write exactly `content`.
    WriteFile { path: String, content: String },
    /// Fetch the version-tag header for `url` without transferring the body.
    FetchTag { url: String },
    /// Fetch the full body at `url`.
    FetchBody { url: String },
    /// Delete the file at `path` if present, then create it with exactly
    /// `bytes` as content.
    ReplaceFile { path: String, bytes: Vec<u8> },
    /// Nothing to do; the pass is over or the event was ignored.
    Nothing,
}

/// One step's result: optional status line and run signal for the observer,
/// and the next action for the caller.
#[derive(Debug)]
pub struct SyncOutput {
    /// Status line to publish, if any.
    pub status: Option<String>,
    /// Run-signal change to publish, if any.
    pub signal: Option<RunSignal>,
    /// Next action for the caller.
    pub action: SyncAction,
}

/// The action performs no filesystem write.
pub open spec fn writes_nothing(a: SyncAction) -> bool {
    !(a is WriteFile) && !(a is ReplaceFile)
}

/// The sync state machine.
pub struct SyncEngine {
    /// Manifest, install root and connection string for this pass.
    pub cfg: Configuration,
    /// Current state.
    pub state: SyncState,
}

/// Outcome of leaving entry `i`: the engine either asks for the next
/// entry's tag or finishes the pass with an "Idle" status and a success
/// signal. In particular it performs no write for entry `i` itself.
pub open spec fn advanced_from(pre: SyncEngine, post: SyncEngine, out: SyncOutput, i: int) -> bool {
    if i + 1 < pre.cfg.files@.len() {
        &&& (post.state matches SyncState::AwaitTag { idx } && idx == i + 1)
        &&& (out.action matches SyncAction::FetchTag { url } && url@ == pre.cfg.files@[i
            + 1].url@)
        &&& out.status is None
        &&& out.signal is None
    } else {
        done_outcome(post, out)
    }
}

/// Successful completion: terminal state, "Idle" status, success signal.
pub open spec fn done_outcome(post: SyncEngine, out: SyncOutput) -> bool {
    &&& post.state is Done
    &&& out.action is Nothing
    &&& (out.status matches Some(s) && s@ == "Idle"@)
    &&& out.signal == Some(RunSignal::DoneOk)
}

/// Aborted run: terminal failure state carrying `err`, an error status
/// line, a failure signal, and no further action.
pub open spec fn failure_outcome(post: SyncEngine, out: SyncOutput, err: ErrorKind) -> bool {
    &&& (post.state matches SyncState::Failed { err: e } && e == err)
    &&& out.action is Nothing
    &&& (out.status matches Some(s) && s@ == "Error: "@ + err_text(err))
    &&& out.signal == Some(RunSignal::DoneErr)
}

/// Status text of each error kind.
pub open spec fn err_text(err: ErrorKind) -> Seq<char> {
    match err {
        ErrorKind::Transport => "transport error"@,
        ErrorKind::ProtocolStatus => "protocol error"@,
        ErrorKind::FilesystemAccess => "filesystem error"@,
        ErrorKind::MalformedManifestEntry => "malformed manifest entry"@,
    }
}

/// Entry `i` was found stale: the engine announces the entry, asks for its
/// body, and touches nothing on disk yet.
pub open spec fn stale_outcome(pre: SyncEngine, post: SyncEngine, out: SyncOutput, i: int) -> bool {
    &&& (post.state matches SyncState::AwaitBody { idx } && idx == i)
    &&& (out.action matches SyncAction::FetchBody { url } && url@ == pre.cfg.files@[i].url@)
    &&& (out.status matches Some(s) && s@ == "Updating file: "@ + pre.cfg.files@[i].path@)
    &&& out.signal is None
}

/// The machine is mid-run (a failure event is meaningful).
pub open spec fn running(st: SyncState) -> bool {
    !(st is Idle) && !(st is Done) && !(st is Failed)
}

/// The event answers what the current state asked for.
pub open spec fn fits(st: SyncState, ev: SyncEvent) -> bool {
    ||| (st is Idle && ev is Start)
    ||| (st is AwaitRootList && ev is Listing)
    ||| (st is AwaitAssetList && ev is Listing)
    ||| (st is AwaitLocaleList && ev is Listing)
    ||| (st is AwaitServerListWrite && ev is WriteDone)
    ||| (st is AwaitTag && (ev is TagFetched || ev is TagMissing))
    ||| (st is AwaitBody && ev is Body)
    ||| (st is AwaitFileWrite && ev is WriteDone)
    ||| (running(st) && ev is Failure)
}

impl SyncEngine {
    /// Indices in the state stay inside the manifest, and the manifest is
    /// well-formed.
    pub open spec fn wf(self) -> bool {
        &&& self.cfg.wf()
        &&& (self.state matches SyncState::AwaitTag { idx } ==> idx < self.cfg.files@.len())
        &&& (self.state matches SyncState::AwaitBody { idx } ==> idx < self.cfg.files@.len())
        &&& (self.state matches SyncState::AwaitFileWrite { idx } ==> idx
            < self.cfg.files@.len())
    }

    /// A fresh, not yet started engine for one pass over `cfg`.
    pub fn new(cfg: Configuration) -> (r: SyncEngine)
        requires
            cfg.wf(),
        ensures
            r.cfg == cfg,
            r.state is Idle,
            r.wf(),
    {
        SyncEngine { cfg, state: SyncState::Idle }
    }

    /// The pass reached a terminal state.
    pub fn is_finished(&self) -> (r: bool)
        ensures
            r == (self.state is Done || self.state is Failed),
    {
        match self.state {
            SyncState::Done => true,
            SyncState::Failed { .. } => true,
            _ => false,
        }
    }

    /// Leaves entry `i` behind: requests the next entry's tag, or ends the
    /// pass when `i` was the last entry.
    fn advance_entry(&mut self, i: usize) -> (out: SyncOutput)
        requires
            i < old(self).cfg.files@.len(),
        ensures
            final(self).cfg == old(self).cfg,
            advanced_from(*old(self), *final(self), out, i as int),
            old(self).wf() ==> final(self).wf(),
    {
        let n = self.cfg.files.len();
        if i < n - 1 {
            self.state = SyncState::AwaitTag { idx: i + 1 };
            SyncOutput {
                status: None,
                signal: None,
                action: SyncAction::FetchTag { url: self.cfg.files[i + 1].url.clone() },
            }
        } else {
            self.state = SyncState::Done;
            SyncOutput {
                status: Some("Idle".to_owned()),
                signal: Some(RunSignal::DoneOk),
                action: SyncAction::Nothing,
            }
        }
    }

    /// Marks entry `i` stale and asks for its body.
    fn enter_stale(&mut self, i: usize) -> (out: SyncOutput)
        requires
            i < old(self).cfg.files@.len(),
        ensures
            final(self).cfg == old(self).cfg,
            stale_outcome(*old(self), *final(self), out, i as int),
            old(self).wf() ==> final(self).wf(),
    {
        let status = "Updating file: ".to_owned().concat(self.cfg.files[i].path.as_str());
        let url = self.cfg.files[i].url.clone();
        self.state = SyncState::AwaitBody { idx: i };
        SyncOutput { status: Some(status), signal: None, action: SyncAction::FetchBody { url } }
    }

    /// Enters the terminal failure state for `err`.
    fn enter_failed(&mut self, err: ErrorKind) -> (out: SyncOutput)
        ensures
            final(self).cfg == old(self).cfg,
            failure_outcome(*final(self), out, err),
            old(self).wf() ==> final(self).wf(),
    {
        let status = "Error: ".to_owned().concat(err.describe());
        self.state = SyncState::Failed { err };
        SyncOutput {
            status: Some(status),
            signal: Some(RunSignal::DoneErr),
            action: SyncAction::Nothing,
        }
    }

    /// One transition of the machine. The event must answer the pending
    /// action; an event that does not fit the current state is ignored.
    pub fn step(&mut self, ev: SyncEvent) -> (out: SyncOutput)
        requires
            old(self).wf(),
        ensures
            final(self).wf(),
            final(self).cfg == old(self).cfg,
            // Starting: announce the run and ask for the root listing.
            (old(self).state is Idle && ev is Start) ==> {
                &&& final(self).state is AwaitRootList
                &&& (out.action matches SyncAction::ListDir { path } && path@ == old(
                    self,
                ).cfg.path@)
                &&& (out.status matches Some(s) && s@ == "Updating"@)
                &&& out.signal == Some(RunSignal::Running)
            },
            // Root listing: find the asset directory by its fixed name, or
            // abort without touching any file.
            ev matches SyncEvent::Listing { entries } ==> old(self).state is AwaitRootList
                ==> {
                if exists|j: int|
                    0 <= j < entries@.len() && is_named_dir(#[trigger] entries@[j], asset_dir_name()) {
                    &&& final(self).state is AwaitAssetList
                    &&& (out.action matches SyncAction::ListDir { path } && path@ == old(
                        self,
                    ).cfg.path@ + "/"@ + asset_dir_name())
                    &&& out.status is None
                    &&& out.signal is None
                    &&& writes_nothing(out.action)
                } else {
                    failure_outcome(*final(self), out, ErrorKind::FilesystemAccess)
                }
            },
            // Asset listing: the locale folder is the first directory entry.
            ev matches SyncEvent::Listing { entries } ==> old(self).state is AwaitAssetList
                ==> {
                if exists|j: int| 0 <= j < entries@.len() && (#[trigger] entries@[j]).is_dir {
                    exists|i: int|
                        {
                            &&& 0 <= i < entries@.len()
                            &&& (#[trigger] entries@[i]).is_dir
                            &&& forall|j: int| 0 <= j < i ==> !(#[trigger] entries@[j]).is_dir
                            &&& (final(self).state matches SyncState::AwaitLocaleList {
                                locale_dir,
                            } && locale_dir@ == old(self).cfg.path@ + "/"@ + asset_dir_name()
                                + "/"@ + entries@[i].name@)
                            &&& (out.action matches SyncAction::ListDir { path } && path@ == old(
                                self,
                            ).cfg.path@ + "/"@ + asset_dir_name() + "/"@ + entries@[i].name@)
                        }
                } else {
                    failure_outcome(*final(self), out, ErrorKind::FilesystemAccess)
                }
            },
            // Locale listing: the server-list file is the first entry whose
            // name holds the fixed substring; rewrite it wholesale with the
            // configured connection string.
            old(self).state matches SyncState::AwaitLocaleList { locale_dir }
                ==> ev matches SyncEvent::Listing { entries } ==> {
                if exists|j: int|
                    0 <= j < entries@.len() && is_match_file(#[trigger] entries@[j], server_list_pat()) {
                    exists|i: int|
                        {
                            &&& 0 <= i < entries@.len()
                            &&& is_match_file(#[trigger] entries@[i], server_list_pat())
                            &&& forall|j: int|
                                0 <= j < i ==> !is_match_file(
                                    #[trigger] entries@[j],
                                    server_list_pat(),
                                )
                            &&& final(self).state is AwaitServerListWrite
                            &&& (out.action matches SyncAction::WriteFile { path, content } && path@
                                == locale_dir@ + "/"@ + entries@[i].name@ && content@ == old(
                                self,
                            ).cfg.realmlist@)
                        }
                } else {
                    failure_outcome(*final(self), out, ErrorKind::FilesystemAccess)
                }
            },
            // Server list written: begin the per-entry walk, or finish at
            // once on an empty manifest.
            (old(self).state is AwaitServerListWrite && ev is WriteDone) ==> {
                if old(self).cfg.files@.len() == 0 {
                    done_outcome(*final(self), out)
                } else {
                    &&& (final(self).state matches SyncState::AwaitTag { idx } && idx == 0)
                    &&& (out.action matches SyncAction::FetchTag { url } && url@ == old(
                        self,
                    ).cfg.files@[0].url@)
                    &&& out.status is None
                    &&& out.signal is None
                }
            },
            // Tag fetched: a matching tag skips the entry — no write, no
            // body download; a differing tag makes the entry stale.
            old(self).state matches SyncState::AwaitTag { idx }
                ==> ev matches SyncEvent::TagFetched { tag } ==> {
                if tag_matches(tag@, old(self).cfg.files@[idx as int].etag@) {
                    &&& advanced_from(*old(self), *final(self), out, idx as int)
                    &&& writes_nothing(out.action)
                    &&& !(out.action is FetchBody)
                } else {
                    stale_outcome(*old(self), *final(self), out, idx as int)
                }
            },
            // A response without a version tag counts as unconditionally
            // stale.
            old(self).state matches SyncState::AwaitTag { idx } ==> ev is TagMissing
                ==> stale_outcome(*old(self), *final(self), out, idx as int),
            // Body received: replace the file at the entry's target path
            // with exactly the received bytes.
            old(self).state matches SyncState::AwaitBody { idx }
                ==> ev matches SyncEvent::Body { bytes } ==> {
                &&& (final(self).state matches SyncState::AwaitFileWrite { idx: j } && j == idx)
                &&& (out.action matches SyncAction::ReplaceFile { path, bytes: b } && path@
                    == entry_target(old(self).cfg.path@, old(self).cfg.files@[idx as int]) && b@
                    == bytes@)
                &&& out.status is None
                &&& out.signal is None
            },
            // Replacement written: move on.
            old(self).state matches SyncState::AwaitFileWrite { idx } ==> ev is WriteDone
                ==> advanced_from(*old(self), *final(self), out, idx as int),
            // Any failure mid-run aborts the whole pass.
            ev matches SyncEvent::Failure { err } ==> running(old(self).state)
                ==> failure_outcome(*final(self), out, err),
            // An event that does not fit is ignored.
            !fits(old(self).state, ev) ==> {
                &&& *final(self) == *old(self)
                &&& out.action is Nothing
                &&& out.status is None
                &&& out.signal is None
            },
    {
        let mut st = SyncState::Idle;
        core::mem::swap(&mut st, &mut self.state);
        match (st, ev) {
            (SyncState::Idle, SyncEvent::Start) => {
                self.state = SyncState::AwaitRootList;
                SyncOutput {
                    status: Some("Updating".to_owned()),
                    signal: Some(RunSignal::Running),
                    action: SyncAction::ListDir { path: self.cfg.path.clone() },
                }
            },
            (SyncState::AwaitRootList, SyncEvent::Listing { entries }) => {
                match find_named_dir(&entries, "Data") {
                    Some(_) => {
                        self.state = SyncState::AwaitAssetList;
                        SyncOutput {
                            status: None,
                            signal: None,
                            action: SyncAction::ListDir {
                                path: path_join(self.cfg.path.as_str(), "Data"),
                            },
                        }
                    },
                    None => self.enter_failed(ErrorKind::FilesystemAccess),
                }
            },
            (SyncState::AwaitAssetList, SyncEvent::Listing { entries }) => {
                match find_first_dir(&entries) {
                    Some(i) => {
                        let asset = path_join(self.cfg.path.as_str(), "Data");
                        let locale_dir = path_join(asset.as_str(), entries[i].name.as_str());
                        let listing_path = locale_dir.clone();
                        self.state = SyncState::AwaitLocaleList { locale_dir };
                        SyncOutput {
                            status: None,
                            signal: None,
                            action: SyncAction::ListDir { path: listing_path },
                        }
                    },
                    None => self.enter_failed(ErrorKind::FilesystemAccess),
                }
            },
            (SyncState::AwaitLocaleList { locale_dir }, SyncEvent::Listing { entries }) => {
                match find_matching_file(&entries, "realmlist") {
                    Some(i) => {
                        let path = path_join(locale_dir.as_str(), entries[i].name.as_str());
                        let content = self.cfg.realmlist.clone();
                        self.state = SyncState::AwaitServerListWrite;
                        SyncOutput {
                            status: None,
                            signal: None,
                            action: SyncAction::WriteFile { path, content },
                        }
                    },
                    None => self.enter_failed(ErrorKind::FilesystemAccess),
                }
            },
            (SyncState::AwaitServerListWrite, SyncEvent::WriteDone) => {
                if self.cfg.files.len() == 0 {
                    self.state = SyncState::Done;
                    SyncOutput {
                        status: Some("Idle".to_owned()),
                        signal: Some(RunSignal::DoneOk),
                        action: SyncAction::Nothing,
                    }
                } else {
                    self.state = SyncState::AwaitTag { idx: 0 };
                    SyncOutput {
                        status: None,
                        signal: None,
                        action: SyncAction::FetchTag { url: self.cfg.files[0].url.clone() },
                    }
                }
            },
            (SyncState::AwaitTag { idx }, SyncEvent::TagFetched { tag }) => {
                if is_stale(tag.as_str(), &self.cfg.files[idx].etag) {
                    self.enter_stale(idx)
                } else {
                    self.advance_entry(idx)
                }
            },
            (SyncState::AwaitTag { idx }, SyncEvent::TagMissing) => self.enter_stale(idx),
            (SyncState::AwaitBody { idx }, SyncEvent::Body { bytes }) => {
                let inner = path_join(self.cfg.path.as_str(), self.cfg.files[idx].path.as_str());
                let path = path_join(inner.as_str(), self.cfg.files[idx].name.as_str());
                self.state = SyncState::AwaitFileWrite { idx };
                SyncOutput {
                    status: None,
                    signal: None,
                    action: SyncAction::ReplaceFile { path, bytes },
                }
            },
            (SyncState::AwaitFileWrite { idx }, SyncEvent::WriteDone) => self.advance_entry(idx),
            (other, SyncEvent::Failure { err }) => {
                let was_running = match other {
                    SyncState::Idle => false,
                    SyncState::Done => false,
                    SyncState::Failed { .. } => false,
                    _ => true,
                };
                if was_running {
                    self.enter_failed(err)
                } else {
                    self.state = other;
                    SyncOutput { status: None, signal: None, action: SyncAction::Nothing }
                }
            },
            (other, _) => {
                self.state = other;
                SyncOutput { status: None, signal: None, action: SyncAction::Nothing }
            },
        }
    }
}

/// Entry point kept thin: holds the configuration and hands out a fresh
/// sync engine per pass.
pub struct Updater {
    /// Configuration of this updater.
    pub cfg: Configuration,
}

impl Updater {
    /// An updater over a well-formed configuration.
    pub fn new(cfg: Configuration) -> (r: Self)
        requires
            cfg.wf(),
        ensures
            r.cfg == cfg,
    {
        Updater { cfg }
    }

    /// Begins one check/update pass: a fresh engine in its idle state.
    pub fn check(&self) -> (r: SyncEngine)
        requires
            self.cfg.wf(),
        ensures
            r.cfg.equiv(self.cfg),
            r.state is Idle,
            r.wf(),
    {
        SyncEngine::new(self.cfg.clone())
    }
}

} // verus!
