use std::collections::HashMap;

use launcher_core::channel::RunSignal;
use launcher_core::config::{Configuration, File};
use launcher_core::errors::ErrorKind;
use launcher_core::resolve::DirEntryInfo;
use launcher_core::sync::{SyncAction, SyncEngine, SyncEvent, SyncState, Updater};

/// A simulated install tree and remote server for driving the engine.
struct World {
    /// Directory listings by path.
    dirs: HashMap<String, Vec<(String, bool)>>,
    /// File contents by path.
    files: HashMap<String, Vec<u8>>,
    /// Version tag by URL; `None` simulates a response without the header.
    tags: HashMap<String, Option<String>>,
    /// Full bodies by URL.
    bodies: HashMap<String, Vec<u8>>,
    /// Paths written during the run, in order.
    writes: Vec<String>,
    /// Bodies fetched during the run, in order.
    body_fetches: Vec<String>,
}

impl World {
    fn listing(&self, path: &str) -> Option<Vec<DirEntryInfo>> {
        self.dirs.get(path).map(|es| {
            es.iter()
                .map(|(name, is_dir)| DirEntryInfo {
                    name: name.clone(),
                    is_dir: *is_dir,
                })
                .collect()
        })
    }
}

/// Runs the engine to completion, returning every status line emitted and
/// every run-signal change, in order.
fn drive(engine: &mut SyncEngine, world: &mut World) -> (Vec<String>, Vec<RunSignal>) {
    let mut statuses = Vec::new();
    let mut signals = Vec::new();
    let mut ev = SyncEvent::Start;
    for _ in 0..1000 {
        let out = engine.step(ev);
        if let Some(s) = out.status {
            statuses.push(s);
        }
        if let Some(sg) = out.signal {
            signals.push(sg);
        }
        ev = match out.action {
            SyncAction::ListDir { path } => match world.listing(&path) {
                Some(entries) => SyncEvent::Listing { entries },
                None => SyncEvent::Failure {
                    err: ErrorKind::FilesystemAccess,
                },
            },
            SyncAction::WriteFile { path, content } => {
                world.writes.push(path.clone());
                world.files.insert(path, content.into_bytes());
                SyncEvent::WriteDone
            }
            SyncAction::FetchTag { url } => match world.tags.get(&url) {
                Some(Some(tag)) => SyncEvent::TagFetched { tag: tag.clone() },
                Some(None) => SyncEvent::TagMissing,
                None => SyncEvent::Failure {
                    err: ErrorKind::Transport,
                },
            },
            SyncAction::FetchBody { url } => {
                world.body_fetches.push(url.clone());
                match world.bodies.get(&url) {
                    Some(bytes) => SyncEvent::Body {
                        bytes: bytes.clone(),
                    },
                    None => SyncEvent::Failure {
                        err: ErrorKind::Transport,
                    },
                }
            }
            SyncAction::ReplaceFile { path, bytes } => {
                world.writes.push(path.clone());
                world.files.remove(&path);
                world.files.insert(path, bytes);
                SyncEvent::WriteDone
            }
            SyncAction::Nothing => return (statuses, signals),
        };
    }
    panic!("engine did not terminate");
}

fn scenario_world(tag: Option<&str>) -> World {
    let mut dirs = HashMap::new();
    dirs.insert(
        "root".to_string(),
        vec![
            ("Wow.exe".to_string(), false),
            ("Data".to_string(), true),
        ],
    );
    dirs.insert(
        "root/Data".to_string(),
        vec![("enUS".to_string(), true)],
    );
    dirs.insert(
        "root/Data/enUS".to_string(),
        vec![
            ("other.txt".to_string(), false),
            ("realmlist.wtf".to_string(), false),
        ],
    );
    let mut files = HashMap::new();
    files.insert(
        "root/Data/enUS/realmlist.wtf".to_string(),
        b"set realmlist old.example.com".to_vec(),
    );
    let mut tags = HashMap::new();
    tags.insert(
        "http//x/patch.mpq".to_string(),
        tag.map(|t| t.to_string()),
    );
    let mut bodies = HashMap::new();
    bodies.insert("http//x/patch.mpq".to_string(), b"new patch body".to_vec());
    World {
        dirs,
        files,
        tags,
        bodies,
        writes: Vec::new(),
        body_fetches: Vec::new(),
    }
}

fn scenario_config() -> Configuration {
    Configuration {
        files: vec![File {
            name: "patch.mpq".to_string(),
            path: "Data".to_string(),
            etag: "abc".to_string(),
            url: "http//x/patch.mpq".to_string(),
        }],
        path: "root".to_string(),
        wow: "http//game".to_string(),
        realmlist: "set realmlist example.com".to_string(),
    }
}

#[test]
fn scenario_matching_tag_leaves_file_untouched() {
    let cfg = scenario_config();
    assert!(cfg.is_valid());
    let mut engine = Updater::new(cfg).check();
    let mut world = scenario_world(Some("\"abc\""));
    world.files.insert(
        "root/Data/patch.mpq".to_string(),
        b"current contents".to_vec(),
    );

    let (statuses, signals) = drive(&mut engine, &mut world);

    assert!(matches!(engine.state, SyncState::Done));
    assert_eq!(statuses.last().unwrap(), "Idle");
    assert_eq!(signals, vec![RunSignal::Running, RunSignal::DoneOk]);
    // No body download and no write besides the server-list rewrite.
    assert!(world.body_fetches.is_empty());
    assert_eq!(world.writes, vec!["root/Data/enUS/realmlist.wtf".to_string()]);
    assert_eq!(
        world.files.get("root/Data/patch.mpq").unwrap(),
        b"current contents"
    );
}

#[test]
fn scenario_differing_tag_replaces_file() {
    let cfg = scenario_config();
    let mut engine = Updater::new(cfg).check();
    let mut world = scenario_world(Some("\"def\""));
    world.files.insert(
        "root/Data/patch.mpq".to_string(),
        b"stale contents".to_vec(),
    );

    let (statuses, signals) = drive(&mut engine, &mut world);

    assert!(matches!(engine.state, SyncState::Done));
    assert_eq!(
        statuses,
        vec![
            "Updating".to_string(),
            "Updating file: Data".to_string(),
            "Idle".to_string()
        ]
    );
    assert_eq!(signals, vec![RunSignal::Running, RunSignal::DoneOk]);
    assert_eq!(world.body_fetches, vec!["http//x/patch.mpq".to_string()]);
    // The written file holds exactly the remote body.
    assert_eq!(
        world.files.get("root/Data/patch.mpq").unwrap(),
        b"new patch body"
    );
}

#[test]
fn scenario_missing_local_file_is_still_downloaded() {
    let cfg = scenario_config();
    let mut engine = Updater::new(cfg).check();
    let mut world = scenario_world(Some("\"def\""));
    // No prior root/Data/patch.mpq at all.

    drive(&mut engine, &mut world);

    assert!(matches!(engine.state, SyncState::Done));
    assert_eq!(
        world.files.get("root/Data/patch.mpq").unwrap(),
        b"new patch body"
    );
}

#[test]
fn scenario_missing_asset_dir_fails_without_writes() {
    let cfg = scenario_config();
    let mut engine = Updater::new(cfg).check();
    let mut world = scenario_world(Some("\"abc\""));
    world
        .dirs
        .insert("root".to_string(), vec![("Interface".to_string(), true)]);

    let (statuses, signals) = drive(&mut engine, &mut world);

    match engine.state {
        SyncState::Failed { err } => assert_eq!(err, ErrorKind::FilesystemAccess),
        ref other => panic!("expected failure state, got {:?}", other),
    }
    assert_eq!(statuses.last().unwrap(), "Error: filesystem error");
    assert_eq!(signals, vec![RunSignal::Running, RunSignal::DoneErr]);
    assert!(world.writes.is_empty());
    assert!(world.body_fetches.is_empty());
}

#[test]
fn server_list_is_rewritten_wholesale() {
    let cfg = scenario_config();
    let mut engine = Updater::new(cfg).check();
    let mut world = scenario_world(Some("\"abc\""));

    drive(&mut engine, &mut world);

    // Full truncation: the final content is exactly the connection string,
    // with nothing left over from the longer previous content.
    assert_eq!(
        world.files.get("root/Data/enUS/realmlist.wtf").unwrap(),
        b"set realmlist example.com"
    );
}

#[test]
fn missing_tag_header_counts_as_stale() {
    let cfg = scenario_config();
    let mut engine = Updater::new(cfg).check();
    let mut world = scenario_world(None);

    drive(&mut engine, &mut world);

    assert!(matches!(engine.state, SyncState::Done));
    assert_eq!(world.body_fetches, vec!["http//x/patch.mpq".to_string()]);
    assert_eq!(
        world.files.get("root/Data/patch.mpq").unwrap(),
        b"new patch body"
    );
}

#[test]
fn transport_failure_aborts_the_pass() {
    let cfg = scenario_config();
    let mut engine = Updater::new(cfg).check();
    let mut world = scenario_world(Some("\"def\""));
    world.bodies.clear();

    let (_, signals) = drive(&mut engine, &mut world);

    match engine.state {
        SyncState::Failed { err } => assert_eq!(err, ErrorKind::Transport),
        ref other => panic!("expected failure state, got {:?}", other),
    }
    assert_eq!(signals.last().unwrap(), &RunSignal::DoneErr);
}
