use std::collections::HashMap;

use launcher_core::channel::RunSignal;
use launcher_core::config::{Configuration, File};
use launcher_core::errors::ErrorKind;
use launcher_core::install::{InstallAction, InstallEngine, InstallEvent, InstallState};
use launcher_core::installer::{
    CleanAction, CleanEngine, CleanEvent, CleanState, Installer,
};
use launcher_core::resolve::DirEntryInfo;
use launcher_core::sync::Updater;

fn config() -> Configuration {
    Configuration {
        files: vec![File {
            name: "patch.mpq".to_string(),
            path: "Data".to_string(),
            etag: "abc".to_string(),
            url: "http//x/patch.mpq".to_string(),
        }],
        path: "root".to_string(),
        wow: "http//game.zip".to_string(),
        realmlist: "set realmlist example.com".to_string(),
    }
}

struct InstallWorld {
    dirs: HashMap<String, Vec<(String, bool)>>,
    /// Body chunks by URL.
    streams: HashMap<String, Vec<Vec<u8>>>,
    files: HashMap<String, Vec<u8>>,
    open_file: Option<String>,
    progress_seen: Vec<u16>,
}

impl InstallWorld {
    fn listing(&self, path: &str) -> Option<Vec<DirEntryInfo>> {
        self.dirs.get(path).map(|es| {
            es.iter()
                .map(|(name, is_dir)| DirEntryInfo {
                    name: name.clone(),
                    is_dir: *is_dir,
                })
                .collect()
        })
    }
}

fn drive_install(
    engine: &mut InstallEngine,
    world: &mut InstallWorld,
) -> (Vec<String>, Vec<RunSignal>) {
    let mut statuses = Vec::new();
    let mut signals = Vec::new();
    let mut pending: Vec<Vec<u8>> = Vec::new();
    let mut ev = InstallEvent::Start;
    for _ in 0..10000 {
        let out = engine.step(ev);
        if let Some(s) = out.status {
            statuses.push(s);
        }
        if let Some(sg) = out.signal {
            signals.push(sg);
        }
        if let Some(p) = out.progress {
            world.progress_seen.push(p);
        }
        ev = match out.action {
            InstallAction::ListDir { path } => match world.listing(&path) {
                Some(entries) => InstallEvent::Listing { entries },
                None => InstallEvent::Failure {
                    err: ErrorKind::FilesystemAccess,
                },
            },
            InstallAction::WriteFile { path, content } => {
                world.files.insert(path, content.into_bytes());
                InstallEvent::WriteDone
            }
            InstallAction::OpenStream { url } => match world.streams.get(&url) {
                Some(chunks) => {
                    pending = chunks.clone();
                    pending.reverse();
                    let total: usize = chunks.iter().map(|c| c.len()).sum();
                    InstallEvent::StreamStarted {
                        total: total as u64,
                    }
                }
                None => InstallEvent::Failure {
                    err: ErrorKind::Transport,
                },
            },
            InstallAction::CreateFile { path } => {
                world.files.insert(path.clone(), Vec::new());
                world.open_file = Some(path);
                match pending.pop() {
                    Some(bytes) => InstallEvent::Chunk { bytes },
                    None => InstallEvent::StreamEnd,
                }
            }
            InstallAction::AppendChunk { bytes } => {
                let path = world.open_file.clone().unwrap();
                world.files.get_mut(&path).unwrap().extend_from_slice(&bytes);
                match pending.pop() {
                    Some(next) => InstallEvent::Chunk { bytes: next },
                    None => InstallEvent::StreamEnd,
                }
            }
            InstallAction::Nothing => return (statuses, signals),
        };
    }
    panic!("engine did not terminate");
}

fn install_world() -> InstallWorld {
    let mut dirs = HashMap::new();
    dirs.insert(
        "root".to_string(),
        vec![
            ("notes.txt".to_string(), false),
            ("wow-a".to_string(), true),
            ("wow-b".to_string(), true),
        ],
    );
    for sub in ["root/wow-a", "root/wow-b"] {
        dirs.insert(format!("{}/Data", sub), vec![("deDE".to_string(), true)]);
        dirs.insert(
            format!("{}/Data/deDE", sub),
            vec![("realmlist.wtf".to_string(), false)],
        );
    }
    let mut streams = HashMap::new();
    streams.insert(
        "http//x/patch.mpq".to_string(),
        vec![b"abcd".to_vec(), b"efgh".to_vec(), b"ij".to_vec()],
    );
    InstallWorld {
        dirs,
        streams,
        files: HashMap::new(),
        open_file: None,
        progress_seen: Vec::new(),
    }
}

#[test]
fn full_install_patches_every_sub_installation() {
    let cfg = config();
    let mut engine = Updater::new(cfg).install_patches();
    let mut world = install_world();

    let (statuses, signals) = drive_install(&mut engine, &mut world);

    assert!(matches!(engine.state, InstallState::Done));
    assert_eq!(statuses.first().unwrap(), "Patching..");
    assert_eq!(statuses.last().unwrap(), "Idle");
    assert_eq!(signals, vec![RunSignal::Running, RunSignal::DoneOk]);
    // Both sub-installations got the server list and the patch file.
    for sub in ["root/wow-a", "root/wow-b"] {
        assert_eq!(
            world.files.get(&format!("{}/Data/deDE/realmlist.wtf", sub)).unwrap(),
            b"set realmlist example.com"
        );
        assert_eq!(
            world.files.get(&format!("{}/Data/patch.mpq", sub)).unwrap(),
            b"abcdefghij"
        );
    }
}

#[test]
fn full_install_progress_is_monotone_and_reaches_full() {
    let cfg = config();
    let mut engine = Updater::new(cfg).install_patches();
    let mut world = install_world();

    drive_install(&mut engine, &mut world);

    // Per file: 4/10, 8/10, 10/10 of 1000 — repeated for each
    // sub-installation, resetting between files.
    assert_eq!(world.progress_seen, vec![400, 800, 1000, 400, 800, 1000]);
}

#[test]
fn full_install_without_sub_installations_finishes_clean() {
    let cfg = config();
    let mut engine = Updater::new(cfg).install_patches();
    let mut world = install_world();
    world
        .dirs
        .insert("root".to_string(), vec![("notes.txt".to_string(), false)]);

    let (statuses, signals) = drive_install(&mut engine, &mut world);

    assert!(matches!(engine.state, InstallState::Done));
    assert_eq!(statuses.last().unwrap(), "Idle");
    assert_eq!(signals, vec![RunSignal::Running, RunSignal::DoneOk]);
    assert!(world.files.is_empty());
}

#[test]
fn full_install_missing_locale_fails() {
    let cfg = config();
    let mut engine = Updater::new(cfg).install_patches();
    let mut world = install_world();
    world.dirs.insert("root/wow-a/Data".to_string(), vec![]);

    let (_, signals) = drive_install(&mut engine, &mut world);

    match engine.state {
        InstallState::Failed { err } => assert_eq!(err, ErrorKind::FilesystemAccess),
        ref other => panic!("expected failure state, got {:?}", other),
    }
    assert_eq!(signals.last().unwrap(), &RunSignal::DoneErr);
}

#[test]
fn clean_install_downloads_and_unpacks() {
    let cfg = config();
    let installer = Installer::new(cfg);
    let mut engine = installer.clean_install();

    // Simulated archive: a directory entry and two file entries.
    let archive = vec![
        ("Data/".to_string(), true),
        ("Data/common.mpq".to_string(), false),
        ("Wow.exe".to_string(), false),
    ];
    let chunks = vec![b"zipp".to_vec(), b"ed".to_vec()];

    let mut statuses = Vec::new();
    let mut extracted = Vec::new();
    let mut scratch: Vec<u8> = Vec::new();
    let mut progress_seen = Vec::new();
    let mut pending = chunks.clone();
    pending.reverse();
    let mut ev = CleanEvent::Start;
    loop {
        let out = engine.step(ev);
        if let Some(s) = out.status {
            statuses.push(s);
        }
        if let Some(p) = out.progress {
            progress_seen.push(p);
        }
        ev = match out.action {
            CleanAction::EnsureDir { path } => {
                assert_eq!(path, "root");
                CleanEvent::WriteDone
            }
            CleanAction::OpenStream { url } => {
                assert_eq!(url, "http//game.zip");
                CleanEvent::StreamStarted { total: 6 }
            }
            CleanAction::CreateFile { path } => {
                assert_eq!(path, "game.zip");
                match pending.pop() {
                    Some(bytes) => CleanEvent::Chunk { bytes },
                    None => CleanEvent::StreamEnd,
                }
            }
            CleanAction::AppendChunk { bytes } => {
                scratch.extend_from_slice(&bytes);
                match pending.pop() {
                    Some(next) => CleanEvent::Chunk { bytes: next },
                    None => CleanEvent::StreamEnd,
                }
            }
            CleanAction::OpenArchive { path } => {
                assert_eq!(path, "game.zip");
                CleanEvent::ArchiveOpened {
                    count: archive.len(),
                }
            }
            CleanAction::QueryEntry { idx } => {
                let (name, is_dir) = &archive[idx];
                CleanEvent::EntryMeta {
                    name: name.clone(),
                    is_dir: *is_dir,
                }
            }
            CleanAction::ExtractEntry { dest, is_dir } => {
                extracted.push((dest, is_dir));
                CleanEvent::WriteDone
            }
            CleanAction::StartSync => break,
            CleanAction::Nothing => break,
        };
    }

    assert!(matches!(engine.state, CleanState::Done));
    assert_eq!(scratch, b"zipped");
    assert_eq!(progress_seen, vec![666, 1000]);
    assert_eq!(
        statuses,
        vec![
            "Downloading game files...".to_string(),
            "Installing game files...".to_string(),
            "Starting Updater...".to_string()
        ]
    );
    assert_eq!(
        extracted,
        vec![
            ("root/Data/".to_string(), true),
            ("root/Data/common.mpq".to_string(), false),
            ("root/Wow.exe".to_string(), false)
        ]
    );
}
