use mirror_sync::{
    ask_filter, note_preparation, plan_scan, prepare_dest, reconcile, scan_directory, CopyTask,
    DirEntry, DirTask, EntryKind, FileMeta, FileTime, IoOperation, LogNote, Preparation, ScanPlan,
    Stat, SyncBuilder, SyncLogLevel, SyncPath,
};

fn meta(kind: EntryKind, len: u64) -> FileMeta {
    FileMeta { kind, len, modified: Some(FileTime { secs: 100, nanos: 0 }), created: None }
}

fn entry(name: &str, kind: EntryKind, len: u64) -> Result<DirEntry, String> {
    Ok(DirEntry { name: name.to_string(), stat: Stat::Found(meta(kind, len)) })
}

fn src() -> SyncPath {
    SyncPath::new("S".to_string())
}

fn dest() -> SyncPath {
    SyncPath::new("D".to_string())
}

fn at(dir: SyncPath, name: &str) -> SyncPath {
    dir.child(&name.to_string())
}

fn copy(name: &str, len: u64, dest_len: Option<u64>, replaces_dir: bool) -> IoOperation {
    IoOperation::CopyIfNeeded(CopyTask {
        src: at(src(), name),
        dest: at(dest(), name),
        src_meta: meta(EntryKind::File, len),
        dest_meta: dest_len.map(|len| meta(EntryKind::File, len)),
        replaces_dir,
    })
}

fn note(level: SyncLogLevel, message: &str) -> LogNote {
    LogNote { level, message: message.to_string() }
}

#[test]
fn basic_mirror_plan() {
    let sources = vec![
        entry("banana.txt", EntryKind::File, 2),
        entry("cherry.txt", EntryKind::File, 2),
        entry("grape.txt", EntryKind::File, 2),
        entry("peach.txt", EntryKind::Dir, 0),
    ];
    let dests = vec![
        entry("apple.txt", EntryKind::File, 2),
        entry("cherry.txt", EntryKind::Dir, 0),
        entry("grape.txt", EntryKind::File, 3),
        entry("peach.txt", EntryKind::File, 2),
    ];
    let plan = reconcile(&src(), &dest(), &sources, &vec![], dests);
    assert_eq!(
        plan,
        ScanPlan {
            dirs: vec![DirTask { src: at(src(), "peach.txt"), dest: at(dest(), "peach.txt") }],
            ops: vec![
                copy("banana.txt", 2, None, false),
                copy("cherry.txt", 2, None, true),
                copy("grape.txt", 2, Some(3), false),
                IoOperation::DeleteFile(at(dest(), "apple.txt")),
            ],
            notes: vec![],
        }
    );
}

#[test]
fn filtered_source_is_skipped_and_its_destination_deleted() {
    let sources = vec![
        entry("keep.txt", EntryKind::File, 4),
        entry("skip.wav", EntryKind::File, 9),
        entry("gone.wav", EntryKind::Dir, 0),
    ];
    let dests = vec![entry("skip.wav", EntryKind::File, 3), entry("gone.wav", EntryKind::Dir, 0)];
    let plan = reconcile(&src(), &dest(), &sources, &vec![true, false, false], dests);
    assert_eq!(
        plan,
        ScanPlan {
            dirs: vec![],
            ops: vec![
                copy("keep.txt", 4, None, false),
                IoOperation::DeleteFile(at(dest(), "skip.wav")),
                IoOperation::DeleteTree(at(dest(), "gone.wav")),
            ],
            notes: vec![
                note(SyncLogLevel::Info, "Skipping file S/skip.wav"),
                note(SyncLogLevel::Info, "Skipping file S/gone.wav"),
            ],
        }
    );
}

#[test]
fn missing_verdicts_let_everything_pass() {
    let sources = vec![entry("a", EntryKind::File, 1), entry("b", EntryKind::File, 1)];
    let plan = reconcile(&src(), &dest(), &sources, &vec![false], vec![]);
    assert_eq!(plan.ops, vec![copy("b", 1, None, false)]);
    assert_eq!(plan.notes, vec![note(SyncLogLevel::Info, "Skipping file S/a")]);
}

#[test]
fn directory_in_the_way_of_a_file_is_replaced_by_the_copy() {
    let sources = vec![entry("x", EntryKind::File, 5)];
    let dests = vec![entry("x", EntryKind::Dir, 0)];
    let plan = reconcile(&src(), &dest(), &sources, &vec![], dests);
    assert_eq!(plan.ops, vec![copy("x", 5, None, true)]);
    assert!(plan.dirs.is_empty());
    assert!(plan.notes.is_empty());
}

#[test]
fn file_in_the_way_of_a_directory_is_left_to_the_next_scan() {
    let sources = vec![entry("x", EntryKind::Dir, 0)];
    let dests = vec![entry("x", EntryKind::File, 5)];
    let plan = reconcile(&src(), &dest(), &sources, &vec![], dests);
    assert_eq!(plan.dirs, vec![DirTask { src: at(src(), "x"), dest: at(dest(), "x") }]);
    assert!(plan.ops.is_empty());
}

#[test]
fn special_files_are_skipped_on_both_sides() {
    let sources = vec![entry("link", EntryKind::Other, 0), entry("file", EntryKind::File, 1)];
    let dests = vec![
        entry("link", EntryKind::File, 1),
        entry("file", EntryKind::Other, 0),
        entry("stray", EntryKind::Other, 0),
    ];
    let plan = reconcile(&src(), &dest(), &sources, &vec![], dests);
    assert_eq!(
        plan,
        ScanPlan {
            dirs: vec![],
            ops: vec![],
            notes: vec![
                note(SyncLogLevel::Info, "Skipping file due to symlink at destination: S/file"),
                note(SyncLogLevel::Info, "Skipping special file at destination: D/stray"),
            ],
        }
    );
}

#[test]
fn read_errors_are_logged_and_the_scan_goes_on() {
    let sources = vec![
        Err("bad entry".to_string()),
        Ok(DirEntry { name: "locked".to_string(), stat: Stat::Failed("denied".to_string()) }),
        Ok(DirEntry { name: "vanished".to_string(), stat: Stat::Missing }),
        entry("fine", EntryKind::File, 1),
        entry("blocked", EntryKind::File, 1),
        entry("raced", EntryKind::File, 1),
    ];
    let dests = vec![
        Err("bad dest entry".to_string()),
        Ok(DirEntry { name: "locked".to_string(), stat: Stat::Found(meta(EntryKind::File, 7)) }),
        Ok(DirEntry { name: "blocked".to_string(), stat: Stat::Failed("busy".to_string()) }),
        Ok(DirEntry { name: "raced".to_string(), stat: Stat::Missing }),
        Ok(DirEntry { name: "extra".to_string(), stat: Stat::Failed("io".to_string()) }),
        Ok(DirEntry { name: "ghost".to_string(), stat: Stat::Missing }),
    ];
    let plan = reconcile(&src(), &dest(), &sources, &vec![], dests);
    assert_eq!(
        plan,
        ScanPlan {
            dirs: vec![],
            ops: vec![copy("fine", 1, None, false), copy("raced", 1, None, false)],
            notes: vec![
                note(SyncLogLevel::Error, "Failed to read the name of a file in D: bad dest entry"),
                note(SyncLogLevel::Error, "Failed to read the name of a file in S: bad entry"),
                note(SyncLogLevel::Error, "Failed to read information about S/locked: denied"),
                note(SyncLogLevel::Error, "Failed to read information about S/vanished: not found"),
                note(SyncLogLevel::Error, "Failed to read information about D/blocked: busy"),
                note(SyncLogLevel::Error, "Failed to read information about D/extra: io"),
                note(SyncLogLevel::Error, "Failed to read information about D/ghost: not found"),
            ],
        }
    );
}

#[test]
fn repeated_destination_name_counts_once_and_the_last_wins() {
    let sources = vec![entry("a", EntryKind::File, 1)];
    let dests = vec![
        entry("a", EntryKind::File, 10),
        entry("b", EntryKind::File, 1),
        entry("a", EntryKind::File, 20),
        entry("b", EntryKind::Dir, 0),
    ];
    let plan = reconcile(&src(), &dest(), &sources, &vec![], dests);
    assert_eq!(
        plan.ops,
        vec![copy("a", 1, Some(20), false), IoOperation::DeleteTree(at(dest(), "b"))]
    );
}

#[test]
fn empty_source_deletes_everything_listed() {
    let dests = vec![entry("a", EntryKind::File, 1), entry("d", EntryKind::Dir, 0)];
    let plan = reconcile(&src(), &dest(), &vec![], &vec![], dests);
    assert_eq!(
        plan.ops,
        vec![
            IoOperation::DeleteFile(at(dest(), "a")),
            IoOperation::DeleteTree(at(dest(), "d")),
        ]
    );
    assert_eq!(reconcile(&src(), &dest(), &vec![], &vec![], vec![]), ScanPlan::new());
}

#[test]
fn unreadable_destination_ends_the_scan() {
    let task = DirTask { src: src(), dest: dest() };
    let plan = plan_scan(
        &task,
        Ok(vec![entry("a", EntryKind::File, 1)]),
        &vec![],
        Err("denied".to_string()),
    );
    assert_eq!(
        plan,
        ScanPlan {
            dirs: vec![],
            ops: vec![],
            notes: vec![note(SyncLogLevel::Error, "Failed to get the list of files in D: denied")],
        }
    );
}

#[test]
fn unreadable_source_deletes_nothing() {
    let task = DirTask { src: src(), dest: dest() };
    let plan = plan_scan(
        &task,
        Err("gone".to_string()),
        &vec![],
        Ok(vec![entry("a", EntryKind::File, 1), Err("bad".to_string())]),
    );
    assert_eq!(
        plan,
        ScanPlan {
            dirs: vec![],
            ops: vec![],
            notes: vec![
                note(SyncLogLevel::Error, "Failed to read the name of a file in D: bad"),
                note(SyncLogLevel::Error, "Failed to get the list of files in S: gone"),
            ],
        }
    );
}

#[test]
fn scan_directory_asks_the_filter_about_source_paths() {
    let mut config = SyncBuilder::new();
    config.filter(|path: &SyncPath| path.display() != "S/sub/skip.wav");
    let task = DirTask { src: at(src(), "sub"), dest: at(dest(), "sub") };
    let sources = vec![
        entry("keep.txt", EntryKind::File, 1),
        Err("bad".to_string()),
        entry("skip.wav", EntryKind::File, 1),
    ];
    assert_eq!(ask_filter(&config, &task.src, &sources), vec![true, true, false]);
    assert_eq!(ask_filter(&SyncBuilder::new(), &task.src, &sources), vec![true, true, true]);
    let plan =
        scan_directory(&config, &task, Ok(sources), Ok(vec![entry("skip.wav", EntryKind::File, 3)]));
    assert_eq!(plan.dirs, vec![]);
    assert_eq!(
        plan.ops,
        vec![
            IoOperation::CopyIfNeeded(CopyTask {
                src: at(at(src(), "sub"), "keep.txt"),
                dest: at(at(dest(), "sub"), "keep.txt"),
                src_meta: meta(EntryKind::File, 1),
                dest_meta: None,
                replaces_dir: false,
            }),
            IoOperation::DeleteFile(at(at(dest(), "sub"), "skip.wav")),
        ]
    );
    assert_eq!(
        plan.notes,
        vec![
            note(SyncLogLevel::Error, "Failed to read the name of a file in S/sub: bad"),
            note(SyncLogLevel::Info, "Skipping file S/sub/skip.wav"),
        ]
    );
}

#[test]
fn destination_is_prepared_by_what_stands_there() {
    let dir = dest();
    assert_eq!(
        prepare_dest(&dir, &Stat::Found(meta(EntryKind::Dir, 0))),
        (Preparation::Keep, None)
    );
    assert_eq!(
        prepare_dest(&dir, &Stat::Found(meta(EntryKind::File, 3))),
        (Preparation::Replace, None)
    );
    assert_eq!(
        prepare_dest(&dir, &Stat::Found(meta(EntryKind::Other, 0))),
        (Preparation::Replace, None)
    );
    assert_eq!(prepare_dest(&dir, &Stat::Missing), (Preparation::Create, None));
    assert_eq!(
        prepare_dest(&dir, &Stat::Failed("denied".to_string())),
        (
            Preparation::Keep,
            Some(note(SyncLogLevel::Error, "Failed to read information about D: denied"))
        )
    );
}

#[test]
fn failed_preparation_steps_are_logged() {
    let dir = dest();
    assert_eq!(note_preparation(true, &dir, &Ok(())), None);
    assert_eq!(note_preparation(false, &dir, &Ok(())), None);
    assert_eq!(
        note_preparation(true, &dir, &Err("busy".to_string())),
        Some(note(SyncLogLevel::Error, "Failed to delete file D: busy"))
    );
    assert_eq!(
        note_preparation(false, &dir, &Err("full".to_string())),
        Some(note(SyncLogLevel::Error, "Failed to create directory D: full"))
    );
}
