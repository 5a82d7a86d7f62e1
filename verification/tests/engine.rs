use std::collections::BTreeMap;
use std::sync::Mutex;

use mirror_sync::{
    note_preparation, note_removal, prepare_dest, reason_after_probe, scan_directory,
    should_copy_file, Copier, CopyStage, CopyTask, DirEntry, DirTask, EntryKind, FileMeta, FileTime,
    Gate, IoOperation, Job, LogNote, Preparation, Probe, ProbeAction, ProbeVerdict, Side, Stat,
    SyncBuilder, SyncLogEntry, SyncLogLevel, SyncOperation, SyncPath,
};

/// A file system held in memory: each root is a tree of files, directories
/// and links.
#[derive(Clone, Debug, PartialEq)]
enum Node {
    File { bytes: Vec<u8>, modified: i64 },
    Dir(BTreeMap<String, Node>),
    Link,
}

struct MemFs {
    roots: Mutex<(BTreeMap<String, Node>, i64)>,
}

fn find<'a>(roots: &'a BTreeMap<String, Node>, path: &SyncPath) -> Option<&'a Node> {
    let mut node = roots.get(&path.root)?;
    for part in &path.parts {
        match node {
            Node::Dir(children) => node = children.get(part)?,
            _ => return None,
        }
    }
    Some(node)
}

fn parent_of<'a>(
    roots: &'a mut BTreeMap<String, Node>,
    path: &SyncPath,
) -> Result<(&'a mut BTreeMap<String, Node>, String), String> {
    let (name, above) = match path.parts.split_last() {
        Some(split) => split,
        None => return Ok((roots, path.root.clone())),
    };
    let mut node = roots.get_mut(&path.root).ok_or("no such root")?;
    for part in above {
        node = match node {
            Node::Dir(children) => children.get_mut(part).ok_or("no such directory")?,
            _ => return Err("not a directory".to_string()),
        };
    }
    match node {
        Node::Dir(children) => Ok((children, name.clone())),
        _ => Err("not a directory".to_string()),
    }
}

fn stat_of(node: Option<&Node>) -> Stat {
    let time = |secs: i64| Some(FileTime { secs, nanos: 0 });
    match node {
        None => Stat::Missing,
        Some(Node::File { bytes, modified }) => Stat::Found(FileMeta {
            kind: EntryKind::File,
            len: bytes.len() as u64,
            modified: time(*modified),
            created: time(*modified),
        }),
        Some(Node::Dir(_)) => Stat::Found(FileMeta {
            kind: EntryKind::Dir,
            len: 0,
            modified: time(0),
            created: time(0),
        }),
        Some(Node::Link) => Stat::Found(FileMeta {
            kind: EntryKind::Other,
            len: 0,
            modified: time(0),
            created: time(0),
        }),
    }
}

impl MemFs {
    fn new(src: Node, dest: Option<Node>) -> MemFs {
        let mut roots = BTreeMap::new();
        roots.insert("src".to_string(), src);
        if let Some(dest) = dest {
            roots.insert("dest".to_string(), dest);
        }
        MemFs { roots: Mutex::new((roots, 1000)) }
    }

    fn root(&self, name: &str) -> Option<Node> {
        self.roots.lock().unwrap().0.get(name).cloned()
    }

    fn stat(&self, path: &SyncPath) -> Stat {
        stat_of(find(&self.roots.lock().unwrap().0, path))
    }

    fn list(&self, path: &SyncPath) -> Result<Vec<Result<DirEntry, String>>, String> {
        match find(&self.roots.lock().unwrap().0, path) {
            Some(Node::Dir(children)) => Ok(children
                .iter()
                .map(|(name, node)| Ok(DirEntry { name: name.clone(), stat: stat_of(Some(node)) }))
                .collect()),
            Some(_) => Err("not a directory".to_string()),
            None => Err("not found".to_string()),
        }
    }

    fn bytes(&self, path: &SyncPath) -> Result<Vec<u8>, String> {
        match find(&self.roots.lock().unwrap().0, path) {
            Some(Node::File { bytes, .. }) => Ok(bytes.clone()),
            Some(_) => Err("not a file".to_string()),
            None => Err("not found".to_string()),
        }
    }

    fn remove(&self, path: &SyncPath, tree: bool) -> Result<(), String> {
        let mut guard = self.roots.lock().unwrap();
        let (children, name) = parent_of(&mut guard.0, path)?;
        match children.get(&name) {
            None => Err("not found".to_string()),
            Some(Node::Dir(_)) if !tree => Err("is a directory".to_string()),
            Some(Node::File { .. }) | Some(Node::Link) if tree => Err("not a directory".to_string()),
            Some(_) => {
                children.remove(&name);
                Ok(())
            }
        }
    }

    fn create_dir(&self, path: &SyncPath) -> Result<(), String> {
        let mut guard = self.roots.lock().unwrap();
        let (children, name) = parent_of(&mut guard.0, path)?;
        if children.contains_key(&name) {
            return Err("exists".to_string());
        }
        children.insert(name, Node::Dir(BTreeMap::new()));
        Ok(())
    }

    fn write(&self, path: &SyncPath, bytes: Vec<u8>) -> Result<(), String> {
        let mut guard = self.roots.lock().unwrap();
        guard.1 += 1;
        let modified = guard.1;
        let (children, name) = parent_of(&mut guard.0, path)?;
        match children.get(&name) {
            Some(Node::Dir(_)) => Err("is a directory".to_string()),
            _ => {
                children.insert(name, Node::File { bytes, modified });
                Ok(())
            }
        }
    }

    fn stamp(&self, path: &SyncPath, time: FileTime) -> Result<(), String> {
        let mut guard = self.roots.lock().unwrap();
        let (children, name) = parent_of(&mut guard.0, path)?;
        match children.get_mut(&name) {
            Some(Node::File { modified, .. }) => {
                *modified = time.secs;
                Ok(())
            }
            _ => Err("not a file".to_string()),
        }
    }
}

fn log(op: &SyncOperation, note: Option<LogNote>) {
    if let Some(note) = note {
        op.log(note);
    }
}

fn probe(op: &SyncOperation, fs: &MemFs, task: &CopyTask, size: u64) -> ProbeVerdict {
    let mut probe = Probe::start(size);
    let mut open: [Option<(Vec<u8>, usize)>; 2] = [None, None];
    let slot = |side: Side| match side {
        Side::Source => 0,
        Side::Dest => 1,
    };
    loop {
        let event = match probe.action() {
            ProbeAction::Finish(verdict) => return verdict,
            ProbeAction::Open(side) => {
                let path = if side == Side::Source { &task.src } else { &task.dest };
                fs.bytes(path).map(|bytes| {
                    open[slot(side)] = Some((bytes, 0));
                    Vec::new()
                })
            }
            ProbeAction::Read(side, size) => {
                let (bytes, at) = open[slot(side)].as_mut().unwrap();
                let end = *at + size as usize;
                if end <= bytes.len() {
                    let read = bytes[*at..end].to_vec();
                    *at = end;
                    Ok(read)
                } else {
                    Err("unexpected end of file".to_string())
                }
            }
            ProbeAction::SeekFromEnd(side, back) => {
                let (bytes, at) = open[slot(side)].as_mut().unwrap();
                if back as usize <= bytes.len() {
                    *at = bytes.len() - back as usize;
                    Ok(Vec::new())
                } else {
                    Err("invalid seek".to_string())
                }
            }
        };
        let (next, note) = probe.advance(event, &task.src);
        log(op, note);
        probe = next;
    }
}

fn copy_file_if_needed(op: &SyncOperation, fs: &MemFs, task: &CopyTask) {
    let (gate, note) = should_copy_file(op.options(), task);
    log(op, note);
    let reason = match gate {
        Gate::Decided(reason) => reason,
        Gate::Probe(size) => reason_after_probe(probe(op, fs, task, size)),
    };
    let (mut copier, note) = Copier::start(op.options(), task, reason);
    log(op, note);
    let mut source = Vec::new();
    while copier.stage != CopyStage::Done {
        let report = match copier.stage {
            CopyStage::RemoveTree => fs.remove(&task.dest, true),
            CopyStage::OpenSource => fs.bytes(&task.src).map(|bytes| source = bytes),
            CopyStage::CreateDest => fs.write(&task.dest, Vec::new()),
            CopyStage::Stream => fs.write(&task.dest, source.clone()),
            CopyStage::StampCreated => Ok(()),
            CopyStage::StampModified => fs.stamp(&task.dest, copier.modified.unwrap()),
            CopyStage::Done => Ok(()),
        };
        let (next, note) = copier.advance(task, report);
        log(op, note);
        copier = next;
    }
}

fn sync_dir(op: &SyncOperation, fs: &MemFs, task: &DirTask) {
    let (preparation, note) = prepare_dest(&task.dest, &fs.stat(&task.dest));
    log(op, note);
    if preparation == Preparation::Replace {
        log(op, note_preparation(true, &task.dest, &fs.remove(&task.dest, false)));
    }
    if preparation != Preparation::Keep {
        log(op, note_preparation(false, &task.dest, &fs.create_dir(&task.dest)));
    }
    let dests = fs.list(&task.dest);
    let sources = match dests {
        Ok(_) => fs.list(&task.src),
        Err(_) => Ok(Vec::new()),
    };
    op.submit(scan_directory(op.options(), task, sources, dests));
}

fn sync_thread(op: &SyncOperation, fs: &MemFs) {
    loop {
        match op.next_job() {
            Job::Op(IoOperation::CopyIfNeeded(task)) => copy_file_if_needed(op, fs, &task),
            Job::Op(IoOperation::DeleteTree(path)) => {
                op.log(note_removal(true, &path, &fs.remove(&path, true)));
            }
            Job::Op(IoOperation::DeleteFile(path)) => {
                op.log(note_removal(false, &path, &fs.remove(&path, false)));
            }
            Job::Dir(task) => sync_dir(op, fs, &task),
            Job::Idle => {
                if op.await_work() {
                    break;
                }
            }
        }
    }
}

/// Runs the engine on the file system until every worker has left, and gives
/// back every log entry.
fn run(config: &mut SyncBuilder, fs: &MemFs) -> Vec<SyncLogEntry> {
    config.add_directory_pair("src".to_string(), "dest".to_string());
    let op = SyncOperation::new(config);
    op.seed();
    let workers = op.options().worker_count();
    crossbeam::scope(|scope| {
        for _ in 0..workers {
            scope.spawn(|_| sync_thread(&op, fs));
        }
    })
    .unwrap();
    assert!(op.is_done());
    assert_eq!(op.next_job(), Job::Idle);
    let mut entries = Vec::new();
    while let Some(entry) = op.read_log() {
        entries.push(entry);
    }
    assert!(op.read_log().is_none());
    entries
}

fn file(text: &str) -> Node {
    Node::File { bytes: text.as_bytes().to_vec(), modified: 1 }
}

fn dir(entries: Vec<(&str, Node)>) -> Node {
    Node::Dir(entries.into_iter().map(|(name, node)| (name.to_string(), node)).collect())
}

fn listing(node: &Node) -> Vec<String> {
    match node {
        Node::Dir(children) => children
            .iter()
            .map(|(name, node)| match node {
                Node::File { bytes, .. } => {
                    format!("F:{}:{}", name, String::from_utf8_lossy(bytes))
                }
                Node::Dir(_) => format!("D:{}:", name),
                Node::Link => format!("L:{}:", name),
            })
            .collect(),
        _ => vec![],
    }
}

/// The tree without its times.
fn shape(node: &Node) -> Node {
    match node {
        Node::File { bytes, .. } => Node::File { bytes: bytes.clone(), modified: 0 },
        Node::Dir(children) => {
            Node::Dir(children.iter().map(|(name, node)| (name.clone(), shape(node))).collect())
        }
        Node::Link => Node::Link,
    }
}

fn copies(entries: &[SyncLogEntry]) -> Vec<String> {
    entries
        .iter()
        .filter(|entry| entry.message.contains("Starting to copy"))
        .map(|entry| entry.message.clone())
        .collect()
}

fn errors(entries: &[SyncLogEntry]) -> Vec<String> {
    entries
        .iter()
        .filter(|entry| entry.level == SyncLogLevel::Error)
        .map(|entry| entry.message.clone())
        .collect()
}

#[test]
fn test_basic_sync() {
    let src = dir(vec![
        ("banana.txt", file("cd")),
        ("cherry.txt", file("de")),
        ("grape.txt", file("hi")),
        ("peach.txt", dir(vec![])),
    ]);
    let dest = dir(vec![
        ("apple.txt", file("bc")),
        ("cherry.txt", dir(vec![])),
        ("grape.txt", file("hij")),
        ("peach.txt", file("qr")),
    ]);
    let fs = MemFs::new(src, Some(dest));
    let entries = run(&mut SyncBuilder::new(), &fs);
    assert_eq!(
        listing(&fs.root("dest").unwrap()),
        vec!["F:banana.txt:cd", "F:cherry.txt:de", "F:grape.txt:hi", "D:peach.txt:"]
    );
    assert_eq!(errors(&entries), Vec::<String>::new());
}

#[test]
fn size_only_gate_does_not_copy_same_size() {
    let fs = MemFs::new(
        dir(vec![("a.bin", file("0123456789"))]),
        Some(dir(vec![("a.bin", file("abcdefghij"))])),
    );
    let mut config = SyncBuilder::new();
    config
        .copy_contents_if_size_mismatched(true)
        .copy_contents_if_start_end_mismatched_size(0)
        .copy_contents_if_date_mismatched(false);
    let entries = run(&mut config, &fs);
    assert_eq!(listing(&fs.root("dest").unwrap()), vec!["F:a.bin:abcdefghij"]);
    assert_eq!(copies(&entries), Vec::<String>::new());
    assert!(entries.iter().any(|entry| entry.level == SyncLogLevel::Debug
        && entry.message == "No need to copy src/a.bin"));
}

#[test]
fn head_tail_probe_catches_a_changed_tail() {
    let mut text = String::new();
    for i in 0..16384 {
        text.push((b'A' + (i / 1024) as u8) as char);
    }
    let mut changed = text[..15360].to_string();
    changed.push_str(&"z".repeat(1024));
    let fs = MemFs::new(
        dir(vec![("log.txt", file(&text))]),
        Some(dir(vec![("log.txt", file(&changed))])),
    );
    let mut config = SyncBuilder::new();
    config.copy_contents_if_start_end_mismatched_size(8192);
    let entries = run(&mut config, &fs);
    assert_eq!(copies(&entries), vec!["HeadTailMismatched: Starting to copy src/log.txt"]);
    assert_eq!(listing(&fs.root("dest").unwrap()), vec![format!("F:log.txt:{}", text)]);
}

#[test]
fn filter_excludes_and_deletes() {
    let fs = MemFs::new(
        dir(vec![("keep.txt", file("k")), ("skip.wav", file("new"))]),
        Some(dir(vec![("skip.wav", file("old"))])),
    );
    let mut config = SyncBuilder::new();
    config.filter(|path: &SyncPath| match path.file_name() {
        Some(name) => !name.ends_with(".wav"),
        None => true,
    });
    let entries = run(&mut config, &fs);
    assert_eq!(listing(&fs.root("dest").unwrap()), vec!["F:keep.txt:k"]);
    assert!(entries.iter().any(|entry| entry.level == SyncLogLevel::Info
        && entry.message == "Skipping file src/skip.wav"));
    assert!(entries.iter().any(|entry| entry.message == "Deleted file dest/skip.wav"));
}

#[test]
fn file_replaces_directory_of_the_same_name() {
    for workers in [1, 4] {
        let fs = MemFs::new(
            dir(vec![("x", file("source bytes"))]),
            Some(dir(vec![("x", dir(vec![("inner.txt", file("in"))]))])),
        );
        let mut config = SyncBuilder::new();
        config.parallel_copies(workers);
        let entries = run(&mut config, &fs);
        assert_eq!(listing(&fs.root("dest").unwrap()), vec!["F:x:source bytes"]);
        assert_eq!(errors(&entries), Vec::<String>::new());
    }
}

fn big_tree() -> Node {
    let mut subdirs = Vec::new();
    let names: Vec<String> = (0..10).map(|d| format!("dir{}", d)).collect();
    let files: Vec<String> = (0..5).map(|f| format!("file{}.txt", f)).collect();
    for (d, name) in names.iter().enumerate() {
        let mut entries = Vec::new();
        for (f, file_name) in files.iter().enumerate() {
            entries.push((file_name.as_str(), file(&format!("contents {} {}", d, f))));
        }
        subdirs.push((name.as_str(), dir(entries)));
    }
    dir(subdirs)
}

#[test]
fn four_workers_give_the_result_of_one() {
    let stale = dir(vec![
        ("dir3", file("in the way")),
        ("dir4", dir(vec![("file0.txt", file("contents 4 0")), ("old.txt", file("old"))])),
        ("stray", dir(vec![("deep", dir(vec![("f", file("x"))]))])),
    ]);
    let one = MemFs::new(big_tree(), Some(stale.clone()));
    let mut config = SyncBuilder::new();
    config.parallel_copies(1);
    let entries = run(&mut config, &one);
    assert_eq!(errors(&entries), Vec::<String>::new());

    let four = MemFs::new(big_tree(), Some(stale));
    let mut config = SyncBuilder::new();
    config.parallel_copies(4);
    let entries = run(&mut config, &four);
    assert_eq!(errors(&entries), Vec::<String>::new());
    assert_eq!(copies(&entries).len(), 49);

    assert_eq!(shape(&four.root("dest").unwrap()), shape(&one.root("dest").unwrap()));
    assert_eq!(shape(&four.root("dest").unwrap()), shape(&big_tree()));
}

#[test]
fn missing_destination_root_is_created() {
    let fs = MemFs::new(big_tree(), None);
    let mut config = SyncBuilder::new();
    config.parallel_copies(3);
    let entries = run(&mut config, &fs);
    assert_eq!(errors(&entries), Vec::<String>::new());
    assert_eq!(copies(&entries).len(), 50);
    assert_eq!(shape(&fs.root("dest").unwrap()), shape(&big_tree()));
}

#[test]
fn second_run_copies_nothing() {
    for date_gate in [false, true] {
        let fs = MemFs::new(big_tree(), None);
        let mut config = SyncBuilder::new();
        config.parallel_copies(2).copy_contents_if_date_mismatched(date_gate);
        let first = run(&mut config, &fs);
        assert_eq!(copies(&first).len(), 50);
        let after_first = fs.root("dest").unwrap();

        let mut config = SyncBuilder::new();
        config.parallel_copies(2).copy_contents_if_date_mismatched(date_gate);
        let second = run(&mut config, &fs);
        assert_eq!(copies(&second), Vec::<String>::new());
        assert_eq!(errors(&second), Vec::<String>::new());
        assert_eq!(
            second.iter().filter(|entry| entry.message.starts_with("No need to copy ")).count(),
            50
        );
        assert_eq!(fs.root("dest").unwrap(), after_first);
    }
}

#[test]
fn every_worker_exits_and_the_log_drains() {
    for workers in [1u8, 2, 5] {
        let fs = MemFs::new(
            dir(vec![("a", file("1")), ("d", dir(vec![("b", file("2"))]))]),
            Some(dir(vec![("gone", file("x"))])),
        );
        let mut config = SyncBuilder::new();
        config.parallel_copies(workers);
        let entries = run(&mut config, &fs);
        let exits = entries.iter().filter(|entry| entry.message == "Thread exiting").count();
        assert_eq!(exits, workers as usize);
        let mut rest: Vec<String> = entries
            .iter()
            .filter(|entry| entry.message != "Thread exiting")
            .map(|entry| entry.message.clone())
            .collect();
        rest.sort();
        assert_eq!(
            rest,
            vec![
                "Deleted file dest/gone",
                "Missing: Starting to copy src/a",
                "Missing: Starting to copy src/d/b",
            ]
        );
    }
}

#[test]
fn links_are_left_alone() {
    let fs = MemFs::new(
        dir(vec![("a", file("new")), ("l", Node::Link), ("s", file("s"))]),
        Some(dir(vec![("a", Node::Link), ("stray", Node::Link), ("s", file("s"))])),
    );
    let entries = run(&mut SyncBuilder::new(), &fs);
    assert_eq!(listing(&fs.root("dest").unwrap()), vec!["L:a:", "F:s:s", "L:stray:"]);
    assert_eq!(copies(&entries), Vec::<String>::new());
    assert!(entries
        .iter()
        .any(|entry| entry.message == "Skipping file due to symlink at destination: src/a"));
    assert!(entries
        .iter()
        .any(|entry| entry.message == "Skipping special file at destination: dest/stray"));
}
