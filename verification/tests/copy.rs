use mirror_sync::{
    note_removal, reason_name, Copier, CopyReason, CopyStage, CopyTask, EntryKind, FileMeta,
    FileTime, LogNote, SyncBuilder, SyncLogLevel, SyncPath,
};

fn task(replaces_dir: bool, created: Option<i64>, modified: Option<i64>) -> CopyTask {
    CopyTask {
        src: SyncPath::new("S".to_string()).child(&"a".to_string()),
        dest: SyncPath::new("D".to_string()).child(&"a".to_string()),
        src_meta: FileMeta {
            kind: EntryKind::File,
            len: 4,
            modified: modified.map(|secs| FileTime { secs, nanos: 5 }),
            created: created.map(|secs| FileTime { secs, nanos: 6 }),
        },
        dest_meta: None,
        replaces_dir,
    }
}

fn note(level: SyncLogLevel, message: &str) -> Option<LogNote> {
    Some(LogNote { level, message: message.to_string() })
}

#[test]
fn copy_that_is_not_needed_is_done_at_once() {
    let task = task(true, Some(1), Some(2));
    let (copier, said) = Copier::start(&SyncBuilder::new(), &task, CopyReason::NotNeeded);
    assert_eq!(copier.stage, CopyStage::Done);
    assert_eq!(said, note(SyncLogLevel::Debug, "No need to copy S/a"));
    let (after, said) = copier.advance(&task, Ok(()));
    assert_eq!(after, copier);
    assert_eq!(said, None);
}

#[test]
fn successful_copy_walks_every_stage_and_stamps_both_times() {
    let task = task(false, Some(1), Some(2));
    let (copier, said) = Copier::start(&SyncBuilder::new(), &task, CopyReason::SizeMismatched);
    assert_eq!(said, None);
    assert_eq!(
        copier,
        Copier {
            stage: CopyStage::OpenSource,
            reason: CopyReason::SizeMismatched,
            created: Some(FileTime { secs: 1, nanos: 6 }),
            modified: Some(FileTime { secs: 2, nanos: 5 }),
        }
    );
    let (copier, said) = copier.advance(&task, Ok(()));
    assert_eq!((copier.stage, said), (CopyStage::CreateDest, None));
    let (copier, said) = copier.advance(&task, Ok(()));
    assert_eq!(copier.stage, CopyStage::Stream);
    assert_eq!(said, note(SyncLogLevel::Info, "SizeMismatched: Starting to copy S/a"));
    let (copier, said) = copier.advance(&task, Ok(()));
    assert_eq!((copier.stage, said), (CopyStage::StampCreated, None));
    let (copier, said) = copier.advance(&task, Ok(()));
    assert_eq!((copier.stage, said), (CopyStage::StampModified, None));
    let (copier, said) = copier.advance(&task, Ok(()));
    assert_eq!((copier.stage, said), (CopyStage::Done, None));
}

#[test]
fn times_are_stamped_only_where_asked_for_and_known() {
    let mut config = SyncBuilder::new();
    config.copy_created_date(false);
    let both = task(false, Some(1), Some(2));
    let (copier, _) = Copier::start(&config, &both, CopyReason::Missing);
    assert_eq!((copier.created, copier.modified), (None, Some(FileTime { secs: 2, nanos: 5 })));
    let copier = Copier { stage: CopyStage::Stream, ..copier };
    assert_eq!(copier.advance(&both, Ok(())).0.stage, CopyStage::StampModified);

    config.copy_modified_date(false);
    let (copier, _) = Copier::start(&config, &both, CopyReason::Missing);
    let copier = Copier { stage: CopyStage::Stream, ..copier };
    assert_eq!(copier.advance(&both, Ok(())).0.stage, CopyStage::Done);

    let unknown = task(false, None, None);
    let (copier, _) = Copier::start(&SyncBuilder::new(), &unknown, CopyReason::Missing);
    assert_eq!((copier.created, copier.modified), (None, None));

    let only_created = task(false, Some(1), None);
    let (copier, _) = Copier::start(&SyncBuilder::new(), &only_created, CopyReason::Missing);
    let copier = Copier { stage: CopyStage::StampCreated, ..copier };
    assert_eq!(copier.advance(&only_created, Ok(())).0.stage, CopyStage::Done);
}

#[test]
fn directory_in_the_way_is_removed_first() {
    let task = task(true, None, None);
    let (copier, said) = Copier::start(&SyncBuilder::new(), &task, CopyReason::Missing);
    assert_eq!((copier.stage, said), (CopyStage::RemoveTree, None));
    let (after, said) = copier.advance(&task, Ok(()));
    assert_eq!(after.stage, CopyStage::OpenSource);
    assert_eq!(said, note(SyncLogLevel::Info, "Deleted directory D/a"));
    let (after, said) = copier.advance(&task, Err("busy".to_string()));
    assert_eq!(after.stage, CopyStage::OpenSource);
    assert_eq!(said, note(SyncLogLevel::Error, "Failed to delete directory D/a: busy"));
}

#[test]
fn failures_end_a_copy_except_when_stamping() {
    let task = task(false, Some(1), Some(2));
    let (start, _) = Copier::start(&SyncBuilder::new(), &task, CopyReason::HeadTailMismatched);
    let fail = |stage: CopyStage| {
        let (after, said) = Copier { stage, ..start }.advance(&task, Err("boom".to_string()));
        (after.stage, said)
    };
    assert_eq!(
        fail(CopyStage::OpenSource),
        (CopyStage::Done, note(SyncLogLevel::Error, "Failed to open S/a: boom"))
    );
    assert_eq!(
        fail(CopyStage::CreateDest),
        (CopyStage::Done, note(SyncLogLevel::Error, "Failed to open D/a: boom"))
    );
    assert_eq!(
        fail(CopyStage::Stream),
        (CopyStage::Done, note(SyncLogLevel::Error, "Failed to copy S/a: boom"))
    );
    assert_eq!(
        fail(CopyStage::StampCreated),
        (
            CopyStage::StampModified,
            note(SyncLogLevel::Error, "Failed to set created date of D/a: boom")
        )
    );
    assert_eq!(
        fail(CopyStage::StampModified),
        (CopyStage::Done, note(SyncLogLevel::Error, "Failed to set modified date of D/a: boom"))
    );
    assert_eq!(fail(CopyStage::Done), (CopyStage::Done, None));
}

#[test]
fn reasons_have_their_names() {
    assert_eq!(reason_name(CopyReason::Missing), "Missing");
    assert_eq!(reason_name(CopyReason::DateMismatched), "DateMismatched");
    assert_eq!(reason_name(CopyReason::SizeMismatched), "SizeMismatched");
    assert_eq!(reason_name(CopyReason::HeadTailMismatched), "HeadTailMismatched");
    assert_eq!(reason_name(CopyReason::NotNeeded), "NotNeeded");
}

#[test]
fn removals_are_reported() {
    let path = SyncPath::new("D".to_string()).child(&"old".to_string());
    assert_eq!(Some(note_removal(false, &path, &Ok(()))), note(SyncLogLevel::Info, "Deleted file D/old"));
    assert_eq!(
        Some(note_removal(true, &path, &Ok(()))),
        note(SyncLogLevel::Info, "Deleted directory D/old")
    );
    assert_eq!(
        Some(note_removal(false, &path, &Err("denied".to_string()))),
        note(SyncLogLevel::Error, "Failed to delete file D/old: denied")
    );
    assert_eq!(
        Some(note_removal(true, &path, &Err("denied".to_string()))),
        note(SyncLogLevel::Error, "Failed to delete directory D/old: denied")
    );
}

#[test]
fn notes_are_built_from_their_parts() {
    let path = SyncPath::new("root".to_string()).child(&"x".to_string());
    assert_eq!(
        LogNote::new(SyncLogLevel::Debug, "Thread exiting"),
        LogNote { level: SyncLogLevel::Debug, message: "Thread exiting".to_string() }
    );
    assert_eq!(
        LogNote::about(SyncLogLevel::Info, "Seen ", &path),
        LogNote { level: SyncLogLevel::Info, message: "Seen root/x".to_string() }
    );
    assert_eq!(
        LogNote::failure("Lost ", &path, "why"),
        LogNote { level: SyncLogLevel::Error, message: "Lost root/x: why".to_string() }
    );
}
