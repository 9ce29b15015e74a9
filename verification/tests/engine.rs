use file_tasks::file::{tolerate_not_found, File};
use file_tasks::path::FsPath;
use file_tasks::queue::DispatchQueue;
use file_tasks::types::{
    CopyEvent, DirEntryInfo, DirObservation, FileKind, FileOp, FileOpDelete, FileOpLink,
    FileOpPaste, FileOpTrash, MetaInfo, Priority, ReadLinkOutcome, RemoveOutcome, TaskProg,
    WorkObs, WorkStatus,
};

fn p(parts: &[&str]) -> FsPath {
    FsPath { comps: parts.iter().map(|s| s.to_string()).collect() }
}

fn meta(len: u64, kind: FileKind) -> MetaInfo {
    MetaInfo { len, kind }
}

fn paste_op(id: usize, from: FsPath, to: FsPath, cut: bool) -> FileOpPaste {
    FileOpPaste { id, from, to, cut, follow: false, retry: 0 }
}

#[test]
fn paste_cut_rename_fast_path_single_succ() {
    let mut f = File::new(3);
    let task = paste_op(7, p(&["a", "b"]), p(&["a", "c"]), true);
    let r = f.paste(task, true, None);
    assert!(matches!(r, Ok(None)));
    assert_eq!(f.prog.len(), 1);
    assert!(matches!(f.prog[0], TaskProg::Succ { id: 7 }));
    assert!(f.queue.is_empty());
}

#[test]
fn paste_regular_file_schedules_one_low_chunk() {
    let mut f = File::new(3);
    let task = paste_op(1, p(&["src", "x"]), p(&["dst", "x"]), false);
    let r = f.paste(task, false, Some(Ok(meta(100, FileKind::File))));
    assert!(matches!(r, Ok(None)));
    assert!(matches!(f.prog[0], TaskProg::New { id: 1, size: 100 }));
    assert!(matches!(f.prog[1], TaskProg::Succ { id: 1 }));
    let got = f.queue.recv().expect("one op queued");
    match got {
        FileOp::Paste(op) => {
            assert_eq!(op.id, 1);
            assert_eq!(op.retry, 0);
            assert_eq!(op.from.comps, vec!["src".to_string(), "x".to_string()]);
            assert_eq!(op.to.comps, vec!["dst".to_string(), "x".to_string()]);
        }
        _ => panic!("expected a paste chunk"),
    }
    assert!(f.queue.is_empty());
}

#[test]
fn paste_metadata_error_propagates_silently() {
    let mut f = File::new(3);
    let task = paste_op(1, p(&["src"]), p(&["dst"]), false);
    let r = f.paste(task, false, Some(Err("denied".to_string())));
    assert_eq!(r.err().unwrap(), "denied");
    assert!(f.prog.is_empty());
    assert!(f.queue.is_empty());
}

#[test]
fn paste_directory_walk_schedules_entries_and_defers_subdirs() {
    let mut f = File::new(3);
    let task = paste_op(9, p(&["src", "root"]), p(&["dst", "root"]), true);
    let r = f.paste(task, false, Some(Ok(meta(0, FileKind::Dir))));
    let mut walk = r.unwrap().expect("a directory starts a walk");
    assert!(!walk.done());
    let (src, dest) = walk.current().expect("a pending directory");
    assert_eq!(src.comps, vec!["src".to_string(), "root".to_string()]);
    assert_eq!(dest.comps, vec!["dst".to_string(), "root".to_string()]);

    let entries = vec![
        DirEntryInfo { name: "a.txt".to_string(), meta: Ok(meta(5, FileKind::File)) },
        DirEntryInfo { name: "sub".to_string(), meta: Ok(meta(0, FileKind::Dir)) },
        DirEntryInfo { name: "ln".to_string(), meta: Ok(meta(3, FileKind::Symlink)) },
        DirEntryInfo { name: "bad".to_string(), meta: Err("io".to_string()) },
    ];
    walk.visit(&mut f, DirObservation::Entries(entries));

    assert!(matches!(f.prog[0], TaskProg::New { id: 9, size: 5 }));
    assert!(matches!(f.prog[1], TaskProg::New { id: 9, size: 3 }));
    assert!(matches!(f.prog[2], TaskProg::New { id: 9, size: 0 }));
    match &f.prog[3] {
        TaskProg::Fail { id, reason } => {
            assert_eq!(*id, 9);
            assert_eq!(reason, "io");
        }
        _ => panic!("expected a failure event"),
    }

    match f.queue.recv().expect("elevated first") {
        FileOp::Link(op) => {
            assert_eq!(op.from.comps, vec!["src", "root", "ln"]);
            assert_eq!(op.to.comps, vec!["dst", "root", "ln"]);
            assert!(op.resolve);
            assert!(!op.relative);
            assert!(op.delete, "a cut paste removes the symlink source");
            assert_eq!(op.meta.unwrap().len, 3);
        }
        _ => panic!("expected the symlink's link op first"),
    }
    match f.queue.recv().expect("then the low tier") {
        FileOp::Paste(op) => {
            assert_eq!(op.from.comps, vec!["src", "root", "a.txt"]);
            assert_eq!(op.to.comps, vec!["dst", "root", "a.txt"]);
            assert!(op.cut);
        }
        _ => panic!("expected the file's paste chunk"),
    }

    // the subdirectory was deferred to the back of the queue of pending dirs
    let (sub_src, sub_dest) = walk.current().expect("the deferred subdirectory");
    assert_eq!(sub_src.comps, vec!["src", "root", "sub"]);
    assert_eq!(sub_dest.comps, vec!["dst", "root", "sub"]);
    walk.visit(&mut f, DirObservation::Entries(Vec::new()));
    assert!(walk.done());
    let before = f.prog.len();
    walk.finish(&mut f);
    assert!(matches!(f.prog[before], TaskProg::Succ { id: 9 }));
}

#[test]
fn paste_directory_failure_reports_and_walk_continues() {
    let mut f = File::new(3);
    let task = paste_op(2, p(&["s"]), p(&["d"]), false);
    let mut walk = f.paste(task, false, Some(Ok(meta(0, FileKind::Dir)))).unwrap().unwrap();
    walk.visit(&mut f, DirObservation::Failed("cannot create".to_string()));
    assert!(matches!(f.prog[0], TaskProg::New { id: 2, size: 0 }));
    match &f.prog[1] {
        TaskProg::Fail { id: 2, reason } => assert_eq!(reason, "cannot create"),
        _ => panic!("expected a failure event"),
    }
    assert!(walk.done());
}

#[test]
fn delete_directory_of_files_one_entry_each_no_dirs() {
    let mut f = File::new(3);
    let task = FileOpDelete { id: 4, target: p(&["top"]), length: 0 };
    let mut walk = f.delete(task, Ok(meta(0, FileKind::Dir))).unwrap().expect("walk");
    let entries = vec![
        DirEntryInfo { name: "f1".to_string(), meta: Ok(meta(10, FileKind::File)) },
        DirEntryInfo { name: "f2".to_string(), meta: Ok(meta(20, FileKind::File)) },
    ];
    walk.visit(&mut f, file_tasks::types::DeleteObservation::Entries(entries));
    assert!(matches!(f.prog[0], TaskProg::New { id: 4, size: 10 }));
    assert!(matches!(f.prog[1], TaskProg::New { id: 4, size: 20 }));
    let mut targets = Vec::new();
    while let Some(op) = f.queue.recv() {
        match op {
            FileOp::Delete(d) => {
                assert_eq!(d.id, 4);
                targets.push(d.target.comps.clone());
            }
            _ => panic!("a delete walk enqueues only delete leaves"),
        }
    }
    assert_eq!(targets, vec![vec!["top", "f1"], vec!["top", "f2"]]);
    assert!(walk.done(), "no subdirectory was deferred");
    walk.finish(&mut f);
    assert!(matches!(f.prog.last().unwrap(), TaskProg::Succ { id: 4 }));
}

#[test]
fn delete_walk_is_depth_biased_and_silent_on_errors() {
    let mut f = File::new(3);
    let task = FileOpDelete { id: 5, target: p(&["top"]), length: 0 };
    let mut walk = f.delete(task, Ok(meta(0, FileKind::Dir))).unwrap().unwrap();
    let entries = vec![
        DirEntryInfo { name: "d1".to_string(), meta: Ok(meta(0, FileKind::Dir)) },
        DirEntryInfo { name: "bad".to_string(), meta: Err("io".to_string()) },
        DirEntryInfo { name: "d2".to_string(), meta: Ok(meta(0, FileKind::Dir)) },
    ];
    walk.visit(&mut f, file_tasks::types::DeleteObservation::Entries(entries));
    // errors are swallowed silently: no events at all
    assert!(f.prog.is_empty());
    assert!(f.queue.is_empty());
    // subdirectories went to the front, most recent first
    let next = walk.current().unwrap();
    assert_eq!(next.comps, vec!["top", "d2"]);
    walk.visit(&mut f, file_tasks::types::DeleteObservation::ListFailed);
    let next = walk.current().unwrap();
    assert_eq!(next.comps, vec!["top", "d1"]);
}

#[test]
fn delete_single_file_plans_one_elevated_entry() {
    let mut f = File::new(3);
    let task = FileOpDelete { id: 6, target: p(&["x"]), length: 0 };
    let r = f.delete(task, Ok(meta(33, FileKind::File)));
    assert!(matches!(r, Ok(None)));
    assert!(matches!(f.prog[0], TaskProg::New { id: 6, size: 33 }));
    assert!(matches!(f.prog[1], TaskProg::Succ { id: 6 }));
    match f.queue.recv().unwrap() {
        FileOp::Delete(d) => assert_eq!(d.length, 33),
        _ => panic!("expected a delete leaf"),
    }
}

#[test]
fn delete_vanished_target_is_success_never_fail() {
    let mut f = File::new(3);
    let op = FileOp::Delete(FileOpDelete { id: 8, target: p(&["x"]), length: 12 });
    let r = f.work(&op, WorkObs::Delete { removed: RemoveOutcome::NotFound("gone".to_string()), stale: false });
    assert!(matches!(r, Ok(WorkStatus::Done { remove_source: None })));
    assert_eq!(f.prog.len(), 1);
    assert!(matches!(f.prog[0], TaskProg::Adv { id: 8, files: 1, bytes: 12 }));
}

#[test]
fn delete_vanished_with_stale_metadata_is_fatal() {
    let mut f = File::new(3);
    let op = FileOp::Delete(FileOpDelete { id: 8, target: p(&["x"]), length: 12 });
    let r = f.work(&op, WorkObs::Delete { removed: RemoveOutcome::NotFound("gone".to_string()), stale: true });
    assert_eq!(r.err().unwrap(), "gone");
    match &f.prog[0] {
        TaskProg::Fail { id: 8, reason } => assert_eq!(reason, "gone"),
        _ => panic!("expected a failure event"),
    }
}

#[test]
fn delete_other_error_is_fatal() {
    let mut f = File::new(3);
    let op = FileOp::Delete(FileOpDelete { id: 8, target: p(&["x"]), length: 12 });
    let r = f.work(&op, WorkObs::Delete { removed: RemoveOutcome::Failed("denied".to_string()), stale: false });
    assert_eq!(r.err().unwrap(), "denied");
    assert!(matches!(&f.prog[0], TaskProg::Fail { id: 8, .. }));
}

#[test]
fn copy_retries_until_bound_then_fails_once() {
    fn retry_of(op: &FileOp) -> u32 {
        match op {
            FileOp::Paste(t) => t.retry,
            _ => panic!("a retried copy stays a paste chunk"),
        }
    }
    let max: u32 = 2;
    let mut f = File::new(max);
    let mut op = FileOp::Paste(paste_op(3, p(&["s"]), p(&["d"]), false));
    let mut attempts = 0;
    let failure;
    loop {
        attempts += 1;
        let before = retry_of(&op);
        let r = f.work(
            &op,
            WorkObs::Copy(CopyEvent::Failed { code: Some(1), msg: "operation not permitted".to_string() }),
        );
        match r {
            Ok(WorkStatus::Retried) => {
                let requeued = f.queue.recv().expect("the retry was re-enqueued");
                assert_eq!(retry_of(&requeued), before + 1, "the counter is incremented");
                op = requeued;
            }
            Err(e) => {
                failure = e;
                break;
            }
            _ => panic!("unexpected outcome"),
        }
    }
    assert_eq!(attempts, max + 1, "one attempt per retry level, then the fatal one");
    assert_eq!(retry_of(&op), max, "the counter reads the maximum at failure time");
    f.fail(3, failure);
    let fails = f.prog.iter().filter(|e| matches!(e, TaskProg::Fail { .. })).count();
    assert_eq!(fails, 1, "exactly one failure event");
    let logs = f.prog.iter().filter(|e| matches!(e, TaskProg::Log { .. })).count();
    assert_eq!(logs, max as usize, "each retry was logged");
}

#[test]
fn copy_non_transient_error_is_fatal_immediately() {
    let mut f = File::new(5);
    let op = FileOp::Paste(paste_op(3, p(&["s"]), p(&["d"]), false));
    let r = f.work(&op, WorkObs::Copy(CopyEvent::Failed { code: None, msg: "broken".to_string() }));
    assert_eq!(r.err().unwrap(), "broken");
    assert!(f.prog.is_empty());
    assert!(f.queue.is_empty());
}

#[test]
fn copy_stream_bytes_sum_to_announced_total() {
    let mut f = File::new(3);
    let task = paste_op(11, p(&["s"]), p(&["d"]), false);
    f.paste(task, false, Some(Ok(meta(10, FileKind::File)))).unwrap();
    let op = f.queue.recv().unwrap();
    assert!(matches!(f.work(&op, WorkObs::Copy(CopyEvent::Chunk(4))), Ok(WorkStatus::Continue)));
    assert!(matches!(f.work(&op, WorkObs::Copy(CopyEvent::Chunk(6))), Ok(WorkStatus::Continue)));
    assert!(matches!(f.work(&op, WorkObs::Copy(CopyEvent::Chunk(0))), Ok(WorkStatus::Done { .. })));
    let mut new_total: u64 = 0;
    let mut adv_bytes: u64 = 0;
    let mut adv_files: u64 = 0;
    for e in &f.prog {
        match e {
            TaskProg::New { size, .. } => new_total += size,
            TaskProg::Adv { files, bytes, .. } => {
                adv_files += files;
                adv_bytes += bytes;
            }
            _ => {}
        }
    }
    assert_eq!(adv_bytes, new_total, "bytes advanced equal the total registered");
    assert_eq!(adv_files, 1);
}

#[test]
fn copy_completion_on_cut_asks_for_source_removal() {
    let mut f = File::new(3);
    let op = FileOp::Paste(paste_op(3, p(&["s", "x"]), p(&["d", "x"]), true));
    match f.work(&op, WorkObs::Copy(CopyEvent::Chunk(0))) {
        Ok(WorkStatus::Done { remove_source: Some(src) }) => {
            assert_eq!(src.comps, vec!["s", "x"]);
        }
        _ => panic!("a finished cut removes its source"),
    }
    assert!(matches!(f.prog[0], TaskProg::Adv { id: 3, files: 1, bytes: 0 }));
}

#[test]
fn copy_vanished_source_stops_cleanly() {
    let mut f = File::new(3);
    let op = FileOp::Paste(paste_op(3, p(&["s"]), p(&["d"]), true));
    let r = f.work(&op, WorkObs::Copy(CopyEvent::SourceVanished));
    assert!(matches!(r, Ok(WorkStatus::Done { remove_source: None })));
    assert!(matches!(f.prog[0], TaskProg::Adv { id: 3, files: 1, bytes: 0 }));
}

#[test]
fn relative_symlink_target_crosses_via_parent() {
    let from = p(&["a", "b", "target"]);
    let base = p(&["a", "c"]);
    let rel = from.relative_to(&base);
    assert_eq!(rel.comps, vec!["..", "b", "target"]);
}

#[test]
fn link_relative_unresolved_stores_relative_path() {
    let mut f = File::new(3);
    let l = FileOpLink {
        id: 10,
        from: p(&["a", "b", "target"]),
        to: p(&["a", "c", "link"]),
        meta: Some(meta(7, FileKind::File)),
        resolve: false,
        relative: true,
        delete: false,
    };
    let op = FileOp::Link(l);
    let r = f.work(&op, WorkObs::Link { resolved: None, canon_parent: Some(Ok(p(&["a", "c"]))) });
    match r {
        Ok(WorkStatus::CreateLink { source, kind, delete_source, length }) => {
            assert_eq!(source.comps, vec!["..", "b", "target"]);
            assert_eq!(kind, FileKind::File);
            assert!(delete_source.is_none());
            assert_eq!(length, 7);
        }
        _ => panic!("expected a link creation decision"),
    }
    f.link_done(10, 7);
    assert!(matches!(f.prog[0], TaskProg::Adv { id: 10, files: 1, bytes: 7 }));
}

#[test]
fn link_resolved_vanished_source_is_partial_success() {
    let mut f = File::new(3);
    let l = FileOpLink {
        id: 10,
        from: p(&["a", "t"]),
        to: p(&["a", "l"]),
        meta: Some(meta(7, FileKind::File)),
        resolve: true,
        relative: false,
        delete: false,
    };
    let r = f.work(&FileOp::Link(l), WorkObs::Link { resolved: Some(ReadLinkOutcome::Vanished), canon_parent: None });
    assert!(matches!(r, Ok(WorkStatus::Done { remove_source: None })));
    assert!(matches!(f.prog[0], TaskProg::Log { id: 10, .. }));
    assert!(matches!(f.prog[1], TaskProg::Adv { id: 10, files: 1, bytes: 7 }));
}

#[test]
fn link_resolved_target_and_delete_source() {
    let mut f = File::new(3);
    let l = FileOpLink {
        id: 10,
        from: p(&["a", "t"]),
        to: p(&["a", "l"]),
        meta: Some(meta(2, FileKind::Dir)),
        resolve: true,
        relative: false,
        delete: true,
    };
    let r = f.work(
        &FileOp::Link(l),
        WorkObs::Link { resolved: Some(ReadLinkOutcome::Target(p(&["real", "t"]))), canon_parent: None },
    );
    match r {
        Ok(WorkStatus::CreateLink { source, kind, delete_source, length }) => {
            assert_eq!(source.comps, vec!["real", "t"]);
            assert_eq!(kind, FileKind::Dir);
            assert_eq!(delete_source.unwrap().comps, vec!["a", "t"]);
            assert_eq!(length, 2);
        }
        _ => panic!("expected a link creation decision"),
    }
}

#[test]
fn link_plan_registers_and_enqueues_elevated() {
    let mut f = File::new(3);
    let l = FileOpLink {
        id: 12,
        from: p(&["a"]),
        to: p(&["b"]),
        meta: Some(meta(7, FileKind::File)),
        resolve: false,
        relative: false,
        delete: false,
    };
    f.link(l);
    assert!(matches!(f.prog[0], TaskProg::New { id: 12, size: 7 }));
    assert!(matches!(f.prog[1], TaskProg::Succ { id: 12 }));
    assert!(matches!(f.queue.recv(), Some(FileOp::Link(_))));
}

#[test]
fn trash_is_one_opaque_low_leaf() {
    let mut f = File::new(3);
    let t = FileOpTrash { id: 13, target: p(&["dir"]), length: 0 };
    f.trash(t, 42);
    assert!(matches!(f.prog[0], TaskProg::New { id: 13, size: 42 }));
    assert!(matches!(f.prog[1], TaskProg::Succ { id: 13 }));
    let op = f.queue.recv().unwrap();
    match &op {
        FileOp::Trash(t2) => assert_eq!(t2.length, 42),
        _ => panic!("expected a trash leaf"),
    }
    let r = f.work(&op, WorkObs::Trash(Ok(())));
    assert!(matches!(r, Ok(WorkStatus::Done { remove_source: None })));
    assert!(matches!(f.prog[2], TaskProg::Adv { id: 13, files: 1, bytes: 42 }));
}

#[test]
fn trash_error_is_fatal() {
    let mut f = File::new(3);
    let op = FileOp::Trash(FileOpTrash { id: 13, target: p(&["dir"]), length: 1 });
    let r = f.work(&op, WorkObs::Trash(Err("no trash dir".to_string())));
    assert_eq!(r.err().unwrap(), "no trash dir");
    assert!(f.prog.is_empty());
}

#[test]
fn queue_drains_elevated_before_low_fifo_within_tier() {
    let mut q = DispatchQueue::new();
    q.send(FileOp::Trash(FileOpTrash { id: 1, target: p(&["a"]), length: 0 }), Priority::Low);
    q.send(FileOp::Delete(FileOpDelete { id: 2, target: p(&["b"]), length: 0 }), Priority::Normal);
    q.send(FileOp::Trash(FileOpTrash { id: 3, target: p(&["c"]), length: 0 }), Priority::Low);
    q.send(FileOp::Delete(FileOpDelete { id: 4, target: p(&["d"]), length: 0 }), Priority::Normal);
    assert_eq!(q.len(), 4);
    let ids: Vec<usize> = std::iter::from_fn(|| q.recv())
        .map(|op| match op {
            FileOp::Trash(t) => t.id,
            FileOp::Delete(d) => d.id,
            _ => unreachable!(),
        })
        .collect();
    assert_eq!(ids, vec![2, 4, 1, 3]);
    assert!(q.recv().is_none());
}

#[test]
fn tolerate_not_found_only() {
    assert!(tolerate_not_found(RemoveOutcome::Removed).is_ok());
    assert!(tolerate_not_found(RemoveOutcome::NotFound("e".to_string())).is_ok());
    assert_eq!(tolerate_not_found(RemoveOutcome::Failed("bad".to_string())).err().unwrap(), "bad");
}

#[test]
fn to_link_resolves_and_deletes_on_cut() {
    let task = paste_op(5, p(&["s", "ln"]), p(&["d", "ln"]), true);
    let l = task.to_link(meta(3, FileKind::Symlink));
    assert_eq!(l.id, 5);
    assert_eq!(l.from.comps, vec!["s", "ln"]);
    assert_eq!(l.to.comps, vec!["d", "ln"]);
    assert!(l.resolve);
    assert!(!l.relative);
    assert!(l.delete);
    assert_eq!(l.meta.unwrap().kind, FileKind::Symlink);
}

#[test]
fn paste_symlink_schedules_resolving_link() {
    let mut f = File::new(3);
    let task = paste_op(14, p(&["s", "ln"]), p(&["d", "ln"]), true);
    let r = f.paste(task, false, Some(Ok(meta(3, FileKind::Symlink))));
    assert!(matches!(r, Ok(None)));
    assert!(matches!(f.prog[0], TaskProg::New { id: 14, size: 3 }));
    assert!(matches!(f.prog[1], TaskProg::Succ { id: 14 }));
    match f.queue.recv().unwrap() {
        FileOp::Link(l) => {
            assert!(l.resolve);
            assert!(!l.relative);
            assert!(l.delete, "a cut paste removes the symlink source");
        }
        _ => panic!("a symlink pastes as a link creation"),
    }
}

#[test]
fn link_read_failure_is_fatal_and_silent() {
    let mut f = File::new(3);
    let l = FileOpLink {
        id: 15,
        from: p(&["a", "t"]),
        to: p(&["a", "l"]),
        meta: Some(meta(1, FileKind::File)),
        resolve: true,
        relative: false,
        delete: false,
    };
    let r = f.work(
        &FileOp::Link(l),
        WorkObs::Link { resolved: Some(ReadLinkOutcome::Failed("loop".to_string())), canon_parent: None },
    );
    assert_eq!(r.err().unwrap(), "loop");
    assert!(f.prog.is_empty());
}

#[test]
fn link_canonicalize_failure_is_fatal() {
    let mut f = File::new(3);
    let l = FileOpLink {
        id: 16,
        from: p(&["a", "t"]),
        to: p(&["a", "c", "l"]),
        meta: Some(meta(1, FileKind::File)),
        resolve: false,
        relative: true,
        delete: false,
    };
    let r = f.work(
        &FileOp::Link(l),
        WorkObs::Link { resolved: None, canon_parent: Some(Err("no such dir".to_string())) },
    );
    assert_eq!(r.err().unwrap(), "no such dir");
    assert!(f.prog.is_empty());
}
