use vstd::pervasive::unreached;
use vstd::prelude::*;

use crate::path::{rel_view, FsPath};
use crate::queue::DispatchQueue;
use crate::types::{
    evs, CopyEvent, Ev, FileKind, FileOp, FileOpDelete, FileOpLink, FileOpPaste, FileOpTrash,
    MetaInfo, OpV, Priority, ReadLinkOutcome, RemoveOutcome, TaskProg, WorkObs, WorkStatus,
};
use crate::walk::{DeleteWalk, PasteWalk};

verus! {

/// Whether a copy error's OS code is one of the two transient codes that are
/// retried: operation not permitted, attribute not found.
pub open spec fn transient_code(code: Option<i32>) -> bool {
    code matches Some(c) && (c == 1 || c == 93)
}

/// The chosen symlink source: the resolved real target when one was read,
/// else the stored source path; rewritten relative to the canonicalized
/// destination parent when one was supplied.
pub open spec fn chosen_source(
    from: Seq<Seq<char>>,
    resolved: Option<ReadLinkOutcome>,
    canon: Option<Result<FsPath, String>>,
) -> Seq<Seq<char>> {
    let base = match resolved {
        Some(ReadLinkOutcome::Target(p)) => p@,
        _ => from,
    };
    match canon {
        Some(Ok(par)) => rel_view(base, par@),
        _ => base,
    }
}

/// The task planner and worker executor: it turns requests into leaf
/// operations on the dispatch queue and emits progress events into `prog`,
/// which the surrounding runtime drains toward the aggregator.
pub struct File {
    pub queue: DispatchQueue,
    pub prog: Vec<TaskProg>,
    pub retry_max: u32,
}

/// The leaf operation finished with its single advance of one file and the
/// given bytes; nothing was enqueued, and no source removal was asked for.
pub open spec fn leaf_done(pre: File, post: File, id: int, bytes: int, r: Result<
    WorkStatus,
    String,
>) -> bool {
    &&& post.events() == pre.events().push(Ev::Adv { id, files: 1, bytes })
    &&& post.queue == pre.queue
    &&& r matches Ok(st) && st matches WorkStatus::Done { remove_source } && remove_source is None
}

/// The leaf operation failed: the failure was reported and the error
/// returned.
pub open spec fn leaf_failed(pre: File, post: File, id: int, msg: Seq<char>, r: Result<
    WorkStatus,
    String,
>) -> bool {
    &&& post.events() == pre.events().push(Ev::Fail { id, reason: msg })
    &&& post.queue == pre.queue
    &&& r matches Err(e) && e@ == msg
}

/// What one copy-stream event does: a non-zero chunk advances by its bytes; a
/// zero chunk ends the copy, removing the source exactly on a cut; a vanished
/// source ends it cleanly without touching the source; a transient failure
/// below the retry bound re-enqueues the operation at the low tier with the
/// counter incremented; anything else is fatal and changes nothing.
pub open spec fn work_paste_post(pre: File, post: File, p: FileOpPaste, ev: CopyEvent, r: Result<
    WorkStatus,
    String,
>) -> bool {
    match ev {
        CopyEvent::Chunk(n) => if n == 0 {
            &&& post.events() == pre.events().push(Ev::Adv { id: p.id as int, files: 1, bytes: 0 })
            &&& post.queue == pre.queue
            &&& r matches Ok(st) && st matches WorkStatus::Done { remove_source } && (p.cut
                ==> (remove_source matches Some(q) && q@ == p.from@)) && (!p.cut
                ==> remove_source is None)
        } else {
            &&& post.events() == pre.events().push(
                Ev::Adv { id: p.id as int, files: 0, bytes: n as int },
            )
            &&& post.queue == pre.queue
            &&& r == Ok::<WorkStatus, String>(WorkStatus::Continue)
        },
        CopyEvent::SourceVanished => leaf_done(pre, post, p.id as int, 0, r),
        CopyEvent::Failed { code, msg } => if transient_code(code) && p.retry < pre.retry_max {
            &&& post.events() == pre.events().push(
                Ev::Log { id: p.id as int, line: "Paste task retry"@ },
            )
            &&& post.low_v() == pre.low_v().push(
                OpV::Paste {
                    id: p.id as int,
                    from: p.from@,
                    to: p.to@,
                    cut: p.cut,
                    follow: p.follow,
                    retry: p.retry + 1,
                },
            )
            &&& post.queue.normal@ == pre.queue.normal@
            &&& r == Ok::<WorkStatus, String>(WorkStatus::Retried)
        } else {
            &&& post == pre
            &&& r == Err::<WorkStatus, String>(msg)
        },
    }
}

/// What one link-execution step does: a vanished source is partial success; a
/// read or canonicalization error is fatal and changes nothing; otherwise the
/// decision names the exact symlink source to create, and who is to be
/// removed afterward.
pub open spec fn work_link_post(
    pre: File,
    post: File,
    l: FileOpLink,
    resolved: Option<ReadLinkOutcome>,
    canon: Option<Result<FsPath, String>>,
    r: Result<WorkStatus, String>,
) -> bool {
    match l.meta {
        Some(m) => match resolved {
            Some(ReadLinkOutcome::Vanished) => {
                &&& post.events() == pre.events() + seq![
                    Ev::Log { id: l.id as int, line: "Link task partially done"@ },
                    Ev::Adv { id: l.id as int, files: 1, bytes: m.len as int },
                ]
                &&& post.queue == pre.queue
                &&& r matches Ok(st) && st matches WorkStatus::Done { remove_source }
                    && remove_source is None
            },
            Some(ReadLinkOutcome::Failed(e)) => {
                &&& post == pre
                &&& r == Err::<WorkStatus, String>(e)
            },
            _ => match canon {
                Some(Err(ce)) => {
                    &&& post == pre
                    &&& r == Err::<WorkStatus, String>(ce)
                },
                _ => {
                    &&& post == pre
                    &&& r matches Ok(st) && st matches WorkStatus::CreateLink {
                        source,
                        kind,
                        delete_source,
                        length,
                    } && kind == m.kind && length == m.len && (l.delete
                        ==> (delete_source matches Some(d) && d@ == l.from@)) && (!l.delete
                        ==> delete_source is None) && source@ == chosen_source(
                        l.from@,
                        resolved,
                        canon,
                    )
                },
            },
        },
        None => true,
    }
}

/// What one delete execution does: a removal that worked, or found the target
/// already gone with no stale link metadata behind, advances; anything else
/// fails the leaf.
pub open spec fn work_delete_post(
    pre: File,
    post: File,
    d: FileOpDelete,
    removed: RemoveOutcome,
    stale: bool,
    r: Result<WorkStatus, String>,
) -> bool {
    match removed {
        RemoveOutcome::Removed => leaf_done(pre, post, d.id as int, d.length as int, r),
        RemoveOutcome::NotFound(msg) => if stale {
            leaf_failed(pre, post, d.id as int, msg@, r)
        } else {
            leaf_done(pre, post, d.id as int, d.length as int, r)
        },
        RemoveOutcome::Failed(msg) => leaf_failed(pre, post, d.id as int, msg@, r),
    }
}

/// What one trash execution does: success advances; an error of the trash
/// facility is fatal and changes nothing.
pub open spec fn work_trash_post(pre: File, post: File, t: FileOpTrash, res: Result<(), String>, r: Result<
    WorkStatus,
    String,
>) -> bool {
    match res {
        Ok(_) => leaf_done(pre, post, t.id as int, t.length as int, r),
        Err(e) => post == pre && r == Err::<WorkStatus, String>(e),
    }
}

impl File {
    /// The progress events emitted so far, oldest first.
    pub open spec fn events(self) -> Seq<Ev> {
        evs(self.prog@)
    }

    pub open spec fn low_v(self) -> Seq<OpV> {
        self.queue.low_v()
    }

    pub open spec fn normal_v(self) -> Seq<OpV> {
        self.queue.normal_v()
    }

    /// `retry_max` is the configured bound on transient copy retries.
    pub fn new(retry_max: u32) -> (f: File)
        ensures
            f.events() == Seq::<Ev>::empty(),
            f.queue.normal@.len() == 0,
            f.queue.low@.len() == 0,
            f.retry_max == retry_max,
    {
        let f = File { queue: DispatchQueue::new(), prog: Vec::new(), retry_max };
        proof {
            assert(f.events() =~= Seq::<Ev>::empty());
        }
        f
    }

    /// Reports that a planning or leaf unit completed successfully.
    pub fn succ(&mut self, id: usize)
        ensures
            final(self).events() == old(self).events().push((Ev::Succ { id: id as int })),
            final(self).queue == old(self).queue,
            final(self).retry_max == old(self).retry_max,
    {
        self.prog.push(TaskProg::Succ { id });
        proof {
            assert(self.events() =~= old(self).events().push((Ev::Succ { id: id as int })));
        }
    }

    /// Reports that a unit failed, with a user-visible message.
    pub fn fail(&mut self, id: usize, reason: String)
        ensures
            final(self).events() == old(self).events().push(
                (Ev::Fail { id: id as int, reason: reason@ }),
            ),
            final(self).queue == old(self).queue,
            final(self).retry_max == old(self).retry_max,
    {
        let ghost r = reason@;
        self.prog.push(TaskProg::Fail { id, reason });
        proof {
            assert(self.events() =~= old(self).events().push(
                (Ev::Fail { id: id as int, reason: r }),
            ));
        }
    }

    /// Emits an informational note.
    pub fn log(&mut self, id: usize, line: String)
        ensures
            final(self).events() == old(self).events().push(
                (Ev::Log { id: id as int, line: line@ }),
            ),
            final(self).queue == old(self).queue,
            final(self).retry_max == old(self).retry_max,
    {
        let ghost l = line@;
        self.prog.push(TaskProg::Log { id, line });
        proof {
            assert(self.events() =~= old(self).events().push((Ev::Log { id: id as int, line: l })));
        }
    }

    pub(crate) fn new_event(&mut self, id: usize, size: u64)
        ensures
            final(self).events() == old(self).events().push(
                (Ev::New { id: id as int, size: size as int }),
            ),
            final(self).queue == old(self).queue,
            final(self).retry_max == old(self).retry_max,
    {
        self.prog.push(TaskProg::New { id, size });
        proof {
            assert(self.events() =~= old(self).events().push(
                (Ev::New { id: id as int, size: size as int }),
            ));
        }
    }

    fn adv(&mut self, id: usize, files: u64, bytes: u64)
        ensures
            final(self).events() == old(self).events().push(
                (Ev::Adv { id: id as int, files: files as int, bytes: bytes as int }),
            ),
            final(self).queue == old(self).queue,
            final(self).retry_max == old(self).retry_max,
    {
        self.prog.push(TaskProg::Adv { id, files, bytes });
        proof {
            assert(self.events() =~= old(self).events().push(
                (Ev::Adv { id: id as int, files: files as int, bytes: bytes as int }),
            ));
        }
    }

    /// Plans a link request: registers the expected size, enqueues the one
    /// `Link` leaf operation at the elevated tier, and reports the planning
    /// unit done. The metadata snapshot must already be present.
    pub fn link(&mut self, task: FileOpLink)
        requires
            task.meta is Some,
        ensures
            final(self).retry_max == old(self).retry_max,
            final(self).queue.low@ == old(self).queue.low@,
            task.meta matches Some(m) ==> final(self).events() == old(self).events() + seq![
                (Ev::New { id: task.id as int, size: m.len as int }),
                (Ev::Succ { id: task.id as int }),
            ] && final(self).normal_v() == old(self).normal_v().push(task@),
    {
        let id = task.id;
        let len = if let Some(m) = &task.meta {
            m.len
        } else {
            0
        };
        self.new_event(id, len);
        let ghost opv = task@;
        self.queue.send(FileOp::Link(task), Priority::Normal);
        proof {
            assert(self.normal_v() =~= old(self).normal_v().push(opv));
        }
        self.succ(id);
    }

    /// Plans a trash request: the whole entry is one opaque low-tier `Trash`
    /// leaf operation of the externally computed total size.
    pub fn trash(&mut self, task: FileOpTrash, total: u64)
        ensures
            final(self).retry_max == old(self).retry_max,
            final(self).queue.normal@ == old(self).queue.normal@,
            final(self).events() == old(self).events() + seq![
                (Ev::New { id: task.id as int, size: total as int }),
                (Ev::Succ { id: task.id as int }),
            ],
            final(self).low_v() == old(self).low_v().push(
                (OpV::Trash { id: task.id as int, target: task.target@, length: total as int }),
            ),
    {
        let id = task.id;
        let op = FileOpTrash { id: task.id, target: task.target, length: total };
        self.new_event(id, total);
        let ghost opv = op@;
        self.queue.send(FileOp::Trash(op), Priority::Low);
        proof {
            assert(self.low_v() =~= old(self).low_v().push(opv));
        }
        self.succ(id);
    }

    /// Plans a delete request from the target's metadata: a non-directory
    /// becomes one elevated `Delete` leaf operation; a directory starts a
    /// depth-biased walk; a metadata error is propagated untouched.
    pub fn delete(&mut self, task: FileOpDelete, meta: Result<MetaInfo, String>) -> (r: Result<
        Option<DeleteWalk>,
        String,
    >)
        ensures
            final(self).retry_max == old(self).retry_max,
            meta matches Err(e) ==> r == Err::<Option<DeleteWalk>, String>(e) && *final(self)
                == *old(self),
            meta matches Ok(m) ==> ((m.kind is Dir ==> *final(self) == *old(self) && (
            r matches Ok(w) && w matches Some(walk) && walk.id == task.id && walk.dirs@.len() == 1
                && walk.dirs@[0]@ == task.target@)) && (!(m.kind is Dir) ==> (r matches Ok(w)
                && w is None && final(self).events() == old(self).events() + seq![
                (Ev::New { id: task.id as int, size: m.len as int }),
                (Ev::Succ { id: task.id as int }),
            ] && final(self).normal_v() == old(self).normal_v().push(
                (OpV::Delete { id: task.id as int, target: task.target@, length: m.len as int }),
            ) && final(self).queue.low@ == old(self).queue.low@))),
    {
        match meta {
            Err(e) => Err(e),
            Ok(m) => {
                if matches!(m.kind, FileKind::Dir) {
                    let mut dirs: Vec<FsPath> = Vec::new();
                    dirs.push(task.target);
                    Ok(Some(DeleteWalk { id: task.id, dirs }))
                } else {
                    let id = task.id;
                    let op = FileOpDelete { id: task.id, target: task.target, length: m.len };
                    self.new_event(id, m.len);
                    let ghost opv = op@;
                    self.queue.send(FileOp::Delete(op), Priority::Normal);
                    proof {
                        assert(self.normal_v() =~= old(self).normal_v().push(opv));
                    }
                    self.succ(id);
                    Ok(None)
                }
            },
        }
    }

    /// Plans a paste request. `renamed` reports that the cheap-move fast path
    /// already succeeded (an atomic rename that worked or found the source
    /// vanished): the task is then done with a single success event and no
    /// byte-copy work at all. Otherwise `meta` is the source's metadata read:
    /// a non-directory is scheduled as one leaf operation; a directory starts
    /// a breadth-first walk; a metadata error is propagated untouched.
    pub fn paste(&mut self, task: FileOpPaste, renamed: bool, meta: Option<Result<MetaInfo, String>>)
        -> (r: Result<Option<PasteWalk>, String>)
        requires
            renamed ==> task.cut,
            renamed <==> meta is None,
        ensures
            final(self).retry_max == old(self).retry_max,
            renamed ==> (final(self).events() == old(self).events().push(
                (Ev::Succ { id: task.id as int }),
            ) && final(self).queue == old(self).queue && (r matches Ok(w) && w is None)),
            meta matches Some(Err(e)) ==> r == Err::<Option<PasteWalk>, String>(e) && *final(self)
                == *old(self),
            meta matches Some(Ok(m)) ==> ((m.kind is File ==> ((r matches Ok(w) && w is None)
                && final(self).events() == old(self).events() + seq![
                (Ev::New { id: task.id as int, size: m.len as int }),
                (Ev::Succ { id: task.id as int }),
            ] && final(self).low_v() == old(self).low_v().push(task@) && final(self).queue.normal@
                == old(self).queue.normal@)) && (m.kind is Symlink ==> ((r matches Ok(w)
                && w is None) && final(self).events() == old(self).events() + seq![
                (Ev::New { id: task.id as int, size: m.len as int }),
                (Ev::Succ { id: task.id as int }),
            ] && final(self).normal_v() == old(self).normal_v().push(
                (OpV::Link {
                    id: task.id as int,
                    from: task.from@,
                    to: task.to@,
                    meta: Some(m),
                    resolve: true,
                    relative: false,
                    delete: task.cut,
                }),
            ) && final(self).queue.low@ == old(self).queue.low@)) && (m.kind is Other ==> ((
            r matches Ok(w) && w is None) && final(self).events() == old(self).events() + seq![
                (Ev::New { id: task.id as int, size: m.len as int }),
                (Ev::Succ { id: task.id as int }),
            ] && final(self).queue == old(self).queue)) && (m.kind is Dir ==> (*final(self)
                == *old(self) && (r matches Ok(w) && w matches Some(walk) && walk.wf() && walk.id
                == task.id && walk.cut == task.cut && walk.follow == task.follow && walk.retry
                == task.retry && walk.root@ == task.to@ && walk.skip == task.from@.len()
                && walk.dirs@.len() == 1 && walk.dirs@[0]@ == task.from@)))),
    {
        let id = task.id;
        if renamed {
            self.succ(id);
            return Ok(None);
        }
        let m = match meta {
            Some(Ok(m)) => m,
            Some(Err(e)) => {
                return Err(e);
            },
            None => unreached(),
        };
        match m.kind {
            FileKind::Dir => {
                let skip = task.from.depth();
                let mut dirs: Vec<FsPath> = Vec::new();
                let root = task.to;
                dirs.push(task.from);
                let walk = PasteWalk {
                    id: task.id,
                    cut: task.cut,
                    follow: task.follow,
                    retry: task.retry,
                    root,
                    skip,
                    dirs,
                };
                Ok(Some(walk))
            },
            FileKind::File => {
                self.new_event(id, m.len);
                let ghost opv = task@;
                self.queue.send(FileOp::Paste(task), Priority::Low);
                proof {
                    assert(self.low_v() =~= old(self).low_v().push(opv));
                }
                self.succ(id);
                Ok(None)
            },
            FileKind::Symlink => {
                self.new_event(id, m.len);
                let link = task.to_link(m);
                let ghost opv = link@;
                self.queue.send(FileOp::Link(link), Priority::Normal);
                proof {
                    assert(self.normal_v() =~= old(self).normal_v().push(opv));
                }
                self.succ(id);
                Ok(None)
            },
            FileKind::Other => {
                self.new_event(id, m.len);
                self.succ(id);
                Ok(None)
            },
        }
    }

    /// Executes one step of a leaf operation against the outside observation
    /// handed in, emitting progress and deciding what the runtime does next.
    /// A fatal error is returned; the tolerated races (a vanished source
    /// while copying, reading a link target, or deleting) are treated as
    /// completion, never as failure.
    pub fn work(&mut self, op: &FileOp, obs: WorkObs) -> (r: Result<WorkStatus, String>)
        requires
            op is Paste ==> obs is Copy,
            op matches FileOp::Link(l) ==> (obs matches WorkObs::Link { resolved, canon_parent }
                && l.meta is Some && (l.resolve <==> resolved is Some) && (l.relative
                <==> canon_parent is Some)),
            op is Delete ==> obs is Delete,
            op is Trash ==> obs is Trash,
        ensures
            final(self).retry_max == old(self).retry_max,
            op matches FileOp::Paste(p) ==> (obs matches WorkObs::Copy(ev) ==> work_paste_post(
                *old(self),
                *final(self),
                *p,
                ev,
                r,
            )),
            op matches FileOp::Link(l) ==> (obs matches WorkObs::Link { resolved, canon_parent }
                ==> work_link_post(*old(self), *final(self), *l, resolved, canon_parent, r)),
            op matches FileOp::Delete(d) ==> (obs matches WorkObs::Delete { removed, stale }
                ==> work_delete_post(*old(self), *final(self), *d, removed, stale, r)),
            op matches FileOp::Trash(t) ==> (obs matches WorkObs::Trash(res) ==> work_trash_post(
                *old(self),
                *final(self),
                *t,
                res,
                r,
            )),
    {
        match (op, obs) {
            (FileOp::Paste(p), WorkObs::Copy(ev)) => {
                match ev {
                    CopyEvent::Chunk(n) => {
                        if n == 0 {
                            let remove_source = if p.cut {
                                Some(p.from.clone())
                            } else {
                                None
                            };
                            self.adv(p.id, 1, 0);
                            Ok(WorkStatus::Done { remove_source })
                        } else {
                            self.adv(p.id, 0, n);
                            Ok(WorkStatus::Continue)
                        }
                    },
                    CopyEvent::SourceVanished => {
                        self.adv(p.id, 1, 0);
                        Ok(WorkStatus::Done { remove_source: None })
                    },
                    CopyEvent::Failed { code, msg } => {
                        let retryable = match code {
                            Some(c) => c == 1 || c == 93,
                            None => false,
                        };
                        if retryable && p.retry < self.retry_max {
                            self.log(p.id, "Paste task retry".to_owned());
                            let again = FileOpPaste {
                                id: p.id,
                                from: p.from.clone(),
                                to: p.to.clone(),
                                cut: p.cut,
                                follow: p.follow,
                                retry: p.retry + 1,
                            };
                            let ghost opv = again@;
                            self.queue.send(FileOp::Paste(again), Priority::Low);
                            proof {
                                assert(self.low_v() =~= old(self).low_v().push(opv));
                            }
                            Ok(WorkStatus::Retried)
                        } else {
                            Err(msg)
                        }
                    },
                }
            },
            (FileOp::Link(l), WorkObs::Link { resolved, canon_parent }) => {
                let len = if let Some(m) = &l.meta {
                    m.len
                } else {
                    0
                };
                let kind = if let Some(m) = &l.meta {
                    m.kind
                } else {
                    FileKind::Other
                };
                let base = match resolved {
                    Some(ReadLinkOutcome::Vanished) => {
                        self.log(l.id, "Link task partially done".to_owned());
                        self.adv(l.id, 1, len);
                        proof {
                            assert(self.events() =~= old(self).events() + seq![
                                Ev::Log { id: l.id as int, line: "Link task partially done"@ },
                                Ev::Adv { id: l.id as int, files: 1, bytes: len as int },
                            ]);
                        }
                        return Ok(WorkStatus::Done { remove_source: None });
                    },
                    Some(ReadLinkOutcome::Failed(e)) => {
                        return Err(e);
                    },
                    Some(ReadLinkOutcome::Target(p)) => p,
                    None => l.from.clone(),
                };
                let source = match canon_parent {
                    Some(Err(ce)) => {
                        return Err(ce);
                    },
                    Some(Ok(par)) => base.relative_to(&par),
                    None => base,
                };
                let delete_source = if l.delete {
                    Some(l.from.clone())
                } else {
                    None
                };
                Ok(WorkStatus::CreateLink { source, kind, delete_source, length: len })
            },
            (FileOp::Delete(d), WorkObs::Delete { removed, stale }) => {
                match removed {
                    RemoveOutcome::Removed => {
                        self.adv(d.id, 1, d.length);
                        Ok(WorkStatus::Done { remove_source: None })
                    },
                    RemoveOutcome::NotFound(msg) => {
                        if stale {
                            let e2 = msg.clone();
                            self.fail(d.id, msg);
                            Err(e2)
                        } else {
                            self.adv(d.id, 1, d.length);
                            Ok(WorkStatus::Done { remove_source: None })
                        }
                    },
                    RemoveOutcome::Failed(msg) => {
                        let e2 = msg.clone();
                        self.fail(d.id, msg);
                        Err(e2)
                    },
                }
            },
            (FileOp::Trash(t), WorkObs::Trash(res)) => {
                match res {
                    Ok(_) => {
                        self.adv(t.id, 1, t.length);
                        Ok(WorkStatus::Done { remove_source: None })
                    },
                    Err(e) => Err(e),
                }
            },
            _ => unreached(),
        }
    }

    /// Reports one created symlink: the single progress advance of a `Link`
    /// leaf operation, after the runtime performed the creation that a
    /// `CreateLink` decision asked for.
    pub fn link_done(&mut self, id: usize, length: u64)
        ensures
            final(self).events() == old(self).events().push(
                (Ev::Adv { id: id as int, files: 1, bytes: length as int }),
            ),
            final(self).queue == old(self).queue,
            final(self).retry_max == old(self).retry_max,
    {
        self.adv(id, 1, length);
    }
}

/// Tolerates a vanished target: removing something that is already gone is
/// not a failure; any other removal error is.
pub fn tolerate_not_found(r: RemoveOutcome) -> (res: Result<(), String>)
    ensures
        r is Removed ==> res is Ok,
        r matches RemoveOutcome::NotFound(_) ==> res is Ok,
        r matches RemoveOutcome::Failed(e) ==> res == Err::<(), String>(e),
{
    match r {
        RemoveOutcome::Removed => Ok(()),
        RemoveOutcome::NotFound(_) => Ok(()),
        RemoveOutcome::Failed(e) => Err(e),
    }
}

impl FileOpPaste {
    /// The `Link` leaf operation that pastes one symlink: it resolves the
    /// real target, keeps the stored path absolute, and removes the source
    /// exactly when the paste is a cut.
    pub fn to_link(&self, meta: MetaInfo) -> (r: FileOpLink)
        ensures
            r@ == (OpV::Link {
                id: self.id as int,
                from: self.from@,
                to: self.to@,
                meta: Some(meta),
                resolve: true,
                relative: false,
                delete: self.cut,
            }),
    {
        FileOpLink {
            id: self.id,
            from: self.from.clone(),
            to: self.to.clone(),
            meta: Some(meta),
            resolve: true,
            relative: false,
            delete: self.cut,
        }
    }
}

} // verus!
