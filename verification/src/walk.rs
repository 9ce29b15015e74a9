use vstd::prelude::*;

use crate::file::File;
use crate::path::FsPath;
use crate::types::{
    entry_views, DeleteObservation, DirEntryInfo, DirObservation, Ev, EntryV, FileKind, FileOp,
    FileOpDelete, FileOpLink, FileOpPaste, MetaInfo, OpV, Priority,
};

verus! {

/// The progress events that visiting one observed entry of a paste walk
/// emits: a failed metadata read registers nothing and reports the failure; a
/// subdirectory is deferred silently; everything else registers its size.
pub open spec fn entry_events(id: int, e: EntryV) -> Seq<Ev> {
    match e.meta {
        Err(msg) => seq![(Ev::New { id, size: 0 }), (Ev::Fail { id, reason: msg })],
        Ok(m) => match m.kind {
            FileKind::Dir => seq![],
            _ => seq![(Ev::New { id, size: m.len as int })],
        },
    }
}

pub open spec fn paste_events(id: int, es: Seq<EntryV>) -> Seq<Ev>
    decreases es.len(),
{
    if es.len() == 0 {
        Seq::empty()
    } else {
        paste_events(id, es.drop_last()) + entry_events(id, es.last())
    }
}

/// The low-tier leaf operation that one observed entry of a paste walk
/// enqueues: one file copy per regular file.
pub open spec fn entry_low(
    id: int,
    src: Seq<Seq<char>>,
    dest: Seq<Seq<char>>,
    cut: bool,
    follow: bool,
    retry: int,
    e: EntryV,
) -> Seq<OpV> {
    match e.meta {
        Ok(m) => match m.kind {
            FileKind::File => seq![
                (OpV::Paste {
                    id,
                    from: src.push(e.name),
                    to: dest.push(e.name),
                    cut,
                    follow,
                    retry,
                }),
            ],
            _ => seq![],
        },
        Err(_) => seq![],
    }
}

pub open spec fn paste_low(
    id: int,
    src: Seq<Seq<char>>,
    dest: Seq<Seq<char>>,
    cut: bool,
    follow: bool,
    retry: int,
    es: Seq<EntryV>,
) -> Seq<OpV>
    decreases es.len(),
{
    if es.len() == 0 {
        Seq::empty()
    } else {
        paste_low(id, src, dest, cut, follow, retry, es.drop_last()) + entry_low(
            id,
            src,
            dest,
            cut,
            follow,
            retry,
            es.last(),
        )
    }
}

/// The elevated leaf operation that one observed entry of a paste walk
/// enqueues: one link creation per symlink, resolving its real target.
pub open spec fn entry_normal(
    id: int,
    src: Seq<Seq<char>>,
    dest: Seq<Seq<char>>,
    cut: bool,
    e: EntryV,
) -> Seq<OpV> {
    match e.meta {
        Ok(m) => match m.kind {
            FileKind::Symlink => seq![
                (OpV::Link {
                    id,
                    from: src.push(e.name),
                    to: dest.push(e.name),
                    meta: Some(m),
                    resolve: true,
                    relative: false,
                    delete: cut,
                }),
            ],
            _ => seq![],
        },
        Err(_) => seq![],
    }
}

pub open spec fn paste_normal(
    id: int,
    src: Seq<Seq<char>>,
    dest: Seq<Seq<char>>,
    cut: bool,
    es: Seq<EntryV>,
) -> Seq<OpV>
    decreases es.len(),
{
    if es.len() == 0 {
        Seq::empty()
    } else {
        paste_normal(id, src, dest, cut, es.drop_last()) + entry_normal(
            id,
            src,
            dest,
            cut,
            es.last(),
        )
    }
}

/// The subdirectory paths that a listing defers: one per entry whose metadata
/// read succeeded and reported a directory.
pub open spec fn entry_subdir(src: Seq<Seq<char>>, e: EntryV) -> Seq<Seq<Seq<char>>> {
    match e.meta {
        Ok(m) => match m.kind {
            FileKind::Dir => seq![src.push(e.name)],
            _ => seq![],
        },
        Err(_) => seq![],
    }
}

pub open spec fn subdirs(src: Seq<Seq<char>>, es: Seq<EntryV>) -> Seq<Seq<Seq<char>>>
    decreases es.len(),
{
    if es.len() == 0 {
        Seq::empty()
    } else {
        subdirs(src, es.drop_last()) + entry_subdir(src, es.last())
    }
}

/// The progress events that visiting one observed entry of a delete walk
/// emits: entries whose metadata read failed and subdirectories are skipped
/// silently; every other entry registers its size.
pub open spec fn del_entry_events(id: int, e: EntryV) -> Seq<Ev> {
    match e.meta {
        Ok(m) => match m.kind {
            FileKind::Dir => seq![],
            _ => seq![(Ev::New { id, size: m.len as int })],
        },
        Err(_) => seq![],
    }
}

pub open spec fn delete_events(id: int, es: Seq<EntryV>) -> Seq<Ev>
    decreases es.len(),
{
    if es.len() == 0 {
        Seq::empty()
    } else {
        delete_events(id, es.drop_last()) + del_entry_events(id, es.last())
    }
}

/// The elevated leaf operations that one observed entry of a delete walk
/// enqueues: one `Delete` per non-directory entry, never one for a directory.
pub open spec fn del_entry_ops(id: int, dir: Seq<Seq<char>>, e: EntryV) -> Seq<OpV> {
    match e.meta {
        Ok(m) => match m.kind {
            FileKind::Dir => seq![],
            _ => seq![(OpV::Delete { id, target: dir.push(e.name), length: m.len as int })],
        },
        Err(_) => seq![],
    }
}

pub open spec fn delete_ops(id: int, dir: Seq<Seq<char>>, es: Seq<EntryV>) -> Seq<OpV>
    decreases es.len(),
{
    if es.len() == 0 {
        Seq::empty()
    } else {
        delete_ops(id, dir, es.drop_last()) + del_entry_ops(id, dir, es.last())
    }
}

/// The breadth-first walk of a paste request over a directory tree: a
/// first-in-first-out queue of pending source directories, so that every
/// parent directory is created before its children.
pub struct PasteWalk {
    pub id: usize,
    pub cut: bool,
    pub follow: bool,
    pub retry: u32,
    pub root: FsPath,
    pub skip: usize,
    pub dirs: Vec<FsPath>,
}

impl PasteWalk {
    /// Every pending directory lies under the original source: its mirrored
    /// destination is well defined.
    pub open spec fn wf(self) -> bool {
        forall|i: int| 0 <= i < self.dirs_v().len() ==> self.dirs_v()[i].len() >= self.skip
    }

    /// The pending source directories, next first.
    pub open spec fn dirs_v(self) -> Seq<Seq<Seq<char>>> {
        Seq::new(self.dirs@.len(), |i: int| self.dirs@[i]@)
    }

    /// The mirrored destination of a pending source directory.
    pub open spec fn dest_of(self, src: Seq<Seq<char>>) -> Seq<Seq<char>> {
        self.root@ + src.skip(self.skip as int)
    }

    pub fn done(&self) -> (r: bool)
        ensures
            r == (self.dirs@.len() == 0),
    {
        self.dirs.len() == 0
    }

    /// The next pending source directory and its mirrored destination, which
    /// the runtime is to create and list.
    pub fn current(&self) -> (r: Option<(FsPath, FsPath)>)
        requires
            self.wf(),
        ensures
            self.dirs@.len() == 0 ==> r is None,
            self.dirs@.len() > 0 ==> (r matches Some(pair) && pair.0@ == self.dirs_v()[0]
                && pair.1@ == self.dest_of(self.dirs_v()[0])),
    {
        if self.dirs.len() == 0 {
            None
        } else {
            proof {
                assert(self.dirs_v()[0] == self.dirs@[0]@);
            }
            let src = self.dirs[0].clone();
            let dest = FsPath::strip_join(&self.root, self.skip, &self.dirs[0]);
            Some((src, dest))
        }
    }

    /// Takes the next pending directory off the queue and plans its observed
    /// contents: a failed creation or listing registers nothing, reports one
    /// failure for that directory, and the walk continues; observed entries
    /// each register their size and are scheduled — files as low-tier copies,
    /// symlinks as elevated link creations, subdirectories deferred to the
    /// back of the queue.
    pub fn visit(&mut self, file: &mut File, obs: DirObservation)
        requires
            old(self).wf(),
            old(self).dirs@.len() > 0,
        ensures
            final(self).wf(),
            final(self).id == old(self).id,
            final(self).cut == old(self).cut,
            final(self).follow == old(self).follow,
            final(self).retry == old(self).retry,
            final(self).root == old(self).root,
            final(self).skip == old(self).skip,
            final(file).retry_max == old(file).retry_max,
            obs matches DirObservation::Failed(e) ==> (final(file).events() == old(file).events()
                + seq![
                (Ev::New { id: old(self).id as int, size: 0 }),
                (Ev::Fail { id: old(self).id as int, reason: e@ }),
            ] && final(file).queue == old(file).queue
                && final(self).dirs_v() == old(self).dirs_v().skip(1)),
            obs matches DirObservation::Entries(es) ==> (final(file).events() == old(file).events()
                + paste_events(old(self).id as int, entry_views(es@))
                && final(file).low_v() == old(file).low_v() + paste_low(
                old(self).id as int,
                old(self).dirs_v()[0],
                old(self).dest_of(old(self).dirs_v()[0]),
                old(self).cut,
                old(self).follow,
                old(self).retry as int,
                entry_views(es@),
            ) && final(file).normal_v() == old(file).normal_v() + paste_normal(
                old(self).id as int,
                old(self).dirs_v()[0],
                old(self).dest_of(old(self).dirs_v()[0]),
                old(self).cut,
                entry_views(es@),
            ) && final(self).dirs_v() == old(self).dirs_v().skip(1) + subdirs(
                old(self).dirs_v()[0],
                entry_views(es@),
            )),
    {
        proof {
            assert(old(self).dirs_v()[0] == old(self).dirs@[0]@);
        }
        let src = self.dirs.remove(0);
        proof {
            assert(self.dirs_v() =~= old(self).dirs_v().skip(1));
            assert(src@ == old(self).dirs_v()[0]);
            assert(old(self).dirs_v()[0].len() >= old(self).skip);
        }
        match obs {
            DirObservation::Failed(e) => {
                file.new_event(self.id, 0);
                file.fail(self.id, e);
                proof {
                    assert(file.events() =~= old(file).events() + seq![
                        (Ev::New { id: old(self).id as int, size: 0 }),
                        (Ev::Fail { id: old(self).id as int, reason: e@ }),
                    ]);
                }
            },
            DirObservation::Entries(mut es) => {
                let dest = FsPath::strip_join(&self.root, self.skip, &src);
                let ghost id = self.id as int;
                let ghost src_v = src@;
                let ghost dest_v = dest@;
                let ghost all = es@;
                let ghost vs = entry_views(all);
                let ghost w0 = *self;
                let ghost ev0 = file.events();
                let ghost low0 = file.low_v();
                let ghost norm0 = file.normal_v();
                let ghost dirs1 = self.dirs_v();
                let ghost rm0 = file.retry_max;
                let ghost mut k: int = 0;
                while es.len() > 0
                    invariant
                        0 <= k <= all.len(),
                        es@ == all.skip(k),
                        vs == entry_views(all),
                        vs.len() == all.len(),
                        src@ == src_v,
                        dest@ == dest_v,
                        src_v.len() >= w0.skip,
                        dest_v == w0.root@ + src_v.skip(w0.skip as int),
                        self.id == w0.id,
                        self.cut == w0.cut,
                        self.follow == w0.follow,
                        self.retry == w0.retry,
                        self.root == w0.root,
                        self.skip == w0.skip,
                        id == w0.id as int,
                        self.wf(),
                        file.retry_max == rm0,
                        file.events() == ev0 + paste_events(id, vs.take(k)),
                        file.low_v() == low0 + paste_low(
                            id,
                            src_v,
                            dest_v,
                            w0.cut,
                            w0.follow,
                            w0.retry as int,
                            vs.take(k),
                        ),
                        file.normal_v() == norm0 + paste_normal(id, src_v, dest_v, w0.cut, vs.take(k)),
                        self.dirs_v() == dirs1 + subdirs(src_v, vs.take(k)),
                    decreases es@.len(),
                {
                    let e = es.remove(0);
                    proof {
                        assert(es@ =~= all.skip(k + 1));
                        assert(e == all[k]);
                        assert(e@ == vs[k]);
                    }
                    let DirEntryInfo { name, meta } = e;
                    proof {
                        assert(name@ == vs[k].name);
                    }
                    let ghost low_pre = file.low_v();
                    let ghost norm_pre = file.normal_v();
                    let ghost dirs_pre = self.dirs_v();
                    match meta {
                        Err(msg) => {
                            file.new_event(self.id, 0);
                            file.fail(self.id, msg);
                        },
                        Ok(m) => {
                            match m.kind {
                                FileKind::Dir => {
                                    let child = src.join(&name);
                                    proof {
                                        assert(child@ == src_v.push(vs[k].name));
                                    }
                                    self.dirs.push(child);
                                    proof {
                                        assert(self.dirs_v() =~= dirs_pre.push(src_v.push(vs[k].name)));
                                        assert forall|i: int|
                                            0 <= i < self.dirs_v().len() implies self.dirs_v()[i].len()
                                            >= self.skip by {
                                            if i < dirs_pre.len() {
                                                assert(dirs_pre[i].len() >= w0.skip);
                                            }
                                        }
                                    }
                                },
                                FileKind::File => {
                                    file.new_event(self.id, m.len);
                                    let op = FileOpPaste {
                                        id: self.id,
                                        from: src.join(&name),
                                        to: dest.join(&name),
                                        cut: self.cut,
                                        follow: self.follow,
                                        retry: self.retry,
                                    };
                                    let ghost opv = op@;
                                    proof {
                                        assert(op.from@ == src_v.push(vs[k].name));
                                        assert(op.to@ == dest_v.push(vs[k].name));
                                    }
                                    file.queue.send(FileOp::Paste(op), Priority::Low);
                                    proof {
                                        assert(file.low_v() =~= low_pre.push(opv));
                                    }
                                },
                                FileKind::Symlink => {
                                    file.new_event(self.id, m.len);
                                    let op = FileOpLink {
                                        id: self.id,
                                        from: src.join(&name),
                                        to: dest.join(&name),
                                        meta: Some(m),
                                        resolve: true,
                                        relative: false,
                                        delete: self.cut,
                                    };
                                    let ghost opv = op@;
                                    proof {
                                        assert(op.from@ == src_v.push(vs[k].name));
                                        assert(op.to@ == dest_v.push(vs[k].name));
                                    }
                                    file.queue.send(FileOp::Link(op), Priority::Normal);
                                    proof {
                                        assert(file.normal_v() =~= norm_pre.push(opv));
                                    }
                                },
                                FileKind::Other => {
                                    file.new_event(self.id, m.len);
                                },
                            }
                        },
                    }
                    proof {
                        k = k + 1;
                        assert(vs.take(k).drop_last() =~= vs.take(k - 1));
                        assert(vs.take(k).last() == vs[k - 1]);
                        assert(file.events() =~= ev0 + paste_events(id, vs.take(k)));
                        assert(file.low_v() =~= low0 + paste_low(
                            id,
                            src_v,
                            dest_v,
                            w0.cut,
                            w0.follow,
                            w0.retry as int,
                            vs.take(k),
                        ));
                        assert(file.normal_v() =~= norm0 + paste_normal(
                            id,
                            src_v,
                            dest_v,
                            w0.cut,
                            vs.take(k),
                        ));
                        assert(self.dirs_v() =~= dirs1 + subdirs(src_v, vs.take(k)));
                    }
                }
                proof {
                    assert(vs.take(k) =~= vs);
                }
            },
        }
    }

    /// Reports the directory-level planning unit done, once the whole tree is
    /// drained.
    pub fn finish(self, file: &mut File)
        requires
            self.dirs@.len() == 0,
        ensures
            final(file).events() == old(file).events().push((Ev::Succ { id: self.id as int })),
            final(file).queue == old(file).queue,
            final(file).retry_max == old(file).retry_max,
    {
        file.succ(self.id);
    }
}

/// The depth-biased walk of a delete request over a directory tree: pending
/// directories form a stack, new subdirectories are pushed to the front.
/// Directories themselves are never enqueued for deletion.
pub struct DeleteWalk {
    pub id: usize,
    pub dirs: Vec<FsPath>,
}

impl DeleteWalk {
    /// The pending directories, next first.
    pub open spec fn dirs_v(self) -> Seq<Seq<Seq<char>>> {
        Seq::new(self.dirs@.len(), |i: int| self.dirs@[i]@)
    }

    pub fn done(&self) -> (r: bool)
        ensures
            r == (self.dirs@.len() == 0),
    {
        self.dirs.len() == 0
    }

    /// The next pending directory, which the runtime is to list.
    pub fn current(&self) -> (r: Option<FsPath>)
        ensures
            self.dirs@.len() == 0 ==> r is None,
            self.dirs@.len() > 0 ==> (r matches Some(p) && p@ == self.dirs_v()[0]),
    {
        if self.dirs.len() == 0 {
            None
        } else {
            Some(self.dirs[0].clone())
        }
    }

    /// Takes the next pending directory off the stack and plans its observed
    /// listing: a directory that cannot be listed is skipped silently, as is
    /// every entry whose metadata read failed; subdirectories go to the front
    /// of the stack; every other entry registers its size and enqueues one
    /// elevated `Delete` leaf operation.
    pub fn visit(&mut self, file: &mut File, obs: DeleteObservation)
        requires
            old(self).dirs@.len() > 0,
        ensures
            final(self).id == old(self).id,
            final(file).retry_max == old(file).retry_max,
            final(file).queue.low@ == old(file).queue.low@,
            obs is ListFailed ==> *final(file) == *old(file)
                && final(self).dirs_v() == old(self).dirs_v().skip(1),
            obs matches DeleteObservation::Entries(es) ==> (final(file).events()
                == old(file).events() + delete_events(old(self).id as int, entry_views(es@))
                && final(file).normal_v() == old(file).normal_v() + delete_ops(
                old(self).id as int,
                old(self).dirs_v()[0],
                entry_views(es@),
            ) && final(self).dirs_v() == subdirs(old(self).dirs_v()[0], entry_views(es@)).reverse()
                + old(self).dirs_v().skip(1)),
    {
        let src = self.dirs.remove(0);
        proof {
            assert(self.dirs_v() =~= old(self).dirs_v().skip(1));
            assert(src@ == old(self).dirs_v()[0]);
        }
        match obs {
            DeleteObservation::ListFailed => {},
            DeleteObservation::Entries(mut es) => {
                let ghost id = self.id as int;
                let ghost src_v = src@;
                let ghost all = es@;
                let ghost vs = entry_views(all);
                let ghost ev0 = file.events();
                let ghost norm0 = file.normal_v();
                let ghost dirs1 = self.dirs_v();
                let ghost rm0 = file.retry_max;
                let ghost low_fixed = file.queue.low@;
                let ghost mut k: int = 0;
                while es.len() > 0
                    invariant
                        0 <= k <= all.len(),
                        es@ == all.skip(k),
                        vs == entry_views(all),
                        vs.len() == all.len(),
                        src@ == src_v,
                        self.id == old(self).id,
                        id == self.id as int,
                        file.retry_max == rm0,
                        file.queue.low@ == low_fixed,
                        file.events() == ev0 + delete_events(id, vs.take(k)),
                        file.normal_v() == norm0 + delete_ops(id, src_v, vs.take(k)),
                        self.dirs_v() == subdirs(src_v, vs.take(k)).reverse() + dirs1,
                    decreases es@.len(),
                {
                    let e = es.remove(0);
                    proof {
                        assert(es@ =~= all.skip(k + 1));
                        assert(e == all[k]);
                        assert(e@ == vs[k]);
                    }
                    let DirEntryInfo { name, meta } = e;
                    proof {
                        assert(name@ == vs[k].name);
                    }
                    let ghost norm_pre = file.normal_v();
                    let ghost dirs_pre = self.dirs_v();
                    match meta {
                        Err(_) => {},
                        Ok(m) => {
                            match m.kind {
                                FileKind::Dir => {
                                    let child = src.join(&name);
                                    proof {
                                        assert(child@ == src_v.push(vs[k].name));
                                    }
                                    self.dirs.insert(0, child);
                                    proof {
                                        assert(self.dirs_v() =~= seq![src_v.push(vs[k].name)]
                                            + dirs_pre);
                                    }
                                },
                                _ => {
                                    file.new_event(self.id, m.len);
                                    let op = FileOpDelete {
                                        id: self.id,
                                        target: src.join(&name),
                                        length: m.len,
                                    };
                                    let ghost opv = op@;
                                    proof {
                                        assert(op.target@ == src_v.push(vs[k].name));
                                    }
                                    file.queue.send(FileOp::Delete(op), Priority::Normal);
                                    proof {
                                        assert(file.normal_v() =~= norm_pre.push(opv));
                                    }
                                },
                            }
                        },
                    }
                    proof {
                        k = k + 1;
                        assert(vs.take(k).drop_last() =~= vs.take(k - 1));
                        assert(vs.take(k).last() == vs[k - 1]);
                        assert(file.events() =~= ev0 + delete_events(id, vs.take(k)));
                        assert(file.normal_v() =~= norm0 + delete_ops(id, src_v, vs.take(k)));
                        assert(subdirs(src_v, vs.take(k)).reverse() =~= entry_subdir(
                            src_v,
                            vs[k - 1],
                        ).reverse() + subdirs(src_v, vs.take(k - 1)).reverse());
                        assert(self.dirs_v() =~= subdirs(src_v, vs.take(k)).reverse() + dirs1);
                    }
                }
                proof {
                    assert(vs.take(k) =~= vs);
                }
            },
        }
    }

    /// Reports the planning unit done, once the walk completes.
    pub fn finish(self, file: &mut File)
        requires
            self.dirs@.len() == 0,
        ensures
            final(file).events() == old(file).events().push((Ev::Succ { id: self.id as int })),
            final(file).queue == old(file).queue,
            final(file).retry_max == old(file).retry_max,
    {
        file.succ(self.id);
    }
}

} // verus!
