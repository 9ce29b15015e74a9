use vstd::prelude::*;

use crate::file::{transient_code, work_paste_post, File};
use crate::types::{CopyEvent, Ev, EntryV, FileKind, FileOpPaste, OpV, WorkStatus};
use crate::walk::{delete_ops, subdirs};

verus! {

/// The bytes advanced over a sequence of progress events.
pub open spec fn adv_bytes(s: Seq<Ev>) -> int
    decreases s.len(),
{
    if s.len() == 0 {
        0
    } else {
        adv_bytes(s.drop_last()) + (match s.last() {
            Ev::Adv { bytes, .. } => bytes,
            _ => 0,
        })
    }
}

/// The files advanced over a sequence of progress events.
pub open spec fn adv_files(s: Seq<Ev>) -> int
    decreases s.len(),
{
    if s.len() == 0 {
        0
    } else {
        adv_files(s.drop_last()) + (match s.last() {
            Ev::Adv { files, .. } => files,
            _ => 0,
        })
    }
}

/// The total size registered over a sequence of progress events.
pub open spec fn new_total(s: Seq<Ev>) -> int
    decreases s.len(),
{
    if s.len() == 0 {
        0
    } else {
        new_total(s.drop_last()) + (match s.last() {
            Ev::New { size, .. } => size,
            _ => 0,
        })
    }
}

/// The progress events that a whole copy stream makes the executor emit, one
/// step at a time: a non-zero chunk advances its bytes, the terminating zero
/// chunk advances the one file; vanishes and failures emit no advance here.
pub open spec fn copy_events(id: int, evs: Seq<CopyEvent>) -> Seq<Ev>
    decreases evs.len(),
{
    if evs.len() == 0 {
        Seq::empty()
    } else {
        copy_events(id, evs.drop_last()) + (match evs.last() {
            CopyEvent::Chunk(n) => if n == 0 {
                seq![Ev::Adv { id, files: 1, bytes: 0 }]
            } else {
                seq![Ev::Adv { id, files: 0, bytes: n as int }]
            },
            _ => seq![],
        })
    }
}

/// The byte count a copy stream carries in its chunks.
pub open spec fn chunk_sum(evs: Seq<CopyEvent>) -> int
    decreases evs.len(),
{
    if evs.len() == 0 {
        0
    } else {
        chunk_sum(evs.drop_last()) + (match evs.last() {
            CopyEvent::Chunk(n) => n as int,
            _ => 0,
        })
    }
}

/// How many terminating zero chunks a copy stream holds.
pub open spec fn zero_count(evs: Seq<CopyEvent>) -> int
    decreases evs.len(),
{
    if evs.len() == 0 {
        0
    } else {
        zero_count(evs.drop_last()) + (match evs.last() {
            CopyEvent::Chunk(n) => if n == 0 {
                1int
            } else {
                0int
            },
            _ => 0int,
        })
    }
}

/// A copy stream that ran to clean termination: chunks only, every chunk
/// before the end non-zero, and the terminating chunk zero.
pub open spec fn clean_stream(evs: Seq<CopyEvent>) -> bool {
    &&& evs.len() > 0
    &&& forall|i: int| 0 <= i < evs.len() - 1 ==> (#[trigger] evs[i] matches CopyEvent::Chunk(n)
        && n > 0)
    &&& evs.last() matches CopyEvent::Chunk(n) && n == 0
}

/// Law: one executor step on a chunk event extends the emitted events by
/// exactly that chunk's contribution to `copy_events`.
pub proof fn lemma_copy_step(
    pre: File,
    post: File,
    p: FileOpPaste,
    ev: CopyEvent,
    r: Result<WorkStatus, String>,
)
    requires
        work_paste_post(pre, post, p, ev, r),
        ev is Chunk,
    ensures
        post.events() == pre.events() + copy_events(p.id as int, seq![ev]),
{
    assert(seq![ev].drop_last() =~= Seq::<CopyEvent>::empty());
    assert(seq![ev].last() == ev);
    assert(copy_events(p.id as int, Seq::<CopyEvent>::empty()) == Seq::<Ev>::empty());
    assert(post.events() =~= pre.events() + copy_events(p.id as int, seq![ev]));
}

/// The bytes advanced over the events of any copy stream are exactly the
/// bytes its chunks carried.
pub proof fn lemma_copy_bytes(id: int, evs: Seq<CopyEvent>)
    ensures
        adv_bytes(copy_events(id, evs)) == chunk_sum(evs),
        adv_files(copy_events(id, evs)) == zero_count(evs),
    decreases evs.len(),
{
    if evs.len() > 0 {
        lemma_copy_bytes(id, evs.drop_last());
        let head = copy_events(id, evs.drop_last());
        match evs.last() {
            CopyEvent::Chunk(n) => {
                let e = if n == 0 {
                    Ev::Adv { id, files: 1, bytes: 0 }
                } else {
                    Ev::Adv { id, files: 0, bytes: n as int }
                };
                assert(copy_events(id, evs) =~= head.push(e));
                assert(copy_events(id, evs).drop_last() =~= head);
            },
            _ => {
                assert(copy_events(id, evs) =~= head);
            },
        }
    }
}

/// A stream whose chunks are all non-zero terminates nothing.
pub proof fn lemma_zero_count_none(evs: Seq<CopyEvent>)
    requires
        forall|i: int| 0 <= i < evs.len() ==> (#[trigger] evs[i] matches CopyEvent::Chunk(n) && n
            > 0),
    ensures
        zero_count(evs) == 0,
    decreases evs.len(),
{
    if evs.len() > 0 {
        assert(forall|i: int|
            0 <= i < evs.drop_last().len() ==> (#[trigger] evs.drop_last()[i]
                matches CopyEvent::Chunk(n) && n > 0));
        lemma_zero_count_none(evs.drop_last());
    }
}

/// Law: for a copy leaf whose stream ran to clean termination and delivered
/// the announced total, the bytes advanced across all its `Adv` events equal
/// the total its `New` registered, and exactly one file is counted — byte
/// conservation per leaf operation.
pub proof fn lemma_paste_conservation(id: int, total: int, evs: Seq<CopyEvent>)
    requires
        clean_stream(evs),
        chunk_sum(evs) == total,
    ensures
        adv_bytes(copy_events(id, evs)) == new_total(seq![(Ev::New { id, size: total })]),
        adv_files(copy_events(id, evs)) == 1,
{
    lemma_copy_bytes(id, evs);
    assert(forall|i: int|
        0 <= i < evs.drop_last().len() ==> (#[trigger] evs.drop_last()[i]
            matches CopyEvent::Chunk(n) && n > 0));
    lemma_zero_count_none(evs.drop_last());
    assert(seq![(Ev::New { id, size: total })].drop_last() =~= Seq::<Ev>::empty());
    assert(new_total(Seq::<Ev>::empty()) == 0);
    assert(seq![(Ev::New { id, size: total })].last() == (Ev::New { id, size: total }));
}

/// Law: every non-copy leaf (link, delete, trash) advances exactly the byte
/// total its planning registered — byte conservation again, directly.
pub proof fn lemma_leaf_conservation(id: int, len: int)
    ensures
        adv_bytes(seq![(Ev::Adv { id, files: 1, bytes: len })]) == new_total(
            seq![(Ev::New { id, size: len })],
        ),
        adv_files(seq![(Ev::Adv { id, files: 1, bytes: len })]) == 1,
{
    assert(seq![(Ev::Adv { id, files: 1, bytes: len })].drop_last() =~= Seq::<Ev>::empty());
    assert(seq![(Ev::New { id, size: len })].drop_last() =~= Seq::<Ev>::empty());
    assert(adv_bytes(Seq::<Ev>::empty()) == 0);
    assert(adv_files(Seq::<Ev>::empty()) == 0);
    assert(new_total(Seq::<Ev>::empty()) == 0);
    assert(seq![(Ev::Adv { id, files: 1, bytes: len })].last() == (Ev::Adv {
        id,
        files: 1,
        bytes: len,
    }));
    assert(seq![(Ev::New { id, size: len })].last() == (Ev::New { id, size: len }));
}

/// How many entries of a listing become delete leaves: those whose metadata
/// read succeeded and that are not directories.
pub open spec fn live_count(es: Seq<EntryV>) -> int
    decreases es.len(),
{
    if es.len() == 0 {
        0
    } else {
        live_count(es.drop_last()) + (match es.last().meta {
            Ok(m) => match m.kind {
                FileKind::Dir => 0int,
                _ => 1int,
            },
            Err(_) => 0int,
        })
    }
}

/// Law: a delete walk enqueues one `Delete` leaf per non-directory entry and
/// never one for a directory, whatever the listing held.
pub proof fn lemma_delete_ops_shape(id: int, dir: Seq<Seq<char>>, es: Seq<EntryV>)
    ensures
        delete_ops(id, dir, es).len() == live_count(es),
        forall|j: int| 0 <= j < delete_ops(id, dir, es).len() ==> delete_ops(id, dir, es)[j] is Delete,
    decreases es.len(),
{
    if es.len() > 0 {
        lemma_delete_ops_shape(id, dir, es.drop_last());
    }
}

/// Law: deleting a directory that holds only regular files enqueues exactly
/// one `Delete` per file — under the directory's path, with the file's size —
/// and defers no subdirectory; directories disappear only through the
/// post-order pruner.
pub proof fn lemma_delete_per_file(id: int, dir: Seq<Seq<char>>, es: Seq<EntryV>)
    requires
        forall|i: int| 0 <= i < es.len() ==> (#[trigger] es[i].meta matches Ok(m) && m.kind
            == FileKind::File),
    ensures
        delete_ops(id, dir, es).len() == es.len(),
        forall|j: int|
            0 <= j < es.len() ==> (#[trigger] delete_ops(id, dir, es)[j] matches OpV::Delete {
                id: i2,
                target,
                length,
            } && i2 == id && target == dir.push(es[j].name) && (es[j].meta matches Ok(m) && length
                == m.len as int)),
        subdirs(dir, es).len() == 0,
    decreases es.len(),
{
    if es.len() > 0 {
        assert(forall|i: int|
            0 <= i < es.drop_last().len() ==> (#[trigger] es.drop_last()[i].meta matches Ok(m)
                && m.kind == FileKind::File));
        lemma_delete_per_file(id, dir, es.drop_last());
        assert(es.last().meta matches Ok(m) && m.kind == FileKind::File);
        assert forall|j: int| 0 <= j < es.len() implies (#[trigger] delete_ops(id, dir, es)[j]
            matches OpV::Delete { id: i2, target, length } && i2 == id && target == dir.push(
            es[j].name,
        ) && (es[j].meta matches Ok(m) && length == m.len as int)) by {
            if j < es.len() - 1 {
                assert(delete_ops(id, dir, es)[j] == delete_ops(id, dir, es.drop_last())[j]);
                assert(es.drop_last()[j] == es[j]);
            } else {
                assert(delete_ops(id, dir, es)[j] == delete_ops(id, dir, es).last());
            }
        }
    }
}

/// How many attempts a copy makes when every attempt fails with a transient
/// code: one per retry level up to the bound, then the fatal one.
pub open spec fn attempts_to_failure(retry: int, max: int) -> int
    decreases max - retry,
{
    if retry >= max {
        1
    } else {
        1 + attempts_to_failure(retry + 1, max)
    }
}

/// Law: with a configured maximum of `max` retries, a copy that keeps failing
/// transiently makes exactly `max - retry + 1` attempts from counter `retry`
/// on — so `max + 1` attempts in all from a fresh operation, the last one
/// fatal.
pub proof fn lemma_retry_attempts(retry: int, max: int)
    requires
        0 <= retry <= max,
    ensures
        attempts_to_failure(retry, max) == max - retry + 1,
    decreases max - retry,
{
    if retry < max {
        lemma_retry_attempts(retry + 1, max);
    }
}

/// Law: each transient copy failure is an observable state transition — below
/// the bound the very operation reappears at the low tier with its counter
/// incremented by one and no failure is reported; at the bound the error is
/// returned and nothing is re-enqueued.
pub proof fn lemma_retry_step(
    pre: File,
    post: File,
    p: FileOpPaste,
    code: Option<i32>,
    msg: String,
    r: Result<WorkStatus, String>,
)
    requires
        work_paste_post(pre, post, p, (CopyEvent::Failed { code, msg }), r),
        transient_code(code),
    ensures
        p.retry < pre.retry_max ==> (r == Ok::<WorkStatus, String>(WorkStatus::Retried)
            && post.low_v() == pre.low_v().push(
            (OpV::Paste {
                id: p.id as int,
                from: p.from@,
                to: p.to@,
                cut: p.cut,
                follow: p.follow,
                retry: p.retry + 1,
            }),
        )),
        p.retry >= pre.retry_max ==> r == Err::<WorkStatus, String>(msg) && post == pre,
{
}


/// A whole run of the copy executor: each stream event was one `work` step on
/// the same leaf operation, each step starting from the state the previous
/// one left.
pub open spec fn copy_run(
    p: FileOpPaste,
    states: Seq<File>,
    evs: Seq<CopyEvent>,
    rs: Seq<Result<WorkStatus, String>>,
) -> bool {
    &&& states.len() == evs.len() + 1
    &&& rs.len() == evs.len()
    &&& forall|i: int|
        0 <= i < evs.len() ==> work_paste_post(states[i], #[trigger] states[i + 1], p, evs[i], rs[i])
}

/// Law: over a whole run of chunk events, the emitted event log grows by
/// exactly `copy_events` — nothing more is emitted and nothing is lost.
pub proof fn lemma_copy_run_events(
    p: FileOpPaste,
    states: Seq<File>,
    evs: Seq<CopyEvent>,
    rs: Seq<Result<WorkStatus, String>>,
)
    requires
        copy_run(p, states, evs, rs),
        forall|i: int| 0 <= i < evs.len() ==> evs[i] is Chunk,
    ensures
        states.last().events() == states[0].events() + copy_events(p.id as int, evs),
    decreases evs.len(),
{
    let n = evs.len() as int;
    if n == 0 {
        assert(states.last() == states[0]);
        assert(states[0].events() + copy_events(p.id as int, evs) =~= states[0].events());
    } else {
        let states2 = states.drop_last();
        let evs2 = evs.drop_last();
        let rs2 = rs.drop_last();
        assert forall|i: int|
            0 <= i < evs2.len() implies work_paste_post(
            states2[i],
            #[trigger] states2[i + 1],
            p,
            evs2[i],
            rs2[i],
        ) by {
            assert(work_paste_post(states[i], states[i + 1], p, evs[i], rs[i]));
        }
        lemma_copy_run_events(p, states2, evs2, rs2);
        assert(work_paste_post(states[n - 1], states[n], p, evs[n - 1], rs[n - 1]));
        lemma_copy_step(states[n - 1], states[n], p, evs[n - 1], rs[n - 1]);
        assert(seq![evs[n - 1]].drop_last() =~= Seq::<CopyEvent>::empty());
        assert(copy_events(p.id as int, Seq::<CopyEvent>::empty()) == Seq::<Ev>::empty());
        assert(states.last().events() =~= states[0].events() + copy_events(p.id as int, evs));
    }
}

/// Law (byte conservation, whole run): over a run of the copy executor on a
/// clean stream that delivered the announced total, the event log grows by
/// advances whose bytes sum to exactly the total the planner registered, and
/// exactly one file is counted.
pub proof fn lemma_run_conservation(
    p: FileOpPaste,
    states: Seq<File>,
    evs: Seq<CopyEvent>,
    rs: Seq<Result<WorkStatus, String>>,
    total: int,
)
    requires
        copy_run(p, states, evs, rs),
        clean_stream(evs),
        chunk_sum(evs) == total,
    ensures
        states.last().events() == states[0].events() + copy_events(p.id as int, evs),
        adv_bytes(copy_events(p.id as int, evs)) == total,
        adv_files(copy_events(p.id as int, evs)) == 1,
{
    assert forall|i: int| 0 <= i < evs.len() implies evs[i] is Chunk by {
        if i < evs.len() - 1 {
            assert(evs[i] matches CopyEvent::Chunk(m) && m > 0);
        } else {
            assert(evs[i] == evs.last());
        }
    }
    lemma_copy_run_events(p, states, evs, rs);
    lemma_paste_conservation(p.id as int, total, evs);
    assert(new_total(seq![(Ev::New { id: p.id as int, size: total })]) == total) by {
        assert(seq![(Ev::New { id: p.id as int, size: total })].drop_last() =~= Seq::<Ev>::empty());
        assert(new_total(Seq::<Ev>::empty()) == 0);
    }
}


} // verus!
