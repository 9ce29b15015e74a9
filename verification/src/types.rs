use vstd::prelude::*;

use crate::path::FsPath;

verus! {

/// The kind of a filesystem entry, as a metadata read reports it.
#[derive(Clone, Copy, PartialEq, Eq, Structural, Debug)]
pub enum FileKind {
    Dir,
    File,
    Symlink,
    Other,
}

/// A metadata snapshot of one filesystem entry, captured at enqueue time and
/// never re-validated: the byte length and the kind of the entry.
#[derive(Clone, Copy, PartialEq, Eq, Structural, Debug)]
pub struct MetaInfo {
    pub len: u64,
    pub kind: FileKind,
}

/// Copy one regular file, optionally removing the source afterward.
pub struct FileOpPaste {
    pub id: usize,
    pub from: FsPath,
    pub to: FsPath,
    pub cut: bool,
    pub follow: bool,
    pub retry: u32,
}

/// Create one symlink.
pub struct FileOpLink {
    pub id: usize,
    pub from: FsPath,
    pub to: FsPath,
    pub meta: Option<MetaInfo>,
    pub resolve: bool,
    pub relative: bool,
    pub delete: bool,
}

/// Remove one file.
pub struct FileOpDelete {
    pub id: usize,
    pub target: FsPath,
    pub length: u64,
}

/// Move one entry to the system trash.
pub struct FileOpTrash {
    pub id: usize,
    pub target: FsPath,
    pub length: u64,
}

/// One leaf operation: a single filesystem mutation tied to a task id.
pub enum FileOp {
    Paste(FileOpPaste),
    Link(FileOpLink),
    Delete(FileOpDelete),
    Trash(FileOpTrash),
}

/// The mathematical value of a leaf operation.
pub enum OpV {
    Paste { id: int, from: Seq<Seq<char>>, to: Seq<Seq<char>>, cut: bool, follow: bool, retry: int },
    Link {
        id: int,
        from: Seq<Seq<char>>,
        to: Seq<Seq<char>>,
        meta: Option<MetaInfo>,
        resolve: bool,
        relative: bool,
        delete: bool,
    },
    Delete { id: int, target: Seq<Seq<char>>, length: int },
    Trash { id: int, target: Seq<Seq<char>>, length: int },
}

impl View for FileOpPaste {
    type V = OpV;

    open spec fn view(&self) -> OpV {
        OpV::Paste {
            id: self.id as int,
            from: self.from@,
            to: self.to@,
            cut: self.cut,
            follow: self.follow,
            retry: self.retry as int,
        }
    }
}

impl View for FileOpLink {
    type V = OpV;

    open spec fn view(&self) -> OpV {
        OpV::Link {
            id: self.id as int,
            from: self.from@,
            to: self.to@,
            meta: self.meta,
            resolve: self.resolve,
            relative: self.relative,
            delete: self.delete,
        }
    }
}

impl View for FileOpDelete {
    type V = OpV;

    open spec fn view(&self) -> OpV {
        OpV::Delete { id: self.id as int, target: self.target@, length: self.length as int }
    }
}

impl View for FileOpTrash {
    type V = OpV;

    open spec fn view(&self) -> OpV {
        OpV::Trash { id: self.id as int, target: self.target@, length: self.length as int }
    }
}

impl View for FileOp {
    type V = OpV;

    open spec fn view(&self) -> OpV {
        match self {
            FileOp::Paste(t) => t@,
            FileOp::Link(t) => t@,
            FileOp::Delete(t) => t@,
            FileOp::Trash(t) => t@,
        }
    }
}

/// The mathematical values of a sequence of leaf operations.
pub open spec fn opvs(s: Seq<FileOp>) -> Seq<OpV> {
    Seq::new(s.len(), |i: int| s[i]@)
}

/// A priority tier of the dispatch queue. `Normal` (link creation, delete,
/// retried copies) is always drained before `Low` (bulk byte copy, trash).
#[derive(Clone, Copy, PartialEq, Eq, Structural, Debug)]
pub enum Priority {
    Low,
    Normal,
}

/// The priority tier of a leaf operation: a pure function of its variant.
pub open spec fn spec_tier_of(op: OpV) -> Priority {
    match op {
        OpV::Paste { .. } => Priority::Low,
        OpV::Trash { .. } => Priority::Low,
        OpV::Link { .. } => Priority::Normal,
        OpV::Delete { .. } => Priority::Normal,
    }
}

pub fn tier_of(op: &FileOp) -> (p: Priority)
    ensures
        p == spec_tier_of(op@),
{
    match op {
        FileOp::Paste(_) => Priority::Low,
        FileOp::Trash(_) => Priority::Low,
        FileOp::Link(_) => Priority::Normal,
        FileOp::Delete(_) => Priority::Normal,
    }
}

/// One progress event, emitted toward the external aggregator.
pub enum TaskProg {
    New { id: usize, size: u64 },
    Adv { id: usize, files: u64, bytes: u64 },
    Succ { id: usize },
    Fail { id: usize, reason: String },
    Log { id: usize, line: String },
}

/// The mathematical value of a progress event.
pub enum Ev {
    New { id: int, size: int },
    Adv { id: int, files: int, bytes: int },
    Succ { id: int },
    Fail { id: int, reason: Seq<char> },
    Log { id: int, line: Seq<char> },
}

impl View for TaskProg {
    type V = Ev;

    open spec fn view(&self) -> Ev {
        match self {
            TaskProg::New { id, size } => Ev::New { id: *id as int, size: *size as int },
            TaskProg::Adv { id, files, bytes } => Ev::Adv {
                id: *id as int,
                files: *files as int,
                bytes: *bytes as int,
            },
            TaskProg::Succ { id } => Ev::Succ { id: *id as int },
            TaskProg::Fail { id, reason } => Ev::Fail { id: *id as int, reason: reason@ },
            TaskProg::Log { id, line } => Ev::Log { id: *id as int, line: line@ },
        }
    }
}

/// The mathematical values of a sequence of progress events.
pub open spec fn evs(s: Seq<TaskProg>) -> Seq<Ev> {
    Seq::new(s.len(), |i: int| s[i]@)
}

/// One directory entry as a listing observed it: its name and the outcome of
/// its metadata read.
pub struct DirEntryInfo {
    pub name: String,
    pub meta: Result<MetaInfo, String>,
}

/// The mathematical value of an observed directory entry.
pub struct EntryV {
    pub name: Seq<char>,
    pub meta: Result<MetaInfo, Seq<char>>,
}

impl View for DirEntryInfo {
    type V = EntryV;

    open spec fn view(&self) -> EntryV {
        EntryV {
            name: self.name@,
            meta: match &self.meta {
                Ok(m) => Ok(*m),
                Err(e) => Err(e@),
            },
        }
    }
}

/// The mathematical values of a sequence of observed directory entries.
pub open spec fn entry_views(s: Seq<DirEntryInfo>) -> Seq<EntryV> {
    Seq::new(s.len(), |i: int| s[i]@)
}

/// What happened when one directory of a paste walk was visited: either its
/// creation or its listing failed, or its entries were observed.
pub enum DirObservation {
    Failed(String),
    Entries(Vec<DirEntryInfo>),
}

/// What happened when one directory of a delete walk was listed.
pub enum DeleteObservation {
    ListFailed,
    Entries(Vec<DirEntryInfo>),
}

/// The outcome of removing one file.
pub enum RemoveOutcome {
    Removed,
    NotFound(String),
    Failed(String),
}

/// One event of the streaming copy of a single file: a chunk of bytes (a
/// zero-length chunk ends the stream), a vanished source, or an error carrying
/// its OS code when it has one.
pub enum CopyEvent {
    Chunk(u64),
    SourceVanished,
    Failed { code: Option<i32>, msg: String },
}

/// The outcome of reading a symlink's real target.
pub enum ReadLinkOutcome {
    Target(FsPath),
    Vanished,
    Failed(String),
}

/// The outside observation handed to the worker executor for one step of a
/// leaf operation: it must match the operation's variant.
pub enum WorkObs {
    Copy(CopyEvent),
    Link { resolved: Option<ReadLinkOutcome>, canon_parent: Option<Result<FsPath, String>> },
    Delete { removed: RemoveOutcome, stale: bool },
    Trash(Result<(), String>),
}

/// What the worker executor decided for one step of a leaf operation.
pub enum WorkStatus {
    /// The copy stream continues; more events will follow.
    Continue,
    /// The leaf operation finished; if a path is given, the source is to be
    /// removed best-effort.
    Done { remove_source: Option<FsPath> },
    /// A transient copy failure was re-enqueued with an incremented retry
    /// counter.
    Retried,
    /// A symlink is to be created at the operation's destination, pointing at
    /// `source`; `kind` tells a platform that distinguishes file and directory
    /// symlinks which call to make. Afterward `link_done` reports the result.
    CreateLink { source: FsPath, kind: FileKind, delete_source: Option<FsPath>, length: u64 },
}

} // verus!
