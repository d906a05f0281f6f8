//! A probe as data: the operations it asks for, what each must come back
//! with, the operations that clean up after it, and the decisions of a run.
//!
//! Operations name paths and payloads by their index in the probe's tables,
//! and open files by a handle number of the probe's choosing.
use vstd::prelude::*;
use crate::seek::SeekFrom;

verus! {

/// Why an operation failed, as far as the probes tell causes apart.
#[derive(Clone, Copy, Debug, PartialEq, Eq, Structural)]
pub enum ErrorKind {
    NotFound,
    NotADirectory,
    IsADirectory,
    PermissionDenied,
    AlreadyExists,
    DirectoryNotEmpty,
    UnexpectedEof,
    Unsupported,
    Other,
}

/// One operation on the filesystem or the process.
#[derive(Clone, Copy, Debug, PartialEq, Eq, Structural)]
pub enum Op {
    /// Writes payload `data` as the whole content of file `path`.
    WriteFile { path: usize, data: usize },
    /// Reads the whole content of file `path`.
    ReadFile { path: usize },
    /// Fetches size and kind of `path`.
    Metadata { path: usize },
    /// Fetches the modified, accessed and created times of `path`.
    Times { path: usize },
    /// Fetches the permission bits of `path`.
    GetMode { path: usize },
    /// Sets the permission bits of `path`.
    SetMode { path: usize, mode: u32 },
    RemoveFile { path: usize },
    CreateDir { path: usize },
    /// Creates `path` and any missing directories above it.
    CreateDirAll { path: usize },
    /// Counts the entries of directory `path`.
    ReadDir { path: usize },
    RemoveDir { path: usize },
    /// Removes directory `path` with everything below it.
    RemoveDirAll { path: usize },
    /// Renames `source` to `target`.
    Rename { source: usize, target: usize },
    /// Reports the working directory.
    CurrentDir,
    ChangeDir { path: usize },
    /// Opens `path` for reading as handle `handle`.
    Open { handle: usize, path: usize },
    /// Creates `path`, emptying it if it exists, for writing as `handle`.
    Create { handle: usize, path: usize },
    /// Opens existing `path` for writing as `handle`, keeping its content.
    OpenWrite { handle: usize, path: usize },
    /// Moves `handle` and reports the new position.
    Seek { handle: usize, from: SeekFrom },
    /// Reads exactly `count` bytes through `handle`.
    ReadExact { handle: usize, count: usize },
    /// Reads through `handle` up to the end of the file.
    ReadToEnd { handle: usize },
    /// Writes all of payload `data` through `handle`.
    WriteAll { handle: usize, data: usize },
    /// Sets the length of the file behind `handle`.
    SetLen { handle: usize, len: u64 },
    Close { handle: usize },
}

/// What a step must come back with to pass.
#[derive(Clone, Copy, Debug, PartialEq, Eq, Structural)]
pub enum Expect {
    /// Any success.
    Done,
    /// Success, with exactly the bytes of the payload it names.
    Bytes(usize),
    /// Success, with the handle at this position.
    Position(u64),
    /// A regular file, not a symbolic link, of exactly this many bytes.
    File(u64),
    /// A regular file, not a symbolic link, of at least this many bytes.
    FileAtLeast(u64),
    /// A directory of exactly this many entries.
    Count(u64),
    /// Any failure: success here is what the probe reports.
    Fails,
    /// A failure of this kind.
    FailsWith(ErrorKind),
    /// Anything: the step only prepares the ground.
    Any,
    /// Success, or a failure that only says the platform lacks the feature.
    Optional,
    /// These permission bits (the low twelve, set-id and sticky bits
    /// included), unless the platform does not expose them.
    ModeIfSupported(u32),
    /// Success, with bytes other than those the step it names came back with.
    Differs(usize),
}

/// What an operation came back with.
#[derive(Debug)]
pub enum Outcome {
    Done,
    Bytes(Vec<u8>),
    Position(u64),
    Meta { size: u64, is_file: bool, is_dir: bool, is_symlink: bool },
    Count(u64),
    Mode(u32),
    Failed(ErrorKind),
}

/// One step of a probe: an operation, what it must come back with, and
/// whether a failure of it ends the probe.
#[derive(Clone, Copy, Debug, PartialEq, Eq, Structural)]
pub struct Step {
    pub op: Op,
    pub expect: Expect,
    pub required: bool,
}

/// When a clean-up operation is due, by the steps that passed: `After(i)`
/// once step `i` passed (it made what the operation removes or closes);
/// `AfterUnless(i, j)` once step `i` passed and step `j`, which would have
/// undone it, did not.
#[derive(Clone, Copy, Debug, PartialEq, Eq, Structural)]
pub enum Guard {
    After(usize),
    AfterUnless(usize, usize),
}

/// A clean-up operation and when it is due.
#[derive(Clone, Copy, Debug, PartialEq, Eq, Structural)]
pub struct Cleanup {
    pub op: Op,
    pub guard: Guard,
}

/// Whether step `i` ran and passed, by the verdicts so far.
pub open spec fn step_passed(passed: Seq<bool>, i: usize) -> bool {
    i < passed.len() && passed[i as int]
}

/// Whether a clean-up operation guarded by `g` is due.
pub open spec fn due(g: Guard, passed: Seq<bool>) -> bool {
    match g {
        Guard::After(i) => step_passed(passed, i),
        Guard::AfterUnless(i, j) => step_passed(passed, i) && !step_passed(passed, j),
    }
}

/// Whether a clean-up operation guarded by `g` is due (see `due`).
pub fn is_due(g: Guard, passed: &Vec<bool>) -> (r: bool)
    ensures
        r == due(g, passed@),
{
    match g {
        Guard::After(i) => i < passed.len() && passed[i],
        Guard::AfterUnless(i, j) => i < passed.len() && passed[i] && !(j < passed.len()
            && passed[j]),
    }
}

/// A probe: its name, the paths and payloads its operations name, its steps
/// in order, and the clean-up operations that run after them, each only
/// where the steps that made what it removes passed.
pub struct Probe {
    pub name: Vec<u8>,
    pub paths: Vec<Vec<u8>>,
    pub steps: Vec<Step>,
    pub cleanup: Vec<Cleanup>,
    pub data: Vec<Vec<u8>>,
}

/// The contents of a list of byte vectors.
pub open spec fn views(v: Seq<Vec<u8>>) -> Seq<Seq<u8>> {
    v.map_values(|b: Vec<u8>| b@)
}

impl Probe {
    /// The payloads, as byte sequences.
    pub open spec fn payloads(&self) -> Seq<Seq<u8>> {
        views(self.data@)
    }
}

/// Whether outcome `o` meets expectation `e`, given the probe's payloads and
/// the bytes each earlier step came back with.
pub open spec fn meets(e: Expect, o: Outcome, data: Seq<Seq<u8>>, seen: Seq<Seq<u8>>) -> bool {
    match e {
        Expect::Done => !(o is Failed),
        Expect::Bytes(d) => o matches Outcome::Bytes(b) && d < data.len() && b@ == data[d as int],
        Expect::Position(p) => o matches Outcome::Position(q) && q == p,
        Expect::File(n) => o matches Outcome::Meta { size, is_file, is_symlink, .. } && is_file
            && !is_symlink && size == n,
        Expect::FileAtLeast(n) => o matches Outcome::Meta { size, is_file, is_symlink, .. }
            && is_file && !is_symlink && size >= n,
        Expect::Count(n) => o matches Outcome::Count(c) && c == n,
        Expect::Fails => o is Failed,
        Expect::FailsWith(k) => o == Outcome::Failed(k),
        Expect::Any => true,
        Expect::Optional => !(o is Failed) || o == Outcome::Failed(ErrorKind::Unsupported),
        Expect::ModeIfSupported(m) => (o matches Outcome::Mode(x) && x % 4096 == m) || o
            == Outcome::Failed(ErrorKind::Unsupported),
        Expect::Differs(k) => o matches Outcome::Bytes(b) && k < seen.len() && b@ != seen[k as int],
    }
}

/// Whether `a` and `b` hold the same bytes.
pub fn same_bytes(a: &[u8], b: &[u8]) -> (r: bool)
    ensures
        r == (a@ == b@),
{
    if a.len() != b.len() {
        return false;
    }
    let mut i: usize = 0;
    while i < a.len()
        invariant
            a@.len() == b@.len(),
            i <= a@.len(),
            forall|j: int| 0 <= j < i ==> a@[j] == b@[j],
        decreases a@.len() - i,
    {
        if a[i] != b[i] {
            return false;
        }
        i = i + 1;
    }
    assert(a@ =~= b@);
    true
}

/// Whether outcome `o` meets expectation `e` (see `meets`).
pub fn judge(e: Expect, o: &Outcome, data: &Vec<Vec<u8>>, seen: &Vec<Vec<u8>>) -> (r: bool)
    ensures
        r == meets(e, *o, views(data@), views(seen@)),
{
    match e {
        Expect::Done => !matches!(o, Outcome::Failed(_)),
        Expect::Bytes(d) => match o {
            Outcome::Bytes(b) => d < data.len() && same_bytes(b.as_slice(), data[d].as_slice()),
            _ => false,
        },
        Expect::Position(p) => match o {
            Outcome::Position(q) => *q == p,
            _ => false,
        },
        Expect::File(n) => match o {
            Outcome::Meta { size, is_file, is_symlink, .. } => *is_file && !*is_symlink && *size
                == n,
            _ => false,
        },
        Expect::FileAtLeast(n) => match o {
            Outcome::Meta { size, is_file, is_symlink, .. } => *is_file && !*is_symlink && *size
                >= n,
            _ => false,
        },
        Expect::Count(n) => match o {
            Outcome::Count(c) => *c == n,
            _ => false,
        },
        Expect::Fails => matches!(o, Outcome::Failed(_)),
        Expect::FailsWith(k) => match o {
            Outcome::Failed(j) => *j == k,
            _ => false,
        },
        Expect::Any => true,
        Expect::Optional => match o {
            Outcome::Failed(k) => *k == ErrorKind::Unsupported,
            _ => true,
        },
        Expect::ModeIfSupported(m) => match o {
            Outcome::Mode(x) => *x % 4096 == m,
            Outcome::Failed(k) => *k == ErrorKind::Unsupported,
            _ => false,
        },
        Expect::Differs(k) => match o {
            Outcome::Bytes(b) => k < seen.len() && !same_bytes(b.as_slice(), seen[k].as_slice()),
            _ => false,
        },
    }
}

} // verus!
