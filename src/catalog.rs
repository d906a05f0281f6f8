//! The probes of the catalog, each built with the expectations its steps are
//! judged by. Each doc comment lists what the probe's path indices stand
//! for. Every probe's expectations agree with the model of its files.
use vstd::prelude::*;
use vstd::string::StringSliceAdditionalSpecFns;
use crate::model::{window, resized, repeated, decimal, labelled, repeat_to, resize_to};
use crate::seek::{Cursor, SeekFrom};
use crate::probe::{views, Cleanup, ErrorKind, Expect, Guard, Op, Probe, Step};
use crate::fsmodel::{
    agrees, agrees_split, apply, copies_are_repeated, run_all, unknown, writes_append, Files,
};

verus! {

/// The bytes of `s`.
pub fn text(s: &str) -> (r: Vec<u8>)
    ensures
        r@ == s.spec_bytes(),
{
    vstd::slice::slice_to_vec(s.as_bytes())
}

/// A step whose failure ends the probe.
pub open spec fn must(op: Op, expect: Expect) -> Step {
    Step { op, expect, required: true }
}

/// A step whose failure is reported, after which the probe goes on.
pub open spec fn may(op: Op, expect: Expect) -> Step {
    Step { op, expect, required: false }
}

fn must_step(op: Op, expect: Expect) -> (r: Step)
    ensures
        r == must(op, expect),
{
    Step { op, expect, required: true }
}

fn may_step(op: Op, expect: Expect) -> (r: Step)
    ensures
        r == may(op, expect),
{
    Step { op, expect, required: false }
}

/// A clean-up operation due once step `i` passed.
pub open spec fn after(op: Op, i: usize) -> Cleanup {
    Cleanup { op, guard: Guard::After(i) }
}

/// A clean-up operation due once step `i` passed and step `j` did not.
pub open spec fn after_unless(op: Op, i: usize, j: usize) -> Cleanup {
    Cleanup { op, guard: Guard::AfterUnless(i, j) }
}

fn after_op(op: Op, i: usize) -> (r: Cleanup)
    ensures
        r == after(op, i),
{
    Cleanup { op, guard: Guard::After(i) }
}

fn after_unless_op(op: Op, i: usize, j: usize) -> (r: Cleanup)
    ensures
        r == after_unless(op, i, j),
{
    Cleanup { op, guard: Guard::AfterUnless(i, j) }
}

/// Content of the seek probe's file.
pub open spec fn seek_content() -> Seq<u8> {
    "0123456789ABCDEF\n".spec_bytes()
}

/// Writes a 17-byte file, reads its first 5 bytes, seeks to offset 5 and
/// reads 5 more. Paths: 0, the file.
#[verifier::spinoff_prover]
pub fn seek_operations() -> (r: Probe)
    ensures
        agrees(r.steps@, r.payloads(), unknown()),
        r.name@ == "Seek operations".spec_bytes(),
        views(r.paths@) == seq!["/tmp/wasm_seek_test.txt".spec_bytes()],
        r.payloads() == seq![
            seek_content(),
            window(seek_content(), 0, 5),
            window(seek_content(), 5, 5),
        ],
        seek_content().len() == 17,
        r.paths@.len() == 1,
        r.steps@ == seq![
            must(Op::WriteFile { path: 0, data: 0 }, Expect::Done),
            must(Op::Open { handle: 0, path: 0 }, Expect::Done),
            must(Op::ReadExact { handle: 0, count: 5 }, Expect::Bytes(1)),
            must(Op::Seek { handle: 0, from: SeekFrom::Start(5) }, Expect::Position(5)),
            must(Op::ReadExact { handle: 0, count: 5 }, Expect::Bytes(2)),
        ],
        r.cleanup@ == seq![
            after(Op::Close { handle: 0 }, 1),
            after(Op::RemoveFile { path: 0 }, 0),
        ],
{
    let content = text("0123456789ABCDEF\n");
    proof {
        reveal_strlit("0123456789ABCDEF\n");
        vstd::string::is_ascii_spec_bytes("0123456789ABCDEF\n");
    }
    assert(content@.len() == 17);
    let mut c = Cursor::open(content.clone());
    let first = c.read_exact(5).unwrap();
    let _ = c.seek(SeekFrom::Start(5));
    let second = c.read_exact(5).unwrap();
    let data = vec![content, first, second];
    assert(views(data@) =~= seq![
        seek_content(),
        window(seek_content(), 0, 5),
        window(seek_content(), 5, 5),
    ]);
    let steps = vec![
        must_step(Op::WriteFile { path: 0, data: 0 }, Expect::Done),
        must_step(Op::Open { handle: 0, path: 0 }, Expect::Done),
        must_step(Op::ReadExact { handle: 0, count: 5 }, Expect::Bytes(1)),
        must_step(Op::Seek { handle: 0, from: SeekFrom::Start(5) }, Expect::Position(5)),
        must_step(Op::ReadExact { handle: 0, count: 5 }, Expect::Bytes(2)),
    ];
    let cleanup = vec![
        after_op(Op::Close { handle: 0 }, 1),
        after_op(Op::RemoveFile { path: 0 }, 0),
    ];
    let name = text("Seek operations");
    let paths = vec![text("/tmp/wasm_seek_test.txt")];
    assert(views(paths@) =~= seq!["/tmp/wasm_seek_test.txt".spec_bytes()]);
    proof {
        reveal_with_fuel(agrees, 6);
    }
    Probe { name, paths, steps, cleanup, data }
}

/// Content of the descriptor probe's file.
pub open spec fn descriptor_content() -> Seq<u8> {
    "File descriptor operations test\nLine 2\nLine 3".spec_bytes()
}

/// Opens a 45-byte file and checks the positions seeks report: 0 at first,
/// the length at the end, 0 back at the start; reads it whole, then seeks
/// to the start and 10 bytes on, and reads 5 bytes there. Paths: 0, the
/// file.
#[verifier::spinoff_prover]
pub fn descriptor_positions() -> (r: Probe)
    ensures
        agrees(r.steps@, r.payloads(), unknown()),
        r.name@ == "File descriptor operations".spec_bytes(),
        views(r.paths@) == seq!["/tmp/wasm_fd_ops.txt".spec_bytes()],
        descriptor_content().len() == 45,
        r.payloads() == seq![descriptor_content(), window(descriptor_content(), 10, 5)],
        r.paths@.len() == 1,
        r.steps@ == seq![
            must(Op::WriteFile { path: 0, data: 0 }, Expect::Done),
            must(Op::Open { handle: 0, path: 0 }, Expect::Done),
            must(Op::Seek { handle: 0, from: SeekFrom::Current(0) }, Expect::Position(0)),
            must(Op::Seek { handle: 0, from: SeekFrom::End(0) }, Expect::Position(45)),
            must(Op::Seek { handle: 0, from: SeekFrom::Start(0) }, Expect::Position(0)),
            must(Op::ReadToEnd { handle: 0 }, Expect::Bytes(0)),
            must(Op::Seek { handle: 0, from: SeekFrom::Start(0) }, Expect::Position(0)),
            must(Op::Seek { handle: 0, from: SeekFrom::Current(10) }, Expect::Position(10)),
            must(Op::ReadExact { handle: 0, count: 5 }, Expect::Bytes(1)),
        ],
        r.cleanup@ == seq![
            after(Op::Close { handle: 0 }, 1),
            after(Op::RemoveFile { path: 0 }, 0),
        ],
{
    let content = text("File descriptor operations test\nLine 2\nLine 3");
    proof {
        reveal_strlit("File descriptor operations test\nLine 2\nLine 3");
        vstd::string::is_ascii_spec_bytes("File descriptor operations test\nLine 2\nLine 3");
    }
    assert(content@.len() == 45);
    let mut c = Cursor::open(content.clone());
    let at_open = c.position();
    let at_end = c.seek(SeekFrom::End(0)).unwrap();
    let at_start = c.seek(SeekFrom::Start(0)).unwrap();
    let _ = c.read_to_end();
    let _ = c.seek(SeekFrom::Start(0));
    let ahead = c.seek(SeekFrom::Current(10)).unwrap();
    let part = c.read_exact(5).unwrap();
    let data = vec![content, part];
    assert(views(data@) =~= seq![descriptor_content(), window(descriptor_content(), 10, 5)]);
    let steps = vec![
        must_step(Op::WriteFile { path: 0, data: 0 }, Expect::Done),
        must_step(Op::Open { handle: 0, path: 0 }, Expect::Done),
        must_step(Op::Seek { handle: 0, from: SeekFrom::Current(0) }, Expect::Position(at_open)),
        must_step(Op::Seek { handle: 0, from: SeekFrom::End(0) }, Expect::Position(at_end)),
        must_step(Op::Seek { handle: 0, from: SeekFrom::Start(0) }, Expect::Position(at_start)),
        must_step(Op::ReadToEnd { handle: 0 }, Expect::Bytes(0)),
        must_step(Op::Seek { handle: 0, from: SeekFrom::Start(0) }, Expect::Position(0)),
        must_step(Op::Seek { handle: 0, from: SeekFrom::Current(10) }, Expect::Position(ahead)),
        must_step(Op::ReadExact { handle: 0, count: 5 }, Expect::Bytes(1)),
    ];
    let cleanup = vec![
        after_op(Op::Close { handle: 0 }, 1),
        after_op(Op::RemoveFile { path: 0 }, 0),
    ];
    let name = text("File descriptor operations");
    let paths = vec![text("/tmp/wasm_fd_ops.txt")];
    assert(views(paths@) =~= seq!["/tmp/wasm_fd_ops.txt".spec_bytes()]);
    proof {
        assert(descriptor_content().subrange(0, 45) =~= descriptor_content());
        reveal_with_fuel(agrees, 10);
    }
    Probe { name, paths, steps, cleanup, data }
}

/// Content of the truncation probe's file.
pub open spec fn truncate_content() -> Seq<u8> {
    "This is a longer file content that will be truncated".spec_bytes()
}

/// Length the truncation probe cuts its file to.
pub const TRUNCATED_LEN: u64 = 10;

/// Writes a 52-byte file, cuts it to 10 bytes through a handle that keeps
/// its content, and reads back its first 10 bytes; then recreates it in
/// overwrite mode, which empties it, sets its length to 10 again and reads
/// back 10 zero bytes. Paths: 0, the file.
#[verifier::spinoff_prover]
pub fn file_truncate() -> (r: Probe)
    ensures
        agrees(r.steps@, r.payloads(), unknown()),
        r.name@ == "File truncate operations".spec_bytes(),
        views(r.paths@) == seq!["/tmp/wasm_truncate_test.txt".spec_bytes()],
        truncate_content().len() == 52,
        r.payloads() == seq![
            truncate_content(),
            resized(truncate_content(), 10),
            resized(Seq::empty(), 10),
        ],
        r.paths@.len() == 1,
        r.steps@ == seq![
            must(Op::WriteFile { path: 0, data: 0 }, Expect::Done),
            must(Op::Metadata { path: 0 }, Expect::File(52)),
            must(Op::OpenWrite { handle: 0, path: 0 }, Expect::Done),
            must(Op::SetLen { handle: 0, len: 10 }, Expect::Done),
            must(Op::Close { handle: 0 }, Expect::Done),
            must(Op::ReadFile { path: 0 }, Expect::Bytes(1)),
            must(Op::Create { handle: 1, path: 0 }, Expect::Done),
            must(Op::SetLen { handle: 1, len: 10 }, Expect::Done),
            must(Op::Close { handle: 1 }, Expect::Done),
            must(Op::ReadFile { path: 0 }, Expect::Bytes(2)),
        ],
        r.cleanup@ == seq![
            after(Op::Close { handle: 0 }, 2),
            after(Op::Close { handle: 1 }, 6),
            after(Op::RemoveFile { path: 0 }, 0),
        ],
{
    let content = text("This is a longer file content that will be truncated");
    proof {
        reveal_strlit("This is a longer file content that will be truncated");
        vstd::string::is_ascii_spec_bytes("This is a longer file content that will be truncated");
    }
    assert(content@.len() == 52);
    let size = content.len() as u64;
    let cut = resize_to(content.as_slice(), TRUNCATED_LEN as usize);
    let empty: Vec<u8> = Vec::new();
    let zeros = resize_to(empty.as_slice(), TRUNCATED_LEN as usize);
    let data = vec![content, cut, zeros];
    assert(views(data@) =~= seq![
        truncate_content(),
        resized(truncate_content(), 10),
        resized(Seq::empty(), 10),
    ]);
    let steps = vec![
        must_step(Op::WriteFile { path: 0, data: 0 }, Expect::Done),
        must_step(Op::Metadata { path: 0 }, Expect::File(size)),
        must_step(Op::OpenWrite { handle: 0, path: 0 }, Expect::Done),
        must_step(Op::SetLen { handle: 0, len: TRUNCATED_LEN }, Expect::Done),
        must_step(Op::Close { handle: 0 }, Expect::Done),
        must_step(Op::ReadFile { path: 0 }, Expect::Bytes(1)),
        must_step(Op::Create { handle: 1, path: 0 }, Expect::Done),
        must_step(Op::SetLen { handle: 1, len: TRUNCATED_LEN }, Expect::Done),
        must_step(Op::Close { handle: 1 }, Expect::Done),
        must_step(Op::ReadFile { path: 0 }, Expect::Bytes(2)),
    ];
    let cleanup = vec![
        after_op(Op::Close { handle: 0 }, 2),
        after_op(Op::Close { handle: 1 }, 6),
        after_op(Op::RemoveFile { path: 0 }, 0),
    ];
    let name = text("File truncate operations");
    let paths = vec![text("/tmp/wasm_truncate_test.txt")];
    assert(views(paths@) =~= seq!["/tmp/wasm_truncate_test.txt".spec_bytes()]);
    proof {
        reveal_with_fuel(agrees, 11);
    }
    Probe { name, paths, steps, cleanup, data }
}

/// Writes a file, renames it, reads the new name back and checks the old
/// name is gone. Paths: 0, the source; 1, the target.
pub fn file_rename() -> (r: Probe)
    ensures
        agrees(r.steps@, r.payloads(), unknown()),
        r.name@ == "File rename operations".spec_bytes(),
        views(r.paths@) == seq!["/tmp/wasm_rename_source.txt".spec_bytes(), "/tmp/wasm_rename_target.txt".spec_bytes()],
        r.payloads() == seq!["Original content".spec_bytes()],
        r.paths@.len() == 2,
        r.steps@ == seq![
            must(Op::WriteFile { path: 0, data: 0 }, Expect::Done),
            must(Op::Rename { source: 0, target: 1 }, Expect::Done),
            must(Op::ReadFile { path: 1 }, Expect::Bytes(0)),
            must(Op::ReadFile { path: 0 }, Expect::FailsWith(ErrorKind::NotFound)),
        ],
        r.cleanup@ == seq![
            after_unless(Op::RemoveFile { path: 0 }, 0, 1),
            after(Op::RemoveFile { path: 1 }, 1),
        ],
{
    let data = vec![text("Original content")];
    assert(views(data@) =~= seq!["Original content".spec_bytes()]);
    let steps = vec![
        must_step(Op::WriteFile { path: 0, data: 0 }, Expect::Done),
        must_step(Op::Rename { source: 0, target: 1 }, Expect::Done),
        must_step(Op::ReadFile { path: 1 }, Expect::Bytes(0)),
        must_step(Op::ReadFile { path: 0 }, Expect::FailsWith(ErrorKind::NotFound)),
    ];
    let cleanup = vec![
        after_unless_op(Op::RemoveFile { path: 0 }, 0, 1),
        after_op(Op::RemoveFile { path: 1 }, 1),
    ];
    let name = text("File rename operations");
    let paths = vec![text("/tmp/wasm_rename_source.txt"), text("/tmp/wasm_rename_target.txt")];
    assert(views(paths@) =~= seq!["/tmp/wasm_rename_source.txt".spec_bytes(), "/tmp/wasm_rename_target.txt".spec_bytes()]);
    proof {
        reveal_with_fuel(agrees, 5);
    }
    Probe { name, paths, steps, cleanup, data }
}

/// The chunk the large file is assembled from.
pub open spec fn large_chunk() -> Seq<u8> {
    "0123456789ABCDEF".spec_bytes()
}

/// Size the large file must reach.
pub const LARGE_TARGET: usize = 102400;

/// Number of whole chunks the large file is written with.
pub const LARGE_CHUNKS: usize = 6400;

/// Writes a file of 102400 bytes as 6400 copies of a 16-byte chunk, then
/// checks its size and reads it back whole. Paths: 0, the file.
#[verifier::spinoff_prover]
pub fn large_file() -> (r: Probe)
    ensures
        agrees(r.steps@, r.payloads(), unknown()),
        r.name@ == "Large file operations".spec_bytes(),
        views(r.paths@) == seq!["/tmp/wasm_large_file.txt".spec_bytes()],
        large_chunk().len() == 16,
        LARGE_CHUNKS * large_chunk().len() == LARGE_TARGET,
        r.payloads() == seq![large_chunk(), repeated(large_chunk(), LARGE_TARGET as nat)],
        r.paths@.len() == 1,
        r.steps@.len() == LARGE_CHUNKS + 4,
        r.steps@[0] == must(Op::Create { handle: 0, path: 0 }, Expect::Done),
        forall|i: int|
            1 <= i <= LARGE_CHUNKS ==> #[trigger] r.steps@[i] == must(
                Op::WriteAll { handle: 0, data: 0 },
                Expect::Done,
            ),
        r.steps@[LARGE_CHUNKS + 1] == must(Op::Close { handle: 0 }, Expect::Done),
        r.steps@[LARGE_CHUNKS + 2] == must(
            Op::Metadata { path: 0 },
            Expect::FileAtLeast(LARGE_TARGET as u64),
        ),
        r.steps@[LARGE_CHUNKS + 3] == must(Op::ReadFile { path: 0 }, Expect::Bytes(1)),
        r.cleanup@ == seq![
            after(Op::Close { handle: 0 }, 0),
            after(Op::RemoveFile { path: 0 }, 0),
        ],
{
    let chunk = text("0123456789ABCDEF");
    proof {
        reveal_strlit("0123456789ABCDEF");
        vstd::string::is_ascii_spec_bytes("0123456789ABCDEF");
    }
    assert(chunk@.len() == 16);
    let whole = repeat_to(chunk.as_slice(), LARGE_TARGET);
    let data = vec![chunk, whole];
    assert(views(data@) =~= seq![large_chunk(), repeated(large_chunk(), LARGE_TARGET as nat)]);
    let mut steps: Vec<Step> = Vec::new();
    steps.push(must_step(Op::Create { handle: 0, path: 0 }, Expect::Done));
    let mut i: usize = 0;
    while i < LARGE_CHUNKS
        invariant
            i <= LARGE_CHUNKS,
            steps@.len() == i + 1,
            steps@[0] == must(Op::Create { handle: 0, path: 0 }, Expect::Done),
            forall|j: int|
                1 <= j <= i ==> #[trigger] steps@[j] == must(
                    Op::WriteAll { handle: 0, data: 0 },
                    Expect::Done,
                ),
        decreases LARGE_CHUNKS - i,
    {
        steps.push(must_step(Op::WriteAll { handle: 0, data: 0 }, Expect::Done));
        i = i + 1;
    }
    steps.push(must_step(Op::Close { handle: 0 }, Expect::Done));
    steps.push(must_step(Op::Metadata { path: 0 }, Expect::FileAtLeast(LARGE_TARGET as u64)));
    steps.push(must_step(Op::ReadFile { path: 0 }, Expect::Bytes(1)));
    proof {
        let all = steps@;
        let pd = views(data@);
        let head = all.take(1);
        let writes = all.subrange(1, LARGE_CHUNKS as int + 1);
        let tail = all.skip(LARGE_CHUNKS as int + 1);
        assert(all =~= head + (writes + tail));
        agrees_split(head, writes + tail, pd, unknown());
        let f1 = run_all(head, pd, unknown());
        agrees_split(writes, tail, pd, f1);
        reveal_with_fuel(agrees, 2);
        reveal_with_fuel(run_all, 2);
        assert(f1 == apply(unknown(), Op::Create { handle: 0, path: 0 }, pd));
        assert forall|i: int| 0 <= i < writes.len() implies #[trigger] writes[i] == (Step {
            op: Op::WriteAll { handle: 0, data: 0 },
            expect: Expect::Done,
            required: true,
        }) by {
            assert(writes[i] == all[i + 1]);
        }
        writes_append(writes, pd, f1, 0, 0, 0, Seq::empty());
        copies_are_repeated(large_chunk(), LARGE_CHUNKS as nat);
        let x = crate::fsmodel::copies(large_chunk(), LARGE_CHUNKS as nat);
        assert(Seq::<u8>::empty() + x =~= x);
        reveal_with_fuel(agrees, 4);
    }
    let cleanup = vec![
        after_op(Op::Close { handle: 0 }, 0),
        after_op(Op::RemoveFile { path: 0 }, 0),
    ];
    let name = text("Large file operations");
    let paths = vec![text("/tmp/wasm_large_file.txt")];
    assert(views(paths@) =~= seq!["/tmp/wasm_large_file.txt".spec_bytes()]);
    Probe { name, paths, steps, cleanup, data }
}

/// Five operations that must fail: reading a missing file, listing a
/// missing directory, writing into a missing directory, removing a missing
/// file, and removing a regular file as a directory. Paths: 0, a missing
/// file; 1, a missing directory; 2, a file in it; 3, a regular file.
#[verifier::spinoff_prover]
pub fn error_conditions() -> (r: Probe)
    ensures
        agrees(r.steps@, r.payloads(), unknown()),
        r.name@ == "Error conditions".spec_bytes(),
        views(r.paths@) == seq!["/tmp/nonexistent_file_12345.txt".spec_bytes(), "/tmp/nonexistent_dir_12345".spec_bytes(), "/tmp/nonexistent_dir_12345/file.txt".spec_bytes(), "/tmp/wasm_error_test.txt".spec_bytes()],
        r.payloads() == seq!["test".spec_bytes()],
        r.paths@.len() == 4,
        r.steps@ == seq![
            must(Op::ReadFile { path: 0 }, Expect::FailsWith(ErrorKind::NotFound)),
            must(Op::ReadDir { path: 1 }, Expect::FailsWith(ErrorKind::NotFound)),
            must(Op::WriteFile { path: 2, data: 0 }, Expect::FailsWith(ErrorKind::NotFound)),
            must(Op::RemoveFile { path: 0 }, Expect::FailsWith(ErrorKind::NotFound)),
            must(Op::WriteFile { path: 3, data: 0 }, Expect::Done),
            must(Op::RemoveDir { path: 3 }, Expect::FailsWith(ErrorKind::NotADirectory)),
        ],
        r.cleanup@ == seq![
            after(Op::RemoveFile { path: 3 }, 4),
        ],
{
    let data = vec![text("test")];
    assert(views(data@) =~= seq!["test".spec_bytes()]);
    let steps = vec![
        must_step(Op::ReadFile { path: 0 }, Expect::FailsWith(ErrorKind::NotFound)),
        must_step(Op::ReadDir { path: 1 }, Expect::FailsWith(ErrorKind::NotFound)),
        must_step(Op::WriteFile { path: 2, data: 0 }, Expect::FailsWith(ErrorKind::NotFound)),
        must_step(Op::RemoveFile { path: 0 }, Expect::FailsWith(ErrorKind::NotFound)),
        must_step(Op::WriteFile { path: 3, data: 0 }, Expect::Done),
        must_step(Op::RemoveDir { path: 3 }, Expect::FailsWith(ErrorKind::NotADirectory)),
    ];
    let cleanup = vec![
        after_op(Op::RemoveFile { path: 3 }, 4),
    ];
    let name = text("Error conditions");
    let paths = vec![
        text("/tmp/nonexistent_file_12345.txt"),
        text("/tmp/nonexistent_dir_12345"),
        text("/tmp/nonexistent_dir_12345/file.txt"),
        text("/tmp/wasm_error_test.txt"),
    ];
    assert(views(paths@) =~= seq!["/tmp/nonexistent_file_12345.txt".spec_bytes(), "/tmp/nonexistent_dir_12345".spec_bytes(), "/tmp/nonexistent_dir_12345/file.txt".spec_bytes(), "/tmp/wasm_error_test.txt".spec_bytes()]);
    proof {
        reveal_with_fuel(agrees, 7);
    }
    Probe { name, paths, steps, cleanup, data }
}

/// Permission bits the permissions probe sets (rw-r--r--).
pub const PROBE_MODE: u32 = 0o644;

/// Writes a file, reads its permission bits, sets them to rw-r--r--, reads
/// them back, and reads the file: where the platform does not expose the
/// bits, only the last read is owed. Paths: 0, the file.
pub fn file_permissions() -> (r: Probe)
    ensures
        agrees(r.steps@, r.payloads(), unknown()),
        r.name@ == "File permissions".spec_bytes(),
        views(r.paths@) == seq!["/tmp/wasm_perms_test.txt".spec_bytes()],
        r.payloads() == seq!["permissions test".spec_bytes()],
        r.paths@.len() == 1,
        r.steps@ == seq![
            must(Op::WriteFile { path: 0, data: 0 }, Expect::Done),
            must(Op::GetMode { path: 0 }, Expect::Optional),
            must(Op::SetMode { path: 0, mode: PROBE_MODE }, Expect::Optional),
            must(Op::GetMode { path: 0 }, Expect::ModeIfSupported(PROBE_MODE)),
            must(Op::ReadFile { path: 0 }, Expect::Bytes(0)),
        ],
        r.cleanup@ == seq![
            after(Op::RemoveFile { path: 0 }, 0),
        ],
{
    let data = vec![text("permissions test")];
    assert(views(data@) =~= seq!["permissions test".spec_bytes()]);
    let steps = vec![
        must_step(Op::WriteFile { path: 0, data: 0 }, Expect::Done),
        must_step(Op::GetMode { path: 0 }, Expect::Optional),
        must_step(Op::SetMode { path: 0, mode: PROBE_MODE }, Expect::Optional),
        must_step(Op::GetMode { path: 0 }, Expect::ModeIfSupported(PROBE_MODE)),
        must_step(Op::ReadFile { path: 0 }, Expect::Bytes(0)),
    ];
    let cleanup = vec![
        after_op(Op::RemoveFile { path: 0 }, 0),
    ];
    let name = text("File permissions");
    let paths = vec![text("/tmp/wasm_perms_test.txt")];
    assert(views(paths@) =~= seq!["/tmp/wasm_perms_test.txt".spec_bytes()]);
    proof {
        reveal_with_fuel(agrees, 6);
    }
    Probe { name, paths, steps, cleanup, data }
}

/// Reads the working directory, creates a directory and changes into it,
/// checks the working directory is no longer what it was, and changes to
/// the root. Paths: 0, the directory; 1, the root.
pub fn working_directory() -> (r: Probe)
    ensures
        agrees(r.steps@, r.payloads(), unknown()),
        r.name@ == "Working directory operations".spec_bytes(),
        views(r.paths@) == seq!["/tmp/wasm_cwd_test".spec_bytes(), "/".spec_bytes()],
        r.payloads() == Seq::<Seq<u8>>::empty(),
        r.paths@.len() == 2,
        r.steps@ == seq![
            must(Op::CurrentDir, Expect::Done),
            must(Op::CreateDir { path: 0 }, Expect::Done),
            must(Op::ChangeDir { path: 0 }, Expect::Done),
            must(Op::CurrentDir, Expect::Differs(0)),
            must(Op::ChangeDir { path: 1 }, Expect::Done),
        ],
        r.cleanup@ == seq![
            after_unless(Op::ChangeDir { path: 1 }, 2, 4),
            after(Op::RemoveDir { path: 0 }, 1),
        ],
{
    let data: Vec<Vec<u8>> = Vec::new();
    assert(views(data@) =~= Seq::<Seq<u8>>::empty());
    let steps = vec![
        must_step(Op::CurrentDir, Expect::Done),
        must_step(Op::CreateDir { path: 0 }, Expect::Done),
        must_step(Op::ChangeDir { path: 0 }, Expect::Done),
        must_step(Op::CurrentDir, Expect::Differs(0)),
        must_step(Op::ChangeDir { path: 1 }, Expect::Done),
    ];
    let cleanup = vec![
        after_unless_op(Op::ChangeDir { path: 1 }, 2, 4),
        after_op(Op::RemoveDir { path: 0 }, 1),
    ];
    let name = text("Working directory operations");
    let paths = vec![text("/tmp/wasm_cwd_test"), text("/")];
    assert(views(paths@) =~= seq!["/tmp/wasm_cwd_test".spec_bytes(), "/".spec_bytes()]);
    proof {
        reveal_with_fuel(agrees, 6);
    }
    Probe { name, paths, steps, cleanup, data }
}

/// Writes a file and fetches its times, rewrites it and fetches them
/// again; a platform without file times passes. Paths: 0, the file.
pub fn file_timestamps() -> (r: Probe)
    ensures
        agrees(r.steps@, r.payloads(), unknown()),
        r.name@ == "File timestamps".spec_bytes(),
        views(r.paths@) == seq!["/tmp/wasm_timestamp_test.txt".spec_bytes()],
        r.payloads() == seq!["timestamp test".spec_bytes(), "updated content".spec_bytes()],
        r.paths@.len() == 1,
        r.steps@ == seq![
            must(Op::WriteFile { path: 0, data: 0 }, Expect::Done),
            must(Op::Times { path: 0 }, Expect::Optional),
            must(Op::WriteFile { path: 0, data: 1 }, Expect::Done),
            must(Op::Times { path: 0 }, Expect::Optional),
        ],
        r.cleanup@ == seq![
            after(Op::RemoveFile { path: 0 }, 0),
        ],
{
    let data = vec![text("timestamp test"), text("updated content")];
    assert(views(data@) =~= seq!["timestamp test".spec_bytes(), "updated content".spec_bytes()]);
    let steps = vec![
        must_step(Op::WriteFile { path: 0, data: 0 }, Expect::Done),
        must_step(Op::Times { path: 0 }, Expect::Optional),
        must_step(Op::WriteFile { path: 0, data: 1 }, Expect::Done),
        must_step(Op::Times { path: 0 }, Expect::Optional),
    ];
    let cleanup = vec![
        after_op(Op::RemoveFile { path: 0 }, 0),
    ];
    let name = text("File timestamps");
    let paths = vec![text("/tmp/wasm_timestamp_test.txt")];
    assert(views(paths@) =~= seq!["/tmp/wasm_timestamp_test.txt".spec_bytes()]);
    proof {
        reveal_with_fuel(agrees, 5);
    }
    Probe { name, paths, steps, cleanup, data }
}

/// Content of the file operations probe's file.
pub open spec fn greeting() -> Seq<u8> {
    "Hello from WASM test!\nThis is a test file.\n".spec_bytes()
}

/// Writes a file, reads it back, checks it is a regular file of the size
/// written, and removes it. Paths: 0, the file.
pub fn file_operations() -> (r: Probe)
    ensures
        agrees(r.steps@, r.payloads(), unknown()),
        r.name@ == "File operations".spec_bytes(),
        views(r.paths@) == seq!["/tmp/wasm_test_file.txt".spec_bytes()],
        greeting().len() == 43,
        r.payloads() == seq![greeting()],
        r.paths@.len() == 1,
        r.steps@ == seq![
            must(Op::WriteFile { path: 0, data: 0 }, Expect::Done),
            must(Op::ReadFile { path: 0 }, Expect::Bytes(0)),
            must(Op::Metadata { path: 0 }, Expect::File(43)),
            must(Op::RemoveFile { path: 0 }, Expect::Done),
        ],
        r.cleanup@ == seq![
            after_unless(Op::RemoveFile { path: 0 }, 0, 3),
        ],
{
    let content = text("Hello from WASM test!\nThis is a test file.\n");
    proof {
        reveal_strlit("Hello from WASM test!\nThis is a test file.\n");
        vstd::string::is_ascii_spec_bytes("Hello from WASM test!\nThis is a test file.\n");
    }
    assert(content@.len() == 43);
    let size = content.len() as u64;
    let data = vec![content];
    assert(views(data@) =~= seq![greeting()]);
    let steps = vec![
        must_step(Op::WriteFile { path: 0, data: 0 }, Expect::Done),
        must_step(Op::ReadFile { path: 0 }, Expect::Bytes(0)),
        must_step(Op::Metadata { path: 0 }, Expect::File(size)),
        must_step(Op::RemoveFile { path: 0 }, Expect::Done),
    ];
    let cleanup = vec![
        after_unless_op(Op::RemoveFile { path: 0 }, 0, 3),
    ];
    let name = text("File operations");
    let paths = vec![text("/tmp/wasm_test_file.txt")];
    assert(views(paths@) =~= seq!["/tmp/wasm_test_file.txt".spec_bytes()]);
    proof {
        reveal_with_fuel(agrees, 5);
    }
    Probe { name, paths, steps, cleanup, data }
}

/// Creates a directory with one file in it, lists it (one entry), removes
/// it with everything below, and checks the file went with it. Paths: 0,
/// the directory; 1, the file in it.
pub fn directory_operations() -> (r: Probe)
    ensures
        agrees(r.steps@, r.payloads(), unknown()),
        r.name@ == "Directory operations".spec_bytes(),
        views(r.paths@) == seq!["/tmp/wasm_test_dir".spec_bytes(), "/tmp/wasm_test_dir/test.txt".spec_bytes()],
        r.payloads() == seq!["test content".spec_bytes()],
        r.paths@.len() == 2,
        r.steps@ == seq![
            must(Op::CreateDir { path: 0 }, Expect::Done),
            must(Op::WriteFile { path: 1, data: 0 }, Expect::Done),
            must(Op::ReadDir { path: 0 }, Expect::Count(1)),
            must(Op::RemoveDirAll { path: 0 }, Expect::Done),
            must(Op::Metadata { path: 1 }, Expect::FailsWith(ErrorKind::NotFound)),
        ],
        r.cleanup@ == seq![
            after_unless(Op::RemoveDirAll { path: 0 }, 0, 3),
        ],
{
    let data = vec![text("test content")];
    assert(views(data@) =~= seq!["test content".spec_bytes()]);
    let steps = vec![
        must_step(Op::CreateDir { path: 0 }, Expect::Done),
        must_step(Op::WriteFile { path: 1, data: 0 }, Expect::Done),
        must_step(Op::ReadDir { path: 0 }, Expect::Count(1)),
        must_step(Op::RemoveDirAll { path: 0 }, Expect::Done),
        must_step(Op::Metadata { path: 1 }, Expect::FailsWith(ErrorKind::NotFound)),
    ];
    let cleanup = vec![
        after_unless_op(Op::RemoveDirAll { path: 0 }, 0, 3),
    ];
    let name = text("Directory operations");
    let paths = vec![text("/tmp/wasm_test_dir"), text("/tmp/wasm_test_dir/test.txt")];
    assert(views(paths@) =~= seq!["/tmp/wasm_test_dir".spec_bytes(), "/tmp/wasm_test_dir/test.txt".spec_bytes()]);
    proof {
        reveal_with_fuel(agrees, 6);
    }
    Probe { name, paths, steps, cleanup, data }
}

/// Clears the probe's directory, creates two levels of directories in one
/// call, and writes and reads back a file in the deeper one. Paths: 0, the
/// top directory; 1, the directory below it; 2, the file in that.
pub fn nested_paths() -> (r: Probe)
    ensures
        agrees(r.steps@, r.payloads(), unknown()),
        r.name@ == "Path operations".spec_bytes(),
        views(r.paths@) == seq!["/tmp/wasm_path_test".spec_bytes(), "/tmp/wasm_path_test/nested".spec_bytes(), "/tmp/wasm_path_test/nested/file.txt".spec_bytes()],
        r.payloads() == seq!["nested content".spec_bytes()],
        r.paths@.len() == 3,
        r.steps@ == seq![
            may(Op::RemoveDirAll { path: 0 }, Expect::Any),
            must(Op::CreateDirAll { path: 1 }, Expect::Done),
            must(Op::WriteFile { path: 2, data: 0 }, Expect::Done),
            must(Op::ReadFile { path: 2 }, Expect::Bytes(0)),
        ],
        r.cleanup@ == seq![
            after(Op::RemoveDirAll { path: 0 }, 1),
        ],
{
    let data = vec![text("nested content")];
    assert(views(data@) =~= seq!["nested content".spec_bytes()]);
    let steps = vec![
        may_step(Op::RemoveDirAll { path: 0 }, Expect::Any),
        must_step(Op::CreateDirAll { path: 1 }, Expect::Done),
        must_step(Op::WriteFile { path: 2, data: 0 }, Expect::Done),
        must_step(Op::ReadFile { path: 2 }, Expect::Bytes(0)),
    ];
    let cleanup = vec![
        after_op(Op::RemoveDirAll { path: 0 }, 1),
    ];
    let name = text("Path operations");
    let paths = vec![
        text("/tmp/wasm_path_test"),
        text("/tmp/wasm_path_test/nested"),
        text("/tmp/wasm_path_test/nested/file.txt"),
    ];
    assert(views(paths@) =~= seq!["/tmp/wasm_path_test".spec_bytes(), "/tmp/wasm_path_test/nested".spec_bytes(), "/tmp/wasm_path_test/nested/file.txt".spec_bytes()]);
    proof {
        reveal_with_fuel(agrees, 5);
    }
    Probe { name, paths, steps, cleanup, data }
}

/// Writes a file and fetches its metadata (a regular file of the size
/// written) and its times. Paths: 0, the file.
pub fn stat_operations() -> (r: Probe)
    ensures
        agrees(r.steps@, r.payloads(), unknown()),
        r.name@ == "Stat operations".spec_bytes(),
        views(r.paths@) == seq!["/tmp/wasm_stat_test.txt".spec_bytes()],
        "stat test content".spec_bytes().len() == 17,
        r.payloads() == seq!["stat test content".spec_bytes()],
        r.paths@.len() == 1,
        r.steps@ == seq![
            must(Op::WriteFile { path: 0, data: 0 }, Expect::Done),
            must(Op::Metadata { path: 0 }, Expect::File(17)),
            must(Op::Times { path: 0 }, Expect::Done),
        ],
        r.cleanup@ == seq![
            after(Op::RemoveFile { path: 0 }, 0),
        ],
{
    let content = text("stat test content");
    proof {
        reveal_strlit("stat test content");
        vstd::string::is_ascii_spec_bytes("stat test content");
    }
    let size = content.len() as u64;
    let data = vec![content];
    assert(views(data@) =~= seq!["stat test content".spec_bytes()]);
    let steps = vec![
        must_step(Op::WriteFile { path: 0, data: 0 }, Expect::Done),
        must_step(Op::Metadata { path: 0 }, Expect::File(size)),
        must_step(Op::Times { path: 0 }, Expect::Done),
    ];
    let cleanup = vec![
        after_op(Op::RemoveFile { path: 0 }, 0),
    ];
    let name = text("Stat operations");
    let paths = vec![text("/tmp/wasm_stat_test.txt")];
    assert(views(paths@) =~= seq!["/tmp/wasm_stat_test.txt".spec_bytes()]);
    proof {
        reveal_with_fuel(agrees, 4);
    }
    Probe { name, paths, steps, cleanup, data }
}

/// Content written to the file numbered `n` of a batch.
pub open spec fn numbered_content(n: nat) -> Seq<u8> {
    "Content for file ".spec_bytes() + decimal(n) + "\n".spec_bytes()
}

fn numbered(n: u64) -> (r: Vec<u8>)
    ensures
        r@ == numbered_content(n as nat),
{
    let prefix = text("Content for file ");
    let suffix = text("\n");
    labelled(prefix.as_slice(), n, suffix.as_slice())
}

/// The steps of the simultaneous-handles probe agree with the model.
#[verifier::spinoff_prover]
proof fn handles_agree(all: Seq<Step>, pd: Seq<Seq<u8>>)
    requires
        pd.len() == 3,
        all == seq![
            must(Op::Create { handle: 0, path: 0 }, Expect::Done),
            must(Op::Create { handle: 1, path: 1 }, Expect::Done),
            must(Op::Create { handle: 2, path: 2 }, Expect::Done),
            must(Op::WriteAll { handle: 0, data: 0 }, Expect::Done),
            must(Op::WriteAll { handle: 1, data: 1 }, Expect::Done),
            must(Op::WriteAll { handle: 2, data: 2 }, Expect::Done),
            must(Op::Close { handle: 0 }, Expect::Done),
            must(Op::Close { handle: 1 }, Expect::Done),
            must(Op::Close { handle: 2 }, Expect::Done),
            must(Op::ReadFile { path: 0 }, Expect::Bytes(0)),
            must(Op::ReadFile { path: 1 }, Expect::Bytes(1)),
            must(Op::ReadFile { path: 2 }, Expect::Bytes(2)),
        ],
    ensures
        agrees(all, pd, unknown()),
{
    let opened = all.take(6);
    let checked = all.skip(6);
    assert(all =~= opened + checked);
    agrees_split(opened, checked, pd, unknown());
    reveal_with_fuel(agrees, 7);
    reveal_with_fuel(run_all, 7);
    let empty = Seq::<u8>::empty();
    assert(empty.take(0) + pd[0] =~= pd[0]);
    assert(empty.take(0) + pd[1] =~= pd[1]);
    assert(empty.take(0) + pd[2] =~= pd[2]);
    let written = run_all(opened, pd, unknown());
    assert(written.content[0] == Some(pd[0]));
    assert(written.content[1] == Some(pd[1]));
    assert(written.content[2] == Some(pd[2]));
}

/// Opens three files for writing at once, writes to each its own content,
/// closes them all, and reads each back. Paths: 0 to 2, the files.
pub fn multiple_handles() -> (r: Probe)
    ensures
        agrees(r.steps@, r.payloads(), unknown()),
        r.name@ == "Multiple file descriptors".spec_bytes(),
        views(r.paths@) == seq!["/tmp/wasm_fd1.txt".spec_bytes(), "/tmp/wasm_fd2.txt".spec_bytes(), "/tmp/wasm_fd3.txt".spec_bytes()],
        r.payloads() == seq![numbered_content(1), numbered_content(2), numbered_content(3)],
        r.paths@.len() == 3,
        r.steps@ == seq![
            must(Op::Create { handle: 0, path: 0 }, Expect::Done),
            must(Op::Create { handle: 1, path: 1 }, Expect::Done),
            must(Op::Create { handle: 2, path: 2 }, Expect::Done),
            must(Op::WriteAll { handle: 0, data: 0 }, Expect::Done),
            must(Op::WriteAll { handle: 1, data: 1 }, Expect::Done),
            must(Op::WriteAll { handle: 2, data: 2 }, Expect::Done),
            must(Op::Close { handle: 0 }, Expect::Done),
            must(Op::Close { handle: 1 }, Expect::Done),
            must(Op::Close { handle: 2 }, Expect::Done),
            must(Op::ReadFile { path: 0 }, Expect::Bytes(0)),
            must(Op::ReadFile { path: 1 }, Expect::Bytes(1)),
            must(Op::ReadFile { path: 2 }, Expect::Bytes(2)),
        ],
        r.cleanup@ == seq![
            after(Op::Close { handle: 0 }, 0),
            after(Op::Close { handle: 1 }, 1),
            after(Op::Close { handle: 2 }, 2),
            after(Op::RemoveFile { path: 0 }, 0),
            after(Op::RemoveFile { path: 1 }, 1),
            after(Op::RemoveFile { path: 2 }, 2),
        ],
{
    let data = vec![numbered(1), numbered(2), numbered(3)];
    assert(views(data@) =~= seq![numbered_content(1), numbered_content(2), numbered_content(3)]);
    let steps = vec![
        must_step(Op::Create { handle: 0, path: 0 }, Expect::Done),
        must_step(Op::Create { handle: 1, path: 1 }, Expect::Done),
        must_step(Op::Create { handle: 2, path: 2 }, Expect::Done),
        must_step(Op::WriteAll { handle: 0, data: 0 }, Expect::Done),
        must_step(Op::WriteAll { handle: 1, data: 1 }, Expect::Done),
        must_step(Op::WriteAll { handle: 2, data: 2 }, Expect::Done),
        must_step(Op::Close { handle: 0 }, Expect::Done),
        must_step(Op::Close { handle: 1 }, Expect::Done),
        must_step(Op::Close { handle: 2 }, Expect::Done),
        must_step(Op::ReadFile { path: 0 }, Expect::Bytes(0)),
        must_step(Op::ReadFile { path: 1 }, Expect::Bytes(1)),
        must_step(Op::ReadFile { path: 2 }, Expect::Bytes(2)),
    ];
    let cleanup = vec![
        after_op(Op::Close { handle: 0 }, 0),
        after_op(Op::Close { handle: 1 }, 1),
        after_op(Op::Close { handle: 2 }, 2),
        after_op(Op::RemoveFile { path: 0 }, 0),
        after_op(Op::RemoveFile { path: 1 }, 1),
        after_op(Op::RemoveFile { path: 2 }, 2),
    ];
    let name = text("Multiple file descriptors");
    let paths = vec![
        text("/tmp/wasm_fd1.txt"),
        text("/tmp/wasm_fd2.txt"),
        text("/tmp/wasm_fd3.txt"),
    ];
    assert(views(paths@) =~= seq!["/tmp/wasm_fd1.txt".spec_bytes(), "/tmp/wasm_fd2.txt".spec_bytes(), "/tmp/wasm_fd3.txt".spec_bytes()]);
    proof {
        handles_agree(steps@, views(data@));
    }
    Probe { name, paths, steps, cleanup, data }
}

/// Number of files in the batch probe.
pub const BATCH_FILES: usize = 5;

/// Path of the file numbered `n` in the batch probe's directory.
pub open spec fn batch_path(n: nat) -> Seq<u8> {
    "/tmp/wasm_concurrent/file_".spec_bytes() + decimal(n) + ".txt".spec_bytes()
}

/// Steps that write file `i` of the batch through handle `i`.
pub open spec fn batch_write_steps(i: int) -> Seq<Step> {
    seq![
        must(Op::Create { handle: i as usize, path: (i + 1) as usize }, Expect::Done),
        must(Op::WriteAll { handle: i as usize, data: i as usize }, Expect::Done),
        must(Op::Close { handle: i as usize }, Expect::Done),
    ]
}

/// What the model holds after the first `k` files of the batch are written:
/// file `n` (path `n`) holds payload `n - 1`.
pub open spec fn batch_files(pd: Seq<Seq<u8>>, k: nat) -> Map<usize, Option<Seq<u8>>> {
    Map::new(|p: usize| 1 <= p <= k, |p: usize| Some(pd[p - 1]))
}

/// One block of the batch (create, write and close file `j + 1`) agrees
/// with the model, and leaves that file holding payload `j`.
#[verifier::spinoff_prover]
proof fn batch_block_agrees(m: Map<usize, Option<Seq<u8>>>, pd: Seq<Seq<u8>>, j: nat)
    requires
        j < pd.len(),
        j < BATCH_FILES,
    ensures
        agrees(batch_write_steps(j as int), pd, Files { content: m, handles: Map::empty() }),
        run_all(batch_write_steps(j as int), pd, Files { content: m, handles: Map::empty() }) == (
        Files { content: m.insert((j + 1) as usize, Some(pd[j as int])), handles: Map::empty() }),
{
    reveal_with_fuel(agrees, 4);
    reveal_with_fuel(run_all, 4);
    let d = pd[j as int];
    assert(Seq::<u8>::empty().take(0) + d =~= d);
    assert(m.insert((j + 1) as usize, Some(Seq::empty())).insert((j + 1) as usize, Some(d))
        =~= m.insert((j + 1) as usize, Some(d)));
    assert(Map::<usize, (usize, int)>::empty().insert(j as usize, ((j + 1) as usize, 0)).insert(
        j as usize,
        ((j + 1) as usize, d.len() as int),
    ).remove(j as usize) =~= Map::empty());
}

/// The first `k` blocks of the batch agree with the model, and leave files
/// 1 to `k` holding their payloads and no handle open.
#[verifier::spinoff_prover]
proof fn batch_blocks_agree(blocks: Seq<Step>, pd: Seq<Seq<u8>>, k: nat)
    requires
        k <= BATCH_FILES,
        pd.len() >= k,
        blocks.len() == 3 * k,
        forall|j: int| 0 <= j < k ==> #[trigger] blocks.subrange(3 * j, 3 * j + 3) == batch_write_steps(j),
    ensures
        agrees(blocks, pd, unknown()),
        run_all(blocks, pd, unknown()) == (Files { content: batch_files(pd, k), handles: Map::empty() }),
    decreases k,
{
    if k == 0 {
        assert(batch_files(pd, 0) =~= Map::empty());
        assert(blocks.len() == 0);
        reveal_with_fuel(agrees, 1);
        reveal_with_fuel(run_all, 1);
        assert(unknown() == (Files { content: batch_files(pd, 0), handles: Map::empty() }));
    } else {
        let prefix = blocks.take(3 * (k - 1));
        let last = blocks.subrange(3 * (k - 1), 3 * k as int);
        assert forall|j: int| 0 <= j < k - 1 implies #[trigger] prefix.subrange(3 * j, 3 * j + 3)
            == batch_write_steps(j) by {
            assert(prefix.subrange(3 * j, 3 * j + 3) =~= blocks.subrange(3 * j, 3 * j + 3));
        }
        batch_blocks_agree(prefix, pd, (k - 1) as nat);
        assert(blocks =~= prefix + last);
        agrees_split(prefix, last, pd, unknown());
        let j = (k - 1) as nat;
        assert(last == batch_write_steps(j as int));
        batch_block_agrees(batch_files(pd, j), pd, j);
        assert(batch_files(pd, j).insert(k as usize, Some(pd[j as int])) =~= batch_files(pd, k));
    }
}

/// Once every file of the batch is written, its reads and removals agree
/// with the model.
#[verifier::spinoff_prover]
proof fn batch_reads_agree(rest: Seq<Step>, pd: Seq<Seq<u8>>)
    requires
        pd.len() == BATCH_FILES,
        rest.len() == 2 * BATCH_FILES,
        forall|j: int|
            0 <= j < BATCH_FILES ==> #[trigger] rest[j] == must(
                Op::ReadFile { path: (j + 1) as usize },
                Expect::Bytes(j as usize),
            ),
        forall|j: int|
            BATCH_FILES <= j < 2 * BATCH_FILES ==> (#[trigger] rest[j]).expect == Expect::Done,
    ensures
        agrees(rest, pd, Files { content: batch_files(pd, BATCH_FILES as nat), handles: Map::empty() }),
{
    assert(rest[0] == must(Op::ReadFile { path: 1 }, Expect::Bytes(0)));
    assert(rest[1] == must(Op::ReadFile { path: 2 }, Expect::Bytes(1)));
    assert(rest[2] == must(Op::ReadFile { path: 3 }, Expect::Bytes(2)));
    assert(rest[3] == must(Op::ReadFile { path: 4 }, Expect::Bytes(3)));
    assert(rest[4] == must(Op::ReadFile { path: 5 }, Expect::Bytes(4)));
    assert(rest[5].expect == Expect::Done);
    assert(rest[6].expect == Expect::Done);
    assert(rest[7].expect == Expect::Done);
    assert(rest[8].expect == Expect::Done);
    assert(rest[9].expect == Expect::Done);
    reveal_with_fuel(agrees, 11);
}

/// Every step of the batch agrees with the model.
#[verifier::spinoff_prover]
proof fn batch_agrees(all: Seq<Step>, pd: Seq<Seq<u8>>)
    requires
        pd.len() == BATCH_FILES,
        all.len() == 2 + 5 * BATCH_FILES,
        all[0] == may(Op::RemoveDirAll { path: 0 }, Expect::Any),
        all[1] == must(Op::CreateDirAll { path: 0 }, Expect::Done),
        forall|i: int|
            0 <= i < BATCH_FILES ==> #[trigger] all.subrange(2 + 3 * i, 5 + 3 * i)
                == batch_write_steps(i),
        forall|i: int|
            0 <= i < BATCH_FILES ==> #[trigger] all[17 + i] == must(
                Op::ReadFile { path: (i + 1) as usize },
                Expect::Bytes(i as usize),
            ),
        forall|i: int|
            0 <= i < BATCH_FILES ==> #[trigger] all[22 + i] == must(
                Op::RemoveFile { path: (i + 1) as usize },
                Expect::Done,
            ),
    ensures
        agrees(all, pd, unknown()),
{
    let pre = all.take(2);
    let blocks = all.subrange(2, 17);
    let rest = all.skip(17);
    assert(all =~= pre + (blocks + rest));
    agrees_split(pre, blocks + rest, pd, unknown());
    reveal_with_fuel(agrees, 3);
    reveal_with_fuel(run_all, 3);
    assert(run_all(pre, pd, unknown()) == unknown()) by {
        assert(Map::<usize, Option<Seq<u8>>>::empty() =~= unknown().content);
    }
    agrees_split(blocks, rest, pd, unknown());
    assert forall|j: int| 0 <= j < 5 implies #[trigger] blocks.subrange(3 * j, 3 * j + 3)
        == batch_write_steps(j) by {
        assert(blocks.subrange(3 * j, 3 * j + 3) =~= all.subrange(2 + 3 * j, 5 + 3 * j));
    }
    batch_blocks_agree(blocks, pd, 5);
    assert forall|j: int| 0 <= j < BATCH_FILES implies #[trigger] rest[j] == must(
        Op::ReadFile { path: (j + 1) as usize },
        Expect::Bytes(j as usize),
    ) by {
        assert(rest[j] == all[17 + j]);
    }
    assert forall|j: int| BATCH_FILES <= j < 2 * BATCH_FILES implies (#[trigger] rest[j]).expect
        == Expect::Done by {
        assert(rest[j] == all[22 + (j - 5)]);
    }
    batch_reads_agree(rest, pd);
}

/// In a cleared directory, writes five files one after another, file `i`
/// holding "Content for file i" and a newline, then reads each back and
/// removes it. Paths: 0, the directory; 1 to 5, the files.
#[verifier::spinoff_prover]
pub fn sequential_batch() -> (r: Probe)
    ensures
        agrees(r.steps@, r.payloads(), unknown()),
        r.name@ == "Sequential batch file operations".spec_bytes(),
        r.payloads() == Seq::new(BATCH_FILES as nat, |i: int| numbered_content(i as nat)),
        views(r.paths@) == seq!["/tmp/wasm_concurrent".spec_bytes()] + Seq::new(
            BATCH_FILES as nat,
            |i: int| batch_path(i as nat),
        ),
        r.steps@.len() == 2 + 5 * BATCH_FILES,
        r.steps@[0] == may(Op::RemoveDirAll { path: 0 }, Expect::Any),
        r.steps@[1] == must(Op::CreateDirAll { path: 0 }, Expect::Done),
        forall|i: int|
            0 <= i < BATCH_FILES ==> #[trigger] r.steps@.subrange(2 + 3 * i, 5 + 3 * i)
                == batch_write_steps(i),
        forall|i: int|
            0 <= i < BATCH_FILES ==> #[trigger] r.steps@[17 + i] == must(
                Op::ReadFile { path: (i + 1) as usize },
                Expect::Bytes(i as usize),
            ),
        forall|i: int|
            0 <= i < BATCH_FILES ==> #[trigger] r.steps@[22 + i] == must(
                Op::RemoveFile { path: (i + 1) as usize },
                Expect::Done,
            ),
        r.cleanup@ == seq![
            after(Op::Close { handle: 0 }, 2),
            after(Op::Close { handle: 1 }, 5),
            after(Op::Close { handle: 2 }, 8),
            after(Op::Close { handle: 3 }, 11),
            after(Op::Close { handle: 4 }, 14),
            after(Op::RemoveDirAll { path: 0 }, 1),
        ],
{
    let dir = text("/tmp/wasm_concurrent");
    let file_prefix = text("/tmp/wasm_concurrent/file_");
    let file_suffix = text(".txt");
    let mut paths: Vec<Vec<u8>> = vec![dir];
    assert(views(paths@) =~= seq!["/tmp/wasm_concurrent".spec_bytes()] + Seq::new(
        0,
        |j: int| batch_path(j as nat),
    ));
    let mut data: Vec<Vec<u8>> = Vec::new();
    let mut steps: Vec<Step> = vec![
        may_step(Op::RemoveDirAll { path: 0 }, Expect::Any),
        must_step(Op::CreateDirAll { path: 0 }, Expect::Done),
    ];
    let mut i: usize = 0;
    while i < BATCH_FILES
        invariant
            i <= BATCH_FILES,
            file_prefix@ == "/tmp/wasm_concurrent/file_".spec_bytes(),
            file_suffix@ == ".txt".spec_bytes(),
            views(paths@) =~= seq!["/tmp/wasm_concurrent".spec_bytes()] + Seq::new(
                i as nat,
                |j: int| batch_path(j as nat),
            ),
            views(data@) =~= Seq::new(i as nat, |j: int| numbered_content(j as nat)),
            steps@.len() == 2 + 3 * i,
            steps@[0] == may(Op::RemoveDirAll { path: 0 }, Expect::Any),
            steps@[1] == must(Op::CreateDirAll { path: 0 }, Expect::Done),
            forall|j: int|
                0 <= j < i ==> #[trigger] steps@.subrange(2 + 3 * j, 5 + 3 * j)
                    == batch_write_steps(j),
        decreases BATCH_FILES - i,
    {
        let ghost before = steps@;
        let ghost before_data = data@;
        let ghost before_paths = paths@;
        paths.push(labelled(file_prefix.as_slice(), i as u64, file_suffix.as_slice()));
        assert(views(paths@) =~= views(before_paths).push(batch_path(i as nat)));
        data.push(numbered(i as u64));
        assert(views(data@) =~= views(before_data).push(numbered_content(i as nat)));
        steps.push(must_step(Op::Create { handle: i, path: i + 1 }, Expect::Done));
        steps.push(must_step(Op::WriteAll { handle: i, data: i }, Expect::Done));
        steps.push(must_step(Op::Close { handle: i }, Expect::Done));
        proof {
            assert(steps@.subrange(2 + 3 * i, 5 + 3 * i) =~= batch_write_steps(i as int));
            assert forall|j: int| 0 <= j < i + 1 implies #[trigger] steps@.subrange(
                2 + 3 * j,
                5 + 3 * j,
            ) == batch_write_steps(j) by {
                if j < i {
                    assert(steps@.subrange(2 + 3 * j, 5 + 3 * j) =~= before.subrange(
                        2 + 3 * j,
                        5 + 3 * j,
                    ));
                }
            }
        }
        i = i + 1;
    }
    let mut k: usize = 0;
    while k < BATCH_FILES
        invariant
            k <= BATCH_FILES,
            steps@.len() == 17 + k,
            steps@[0] == may(Op::RemoveDirAll { path: 0 }, Expect::Any),
            steps@[1] == must(Op::CreateDirAll { path: 0 }, Expect::Done),
            forall|j: int|
                0 <= j < BATCH_FILES ==> #[trigger] steps@.subrange(2 + 3 * j, 5 + 3 * j)
                    == batch_write_steps(j),
            forall|j: int|
                0 <= j < k ==> #[trigger] steps@[17 + j] == must(
                    Op::ReadFile { path: (j + 1) as usize },
                    Expect::Bytes(j as usize),
                ),
        decreases BATCH_FILES - k,
    {
        let ghost before = steps@;
        steps.push(must_step(Op::ReadFile { path: k + 1 }, Expect::Bytes(k)));
        proof {
            assert forall|j: int| 0 <= j < BATCH_FILES implies #[trigger] steps@.subrange(
                2 + 3 * j,
                5 + 3 * j,
            ) == batch_write_steps(j) by {
                assert(steps@.subrange(2 + 3 * j, 5 + 3 * j) =~= before.subrange(
                    2 + 3 * j,
                    5 + 3 * j,
                ));
            }
        }
        k = k + 1;
    }
    let mut m: usize = 0;
    while m < BATCH_FILES
        invariant
            m <= BATCH_FILES,
            steps@.len() == 22 + m,
            steps@[0] == may(Op::RemoveDirAll { path: 0 }, Expect::Any),
            steps@[1] == must(Op::CreateDirAll { path: 0 }, Expect::Done),
            forall|j: int|
                0 <= j < BATCH_FILES ==> #[trigger] steps@.subrange(2 + 3 * j, 5 + 3 * j)
                    == batch_write_steps(j),
            forall|j: int|
                0 <= j < BATCH_FILES ==> #[trigger] steps@[17 + j] == must(
                    Op::ReadFile { path: (j + 1) as usize },
                    Expect::Bytes(j as usize),
                ),
            forall|j: int|
                0 <= j < m ==> #[trigger] steps@[22 + j] == must(
                    Op::RemoveFile { path: (j + 1) as usize },
                    Expect::Done,
                ),
        decreases BATCH_FILES - m,
    {
        let ghost before = steps@;
        steps.push(must_step(Op::RemoveFile { path: m + 1 }, Expect::Done));
        proof {
            assert forall|j: int| 0 <= j < BATCH_FILES implies #[trigger] steps@.subrange(
                2 + 3 * j,
                5 + 3 * j,
            ) == batch_write_steps(j) by {
                assert(steps@.subrange(2 + 3 * j, 5 + 3 * j) =~= before.subrange(
                    2 + 3 * j,
                    5 + 3 * j,
                ));
            }
        }
        m = m + 1;
    }
    proof {
        batch_agrees(steps@, views(data@));
    }
    let cleanup = vec![
        after_op(Op::Close { handle: 0 }, 2),
        after_op(Op::Close { handle: 1 }, 5),
        after_op(Op::Close { handle: 2 }, 8),
        after_op(Op::Close { handle: 3 }, 11),
        after_op(Op::Close { handle: 4 }, 14),
        after_op(Op::RemoveDirAll { path: 0 }, 1),
    ];
    let name = text("Sequential batch file operations");
    Probe { name, paths, steps, cleanup, data }
}

} // verus!
