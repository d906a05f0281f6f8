//! What holds of every probe step and every file content the probes model.
use vstd::prelude::*;
use crate::model::{resized, window};
use crate::seek::SeekFrom;
use crate::probe::{meets, ErrorKind, Expect, Op, Outcome};
use crate::fsmodel::{apply, predict, Files, Predicted};

verus! {

/// A step that expects payload `d` back passes exactly when the operation
/// returned bytes equal, byte for byte, to that payload: a read-back passes
/// only on the bytes that were written.
pub proof fn read_back_is_exact(d: usize, o: Outcome, data: Seq<Seq<u8>>, seen: Seq<Seq<u8>>)
    requires
        d < data.len(),
    ensures
        meets(Expect::Bytes(d), o, data, seen) <==> (o matches Outcome::Bytes(b) && b@.len()
            == data[d as int].len() && forall|i: int|
            0 <= i < b@.len() ==> b@[i] == data[d as int][i]),
{
    match o {
        Outcome::Bytes(b) => {
            if b@.len() == data[d as int].len() && forall|i: int|
                0 <= i < b@.len() ==> b@[i] == data[d as int][i] {
                assert(b@ =~= data[d as int]);
            }
        },
        _ => {},
    }
}

/// Setting a file's length below its current length leaves exactly its
/// first `l` bytes; setting it above keeps every byte and adds zero bytes.
pub proof fn resize_keeps_prefix(s: Seq<u8>, l: nat)
    ensures
        resized(s, l).len() == l,
        l <= s.len() ==> resized(s, l) == s.subrange(0, l as int),
        l > s.len() ==> resized(s, l).subrange(0, s.len() as int) == s && forall|i: int|
            s.len() <= i < l ==> resized(s, l)[i] == 0u8,
{
    if l > s.len() {
        assert(resized(s, l).subrange(0, s.len() as int) =~= s);
    }
}

/// A step that expects a failure never passes on a success, whatever came
/// back with it; one that expects a failure of a given kind passes on that
/// failure alone.
pub proof fn expected_failures_never_pass_on_success(
    k: ErrorKind,
    o: Outcome,
    data: Seq<Seq<u8>>,
    seen: Seq<Seq<u8>>,
)
    ensures
        meets(Expect::Fails, o, data, seen) <==> o is Failed,
        meets(Expect::FailsWith(k), o, data, seen) <==> o == Outcome::Failed(k),
        !(o is Failed) ==> !meets(Expect::Fails, o, data, seen) && !meets(
            Expect::FailsWith(k),
            o,
            data,
            seen,
        ),
{
}

/// A file written whole and then read back whole reads as exactly the bytes
/// written, whatever the files held before.
pub proof fn write_then_read(f: Files, path: usize, d: usize, data: Seq<Seq<u8>>)
    requires
        d < data.len(),
    ensures
        predict(apply(f, Op::WriteFile { path, data: d }, data), Op::ReadFile { path })
            == Predicted::Bytes(data[d as int]),
{
}

/// On a file of known content `c` open as `handle`, a seek from the start
/// to `k` followed by an exact read of `m` bytes reads `c[k..k + m]`,
/// wherever the handle stood.
pub proof fn seek_then_read(f: Files, handle: usize, k: u64, m: usize, c: Seq<u8>, data: Seq<Seq<u8>>)
    requires
        f.handles.contains_key(handle),
        f.content.contains_key(f.handles[handle].0),
        f.content[f.handles[handle].0] == Some(c),
        k + m <= c.len(),
    ensures
        predict(
            apply(f, Op::Seek { handle, from: SeekFrom::Start(k) }, data),
            Op::ReadExact { handle, count: m },
        ) == Predicted::Bytes(window(c, k as int, m as int)),
{
}

/// Setting the length of a file of known content `c` open as `handle` to
/// `l`, below its length, leaves a file of exactly `l` bytes: the first `l`
/// bytes of `c`.
pub proof fn truncate_then_read(f: Files, handle: usize, l: u64, c: Seq<u8>, data: Seq<Seq<u8>>)
    requires
        f.handles.contains_key(handle),
        f.content.contains_key(f.handles[handle].0),
        f.content[f.handles[handle].0] == Some(c),
        l < c.len(),
    ensures
        ({
            let g = apply(f, Op::SetLen { handle, len: l }, data);
            let p = f.handles[handle].0;
            &&& predict(g, Op::ReadFile { path: p }) == Predicted::Bytes(c.take(l as int))
            &&& predict(g, Op::Metadata { path: p }) == Predicted::Size(l as int)
        }),
{
}

/// Renaming a file of known content `c` from `a` to `b`: `b` then reads as
/// `c`, and `a` no longer exists.
pub proof fn rename_moves_content(f: Files, a: usize, b: usize, c: Seq<u8>, data: Seq<Seq<u8>>)
    requires
        a != b,
        f.content.contains_key(a),
        f.content[a] == Some(c),
    ensures
        ({
            let g = apply(f, Op::Rename { source: a, target: b }, data);
            &&& predict(g, Op::ReadFile { path: b }) == Predicted::Bytes(c)
            &&& predict(g, Op::ReadFile { path: a }) == Predicted::Missing
        }),
{
}

} // verus!
