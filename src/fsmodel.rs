//! A model of what a probe's files hold as its steps run, each step assumed
//! to succeed, and the check that every expectation of a probe about bytes,
//! positions, sizes and missing files is what the model predicts.
//!
//! A path the model knows nothing of maps to nothing; a path it knows to be
//! absent maps to `None`. Removing a directory with its contents forgets
//! every file, as any of them may have been below it.
use vstd::prelude::*;
use crate::model::{resized, repeated};
use crate::seek::{exact_read, rest_from, seek_lands, seek_target};
use crate::probe::{ErrorKind, Expect, Op, Step};

verus! {

/// Files by path index, and open handles by handle index (the path each is
/// open on, and its position).
pub struct Files {
    pub content: Map<usize, Option<Seq<u8>>>,
    pub handles: Map<usize, (usize, int)>,
}

/// What the model says an operation returns.
pub enum Predicted {
    Bytes(Seq<u8>),
    Position(int),
    Size(int),
    Missing,
    Unknown,
}

/// The content of the file `handle` is open on, where the model knows it.
pub open spec fn handle_content(f: Files, handle: usize) -> Option<Seq<u8>> {
    if f.handles.contains_key(handle) && f.content.contains_key(f.handles[handle].0) {
        f.content[f.handles[handle].0]
    } else {
        None
    }
}

/// `d` written over `c` from `pos` on.
pub open spec fn overwrite(c: Seq<u8>, pos: int, d: Seq<u8>) -> Seq<u8> {
    if pos + d.len() <= c.len() {
        c.take(pos) + d + c.skip(pos + d.len())
    } else {
        c.take(pos) + d
    }
}

/// The files after `op`, given the payloads `data`.
pub open spec fn apply(f: Files, op: Op, data: Seq<Seq<u8>>) -> Files {
    match op {
        Op::WriteFile { path, data: d } => Files {
            content: f.content.insert(path, Some(data[d as int])),
            ..f
        },
        Op::RemoveFile { path } => Files { content: f.content.insert(path, None), ..f },
        Op::RemoveDirAll { .. } => Files { content: Map::empty(), ..f },
        Op::Rename { source, target } => if f.content.contains_key(source) {
            Files {
                content: f.content.insert(target, f.content[source]).insert(source, None),
                ..f
            }
        } else {
            Files { content: f.content.remove(target), ..f }
        },
        Op::Create { handle, path } => Files {
            content: f.content.insert(path, Some(Seq::empty())),
            handles: f.handles.insert(handle, (path, 0)),
        },
        Op::Open { handle, path } => Files { handles: f.handles.insert(handle, (path, 0)), ..f },
        Op::OpenWrite { handle, path } => Files {
            handles: f.handles.insert(handle, (path, 0)),
            ..f
        },
        Op::Close { handle } => Files { handles: f.handles.remove(handle), ..f },
        Op::Seek { handle, from } => match handle_content(f, handle) {
            Some(c) => {
                let (p, pos) = f.handles[handle];
                let t = seek_target(pos, c.len() as int, from);
                if seek_lands(t) {
                    Files { handles: f.handles.insert(handle, (p, t)), ..f }
                } else {
                    f
                }
            },
            None => f,
        },
        Op::ReadExact { handle, count } => match handle_content(f, handle) {
            Some(c) => {
                let (p, pos) = f.handles[handle];
                if exact_read(c, pos, count as int) is Some {
                    Files { handles: f.handles.insert(handle, (p, pos + count)), ..f }
                } else {
                    f
                }
            },
            None => f,
        },
        Op::ReadToEnd { handle } => match handle_content(f, handle) {
            Some(c) => {
                let (p, pos) = f.handles[handle];
                if pos < c.len() {
                    Files { handles: f.handles.insert(handle, (p, c.len() as int)), ..f }
                } else {
                    f
                }
            },
            None => f,
        },
        Op::WriteAll { handle, data: d } => match handle_content(f, handle) {
            Some(c) => {
                let (p, pos) = f.handles[handle];
                Files {
                    content: f.content.insert(p, Some(overwrite(c, pos, data[d as int]))),
                    handles: f.handles.insert(handle, (p, pos + data[d as int].len())),
                }
            },
            None => f,
        },
        Op::SetLen { handle, len } => match handle_content(f, handle) {
            Some(c) => Files {
                content: f.content.insert(f.handles[handle].0, Some(resized(c, len as nat))),
                ..f
            },
            None => f,
        },
        _ => f,
    }
}

/// What the model says `op` returns.
pub open spec fn predict(f: Files, op: Op) -> Predicted {
    match op {
        Op::ReadFile { path } => if f.content.contains_key(path) {
            match f.content[path] {
                Some(c) => Predicted::Bytes(c),
                None => Predicted::Missing,
            }
        } else {
            Predicted::Unknown
        },
        Op::Metadata { path } => if f.content.contains_key(path) {
            match f.content[path] {
                Some(c) => Predicted::Size(c.len() as int),
                None => Predicted::Missing,
            }
        } else {
            Predicted::Unknown
        },
        Op::Seek { handle, from } => match handle_content(f, handle) {
            Some(c) => {
                let t = seek_target(f.handles[handle].1, c.len() as int, from);
                if seek_lands(t) {
                    Predicted::Position(t)
                } else {
                    Predicted::Unknown
                }
            },
            None => Predicted::Unknown,
        },
        Op::ReadExact { handle, count } => match handle_content(f, handle) {
            Some(c) => match exact_read(c, f.handles[handle].1, count as int) {
                Some(b) => Predicted::Bytes(b),
                None => Predicted::Unknown,
            },
            None => Predicted::Unknown,
        },
        Op::ReadToEnd { handle } => match handle_content(f, handle) {
            Some(c) => Predicted::Bytes(rest_from(c, f.handles[handle].1)),
            None => Predicted::Unknown,
        },
        _ => Predicted::Unknown,
    }
}

/// Whether expectation `e` is what the model predicts: bytes, positions and
/// sizes must be the predicted ones, and a step that expects a file to be
/// missing must not stand where the model knows the file exists.
pub open spec fn justified(e: Expect, p: Predicted, data: Seq<Seq<u8>>) -> bool {
    match e {
        Expect::Bytes(d) => d < data.len() && p == Predicted::Bytes(data[d as int]),
        Expect::Position(n) => p == Predicted::Position(n as int),
        Expect::File(n) => p == Predicted::Size(n as int),
        Expect::FileAtLeast(n) => p matches Predicted::Size(s) && s >= n,
        Expect::FailsWith(ErrorKind::NotFound) => !(p is Bytes) && !(p is Size),
        _ => true,
    }
}

/// Every step of `steps`, run from `f`, expects what the model predicts.
pub open spec fn agrees(steps: Seq<Step>, data: Seq<Seq<u8>>, f: Files) -> bool
    decreases steps.len(),
{
    if steps.len() == 0 {
        true
    } else {
        justified(steps[0].expect, predict(f, steps[0].op), data) && agrees(
            steps.drop_first(),
            data,
            apply(f, steps[0].op, data),
        )
    }
}

/// The model before a probe runs: it knows no file and no handle.
pub open spec fn unknown() -> Files {
    Files { content: Map::empty(), handles: Map::empty() }
}

/// The files after every step of `steps`, run from `f`.
pub open spec fn run_all(steps: Seq<Step>, data: Seq<Seq<u8>>, f: Files) -> Files
    decreases steps.len(),
{
    if steps.len() == 0 {
        f
    } else {
        run_all(steps.drop_first(), data, apply(f, steps[0].op, data))
    }
}

/// Steps run one list after the other agree exactly when the first list
/// agrees from the start and the second from where the first left off.
pub proof fn agrees_split(a: Seq<Step>, b: Seq<Step>, data: Seq<Seq<u8>>, f: Files)
    ensures
        agrees(a + b, data, f) == (agrees(a, data, f) && agrees(b, data, run_all(a, data, f))),
        run_all(a + b, data, f) == run_all(b, data, run_all(a, data, f)),
    decreases a.len(),
{
    if a.len() == 0 {
        assert(a + b =~= b);
    } else {
        assert((a + b).drop_first() =~= a.drop_first() + b);
        assert((a + b)[0] == a[0]);
        agrees_split(a.drop_first(), b, data, apply(f, a[0].op, data));
    }
}

/// `k` copies of `d`, one after the other.
pub open spec fn copies(d: Seq<u8>, k: nat) -> Seq<u8>
    decreases k,
{
    if k == 0 {
        Seq::empty()
    } else {
        d + copies(d, (k - 1) as nat)
    }
}

/// `k` copies of a non-empty chunk are the chunk repeated over `k` times
/// its length.
pub proof fn copies_are_repeated(d: Seq<u8>, k: nat)
    requires
        d.len() > 0,
    ensures
        copies(d, k) == repeated(d, k * d.len()),
    decreases k,
{
    let n = d.len() as int;
    if k == 0 {
        assert(k * d.len() == 0) by (nonlinear_arith)
            requires
                k == 0,
        ;
        assert(copies(d, k) =~= repeated(d, 0));
    } else {
        copies_are_repeated(d, (k - 1) as nat);
        assert(k * d.len() == (k - 1) * d.len() + d.len()) by (nonlinear_arith);
        assert forall|i: int| 0 <= i < k * d.len() implies #[trigger] copies(d, k)[i] == repeated(
            d,
            k * d.len(),
        )[i] by {
            if i < n {
                vstd::arithmetic::div_mod::lemma_small_mod(i as nat, n as nat);
            } else {
                vstd::arithmetic::div_mod::lemma_mod_add_multiples_vanish(i - n, n);
            }
        }
        assert(copies(d, k) =~= repeated(d, k * d.len()));
    }
}

/// Writes of payload `d` through `handle`, open on `path` at the end of its
/// content `c`, all expecting plain success, agree with the model, and
/// leave `c` followed by one copy of the payload per write.
pub proof fn writes_append(
    w: Seq<Step>,
    data: Seq<Seq<u8>>,
    f: Files,
    handle: usize,
    path: usize,
    d: usize,
    c: Seq<u8>,
)
    requires
        d < data.len(),
        forall|i: int|
            0 <= i < w.len() ==> #[trigger] w[i] == (Step {
                op: Op::WriteAll { handle, data: d },
                expect: Expect::Done,
                required: true,
            }),
        f.handles.contains_key(handle),
        f.handles[handle] == (path, c.len() as int),
        f.content.contains_key(path),
        f.content[path] == Some(c),
    ensures
        agrees(w, data, f),
        run_all(w, data, f) == (Files {
            content: f.content.insert(path, Some(c + copies(data[d as int], w.len()))),
            handles: f.handles.insert(
                handle,
                (path, (c.len() + w.len() * data[d as int].len()) as int),
            ),
        }),
    decreases w.len(),
{
    let x = data[d as int];
    if w.len() == 0 {
        assert(c + copies(x, 0) =~= c);
        assert(f.content.insert(path, Some(c)) =~= f.content);
        assert(f.handles.insert(handle, (path, c.len() as int)) =~= f.handles);
    } else {
        let g = apply(f, w[0].op, data);
        assert(c.take(c.len() as int) =~= c);
        assert(overwrite(c, c.len() as int, x) =~= c + x);
        assert(g == (Files {
            content: f.content.insert(path, Some(c + x)),
            handles: f.handles.insert(handle, (path, (c.len() + x.len()) as int)),
        }));
        let rest = w.drop_first();
        writes_append(rest, data, g, handle, path, d, c + x);
        assert(c + x + copies(x, rest.len()) =~= c + copies(x, w.len()));
        assert(c.len() + x.len() + rest.len() * x.len() == c.len() + w.len() * x.len()) by (
        nonlinear_arith)
            requires
                rest.len() + 1 == w.len(),
        ;
        assert(g.content.insert(path, Some(c + x + copies(x, rest.len()))) =~= f.content.insert(
            path,
            Some(c + copies(x, w.len())),
        ));
        assert(g.handles.insert(handle, (path, (c.len() + x.len() + rest.len() * x.len()) as int))
            =~= f.handles.insert(handle, (path, (c.len() + w.len() * x.len()) as int)));
    }
}

} // verus!
