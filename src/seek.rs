//! Where a seek lands, and a model of a read handle on a file of known
//! content: the position it reports and the bytes its reads return.
use vstd::prelude::*;
use crate::model::window;

verus! {

/// The three ways of naming a position: from the start, from the end, or
/// from the current position.
#[derive(Clone, Copy, Debug, PartialEq, Eq, Structural)]
pub enum SeekFrom {
    Start(u64),
    End(i64),
    Current(i64),
}

/// The position a seek asks for, before it is checked.
pub open spec fn seek_target(pos: int, len: int, from: SeekFrom) -> int {
    match from {
        SeekFrom::Start(n) => n as int,
        SeekFrom::End(d) => len + d,
        SeekFrom::Current(d) => pos + d,
    }
}

/// A seek succeeds exactly when its target is a position a handle can hold.
pub open spec fn seek_lands(target: int) -> bool {
    0 <= target <= u64::MAX
}

/// Where a handle at `pos` on a file of `len` bytes stands after seeking by
/// `from`, or `None` where the seek is refused (a target before the start,
/// or past the largest position).
pub fn resolve_seek(pos: u64, len: u64, from: SeekFrom) -> (r: Option<u64>)
    ensures
        r.is_some() == seek_lands(seek_target(pos as int, len as int, from)),
        r matches Some(p) ==> p as int == seek_target(pos as int, len as int, from),
{
    match from {
        SeekFrom::Start(n) => Some(n),
        SeekFrom::End(d) => offset_by(len, d),
        SeekFrom::Current(d) => offset_by(pos, d),
    }
}

/// `base + d`, where that is a valid position.
fn offset_by(base: u64, d: i64) -> (r: Option<u64>)
    ensures
        r.is_some() == seek_lands(base + d),
        r matches Some(p) ==> p as int == base + d,
{
    if d >= 0 {
        base.checked_add(d as u64)
    } else {
        let back: u64 = if d == i64::MIN {
            (i64::MAX as u64) + 1
        } else {
            (-d) as u64
        };
        if back <= base {
            Some(base - back)
        } else {
            None
        }
    }
}

/// The bytes an exact read of `n` bytes at `pos` returns, or `None` where
/// fewer than `n` bytes are left.
pub open spec fn exact_read(s: Seq<u8>, pos: int, n: int) -> Option<Seq<u8>> {
    if pos + n <= s.len() {
        Some(window(s, pos, n))
    } else {
        None
    }
}

/// The bytes a read to the end returns at `pos`: nothing past the end.
pub open spec fn rest_from(s: Seq<u8>, pos: int) -> Seq<u8> {
    if pos < s.len() {
        s.subrange(pos, s.len() as int)
    } else {
        Seq::empty()
    }
}

/// A read handle on a file of content `data`, standing at `pos`.
pub struct Cursor {
    pub data: Vec<u8>,
    pub pos: u64,
}

impl Cursor {
    /// A handle just opened: it stands at the start.
    pub fn open(data: Vec<u8>) -> (r: Cursor)
        ensures
            r.data@ == data@,
            r.pos == 0,
    {
        Cursor { data, pos: 0 }
    }

    /// The current position, which a seek by `Current(0)` reports.
    pub fn position(&self) -> (r: u64)
        ensures
            r == self.pos,
    {
        self.pos
    }

    /// Moves the handle as `from` says and returns the new position; a
    /// refused seek leaves the handle where it was.
    pub fn seek(&mut self, from: SeekFrom) -> (r: Option<u64>)
        ensures
            final(self).data@ == old(self).data@,
            r.is_some() == seek_lands(
                seek_target(old(self).pos as int, old(self).data@.len() as int, from),
            ),
            r matches Some(p) ==> p as int == seek_target(
                old(self).pos as int,
                old(self).data@.len() as int,
                from,
            ) && final(self).pos == p,
            r.is_none() ==> final(self).pos == old(self).pos,
    {
        let len = self.data.len() as u64;
        let r = resolve_seek(self.pos, len, from);
        if let Some(p) = r {
            self.pos = p;
        }
        r
    }

    /// Reads exactly `n` bytes at the current position and moves past them;
    /// where fewer are left the read fails and the handle stays.
    pub fn read_exact(&mut self, n: usize) -> (r: Option<Vec<u8>>)
        ensures
            final(self).data@ == old(self).data@,
            r.is_some() == exact_read(old(self).data@, old(self).pos as int, n as int).is_some(),
            r matches Some(b) ==> Some(b@) == exact_read(
                old(self).data@,
                old(self).pos as int,
                n as int,
            ) && final(self).pos == old(self).pos + n,
            r.is_none() ==> final(self).pos == old(self).pos,
    {
        if self.pos > self.data.len() as u64 {
            return None;
        }
        let start = self.pos as usize;
        let r = window_copy(&self.data, start, n);
        if let Some(_) = r {
            self.pos = (start + n) as u64;
        }
        r
    }

    /// Reads everything from the current position to the end, and stands at
    /// the end afterwards (a handle already past the end stays).
    pub fn read_to_end(&mut self) -> (r: Vec<u8>)
        ensures
            final(self).data@ == old(self).data@,
            r@ == rest_from(old(self).data@, old(self).pos as int),
            final(self).pos == if old(self).pos < old(self).data@.len() {
                old(self).data@.len() as u64
            } else {
                old(self).pos
            },
    {
        let len = self.data.len();
        if self.pos >= len as u64 {
            return Vec::new();
        }
        let start = self.pos as usize;
        let r = window_copy(&self.data, start, len - start);
        self.pos = len as u64;
        match r {
            Some(b) => b,
            None => Vec::new(),
        }
    }
}

fn window_copy(v: &Vec<u8>, start: usize, n: usize) -> (r: Option<Vec<u8>>)
    ensures
        r.is_some() == (start + n <= v@.len()),
        r matches Some(w) ==> w@ == window(v@, start as int, n as int),
{
    crate::model::window_of(v.as_slice(), start, n)
}

/// A seek from the start to `k` followed by an exact read of `m` bytes
/// returns `s[k..k + m]`, from wherever the handle stood, whenever those
/// bytes exist, and fails otherwise.
pub proof fn seek_then_read_is_window(s: Seq<u8>, pos: nat, k: u64, m: nat)
    ensures
        seek_lands(seek_target(pos as int, s.len() as int, SeekFrom::Start(k))),
        seek_target(pos as int, s.len() as int, SeekFrom::Start(k)) == k as int,
        k + m <= s.len() ==> exact_read(s, k as int, m as int) == Some(s.subrange(k as int, k + m)),
        k + m > s.len() ==> exact_read(s, k as int, m as int).is_none(),
{
}

/// Seeking to the end lands on the file's length, seeking back to the start
/// lands on zero, and a relative seek adds its offset to the position.
pub proof fn seek_positions(pos: nat, len: nat, d: i64)
    requires
        pos <= u64::MAX,
        len <= u64::MAX,
    ensures
        seek_target(pos as int, len as int, SeekFrom::End(0)) == len,
        seek_target(pos as int, len as int, SeekFrom::Start(0)) == 0,
        seek_target(pos as int, len as int, SeekFrom::Current(0)) == pos,
        seek_target(pos as int, len as int, SeekFrom::Current(d)) == pos + d,
        0 <= pos + d <= u64::MAX ==> seek_lands(
            seek_target(pos as int, len as int, SeekFrom::Current(d)),
        ),
{
}

} // verus!
