//! Pure models of what file contents look like after the operations the
//! probes perform: a window read at an offset, a length change, a file
//! assembled from repeated chunks, and the decimal labels of numbered files.
use vstd::prelude::*;

verus! {

/// The `len` bytes of `s` that start at `start`.
pub open spec fn window(s: Seq<u8>, start: int, len: int) -> Seq<u8> {
    s.subrange(start, start + len)
}

/// Content of a file of content `s` after its length is set to `n`: cut to
/// its first `n` bytes, or padded with zero bytes up to `n`.
pub open spec fn resized(s: Seq<u8>, n: nat) -> Seq<u8> {
    if n <= s.len() {
        s.take(n as int)
    } else {
        s + Seq::new((n - s.len()) as nat, |i: int| 0u8)
    }
}

/// `target` bytes made of `chunk` written over and over, the last copy cut
/// short where needed.
pub open spec fn repeated(chunk: Seq<u8>, target: nat) -> Seq<u8>
    recommends
        chunk.len() > 0,
{
    Seq::new(target, |i: int| chunk[i % (chunk.len() as int)])
}

/// ASCII decimal digits of `n`, without leading zeros.
pub open spec fn decimal(n: nat) -> Seq<u8>
    decreases n,
{
    if n < 10 {
        seq![(48 + n) as u8]
    } else {
        decimal(n / 10).push((48 + n % 10) as u8)
    }
}

/// Copy of the bytes `s[start..start + len]`, or `None` where they run past
/// the end of `s`.
pub fn window_of(s: &[u8], start: usize, len: usize) -> (r: Option<Vec<u8>>)
    ensures
        r.is_some() == (start + len <= s@.len()),
        r matches Some(w) ==> w@ == window(s@, start as int, len as int),
{
    if start > s.len() || len > s.len() - start {
        return None;
    }
    let mut out: Vec<u8> = Vec::new();
    let end: usize = start + len;
    let mut i: usize = start;
    while i < end
        invariant
            start <= i <= end,
            end == start + len <= s@.len(),
            out@ =~= s@.subrange(start as int, i as int),
        decreases end - i,
    {
        out.push(s[i]);
        i = i + 1;
        assert(out@ =~= s@.subrange(start as int, i as int));
    }
    Some(out)
}

/// Copy of `s` with its length set to `n` (see `resized`).
pub fn resize_to(s: &[u8], n: usize) -> (r: Vec<u8>)
    ensures
        r@ == resized(s@, n as nat),
{
    let mut out: Vec<u8> = Vec::new();
    let mut i: usize = 0;
    while i < n
        invariant
            i <= n,
            out@.len() == i,
            forall|j: int| 0 <= j < i ==> out@[j] == if j < s@.len() { s@[j] } else { 0u8 },
        decreases n - i,
    {
        if i < s.len() {
            out.push(s[i]);
        } else {
            out.push(0u8);
        }
        i = i + 1;
    }
    assert(out@ =~= resized(s@, n as nat));
    out
}

/// `target` bytes built from copies of `chunk` (see `repeated`).
pub fn repeat_to(chunk: &[u8], target: usize) -> (r: Vec<u8>)
    requires
        chunk@.len() > 0,
    ensures
        r@ == repeated(chunk@, target as nat),
{
    let mut out: Vec<u8> = Vec::new();
    let mut i: usize = 0;
    while i < target
        invariant
            i <= target,
            chunk@.len() > 0,
            out@ =~= repeated(chunk@, i as nat),
        decreases target - i,
    {
        out.push(chunk[i % chunk.len()]);
        i = i + 1;
        assert(out@ =~= repeated(chunk@, i as nat));
    }
    out
}

/// Appends the decimal digits of `n` to `out`.
pub fn push_decimal(out: &mut Vec<u8>, n: u64)
    ensures
        final(out)@ == old(out)@ + decimal(n as nat),
    decreases n,
{
    if n >= 10 {
        push_decimal(out, n / 10);
    }
    out.push((48 + n % 10) as u8);
    proof {
        if n < 10 {
            assert(n % 10 == n);
        }
    }
}

/// `prefix`, the decimal digits of `n`, then `suffix`: the label of the
/// `n`th file of a batch.
pub fn labelled(prefix: &[u8], n: u64, suffix: &[u8]) -> (r: Vec<u8>)
    ensures
        r@ == prefix@ + decimal(n as nat) + suffix@,
{
    let mut out: Vec<u8> = Vec::new();
    let mut i: usize = 0;
    while i < prefix.len()
        invariant
            i <= prefix@.len(),
            out@ == prefix@.take(i as int),
        decreases prefix@.len() - i,
    {
        out.push(prefix[i]);
        i = i + 1;
        assert(out@ =~= prefix@.take(i as int));
    }
    assert(prefix@.take(prefix@.len() as int) =~= prefix@);
    push_decimal(&mut out, n);
    let ghost mid = out@;
    let mut j: usize = 0;
    while j < suffix.len()
        invariant
            j <= suffix@.len(),
            out@ == mid + suffix@.take(j as int),
        decreases suffix@.len() - j,
    {
        out.push(suffix[j]);
        j = j + 1;
        assert(out@ =~= mid + suffix@.take(j as int));
    }
    assert(suffix@.take(suffix@.len() as int) =~= suffix@);
    out
}

} // verus!
