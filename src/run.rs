//! The decisions of one probe's run. Whoever runs it asks for the next
//! action, performs the operation, and hands the outcome back; the run says
//! whether the step passed and what comes next. A failed required step skips
//! the rest of the steps. Then the clean-up runs: each of its operations only
//! where the steps that made what it removes or closes passed, and its
//! outcomes are not judged.
use vstd::prelude::*;
use crate::probe::{due, is_due, judge, meets, views, Cleanup, Op, Outcome, Probe};

verus! {

/// What the runner of a probe does next.
#[derive(Clone, Copy, Debug, PartialEq, Eq, Structural)]
pub enum Action {
    Perform(Op),
    Finish,
}

/// How a step's outcome was judged.
#[derive(Clone, Copy, Debug, PartialEq, Eq, Structural)]
pub enum Verdict {
    Pass,
    Fail,
    /// A clean-up operation: its outcome is not judged.
    Ignored,
}

/// A probe being run: in its steps (`cleaning` false) or in its clean-up,
/// at index `at` of the one or the other, with the bytes each step so far
/// came back with and whether it passed.
pub struct Run {
    pub probe: Probe,
    pub cleaning: bool,
    pub at: usize,
    pub seen: Vec<Vec<u8>>,
    pub passed: Vec<bool>,
}

/// The bytes an outcome carries, if any.
pub open spec fn carried(o: Outcome) -> Seq<u8> {
    match o {
        Outcome::Bytes(b) => b@,
        _ => Seq::empty(),
    }
}

/// The first clean-up operation at or after `i` that is due, or the end of
/// the clean-up where none is.
pub open spec fn next_due(c: Seq<Cleanup>, passed: Seq<bool>, i: int) -> int
    decreases c.len() - i,
{
    if i >= c.len() {
        c.len() as int
    } else if due(c[i].guard, passed) {
        i
    } else {
        next_due(c, passed, i + 1)
    }
}

/// `next_due` lies between its start and the end of the clean-up.
pub proof fn next_due_bounds(c: Seq<Cleanup>, passed: Seq<bool>, i: int)
    requires
        0 <= i <= c.len(),
    ensures
        i <= next_due(c, passed, i) <= c.len(),
        next_due(c, passed, i) < c.len() ==> due(c[next_due(c, passed, i)].guard, passed),
    decreases c.len() - i,
{
    if i < c.len() && !due(c[i].guard, passed) {
        next_due_bounds(c, passed, i + 1);
    }
}

impl Run {
    /// A run still in its steps stands on one of them, and has seen one
    /// outcome and one verdict for each step before it. A run in its
    /// clean-up stands on a due operation or at the end.
    pub open spec fn wf(&self) -> bool {
        &&& !self.cleaning ==> (self.at < self.probe.steps@.len() && self.seen@.len() == self.at
            && self.passed@.len() == self.at)
        &&& self.cleaning ==> self.at == next_due(
            self.probe.cleanup@,
            self.passed@,
            self.at as int,
        ) && self.at <= self.probe.cleanup@.len()
    }

    /// How many operations are left before the run finishes, at most.
    pub open spec fn remaining(&self) -> int {
        if self.cleaning {
            self.probe.cleanup@.len() - self.at
        } else {
            self.probe.steps@.len() - self.at + self.probe.cleanup@.len()
        }
    }

    /// What the runner does next.
    pub open spec fn action(&self) -> Action {
        if !self.cleaning {
            Action::Perform(self.probe.steps@[self.at as int].op)
        } else if self.at < self.probe.cleanup@.len() {
            Action::Perform(self.probe.cleanup@[self.at as int].op)
        } else {
            Action::Finish
        }
    }

    /// Moves to the first due clean-up operation at or after `from`.
    fn skip_to_due(&mut self, from: usize)
        requires
            from <= old(self).probe.cleanup@.len(),
        ensures
            final(self).probe == old(self).probe,
            final(self).cleaning == old(self).cleaning,
            final(self).seen == old(self).seen,
            final(self).passed == old(self).passed,
            final(self).at == next_due(old(self).probe.cleanup@, old(self).passed@, from as int),
    {
        let mut i: usize = from;
        while i < self.probe.cleanup.len() && !is_due(self.probe.cleanup[i].guard, &self.passed)
            invariant
                from <= i <= self.probe.cleanup@.len(),
                next_due(self.probe.cleanup@, self.passed@, i as int) == next_due(
                    self.probe.cleanup@,
                    self.passed@,
                    from as int,
                ),
            decreases self.probe.cleanup@.len() - i,
        {
            i = i + 1;
        }
        self.at = i;
    }

    /// A run of `probe` at its first step (at its clean-up, if it has no
    /// steps: none of that is due, as no step passed).
    pub fn start(probe: Probe) -> (r: Run)
        ensures
            r.wf(),
            r.probe == probe,
            r.cleaning == (probe.steps@.len() == 0),
            r.at == if r.cleaning {
                next_due(probe.cleanup@, Seq::empty(), 0)
            } else {
                0
            },
            r.seen@.len() == 0,
            r.passed@ == Seq::<bool>::empty(),
    {
        let cleaning = probe.steps.len() == 0;
        let mut r = Run { probe, cleaning, at: 0, seen: Vec::new(), passed: Vec::new() };
        if cleaning {
            r.skip_to_due(0);
            proof {
                next_due_bounds(r.probe.cleanup@, r.passed@, 0);
            }
        }
        r
    }

    /// What the runner does next (see `action`).
    pub fn next_action(&self) -> (r: Action)
        requires
            self.wf(),
        ensures
            r == self.action(),
    {
        if !self.cleaning {
            Action::Perform(self.probe.steps[self.at].op)
        } else if self.at < self.probe.cleanup.len() {
            Action::Perform(self.probe.cleanup[self.at].op)
        } else {
            Action::Finish
        }
    }

    /// Takes the outcome of the operation `next_action` asked for. In the
    /// steps: judges it and records the verdict, then moves to the next
    /// step, or, after the last step or a failed required step, to the first
    /// due clean-up operation. In the clean-up: moves to the next due one.
    pub fn record(&mut self, o: Outcome) -> (v: Verdict)
        requires
            old(self).wf(),
            old(self).action() != Action::Finish,
        ensures
            final(self).wf(),
            final(self).probe == old(self).probe,
            0 <= final(self).remaining() < old(self).remaining(),
            old(self).cleaning ==> v == Verdict::Ignored && final(self).cleaning
                && final(self).passed == old(self).passed && final(self).at == next_due(
                old(self).probe.cleanup@,
                old(self).passed@,
                old(self).at + 1,
            ),
            !old(self).cleaning ==> ({
                let step = old(self).probe.steps@[old(self).at as int];
                let ok = meets(
                    step.expect,
                    o,
                    old(self).probe.payloads(),
                    views(old(self).seen@),
                );
                let last = old(self).at + 1 == old(self).probe.steps@.len();
                &&& v == (if ok { Verdict::Pass } else { Verdict::Fail })
                &&& final(self).passed@ == old(self).passed@.push(ok)
                &&& views(final(self).seen@) == views(old(self).seen@).push(carried(o))
                &&& if (!ok && step.required) || last {
                    final(self).cleaning && final(self).at == next_due(
                        old(self).probe.cleanup@,
                        final(self).passed@,
                        0,
                    )
                } else {
                    !final(self).cleaning && final(self).at == old(self).at + 1
                }
            }),
    {
        if self.cleaning {
            let n = self.probe.cleanup.len();
            assert(self.at < n);
            self.skip_to_due(self.at + 1);
            proof {
                next_due_bounds(self.probe.cleanup@, self.passed@, old(self).at + 1);
            }
            return Verdict::Ignored;
        }
        let step = self.probe.steps[self.at];
        let ok = judge(step.expect, &o, &self.probe.data, &self.seen);
        let n = self.probe.steps.len();
        let last = self.at + 1 == n;
        let bytes = match o {
            Outcome::Bytes(b) => b,
            _ => Vec::new(),
        };
        let ghost before = self.seen@;
        self.seen.push(bytes);
        self.passed.push(ok);
        assert(views(self.seen@) =~= views(before).push(carried(o)));
        if (!ok && step.required) || last {
            self.cleaning = true;
            self.skip_to_due(0);
            proof {
                next_due_bounds(self.probe.cleanup@, self.passed@, 0);
            }
        } else {
            self.at = self.at + 1;
        }
        if ok {
            Verdict::Pass
        } else {
            Verdict::Fail
        }
    }
}

/// A run in its clean-up asks only for operations that are due: each one
/// after the step that made what it removes or closes passed, and not after
/// the step that would have undone that.
pub proof fn cleanup_runs_only_when_due(r: Run)
    requires
        r.wf(),
        r.cleaning,
        r.action() != Action::Finish,
    ensures
        r.action() == Action::Perform(r.probe.cleanup@[r.at as int].op),
        due(r.probe.cleanup@[r.at as int].guard, r.passed@),
{
    next_due_bounds(r.probe.cleanup@, r.passed@, r.at as int);
}

} // verus!
