//! The tally of the runs of the harness.

use vstd::prelude::*;

verus! {

/// How many runs passed and how many failed.
pub struct RunStatus {
    failures: usize,
    passes: usize,
}

/// Some scenario of a run failed.
pub open spec fn any_failed(verdicts: Seq<bool>) -> bool {
    exists|i: int| 0 <= i < verdicts.len() && verdicts[i]
}

impl RunStatus {
    /// The number of runs that failed.
    pub closed spec fn failed_runs(&self) -> nat {
        self.failures as nat
    }

    /// The number of runs that passed.
    pub closed spec fn passed_runs(&self) -> nat {
        self.passes as nat
    }

    /// A tally without runs.
    pub fn new() -> (status: RunStatus)
        ensures
            status.failed_runs() == 0,
            status.passed_runs() == 0,
    {
        RunStatus { failures: 0, passes: 0 }
    }

    /// Counts one run on a device, given for each of its scenarios whether
    /// it failed. The run fails if any scenario did.
    pub fn run_single(&mut self, verdicts: &[bool])
        requires
            old(self).failed_runs() < usize::MAX,
            old(self).passed_runs() < usize::MAX,
        ensures
            any_failed(verdicts@) ==> final(self).failed_runs() == old(self).failed_runs() + 1
                && final(self).passed_runs() == old(self).passed_runs(),
            !any_failed(verdicts@) ==> final(self).passed_runs() == old(self).passed_runs() + 1
                && final(self).failed_runs() == old(self).failed_runs(),
    {
        let mut failed = false;
        let mut i: usize = 0;
        while i < verdicts.len()
            invariant
                i <= verdicts@.len(),
                failed == any_failed(verdicts@.subrange(0, i as int)),
            decreases verdicts@.len() - i,
        {
            let ghost before = verdicts@.subrange(0, i as int);
            if verdicts[i] {
                failed = true;
            }
            i = i + 1;
            proof {
                let now = verdicts@.subrange(0, i as int);
                if any_failed(before) {
                    let k = choose|k: int| 0 <= k < before.len() && before[k];
                    assert(now[k]);
                }
                if verdicts@[i - 1] {
                    assert(now[i - 1]);
                }
                if any_failed(now) {
                    let k = choose|k: int| 0 <= k < now.len() && now[k];
                    if k < i - 1 {
                        assert(before[k]);
                    }
                }
            }
        }
        assert(verdicts@.subrange(0, i as int) =~= verdicts@);
        if failed {
            self.failures += 1;
        } else {
            self.passes += 1;
        }
    }

    /// The number of runs that failed.
    pub fn failures(&self) -> (n: usize)
        ensures
            n == self.failed_runs(),
    {
        self.failures
    }

    /// The number of runs that passed.
    pub fn passes(&self) -> (n: usize)
        ensures
            n == self.passed_runs(),
    {
        self.passes
    }
}

} // verus!
