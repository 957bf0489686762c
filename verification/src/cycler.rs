use vstd::prelude::*;

verus! {

/// The file cycler: sequences playback across an ordered, non-empty file
/// list. After each visit it moves to the next file; once any file has ever
/// loaded, it wraps from the last file back to the first, replaying forever.
/// While no file has ever loaded it marches straight through the list, so a
/// list where every load fails stops the run after one pass.
#[derive(Clone, Copy, Debug, PartialEq, Eq, Structural)]
pub struct Cycler {
    pub n_files: usize,
    pub idx: usize,
    pub any_loaded: bool,
}

impl Cycler {
    /// A cycler drives a non-empty file list, with its index either on a
    /// file or one past the end (the stopped position of an all-failed run).
    pub open spec fn wf(self) -> bool {
        &&& self.n_files >= 1
        &&& self.idx <= self.n_files
        &&& self.any_loaded ==> self.idx < self.n_files
    }

    /// Whether the cycler still points at a file to visit.
    pub open spec fn running(self) -> bool {
        self.idx < self.n_files
    }

    /// A fresh cycler: at the first file, nothing loaded yet.
    pub fn new(n_files: usize) -> (cy: Cycler)
        requires
            n_files >= 1,
        ensures
            cy == (Cycler { n_files, idx: 0, any_loaded: false }),
            cy.wf(),
            cy.running(),
    {
        Cycler { n_files, idx: 0, any_loaded: false }
    }

    /// The index of the file to visit next.
    pub fn current(&self) -> (i: usize)
        requires
            self.running(),
        ensures
            i == self.idx,
    {
        self.idx
    }

    /// What one visit does to the cycler: remember a successful load, then
    /// move on — wrapping to the first file once anything has ever loaded,
    /// stepping straight past the failure otherwise.
    pub open spec fn spec_visit_done(self, loaded: bool) -> Cycler {
        if self.any_loaded || loaded {
            Cycler {
                n_files: self.n_files,
                idx: ((self.idx as int + 1) % (self.n_files as int)) as usize,
                any_loaded: true,
            }
        } else {
            Cycler { n_files: self.n_files, idx: (self.idx + 1) as usize, any_loaded: false }
        }
    }

    /// Records the outcome of visiting the current file (`loaded` says
    /// whether its load succeeded; a failed or exhausted file is left the
    /// same way) and moves on. Wraps to the first file if anything has ever
    /// loaded, otherwise steps past the failure; returns whether a file is
    /// still there to visit, which is false only when nothing ever loaded
    /// and the last file has been tried.
    pub fn visit_done(&mut self, loaded: bool) -> (cont: bool)
        requires
            old(self).wf(),
            old(self).running(),
        ensures
            *final(self) == old(self).spec_visit_done(loaded),
            final(self).wf(),
            final(self).n_files == old(self).n_files,
            final(self).any_loaded == (old(self).any_loaded || loaded),
            final(self).any_loaded ==> final(self).idx == (old(self).idx + 1) % (
            old(self).n_files as int),
            !final(self).any_loaded ==> final(self).idx == old(self).idx + 1,
            cont == final(self).running(),
            final(self).any_loaded ==> cont,
    {
        if loaded {
            self.any_loaded = true;
        }
        if self.any_loaded {
            self.idx = (self.idx + 1) % self.n_files;
        } else {
            self.idx = self.idx + 1;
        }
        self.idx < self.n_files
    }
}

/// The cycler after `k` visits of a pass in which every load fails, started
/// from a fresh cycler over `n` files.
pub open spec fn run_all_failed(n: usize, k: nat) -> Cycler
    decreases k,
{
    if k == 0 {
        Cycler { n_files: n, idx: 0, any_loaded: false }
    } else {
        run_all_failed(n, (k - 1) as nat).spec_visit_done(false)
    }
}

/// A list where every file fails to load is abandoned after one pass, with
/// no playback having occurred: each failed visit moves the cycler one file
/// further, so after the `n`-th it no longer runs, instead of spinning.
pub proof fn lemma_all_failures_stop_after_one_pass(n: usize, k: nat)
    requires
        1 <= n,
        k <= n,
    ensures
        run_all_failed(n, k).n_files == n,
        run_all_failed(n, k).idx == k,
        !run_all_failed(n, k).any_loaded,
        k == n ==> !run_all_failed(n, k).running(),
    decreases k,
{
    if k > 0 {
        lemma_all_failures_stop_after_one_pass(n, (k - 1) as nat);
    }
}

} // verus!
