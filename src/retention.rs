//! Deferred cleanup: after a conversion resolves, the source is deleted after
//! a short grace period (a window for keeping a failed job's source), and
//! the job's entry and output expire after a longer retention window. Time is
//! passed in, in seconds, so that callers and tests decide when it advances.

use vstd::prelude::*;
use crate::job::{input_path, job_file, output_path};

verus! {

broadcast use vstd::seq_lib::group_seq_properties;

/// Seconds between a conversion's resolution and the deletion of its source.
pub const INPUT_GRACE_SECS: u64 = 15;

/// Seconds between a conversion's resolution and the expiry of its output.
pub const OUTPUT_LIFETIME_SECS: u64 = 3600;

/// A cleanup to perform.
#[derive(Debug)]
pub enum CleanupTask {
    /// Delete the source file at `path`.
    RemoveInput { id: u128, path: String },
    /// Remove job `id` from the registry and delete its output at `path`,
    /// if still there.
    ExpireOutput { id: u128, path: String },
}

/// A cleanup and the time at which it falls due.
#[derive(Debug)]
pub struct Deferred {
    pub due: u64,
    pub task: CleanupTask,
}

pub open spec fn add_secs(now: u64, secs: u64) -> u64 {
    if now as nat + secs as nat > u64::MAX {
        u64::MAX
    } else {
        (now + secs) as u64
    }
}

pub open spec fn is_due(d: Deferred, now: u64) -> bool {
    d.due <= now
}

/// The cleanups that wait for their time.
pub struct RetentionScheduler {
    pending: Vec<Deferred>,
}

impl RetentionScheduler {
    pub closed spec fn pending(&self) -> Seq<Deferred> {
        self.pending@
    }

    pub fn new() -> (r: Self)
        ensures
            r.pending() == Seq::<Deferred>::empty(),
    {
        RetentionScheduler { pending: Vec::new() }
    }

    pub fn len(&self) -> (r: usize)
        ensures
            r == self.pending().len(),
    {
        self.pending.len()
    }

    /// Schedules the two cleanups that follow the resolution of job `id`'s
    /// conversion at time `now`: its source `from` after the grace period,
    /// and its entry and output `to` after the retention window.
    pub fn schedule_resolution(&mut self, now: u64, id: u128, from: &str, to: &str)
        ensures
            final(self).pending().len() == old(self).pending().len() + 2,
            final(self).pending().subrange(0, old(self).pending().len() as int) == old(self).pending(),
            ({
                let d = final(self).pending()[old(self).pending().len() as int];
                &&& d.due == add_secs(now, INPUT_GRACE_SECS)
                &&& d.task is RemoveInput
                &&& d.task->RemoveInput_id == id
                &&& d.task->RemoveInput_path@ == job_file("input"@, id, from@)
            }),
            ({
                let d = final(self).pending()[old(self).pending().len() + 1int];
                &&& d.due == add_secs(now, OUTPUT_LIFETIME_SECS)
                &&& d.task is ExpireOutput
                &&& d.task->ExpireOutput_id == id
                &&& d.task->ExpireOutput_path@ == job_file("output"@, id, to@)
            }),
    {
        let input_due = now.saturating_add(INPUT_GRACE_SECS);
        let output_due = now.saturating_add(OUTPUT_LIFETIME_SECS);
        self.pending.push(Deferred {
            due: input_due,
            task: CleanupTask::RemoveInput { id, path: input_path(id, from) },
        });
        self.pending.push(Deferred {
            due: output_due,
            task: CleanupTask::ExpireOutput { id, path: output_path(id, to) },
        });
    }

    /// Removes and returns, in the order they were scheduled, the cleanups
    /// due at time `now`; the others keep waiting, in order.
    pub fn take_due(&mut self, now: u64) -> (r: Vec<Deferred>)
        ensures
            r@ == old(self).pending().filter(|d: Deferred| is_due(d, now)),
            final(self).pending() == old(self).pending().filter(|d: Deferred| !is_due(d, now)),
    {
        let ghost all = self.pending@;
        let mut due: Vec<Deferred> = Vec::new();
        let mut wait: Vec<Deferred> = Vec::new();
        let ghost mut k: int = 0;
        while self.pending.len() > 0
            invariant
                0 <= k <= all.len(),
                self.pending@ == all.subrange(k, all.len() as int),
                due@ == all.subrange(0, k).filter(|d: Deferred| is_due(d, now)),
                wait@ == all.subrange(0, k).filter(|d: Deferred| !is_due(d, now)),
            decreases self.pending.len(),
        {
            let d = self.pending.remove(0);
            proof {
                assert(all.subrange(0, k + 1) =~= all.subrange(0, k).push(d));
                all.subrange(0, k).lemma_filter_push(d, |d: Deferred| is_due(d, now));
                all.subrange(0, k).lemma_filter_push(d, |d: Deferred| !is_due(d, now));
                k = k + 1;
            }
            if d.due <= now {
                due.push(d);
            } else {
                wait.push(d);
            }
            assert(self.pending@ =~= all.subrange(k, all.len() as int));
        }
        assert(all.subrange(0, k) =~= all);
        self.pending = wait;
        due
    }
}

} // verus!
