//! The scheduler: which job starts next, with a bound on how many jobs are
//! at work at once.
//!
//! Jobs are started in the order of the list. A job is started as soon as
//! a slot is free; the order in which jobs end is free.

use vstd::prelude::*;

verus! {

/// The counts that a scheduler keeps.
#[derive(Debug, Clone, Copy, PartialEq, Eq, Structural)]
pub struct Scheduler {
    total: usize,
    bound: usize,
    next: usize,
    active: usize,
    finished: usize,
}

/// What a `Scheduler` holds.
pub struct SchedulerView {
    /// The number of jobs.
    pub total: nat,
    /// The greatest number of jobs at work at once.
    pub bound: nat,
    /// The number of jobs started so far; also the index of the next.
    pub next: nat,
    /// The number of jobs at work.
    pub active: nat,
    /// The number of jobs that have ended.
    pub finished: nat,
}

/// What can happen to a scheduler.
pub enum SchedulerOp {
    /// A job is asked for.
    Start,
    /// A job at work has ended.
    Complete,
}

impl SchedulerView {
    /// A scheduler before anything happened.
    pub open spec fn start(total: nat, bound: nat) -> SchedulerView {
        SchedulerView { total, bound, next: 0, active: 0, finished: 0 }
    }

    /// What always holds of a scheduler.
    pub open spec fn inv(self) -> bool {
        &&& self.next <= self.total
        &&& self.active + self.finished == self.next
        &&& self.active <= self.bound
    }

    /// Whether a job can start: one is left, and a slot is free.
    pub open spec fn can_start(self) -> bool {
        self.next < self.total && self.active < self.bound
    }

    /// After a job was asked for.
    pub open spec fn start_next(self) -> SchedulerView {
        if self.can_start() {
            SchedulerView { next: self.next + 1, active: self.active + 1, ..self }
        } else {
            self
        }
    }

    /// After a job at work has ended.
    pub open spec fn complete(self) -> SchedulerView {
        if self.active > 0 {
            SchedulerView {
                active: (self.active - 1) as nat,
                finished: self.finished + 1,
                ..self
            }
        } else {
            self
        }
    }

    /// After one thing happened.
    pub open spec fn apply(self, op: SchedulerOp) -> SchedulerView {
        match op {
            SchedulerOp::Start => self.start_next(),
            SchedulerOp::Complete => self.complete(),
        }
    }

    /// After the things in `ops` happened, in order.
    pub open spec fn run(self, ops: Seq<SchedulerOp>) -> SchedulerView
        decreases ops.len(),
    {
        if ops.len() == 0 {
            self
        } else {
            self.run(ops.drop_last()).apply(ops.last())
        }
    }

    /// Whether every job has ended.
    pub open spec fn is_finished(self) -> bool {
        self.finished == self.total
    }
}

impl View for Scheduler {
    type V = SchedulerView;

    closed spec fn view(&self) -> SchedulerView {
        SchedulerView {
            total: self.total as nat,
            bound: self.bound as nat,
            next: self.next as nat,
            active: self.active as nat,
            finished: self.finished as nat,
        }
    }
}

impl Scheduler {
    /// What always holds of the counts.
    #[verifier::type_invariant]
    spec fn well_formed(self) -> bool {
        &&& self.next <= self.total
        &&& self.active + self.finished == self.next
        &&& self.active <= self.bound
    }

    /// A scheduler for `total` jobs of which at most `bound` are at work at
    /// once.
    pub fn new(total: usize, bound: usize) -> (s: Scheduler)
        ensures
            s@ == SchedulerView::start(total as nat, bound as nat),
            s@.inv(),
    {
        Scheduler { total, bound, next: 0, active: 0, finished: 0 }
    }

    /// Asks for the next job to start. Gives its index in the list where a
    /// job is left and a slot is free; gives nothing, and changes nothing,
    /// otherwise.
    pub fn start_next(&mut self) -> (r: Option<usize>)
        ensures
            final(self)@ == old(self)@.start_next(),
            final(self)@.inv(),
            r == if old(self)@.can_start() {
                Some(old(self)@.next as usize)
            } else {
                None::<usize>
            },
    {
        proof {
            use_type_invariant(&*self);
        }
        if self.next < self.total && self.active < self.bound {
            let index = self.next;
            *self = Scheduler { next: self.next + 1, active: self.active + 1, ..*self };
            Some(index)
        } else {
            None
        }
    }

    /// Records that a job at work has ended, whether it is done or has
    /// failed. Says whether a job was at work.
    pub fn complete(&mut self) -> (r: bool)
        ensures
            final(self)@ == old(self)@.complete(),
            final(self)@.inv(),
            r == (old(self)@.active > 0),
    {
        proof {
            use_type_invariant(&*self);
        }
        if self.active > 0 {
            *self = Scheduler {
                active: self.active - 1,
                finished: self.finished + 1,
                ..*self
            };
            true
        } else {
            false
        }
    }

    /// The number of jobs at work.
    pub fn active(&self) -> (n: usize)
        ensures
            n == self@.active,
    {
        self.active
    }

    /// The number of jobs that have ended.
    pub fn finished(&self) -> (n: usize)
        ensures
            n == self@.finished,
    {
        self.finished
    }

    /// Whether every job has ended: the run is over.
    pub fn is_finished(&self) -> (r: bool)
        ensures
            r == self@.is_finished(),
    {
        self.finished == self.total
    }
}

/// Bounded concurrency. Whatever is asked of a scheduler and in whatever
/// order, never more jobs are at work than the bound allows, no job is
/// started twice, and no more jobs end than were started.
pub proof fn lemma_bounded_concurrency(total: nat, bound: nat, ops: Seq<SchedulerOp>)
    ensures
        SchedulerView::start(total, bound).run(ops).inv(),
        SchedulerView::start(total, bound).run(ops).active <= bound,
        SchedulerView::start(total, bound).run(ops).next <= total,
        SchedulerView::start(total, bound).run(ops).total == total,
        SchedulerView::start(total, bound).run(ops).bound == bound,
    decreases ops.len(),
{
    if ops.len() > 0 {
        lemma_bounded_concurrency(total, bound, ops.drop_last());
    }
}

} // verus!
