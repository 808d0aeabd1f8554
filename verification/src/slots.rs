//! The concurrency ceiling: how many fetches run at once, and which job waits.
//!
//! A job that finds no free slot is queued, never turned away. When a fetch ends,
//! its slot goes to the job that has waited longest.

use vstd::prelude::*;
use crate::dispatch::{DispatchError, DispatchErrorView};

verus! {

/// The fetch slots of a dispatcher.
#[derive(Debug)]
pub struct Slots {
    ceiling: usize,
    running: usize,
    waiting: Vec<u64>,
}

pub struct SlotsView {
    /// How many fetches may run at once.
    pub ceiling: nat,
    /// How many fetches run now.
    pub running: nat,
    /// The jobs that wait for a slot, the one that came first at the front.
    pub waiting: Seq<u64>,
}

/// Whether a job got a slot.
#[derive(Debug, Clone, Copy, PartialEq, Eq, Structural)]
pub enum Admission {
    /// The job has a slot: its fetch may start.
    Started,
    /// All slots are taken: the job waits until a slot is handed to it.
    Queued,
}

/// No more fetches run than the ceiling allows, and a job waits only while every
/// slot is taken.
pub open spec fn within_ceiling(v: SlotsView) -> bool {
    &&& v.ceiling > 0
    &&& v.running <= v.ceiling
    &&& v.waiting.len() > 0 ==> v.running == v.ceiling
}

/// A job asks for a slot: it gets one where one is free, else it joins the end of
/// the queue.
pub open spec fn acquired(v: SlotsView, job: u64) -> (SlotsView, Admission) {
    if v.running < v.ceiling {
        (SlotsView { running: v.running + 1, ..v }, Admission::Started)
    } else {
        (SlotsView { waiting: v.waiting.push(job), ..v }, Admission::Queued)
    }
}

/// A fetch ends: its slot goes to the job at the front of the queue, which is
/// named, or falls free where no job waits.
pub open spec fn released(v: SlotsView) -> (SlotsView, Option<u64>) {
    if v.waiting.len() > 0 {
        (SlotsView { waiting: v.waiting.drop_first(), ..v }, Some(v.waiting.first()))
    } else if v.running > 0 {
        (SlotsView { running: (v.running - 1) as nat, ..v }, None)
    } else {
        (v, None)
    }
}

/// A queue without the first place that `job` holds in it.
pub open spec fn without_first(queue: Seq<u64>, job: u64) -> Seq<u64>
    decreases queue.len(),
{
    if queue.len() == 0 {
        queue
    } else if queue.first() == job {
        queue.drop_first()
    } else {
        seq![queue.first()] + without_first(queue.drop_first(), job)
    }
}

/// A waiting job gives up: it leaves the queue, and the others keep their order.
pub open spec fn withdrawn(v: SlotsView, job: u64) -> (SlotsView, bool) {
    (SlotsView { waiting: without_first(v.waiting, job), ..v }, v.waiting.contains(job))
}

proof fn lemma_without_first_at(queue: Seq<u64>, job: u64, at: int)
    requires
        0 <= at < queue.len(),
        queue[at] == job,
        forall|j: int| 0 <= j < at ==> queue[j] != job,
    ensures
        without_first(queue, job) == queue.remove(at),
    decreases queue.len(),
{
    if at == 0 {
        assert(queue.remove(0) == queue.drop_first());
    } else {
        let rest = queue.drop_first();
        assert(queue[0] != job);
        assert forall|j: int| 0 <= j < at - 1 implies rest[j] != job by {
            assert(rest[j] == queue[j + 1]);
        }
        lemma_without_first_at(rest, job, at - 1);
        assert(seq![queue.first()] + rest.remove(at - 1) == queue.remove(at));
    }
}

proof fn lemma_without_first_absent(queue: Seq<u64>, job: u64)
    requires
        !queue.contains(job),
    ensures
        without_first(queue, job) == queue,
    decreases queue.len(),
{
    if queue.len() > 0 {
        let rest = queue.drop_first();
        assert(queue[0] != job);
        assert forall|j: int| 0 <= j < rest.len() implies rest[j] != job by {
            assert(rest[j] == queue[j + 1]);
        }
        assert(!rest.contains(job));
        lemma_without_first_absent(rest, job);
        assert(seq![queue.first()] + rest == queue);
    }
}

impl Slots {
    #[verifier::type_invariant]
    spec fn well_formed(self) -> bool {
        &&& self.ceiling > 0
        &&& self.running <= self.ceiling
        &&& self.waiting@.len() > 0 ==> self.running == self.ceiling
    }

    /// The slots as numbers and a queue.
    pub closed spec fn view(&self) -> SlotsView {
        SlotsView {
            ceiling: self.ceiling as nat,
            running: self.running as nat,
            waiting: self.waiting@,
        }
    }

    /// Makes the slots for a ceiling, all of them free. A ceiling of zero is
    /// refused.
    pub fn new(ceiling: usize) -> (r: Result<Slots, DispatchError>)
        ensures
            match r {
                Ok(slots) => ceiling > 0 && slots@ == (SlotsView {
                    ceiling: ceiling as nat,
                    running: 0,
                    waiting: Seq::empty(),
                }),
                Err(e) => ceiling == 0 && e@ == DispatchErrorView::InvalidConfiguration,
            },
    {
        if ceiling == 0 {
            Err(DispatchError::InvalidConfiguration)
        } else {
            Ok(Slots { ceiling, running: 0, waiting: Vec::new() })
        }
    }

    /// How many fetches run now.
    pub fn running(&self) -> (n: usize)
        ensures
            n == self@.running,
            within_ceiling(self@),
    {
        proof {
            use_type_invariant(self);
        }
        self.running
    }

    /// How many jobs wait for a slot.
    pub fn waiting(&self) -> (n: usize)
        ensures
            n == self@.waiting.len(),
    {
        self.waiting.len()
    }

    /// A job asks for a slot.
    pub fn acquire(self, job: u64) -> (r: (Slots, Admission))
        ensures
            (r.0@, r.1) == acquired(self@, job),
            within_ceiling(r.0@),
    {
        proof {
            use_type_invariant(&self);
        }
        if self.running < self.ceiling {
            (
                Slots { ceiling: self.ceiling, running: self.running + 1, waiting: self.waiting },
                Admission::Started,
            )
        } else {
            let mut waiting = self.waiting;
            waiting.push(job);
            (Slots { ceiling: self.ceiling, running: self.running, waiting }, Admission::Queued)
        }
    }

    /// A fetch has ended. The job that is named, if any, has the slot now and may
    /// start its fetch.
    pub fn release(self) -> (r: (Slots, Option<u64>))
        ensures
            (r.0@, r.1) == released(self@),
            within_ceiling(r.0@),
    {
        proof {
            use_type_invariant(&self);
        }
        if self.waiting.len() > 0 {
            let mut waiting = self.waiting;
            let job = waiting.remove(0);
            assert(waiting@ == self.waiting@.drop_first());
            (Slots { ceiling: self.ceiling, running: self.running, waiting }, Some(job))
        } else if self.running > 0 {
            (
                Slots { ceiling: self.ceiling, running: self.running - 1, waiting: self.waiting },
                None,
            )
        } else {
            (self, None)
        }
    }

    /// A waiting job gives up, as one does whose deadline has passed. Says whether
    /// the job was waiting.
    pub fn withdraw(self, job: u64) -> (r: (Slots, bool))
        ensures
            (r.0@, r.1) == withdrawn(self@, job),
            within_ceiling(r.0@),
    {
        proof {
            use_type_invariant(&self);
        }
        let mut at: usize = 0;
        while at < self.waiting.len()
            invariant
                at <= self.waiting.len(),
                forall|j: int| 0 <= j < at ==> self.waiting@[j] != job,
            ensures
                at < self.waiting.len() ==> self.waiting@[at as int] == job,
            decreases self.waiting.len() - at,
        {
            if self.waiting[at] == job {
                break;
            }
            at += 1;
        }
        if at < self.waiting.len() {
            proof {
                lemma_without_first_at(self.waiting@, job, at as int);
                assert(self.waiting@.contains(job));
            }
            let mut waiting = self.waiting;
            waiting.remove(at);
            (Slots { ceiling: self.ceiling, running: self.running, waiting }, true)
        } else {
            proof {
                lemma_without_first_absent(self.waiting@, job);
            }
            (self, false)
        }
    }
}

} // verus!
