//! The job queue, and the decisions of the worker that drains it.
//!
//! A `Queue` is the ordered container itself. Whoever holds it mutably has
//! exclusive access; sharing it between the producers and the one consumer
//! is the business of the lock that the caller keeps it under.

use std::collections::VecDeque;
use vstd::prelude::*;
use crate::job::{Job, JobView};

verus! {

/// The jobs awaiting execution, oldest first.
pub struct Queue {
    pub jobs: VecDeque<Job>,
}

impl View for Queue {
    type V = Seq<JobView>;

    open spec fn view(&self) -> Seq<JobView> {
        self.jobs@.map_values(|j: Job| j@)
    }
}

/// The queue after a job has joined it: the job stands at the tail.
pub open spec fn enqueue(q: Seq<JobView>, job: JobView) -> Seq<JobView> {
    q.push(job)
}

/// The job that leaves next: the oldest, if there is any.
pub open spec fn head(q: Seq<JobView>) -> Option<JobView> {
    if q.len() > 0 {
        Some(q[0])
    } else {
        None
    }
}

/// The queue after the oldest job has left it.
pub open spec fn dequeue(q: Seq<JobView>) -> Seq<JobView> {
    if q.len() > 0 {
        q.drop_first()
    } else {
        q
    }
}

/// The queue after each of `jobs` has joined it, in order.
pub open spec fn enqueue_all(q: Seq<JobView>, jobs: Seq<JobView>) -> Seq<JobView>
    decreases jobs.len(),
{
    if jobs.len() == 0 {
        q
    } else {
        enqueue(enqueue_all(q, jobs.drop_last()), jobs.last())
    }
}

/// The jobs that leave, in order, when the queue is emptied one by one.
pub open spec fn dequeue_all(q: Seq<JobView>) -> Seq<JobView>
    decreases q.len(),
{
    match head(q) {
        Some(job) => seq![job] + dequeue_all(dequeue(q)),
        None => Seq::empty(),
    }
}

/// The pause between two drain cycles, in milliseconds.
pub const POLL_INTERVAL_MS: u64 = 5000;

/// What the worker reports to the queue between two decisions.
#[derive(Clone, Debug, PartialEq)]
pub enum DrainEvent {
    /// The polling interval has elapsed: a drain cycle begins.
    Tick,
    /// The job handed out last ran until its process exited, with whatever
    /// exit code.
    Exited,
    /// The process of the job handed out last could not be spawned.
    SpawnFailed(Job),
}

/// What the worker is to do next.
#[derive(Clone, Debug, PartialEq)]
pub enum DrainAction {
    /// Run this job's command to completion, then report back.
    Run(Job),
    /// Nothing is waiting: the drain cycle is over.
    Idle,
    /// The drain cycle is abandoned; this job could not be started and is
    /// lost.
    Abort(Job),
}

/// An event over plain sequences of characters.
pub enum DrainEventView {
    Tick,
    Exited,
    SpawnFailed(JobView),
}

/// An action over plain sequences of characters.
pub enum DrainActionView {
    Run(JobView),
    Idle,
    Abort(JobView),
}

impl View for DrainEvent {
    type V = DrainEventView;

    open spec fn view(&self) -> DrainEventView {
        match self {
            DrainEvent::Tick => DrainEventView::Tick,
            DrainEvent::Exited => DrainEventView::Exited,
            DrainEvent::SpawnFailed(job) => DrainEventView::SpawnFailed(job@),
        }
    }
}

impl View for DrainAction {
    type V = DrainActionView;

    open spec fn view(&self) -> DrainActionView {
        match self {
            DrainAction::Run(job) => DrainActionView::Run(job@),
            DrainAction::Idle => DrainActionView::Idle,
            DrainAction::Abort(job) => DrainActionView::Abort(job@),
        }
    }
}

/// The worker's next action on an event.
///
/// A failed spawn ends the cycle and names the job. Otherwise the oldest
/// job, if any, is to be run; with none waiting the cycle is over.
pub open spec fn spec_action(q: Seq<JobView>, event: DrainEventView) -> DrainActionView {
    match event {
        DrainEventView::SpawnFailed(job) => DrainActionView::Abort(job),
        _ => match head(q) {
            Some(job) => DrainActionView::Run(job),
            None => DrainActionView::Idle,
        },
    }
}

/// The queue after the worker's decision on an event: a failed spawn leaves
/// it as it is, anything else takes the oldest job out.
pub open spec fn spec_after(q: Seq<JobView>, event: DrainEventView) -> Seq<JobView> {
    match event {
        DrainEventView::SpawnFailed(_) => q,
        _ => dequeue(q),
    }
}

/// The jobs handed out for execution, in order, from `event` until the
/// worker idles or gives up, where every job that is handed out runs until
/// its process exits.
pub open spec fn handed_out(q: Seq<JobView>, event: DrainEventView) -> Seq<JobView>
    decreases q.len(),
{
    match spec_action(q, event) {
        DrainActionView::Run(job) => seq![job] + handed_out(
            spec_after(q, event),
            DrainEventView::Exited,
        ),
        _ => Seq::empty(),
    }
}

impl Queue {
    /// An empty queue.
    pub fn new() -> (r: Queue)
        ensures
            r@ == Seq::<JobView>::empty(),
    {
        let r = Queue { jobs: VecDeque::new() };
        r
    }

    /// Appends a job at the tail. With the queue in hand this cannot fail.
    pub fn add(&mut self, job: Job) -> (r: Result<(), &'static str>)
        ensures
            r is Ok,
            final(self)@ == enqueue(old(self)@, job@),
    {
        self.jobs.push_back(job);
        Ok(())
    }

    /// The number of jobs that wait.
    pub fn length(&self) -> (r: Result<usize, &'static str>)
        ensures
            r == Ok::<usize, &'static str>(self@.len() as usize),
            self@.len() <= usize::MAX,
    {
        Ok(self.jobs.len())
    }

    /// Takes the oldest job out, if there is one.
    pub fn get_job(&mut self) -> (r: Option<Job>)
        ensures
            match r {
                Some(job) => head(old(self)@) == Some(job@),
                None => head(old(self)@) is None,
            },
            final(self)@ == dequeue(old(self)@),
    {
        let r = self.jobs.pop_front();
        r
    }

    /// Decides the worker's next action on an event, taking the job to run
    /// out of the queue.
    pub fn process(&mut self, event: DrainEvent) -> (r: DrainAction)
        ensures
            r@ == spec_action(old(self)@, event@),
            final(self)@ == spec_after(old(self)@, event@),
    {
        match event {
            DrainEvent::SpawnFailed(job) => DrainAction::Abort(job),
            _ => match self.get_job() {
                Some(job) => DrainAction::Run(job),
                None => DrainAction::Idle,
            },
        }
    }
}

/// What the worker does on an event while the queue cannot be had without
/// waiting: it reports a failed spawn and otherwise ends the cycle, leaving
/// what waits to the next one.
pub fn process_without_queue(event: DrainEvent) -> (r: DrainAction)
    ensures
        r@ == spec_action(Seq::empty(), event@),
{
    match event {
        DrainEvent::SpawnFailed(job) => DrainAction::Abort(job),
        _ => DrainAction::Idle,
    }
}

/// First in, first out: jobs that join a queue leave it after those that
/// were waiting, and in the order in which they joined.
pub proof fn lemma_fifo(q: Seq<JobView>, jobs: Seq<JobView>)
    ensures
        enqueue_all(q, jobs) == q + jobs,
        dequeue_all(enqueue_all(q, jobs)) == q + jobs,
    decreases jobs.len(),
{
    if jobs.len() > 0 {
        lemma_fifo(q, jobs.drop_last());
        assert((q + jobs.drop_last()).push(jobs.last()) =~= q + jobs);
    }
    lemma_dequeue_all(q + jobs);
}

/// Emptying a queue one job at a time yields exactly what it held, oldest
/// first.
pub proof fn lemma_dequeue_all(q: Seq<JobView>)
    ensures
        dequeue_all(q) == q,
    decreases q.len(),
{
    if q.len() > 0 {
        lemma_dequeue_all(q.drop_first());
    }
}

/// A drain cycle is exhaustive: where every process can be spawned, the
/// jobs handed out between a tick and the worker's idling are all that
/// waited, oldest first, and the queue is empty when the worker idles.
pub proof fn lemma_drain_exhaustive(q: Seq<JobView>)
    ensures
        handed_out(q, DrainEventView::Tick) == q,
        handed_out(q, DrainEventView::Exited) == q,
        spec_action(q, DrainEventView::Tick) is Idle <==> q.len() == 0,
        spec_action(q, DrainEventView::Exited) is Idle <==> q.len() == 0,
    decreases q.len(),
{
    if q.len() > 0 {
        lemma_drain_exhaustive(q.drop_first());
    }
}

/// A failed spawn ends the cycle at once: the job is reported, nothing more
/// is handed out, and what waits stays in the queue.
pub proof fn lemma_failed_spawn_ends_cycle(q: Seq<JobView>, job: JobView)
    ensures
        spec_action(q, DrainEventView::SpawnFailed(job)) == DrainActionView::Abort(job),
        spec_after(q, DrainEventView::SpawnFailed(job)) == q,
        handed_out(q, DrainEventView::SpawnFailed(job)) == Seq::<JobView>::empty(),
{
}

} // verus!
