//! The job queue as the engine sees it: named lanes, jobs pushed with an
//! optional delay, workers bound to a lane, and a monitor that holds the
//! workers of a process.

use crate::text::str_eq;
use std::marker::PhantomData;
use vstd::prelude::*;
use vstd::string::StringExecFns;

verus! {

/// A layer that gives a worker its retry policy.
#[derive(Clone, Copy)]
pub struct RetryLayer<F> {
    policy: F,
}

impl<F> RetryLayer<F> {
    /// The policy that the layer holds.
    pub closed spec fn policy(self) -> F {
        self.policy
    }

    /// A layer that holds `policy`.
    pub fn new(policy: F) -> (layer: Self)
        ensures
            layer.policy() == policy,
    {
        Self { policy }
    }
}

/// A job waiting on a lane.
pub struct QueuedJob<T> {
    /// The lane that the job waits on.
    pub queue: String,
    pub job: T,
    /// How long the job is held back before it may be dispatched, in seconds.
    pub delay_secs: u64,
}

/// The view of a [`QueuedJob`].
pub struct QueuedJobView<T> {
    pub queue: Seq<char>,
    pub job: T,
    pub delay_secs: u64,
}

impl<T> View for QueuedJob<T> {
    type V = QueuedJobView<T>;

    open spec fn view(&self) -> QueuedJobView<T> {
        QueuedJobView { queue: self.queue@, job: self.job, delay_secs: self.delay_secs }
    }
}

/// The storage behind the delivery lanes: it keeps every job pushed, in the
/// order of the pushes.
pub struct PostgresStorage<T> {
    jobs: Vec<QueuedJob<T>>,
}

impl<T> PostgresStorage<T> {
    /// The jobs that were pushed and not yet taken, oldest first.
    pub closed spec fn pending(&self) -> Seq<QueuedJobView<T>> {
        self.jobs@.map_values(|j: QueuedJob<T>| j@)
    }

    /// A storage with no job in it.
    pub fn new(_database_url: &str) -> (storage: Self)
        ensures
            storage.pending() == Seq::<QueuedJobView<T>>::empty(),
    {
        Self { jobs: Vec::new() }
    }

    /// How many jobs are pending.
    pub fn len(&self) -> (n: usize)
        ensures
            n == self.pending().len(),
    {
        self.jobs.len()
    }

    /// Pushes `job` on the lane `queue`, to be dispatched at once.
    pub fn push(&mut self, queue: &str, job: T)
        ensures
            final(self).pending() == old(self).pending().push(
                QueuedJobView { queue: queue@, job, delay_secs: 0 },
            ),
    {
        self.push_delayed(queue, job, 0);
    }

    /// Pushes `job` on the lane `queue`, to be dispatched after `delay_secs`
    /// seconds.
    pub fn push_delayed(&mut self, queue: &str, job: T, delay_secs: u64)
        ensures
            final(self).pending() == old(self).pending().push(
                QueuedJobView { queue: queue@, job, delay_secs },
            ),
    {
        self.jobs.push(QueuedJob { queue: String::from_str(queue), job, delay_secs });
        assert(self.jobs@.map_values(|j: QueuedJob<T>| j@) == old(self).jobs@.map_values(
            |j: QueuedJob<T>| j@,
        ).push(QueuedJobView { queue: queue@, job, delay_secs }));
    }

    /// Takes the oldest pending job, if there is one.
    pub fn take_next(&mut self) -> (next: Option<QueuedJob<T>>)
        ensures
            match next {
                Some(j) => old(self).pending().len() > 0 && j@ == old(self).pending()[0]
                    && final(self).pending() == old(self).pending().drop_first(),
                None => old(self).pending().len() == 0 && final(self).pending() == old(
                    self,
                ).pending(),
            },
    {
        if self.jobs.len() == 0 {
            None
        } else {
            let j = self.jobs.remove(0);
            assert(self.jobs@.map_values(|j: QueuedJob<T>| j@) == old(self).jobs@.map_values(
                |j: QueuedJob<T>| j@,
            ).drop_first());
            Some(j)
        }
    }
}

/// The position of the oldest of `jobs` that waits on the lane `queue`, or
/// the number of jobs if none does.
pub open spec fn first_on_lane<T>(jobs: Seq<QueuedJobView<T>>, queue: Seq<char>) -> int
    decreases jobs.len(),
{
    if jobs.len() == 0 {
        0
    } else if jobs[0].queue == queue {
        0
    } else {
        1 + first_on_lane(jobs.drop_first(), queue)
    }
}

proof fn lemma_first_on_lane<T>(jobs: Seq<QueuedJobView<T>>, queue: Seq<char>, at: int)
    requires
        0 <= at <= jobs.len(),
        forall|i: int| 0 <= i < at ==> (#[trigger] jobs[i]).queue != queue,
        at < jobs.len() ==> jobs[at].queue == queue,
    ensures
        first_on_lane(jobs, queue) == at,
    decreases jobs.len(),
{
    if jobs.len() > 0 && jobs[0].queue != queue {
        let rest = jobs.drop_first();
        assert forall|i: int| 0 <= i < at - 1 implies (#[trigger] rest[i]).queue != queue by {
            assert(rest[i] == jobs[i + 1]);
        }
        lemma_first_on_lane(rest, queue, at - 1);
    }
}

impl<T> PostgresStorage<T> {
    /// Takes the oldest pending job of the lane `queue`, if there is one.
    /// The other jobs keep their order.
    pub fn take_from(&mut self, queue: &str) -> (next: Option<QueuedJob<T>>)
        ensures
            match next {
                Some(j) => {
                    let at = first_on_lane(old(self).pending(), queue@);
                    &&& at < old(self).pending().len()
                    &&& j@ == old(self).pending()[at]
                    &&& final(self).pending() == old(self).pending().remove(at)
                },
                None => first_on_lane(old(self).pending(), queue@) == old(self).pending().len()
                    && final(self).pending() == old(self).pending(),
            },
    {
        let mut at: usize = 0;
        while at < self.jobs.len() && !str_eq(self.jobs[at].queue.as_str(), queue)
            invariant
                at <= self.jobs@.len(),
                forall|i: int| 0 <= i < at ==> (#[trigger] self.pending()[i]).queue != queue@,
            decreases self.jobs@.len() - at,
        {
            at = at + 1;
        }
        proof {
            lemma_first_on_lane(self.pending(), queue@, at as int);
        }
        if at < self.jobs.len() {
            let j = self.jobs.remove(at);
            assert(self.jobs@.map_values(|j: QueuedJob<T>| j@) == old(self).jobs@.map_values(
                |j: QueuedJob<T>| j@,
            ).remove(at as int));
            Some(j)
        } else {
            None
        }
    }
}

/// A worker bound to one lane.
pub struct Worker<T> {
    queue: String,
    marker: PhantomData<T>,
}

impl<T> Worker<T> {
    /// The lane that the worker serves.
    pub closed spec fn lane(&self) -> Seq<char> {
        self.queue@
    }

    /// The lane that the worker serves.
    pub fn queue(&self) -> (name: &str)
        ensures
            name@ == self.lane(),
    {
        self.queue.as_str()
    }
}

/// Builds a worker for one lane.
pub struct WorkerBuilder<T> {
    queue: String,
    marker: PhantomData<T>,
}

impl<T> WorkerBuilder<T> {
    /// The lane that the worker will serve.
    pub closed spec fn lane(&self) -> Seq<char> {
        self.queue@
    }

    /// A builder for a worker of the lane `queue`.
    pub fn new(queue: &str) -> (builder: Self)
        ensures
            builder.lane() == queue@,
    {
        Self { queue: String::from_str(queue), marker: PhantomData }
    }

    /// Adds a layer to the worker. A layer does not change the lane.
    pub fn layer<L>(self, _layer: L) -> (builder: Self)
        ensures
            builder.lane() == self.lane(),
    {
        self
    }

    /// The worker, with `_handler` to run on each job of its lane.
    pub fn build_fn<F>(self, _handler: F) -> (worker: Worker<T>)
        ensures
            worker.lane() == self.lane(),
    {
        Worker { queue: self.queue, marker: PhantomData }
    }
}

/// The workers of a process.
pub struct Monitor<T> {
    workers: Vec<Worker<T>>,
}

impl<T> Monitor<T> {
    /// The lanes of the registered workers, in the order of registration.
    pub closed spec fn lanes(&self) -> Seq<Seq<char>> {
        self.workers@.map_values(|w: Worker<T>| w.lane())
    }

    /// A monitor with no worker.
    pub fn new() -> (monitor: Self)
        ensures
            monitor.lanes() == Seq::<Seq<char>>::empty(),
    {
        Self { workers: Vec::new() }
    }

    /// Registers one more worker.
    pub fn register(self, worker: Worker<T>) -> (monitor: Self)
        ensures
            monitor.lanes() == self.lanes().push(worker.lane()),
    {
        let mut monitor = self;
        monitor.workers.push(worker);
        assert(monitor.workers@.map_values(|w: Worker<T>| w.lane()) == self.workers@.map_values(
            |w: Worker<T>| w.lane(),
        ).push(worker.lane()));
        monitor
    }

    /// The registered workers.
    pub fn into_workers(self) -> (workers: Vec<Worker<T>>)
        ensures
            workers@.map_values(|w: Worker<T>| w.lane()) == self.lanes(),
    {
        self.workers
    }
}

} // verus!
