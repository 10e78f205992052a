//! The worker pool's lifecycle: how many workers it starts, which of them are
//! still live, and the order in which shutdown joins them. The threads
//! themselves are run by the caller; this module decides, and proves that
//! construction starts every worker, that shutdown ends every worker, that a
//! worker whose job panicked does not stop the shutdown, and that a second
//! shutdown joins nothing.

use vstd::prelude::*;

verus! {

/// A pool was asked for with zero workers.
#[derive(Debug, Clone, Copy, PartialEq, Eq, Structural)]
pub struct PoolCreationError;

impl PoolCreationError {
    /// The error's message.
    pub fn message(&self) -> (r: &'static str)
        ensures
            r@ == "The number of threads cannot be zero"@,
    {
        "The number of threads cannot be zero"
    }
}

/// Where a worker is in its life, as the pool sees it.
#[derive(Debug, Clone, Copy, PartialEq, Eq, Structural)]
pub enum WorkerStatus {
    /// Its thread runs: it waits for a job or executes one.
    Live,
    /// Joined after its thread ended normally, on the channel's close.
    Finished,
    /// Joined after its thread ended by a panic in a job.
    Failed,
}

/// The abstract state of a pool's lifecycle.
pub ghost struct PoolModel {
    /// The status of each worker, indexed by worker id, in creation order.
    pub workers: Seq<WorkerStatus>,
    /// Whether shutdown has begun.
    pub shutting_down: bool,
}

/// The number of live workers in `w`.
pub open spec fn live_count(w: Seq<WorkerStatus>) -> nat
    decreases w.len(),
{
    if w.len() == 0 {
        0
    } else {
        live_count(w.drop_last()) + if w.last() is Live { 1nat } else { 0nat }
    }
}

/// The worker ids `0..n`, in creation order.
pub open spec fn ids_in_order(n: nat) -> Seq<usize> {
    Seq::new(n, |i: int| i as usize)
}

impl PoolModel {
    /// A pool just built with `size` workers.
    pub open spec fn started(size: nat) -> PoolModel {
        PoolModel { workers: Seq::new(size, |i: int| WorkerStatus::Live), shutting_down: false }
    }

    pub open spec fn after_begin_shutdown(self) -> PoolModel {
        PoolModel { shutting_down: true, ..self }
    }

    /// The ids that a shutdown call joins: all of them, in creation order, the
    /// first time; none after that.
    pub open spec fn join_order(self) -> Seq<usize> {
        if self.shutting_down {
            Seq::empty()
        } else {
            ids_in_order(self.workers.len())
        }
    }

    pub open spec fn exit_status(panicked: bool) -> WorkerStatus {
        if panicked {
            WorkerStatus::Failed
        } else {
            WorkerStatus::Finished
        }
    }

    /// A joined worker's exit recorded: `panicked` tells whether its thread ended
    /// by a panic.
    pub open spec fn after_join(self, id: usize, panicked: bool) -> PoolModel {
        PoolModel { workers: self.workers.update(id as int, Self::exit_status(panicked)), ..self }
    }

    /// The state after joining `ids` in order, with the panic outcome of each.
    pub open spec fn after_joins(self, ids: Seq<usize>, panics: Seq<bool>) -> PoolModel
        decreases ids.len(),
    {
        if ids.len() == 0 || panics.len() == 0 {
            self
        } else {
            self.after_join(ids[0], panics[0]).after_joins(ids.drop_first(), panics.drop_first())
        }
    }

    /// Every worker's thread has ended and been joined.
    pub open spec fn terminated(self) -> bool {
        self.shutting_down && forall|i: int| 0 <= i < self.workers.len() ==> !(#[trigger] self.workers[i] is Live)
    }
}

proof fn lemma_live_count_all_live(n: nat)
    ensures
        live_count(Seq::new(n, |i: int| WorkerStatus::Live)) == n,
    decreases n,
{
    if n > 0 {
        let w = Seq::new(n, |i: int| WorkerStatus::Live);
        assert(w.drop_last() =~= Seq::new((n - 1) as nat, |i: int| WorkerStatus::Live));
        lemma_live_count_all_live((n - 1) as nat);
    }
}

proof fn lemma_live_count_none_live(w: Seq<WorkerStatus>)
    requires
        forall|i: int| 0 <= i < w.len() ==> !(#[trigger] w[i] is Live),
    ensures
        live_count(w) == 0,
    decreases w.len(),
{
    if w.len() > 0 {
        assert(!(w[w.len() - 1] is Live));
        let d = w.drop_last();
        assert forall|i: int| 0 <= i < d.len() implies !(#[trigger] d[i] is Live) by {
            assert(d[i] == w[i]);
        }
        lemma_live_count_none_live(d);
    }
}

/// A pool built with `size > 0` workers has exactly `size` live workers and has
/// not begun to shut down.
pub proof fn lemma_started_pool_is_full(size: nat)
    requires
        size > 0,
    ensures
        live_count(PoolModel::started(size).workers) == size,
        !PoolModel::started(size).shutting_down,
{
    lemma_live_count_all_live(size);
}

/// Joining the workers in the order that the first shutdown call gives, with
/// any mix of clean exits and panicked ones, leaves every worker terminated and
/// none live; a failed join does not stop the ones after it.
pub proof fn lemma_shutdown_terminates_all(m: PoolModel, panics: Seq<bool>)
    requires
        !m.shutting_down,
        m.workers.len() <= usize::MAX,
        panics.len() == m.workers.len(),
    ensures
        m.after_begin_shutdown().after_joins(m.join_order(), panics).terminated(),
        live_count(m.after_begin_shutdown().after_joins(m.join_order(), panics).workers) == 0,
        m.after_begin_shutdown().after_joins(m.join_order(), panics).workers.len() == m.workers.len(),
{
    let n = m.workers.len();
    let s = m.after_begin_shutdown();
    lemma_joins_from(s, 0, panics);
    assert(ids_in_order(n).skip(0) =~= m.join_order());
    assert(panics.skip(0) =~= panics);
    let f = s.after_joins(m.join_order(), panics);
    lemma_live_count_none_live(f.workers);
}

/// Joining ids `k..n` in order (each with its panic outcome) from a state in
/// which ids `0..k` are no longer live leaves no worker live.
proof fn lemma_joins_from(s: PoolModel, k: nat, panics: Seq<bool>)
    requires
        s.shutting_down,
        k <= s.workers.len() <= usize::MAX,
        panics.len() == s.workers.len(),
        forall|i: int| 0 <= i < k ==> !(#[trigger] s.workers[i] is Live),
    ensures
        ({
            let f = s.after_joins(ids_in_order(s.workers.len()).skip(k as int), panics.skip(k as int));
            f.terminated() && f.workers.len() == s.workers.len()
        }),
    decreases s.workers.len() - k,
{
    let n = s.workers.len();
    let ids = ids_in_order(n).skip(k as int);
    let ps = panics.skip(k as int);
    if k == n {
        assert(ids.len() == 0);
    } else {
        let t = s.after_join(ids[0], ps[0]);
        assert(ids[0] == k as usize);
        assert(ids.drop_first() =~= ids_in_order(n).skip((k + 1) as int));
        assert(ps.drop_first() =~= panics.skip((k + 1) as int));
        assert forall|i: int| 0 <= i < k + 1 implies !(#[trigger] t.workers[i] is Live) by {
            if i < k {
                assert(t.workers[i] == s.workers[i]);
            }
        }
        lemma_joins_from(t, k + 1, panics);
    }
}

/// A second shutdown call joins nothing and changes nothing.
pub proof fn lemma_shutdown_idempotent(m: PoolModel)
    ensures
        m.after_begin_shutdown().join_order().len() == 0,
        m.after_begin_shutdown().after_begin_shutdown() == m.after_begin_shutdown(),
{
}

/// The lifecycle of a pool's workers.
pub struct PoolState {
    workers: Vec<WorkerStatus>,
    shutting_down: bool,
}

impl View for PoolState {
    type V = PoolModel;

    closed spec fn view(&self) -> PoolModel {
        PoolModel { workers: self.workers@, shutting_down: self.shutting_down }
    }
}

impl PoolState {
    /// The lifecycle of a new pool of `size` workers, all live; an error when
    /// `size` is zero.
    pub fn new(size: usize) -> (r: Result<PoolState, PoolCreationError>)
        ensures
            r is Err <==> size == 0,
            r matches Ok(p) ==> p@ == PoolModel::started(size as nat),
            r matches Ok(p) ==> live_count(p@.workers) == size,
    {
        if size == 0 {
            return Err(PoolCreationError);
        }
        let mut workers: Vec<WorkerStatus> = Vec::with_capacity(size);
        let mut id: usize = 0;
        while id < size
            invariant
                id <= size,
                workers@ == Seq::new(id as nat, |i: int| WorkerStatus::Live),
            decreases size - id,
        {
            workers.push(WorkerStatus::Live);
            id = id + 1;
            assert(workers@ =~= Seq::new(id as nat, |i: int| WorkerStatus::Live));
        }
        proof {
            lemma_started_pool_is_full(size as nat);
        }
        Ok(PoolState { workers, shutting_down: false })
    }

    /// The number of workers the pool was built with.
    pub fn size(&self) -> (r: usize)
        ensures
            r == self@.workers.len(),
    {
        self.workers.len()
    }

    /// The status of worker `id`.
    pub fn status(&self, id: usize) -> (r: WorkerStatus)
        requires
            id < self@.workers.len(),
        ensures
            r == self@.workers[id as int],
    {
        self.workers[id]
    }

    pub fn is_shutting_down(&self) -> (r: bool)
        ensures
            r == self@.shutting_down,
    {
        self.shutting_down
    }

    /// The number of live workers.
    pub fn live_workers(&self) -> (r: usize)
        ensures
            r == live_count(self@.workers),
    {
        let mut n: usize = 0;
        let mut i: usize = 0;
        while i < self.workers.len()
            invariant
                i <= self.workers@.len(),
                n == live_count(self.workers@.subrange(0, i as int)),
                n <= i,
            decreases self.workers@.len() - i,
        {
            let ghost before = self.workers@.subrange(0, i as int);
            if self.workers[i] == WorkerStatus::Live {
                n = n + 1;
            }
            i = i + 1;
            assert(self.workers@.subrange(0, i as int).drop_last() =~= before);
        }
        assert(self.workers@.subrange(0, i as int) =~= self.workers@);
        n
    }

    /// Begins shutdown and returns the ids of the workers to join, in creation
    /// order. The caller closes the job channel first, then joins each of them
    /// and records its exit. A pool already shutting down returns no id, so no
    /// worker is joined twice.
    pub fn begin_shutdown(&mut self) -> (r: Vec<usize>)
        ensures
            final(self)@ == old(self)@.after_begin_shutdown(),
            r@ == old(self)@.join_order(),
    {
        let mut order: Vec<usize> = Vec::new();
        if self.shutting_down {
            return order;
        }
        self.shutting_down = true;
        let n = self.workers.len();
        let mut id: usize = 0;
        while id < n
            invariant
                id <= n,
                n == self.workers@.len(),
                order@ == ids_in_order(id as nat),
            decreases n - id,
        {
            order.push(id);
            id = id + 1;
            assert(order@ =~= ids_in_order(id as nat));
        }
        order
    }

    /// Records that worker `id` has been joined; `panicked` tells whether its
    /// thread ended by a panic in a job. Either way the worker is terminated and
    /// the shutdown goes on.
    pub fn record_join(&mut self, id: usize, panicked: bool)
        requires
            old(self)@.shutting_down,
            id < old(self)@.workers.len(),
            old(self)@.workers[id as int] is Live,
        ensures
            final(self)@ == old(self)@.after_join(id, panicked),
    {
        let status = if panicked {
            WorkerStatus::Failed
        } else {
            WorkerStatus::Finished
        };
        self.workers.set(id, status);
    }

    /// Whether shutdown has begun and every worker has been joined.
    pub fn is_terminated(&self) -> (r: bool)
        ensures
            r == self@.terminated(),
    {
        if !self.shutting_down {
            return false;
        }
        let mut i: usize = 0;
        while i < self.workers.len()
            invariant
                i <= self.workers@.len(),
                forall|j: int| 0 <= j < i ==> !(#[trigger] self.workers@[j] is Live),
            decreases self.workers@.len() - i,
        {
            if self.workers[i] == WorkerStatus::Live {
                return false;
            }
            i = i + 1;
        }
        true
    }
}

} // verus!
