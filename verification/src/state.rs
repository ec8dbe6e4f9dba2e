//! The table of running worker processes kept by the supervisor.
use vstd::prelude::*;
use crate::launch::Spawn;
use crate::restart::{Restart, restart_spec};
use crate::task::{Retry, Task};
use vstd::std_specs::cmp::PartialEqSpecImpl;

verus! {

/// A running worker process.
#[derive(Debug)]
pub struct WorkerState<C> {
    /// What the worker runs.
    pub task: Task,
    /// Opaque identifier of the worker.
    pub id: String,
    /// Socket path of the supervisor.
    pub socket: String,
    /// Process identifier, when the system gave one.
    pub pid: Option<u32>,
    /// If we are shutting down this worker explicitly
    /// this flag will be set to prevent the worker from
    /// being re-spawned.
    pub reap: bool,
    /// Channel on which the worker is told to shut down.
    pub shutdown: C,
}

/// Two worker records are the same worker when identifier and process
/// identifier agree.
impl<C> PartialEq for WorkerState<C> {
    fn eq(&self, other: &Self) -> (r: bool) {
        self.id == other.id && self.pid == other.pid
    }
}

impl<C> PartialEqSpecImpl for WorkerState<C> {
    open spec fn obeys_eq_spec() -> bool {
        true
    }

    open spec fn eq_spec(&self, other: &Self) -> bool {
        self.id@ == other.id@ && self.pid == other.pid
    }
}

impl<C> Eq for WorkerState<C> {
}

/// Whether some worker of `ws` has the identifier `id`.
pub open spec fn has_id<C>(ws: Seq<WorkerState<C>>, id: Seq<char>) -> bool {
    exists|i: int| 0 <= i < ws.len() && (#[trigger] ws[i]).id@ == id
}

/// `i` is the first position in `ws` of a worker with identifier `id`.
pub open spec fn first_with_id<C>(ws: Seq<WorkerState<C>>, id: Seq<char>, i: int) -> bool {
    &&& 0 <= i < ws.len()
    &&& ws[i].id@ == id
    &&& forall|j: int| 0 <= j < i ==> (#[trigger] ws[j]).id@ != id
}

/// The workers left when the one at position `i` is taken out: the last
/// worker takes its place.
pub open spec fn take_out<C>(ws: Seq<WorkerState<C>>, i: int) -> Seq<WorkerState<C>> {
    ws.update(i, ws.last()).drop_last()
}

/// What becomes of worker `w` when its process has died, given its
/// restart state: a worker that was shut down explicitly or is no daemon
/// is not started again; otherwise the restart policy decides.
pub open spec fn exit_outcome<C>(w: WorkerState<C>, retry: Retry) -> Exit<C> {
    if w.reap || !w.task@.daemon {
        Exit::Retired { worker: w }
    } else {
        match restart_spec(retry) {
            Restart::GiveUp => Exit::GaveUp { worker: w },
            Restart::After { delay_ms, retry } => Exit::Restart {
                delay_ms,
                spawn: Spawn { id: w.id, task: w.task, socket: w.socket, retry },
            },
        }
    }
}

/// What the supervisor does when a worker process has died.
pub enum Exit<C> {
    /// No worker with that identifier is registered any more: it was shut
    /// down explicitly before.
    Stale,
    /// The worker is removed and not started again.
    Retired { worker: WorkerState<C> },
    /// The worker is removed and not started again: it reached its retry limit.
    GaveUp { worker: WorkerState<C> },
    /// The worker is removed and started again after `delay_ms` milliseconds.
    Restart { delay_ms: usize, spawn: Spawn },
}

/// State of the supervisor worker processes.
pub struct SupervisorState<C> {
    workers: Vec<WorkerState<C>>,
}

impl<C> View for SupervisorState<C> {
    type V = Seq<WorkerState<C>>;

    closed spec fn view(&self) -> Seq<WorkerState<C>> {
        self.workers@
    }
}

/// Taking a worker out of the table loses no other worker: the workers
/// left and the one taken out are together those that were there.
pub proof fn lemma_take_out_keeps_others<C>(ws: Seq<WorkerState<C>>, i: int)
    requires
        0 <= i < ws.len(),
    ensures
        ws.to_multiset() =~= take_out(ws, i).to_multiset().insert(ws[i]),
        take_out(ws, i).len() == ws.len() - 1,
{
    broadcast use vstd::seq_lib::group_to_multiset_ensures;
    let t = ws.update(i, ws.last());
    vstd::seq_lib::to_multiset_update(ws, i, ws.last());
    assert(t.drop_last() =~= t.remove(t.len() - 1));
    vstd::seq_lib::to_multiset_remove(t, t.len() - 1);
    assert(t[t.len() - 1] == ws.last());
}

impl<C> SupervisorState<C> {
    /// An empty table.
    pub fn new() -> (s: Self)
        ensures
            s@ == Seq::<WorkerState<C>>::empty(),
            unique_ids(s@),
    {
        SupervisorState { workers: Vec::new() }
    }

    /// The number of workers.
    pub fn len(&self) -> (n: usize)
        ensures
            n == self@.len(),
    {
        self.workers.len()
    }

    /// Register a started worker.
    pub fn add(&mut self, worker: WorkerState<C>)
        ensures
            final(self)@ == old(self)@.push(worker),
            unique_ids(old(self)@) && !has_id(old(self)@, worker.id@) ==> unique_ids(final(self)@),
    {
        self.workers.push(worker);
        proof {
            let ws = self@;
            if unique_ids(old(self)@) && !has_id(old(self)@, ws.last().id@) {
                assert forall|a: int, b: int| 0 <= a < ws.len() && 0 <= b < ws.len() && a != b
                    implies (#[trigger] ws[a]).id@ != (#[trigger] ws[b]).id@ by {
                    if a < ws.len() - 1 {
                        assert(ws[a] == old(self)@[a]);
                    }
                    if b < ws.len() - 1 {
                        assert(ws[b] == old(self)@[b]);
                    }
                }
            }
        }
    }

    /// Position of the first worker with identifier `id`.
    fn position(&self, id: &String) -> (r: Option<usize>)
        ensures
            r is None <==> !has_id(self@, id@),
            r matches Some(i) ==> first_with_id(self@, id@, i as int),
    {
        let n = self.workers.len();
        let mut i: usize = 0;
        while i < n
            invariant
                n == self.workers.len(),
                i <= n,
                forall|j: int| 0 <= j < i ==> (#[trigger] self.workers@[j]).id@ != id@,
            decreases n - i,
        {
            if self.workers[i].id == *id {
                return Some(i);
            }
            i = i + 1;
        }
        None
    }

    /// Remove the first worker with identifier `id`; the last worker takes
    /// its place.
    pub fn remove(&mut self, id: &String) -> (r: Option<WorkerState<C>>)
        ensures
            r is None <==> !has_id(old(self)@, id@),
            r is None ==> final(self)@ == old(self)@,
            r matches Some(w) ==> exists|i: int|
                first_with_id(old(self)@, id@, i)
                && w == old(self)@[i]
                && final(self)@ == take_out(old(self)@, i),
            unique_ids(old(self)@) ==> unique_ids(final(self)@),
            unique_ids(old(self)@) ==> !has_id(final(self)@, id@),
    {
        match self.position(id) {
            Some(i) => {
                let w = self.workers.swap_remove(i);
                assert(self@ == take_out(old(self)@, i as int));
                proof {
                    if unique_ids(old(self)@) {
                        lemma_shut_down_worker_is_not_restarted(old(self)@, id@, i as int);
                    }
                }
                Some(w)
            }
            None => None,
        }
    }

    /// Take all workers out of the table, in order.
    pub fn drain(&mut self) -> (ws: Vec<WorkerState<C>>)
        ensures
            ws@ == old(self)@,
            final(self)@ == Seq::<WorkerState<C>>::empty(),
            unique_ids(final(self)@),
    {
        let mut ws = Vec::new();
        std::mem::swap(&mut ws, &mut self.workers);
        ws
    }

    /// A worker process has died: take it out of the table and decide
    /// whether to start it again.
    pub fn worker_exited(&mut self, id: &String, retry: Retry) -> (x: Exit<C>)
        requires
            forall|i: int| first_with_id(old(self)@, id@, i) && (#[trigger] old(self)@[i]).wants_restart_spec()
                ==> retry.can_advance_spec(),
        ensures
            x is Stale <==> !has_id(old(self)@, id@),
            x is Stale ==> final(self)@ == old(self)@,
            !(x is Stale) ==> exists|i: int|
                first_with_id(old(self)@, id@, i)
                && final(self)@ == take_out(old(self)@, i)
                && x == exit_outcome(old(self)@[i], retry),
            unique_ids(old(self)@) ==> unique_ids(final(self)@),
            unique_ids(old(self)@) ==> !has_id(final(self)@, id@),
    {
        match self.remove(id) {
            None => Exit::Stale,
            Some(w) => w.exit(retry),
        }
    }
}

impl<C> WorkerState<C> {
    /// The worker is to be started again when its process dies: it is a
    /// daemon and was not shut down explicitly.
    pub open spec fn wants_restart_spec(&self) -> bool {
        !self.reap && self.task@.daemon
    }

    /// Whether the worker is to be started again when its process dies.
    pub fn wants_restart(&self) -> (b: bool)
        ensures
            b == self.wants_restart_spec(),
    {
        !self.reap && self.task.is_daemon()
    }

    /// Decide what becomes of this worker, taken out of the table, now that
    /// its process has died.
    pub fn exit(self, retry: Retry) -> (x: Exit<C>)
        requires
            self.wants_restart_spec() ==> retry.can_advance_spec(),
        ensures
            x == exit_outcome(self, retry),
            x is Retired <==> !self.wants_restart_spec(),
            x is GaveUp <==> self.wants_restart_spec() && retry.attempts >= retry.limit,
            x matches Exit::Restart { delay_ms, spawn } ==> {
                &&& spawn.id == self.id && spawn.task == self.task && spawn.socket == self.socket
                &&& spawn.retry.limit == retry.limit
                &&& spawn.retry.factor == retry.factor
                &&& spawn.retry.attempts == retry.attempts + 1
                &&& delay_ms == (retry.attempts + 1) * retry.factor
            },
    {
        if self.reap || !self.task.is_daemon() {
            Exit::Retired { worker: self }
        } else {
            match retry.next() {
                Restart::GiveUp => Exit::GaveUp { worker: self },
                Restart::After { delay_ms, retry } => Exit::Restart {
                    delay_ms,
                    spawn: Spawn { id: self.id, task: self.task, socket: self.socket, retry },
                },
            }
        }
    }
}

/// No two workers of `ws` share an identifier.
pub open spec fn unique_ids<C>(ws: Seq<WorkerState<C>>) -> bool {
    forall|a: int, b: int| 0 <= a < ws.len() && 0 <= b < ws.len() && a != b
        ==> (#[trigger] ws[a]).id@ != (#[trigger] ws[b]).id@
}

/// A worker that died is started again only when it is a daemon, was not
/// shut down explicitly and its retry limit is not reached; a restarted
/// worker keeps its identifier, task and socket. In particular a retry
/// limit of zero overrides the daemon flag.
pub proof fn lemma_exit_restarts_only_live_daemons<C>(w: WorkerState<C>, retry: Retry)
    ensures
        exit_outcome(w, retry) is Restart <==>
            (!w.reap && w.task@.daemon && retry.attempts < retry.limit),
        retry.limit == 0 ==> !(exit_outcome(w, retry) is Restart),
        retry.can_advance_spec() ==> (exit_outcome(w, retry) matches Exit::Restart { delay_ms, spawn } ==>
            spawn.id == w.id && spawn.task == w.task && spawn.socket == w.socket
            && spawn.retry.limit == retry.limit
            && spawn.retry.factor == retry.factor
            && spawn.retry.attempts == retry.attempts + 1
            && delay_ms == (retry.attempts + 1) * retry.factor),
{
}

/// Consecutive restarts of one worker keep its limit and factor: the delay
/// of each restart is its attempt count times the same factor, so the
/// restart that follows a restart waits exactly one factor longer.
pub proof fn lemma_consecutive_restarts<C>(w: WorkerState<C>, retry: Retry, w2: WorkerState<C>)
    requires
        retry.can_advance_spec(),
        exit_outcome(w, retry) is Restart,
        w2.wants_restart_spec(),
    ensures
        exit_outcome(w, retry) matches Exit::Restart { delay_ms, spawn } ==> {
            let r2 = spawn.retry;
            &&& r2 == (Retry { attempts: (retry.attempts + 1) as usize, ..retry })
            &&& r2.can_advance_spec() ==> (exit_outcome(w2, r2) matches Exit::Restart { delay_ms: d2, spawn: s2 }
                ==> d2 == delay_ms + retry.factor && s2.retry.factor == retry.factor
                    && s2.retry.limit == retry.limit)
        },
{
    if let Exit::Restart { delay_ms, spawn } = exit_outcome(w, retry) {
        let r2 = spawn.retry;
        assert(r2.factor == retry.factor);
        assert(r2.attempts == retry.attempts + 1);
        if r2.can_advance_spec() {
            if let Exit::Restart { delay_ms: d2, spawn: s2 } = exit_outcome(w2, r2) {
                assert(d2 == (r2.attempts + 1) * r2.factor);
                assert((retry.attempts + 2) * retry.factor == (retry.attempts + 1) * retry.factor + retry.factor)
                    by (nonlinear_arith);
            }
        }
    }
}

/// A worker that was shut down explicitly is not restarted: once it is
/// taken out of a table whose identifiers are unique, the death of its
/// process finds no worker with its identifier.
pub proof fn lemma_shut_down_worker_is_not_restarted<C>(ws: Seq<WorkerState<C>>, id: Seq<char>, i: int)
    requires
        unique_ids(ws),
        first_with_id(ws, id, i),
    ensures
        !has_id(take_out(ws, i), id),
        unique_ids(take_out(ws, i)),
{
    let t = take_out(ws, i);
    assert forall|j: int| 0 <= j < t.len() implies (#[trigger] t[j]).id@ != id by {
        if j == i {
            assert(t[j] == ws[ws.len() - 1]);
            assert(ws.len() - 1 != i);
        } else {
            assert(t[j] == ws[j]);
        }
    }
    assert forall|a: int, b: int| 0 <= a < t.len() && 0 <= b < t.len() && a != b
        implies (#[trigger] t[a]).id@ != (#[trigger] t[b]).id@ by {
        let pa = if a == i { ws.len() - 1 } else { a };
        let pb = if b == i { ws.len() - 1 } else { b };
        assert(t[a] == ws[pa]);
        assert(t[b] == ws[pb]);
    }
}

/// After all workers were taken out (the global shutdown), the death of
/// any worker process restarts nothing.
pub proof fn lemma_drained_table_restarts_nothing<C>(id: Seq<char>)
    ensures
        !has_id(Seq::<WorkerState<C>>::empty(), id),
{
}

}
