//! What a worker process is started with.
use vstd::prelude::*;
use crate::task::{Retry, Task};
use crate::vars::EnvVars;

verus! {

/// Name of the environment variable that carries the worker identifier.
pub const WORKER_ID: &'static str = "PSUP_WORKER_ID";

/// Name of the environment variable that carries the supervisor socket path.
pub const SOCKET: &'static str = "PSUP_SOCKET";

/// The view of [`WORKER_ID`].
pub open spec fn worker_id_var() -> Seq<char> {
    seq!['P', 'S', 'U', 'P', '_', 'W', 'O', 'R', 'K', 'E', 'R', '_', 'I', 'D']
}

/// The view of [`SOCKET`].
pub open spec fn socket_var() -> Seq<char> {
    seq!['P', 'S', 'U', 'P', '_', 'S', 'O', 'C', 'K', 'E', 'T']
}

/// The environment a worker process is started with: the task's own
/// variables, the worker identifier and, unless the task is detached, the
/// socket path of the supervisor.
pub open spec fn worker_env_spec(
    task: crate::task::TaskView,
    id: Seq<char>,
    socket: Seq<char>,
) -> Map<Seq<char>, Seq<char>> {
    let with_id = task.envs.insert(worker_id_var(), id);
    if task.detached {
        with_id
    } else {
        with_id.insert(socket_var(), socket)
    }
}

/// The environment variables for starting the worker `id` of `task`.
pub fn worker_env(task: &Task, id: &String, socket: &String) -> (e: EnvVars)
    ensures
        e@ == worker_env_spec(task@, id@, socket@),
{
    let own = task.env_vars();
    let mut envs = own.clone();
    let name = WORKER_ID.to_string();
    proof {
        reveal_strlit("PSUP_WORKER_ID");
        assert(name@ =~= worker_id_var());
    }
    envs.insert(name, id.clone());
    if !task.is_detached() {
        let name = SOCKET.to_string();
        proof {
            reveal_strlit("PSUP_SOCKET");
            assert(name@ =~= socket_var());
        }
        envs.insert(name, socket.clone());
    }
    envs
}

/// A request to start a worker process.
pub struct Spawn {
    /// Opaque identifier of the worker.
    pub id: String,
    /// What to run.
    pub task: Task,
    /// Socket path of the supervisor.
    pub socket: String,
    /// Restart state of the worker.
    pub retry: Retry,
}

/// A worker always finds its own identifier in its environment; it finds
/// the supervisor socket exactly when it is not detached (unless the task
/// set that variable itself); every other variable of the task is passed on
/// unchanged.
pub proof fn lemma_worker_env(task: crate::task::TaskView, id: Seq<char>, socket: Seq<char>)
    ensures
        worker_env_spec(task, id, socket)[worker_id_var()] == id,
        !task.detached ==> worker_env_spec(task, id, socket)[socket_var()] == socket,
        task.detached && !task.envs.dom().contains(socket_var())
            ==> !worker_env_spec(task, id, socket).dom().contains(socket_var()),
        forall|k: Seq<char>| k != worker_id_var() && k != socket_var() ==> (
            #[trigger] worker_env_spec(task, id, socket).dom().contains(k) <==> task.envs.dom().contains(k)),
        forall|k: Seq<char>| k != worker_id_var() && k != socket_var() && task.envs.dom().contains(k)
            ==> #[trigger] worker_env_spec(task, id, socket)[k] == task.envs[k],
{
    assert(worker_id_var() != socket_var()) by {
        assert(worker_id_var()[5] != socket_var()[5]);
    }
}

/// A detached worker does not connect to the supervisor socket: its
/// environment holds no socket path (unless its task set that variable
/// itself), so whatever it reads for that variable is absent and it starts
/// without a connection.
pub proof fn lemma_detached_worker_does_not_connect<H>(
    task: crate::task::TaskView,
    id: Seq<char>,
    socket: Seq<char>,
    w: crate::worker::WorkerView<H>,
    worker_id: Option<String>,
    socket_read: Option<String>,
)
    requires
        task.detached,
        !task.envs.dom().contains(socket_var()),
        socket_read is Some ==> worker_env_spec(task, id, socket).dom().contains(socket_var()),
    ensures
        !(crate::worker::start_spec(w, worker_id, socket_read) matches Ok(Some(_))),
{
    lemma_worker_env(task, id, socket);
}

}
