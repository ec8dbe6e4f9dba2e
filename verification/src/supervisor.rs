//! Supervisor manages a collection of worker processes.
use vstd::prelude::*;
use crate::ident::{id, is_worker_id};
use crate::launch::Spawn;
use crate::state::{SupervisorState, WorkerState, first_with_id, has_id, take_out};
use crate::task::{DEFAULT_RETRY_LIMIT, Task, TaskView, string_views};

verus! {

/// Control messages sent by the server handler to the
/// supervisor.
pub enum Message {
    /// Shutdown a worker process using it's opaque identifier.
    ///
    /// If the worker is a daemon it will *not be restarted*.
    Shutdown {
        /// Opaque identifier for the worker.
        id: String,
    },
    /// Spawn a new worker process.
    Spawn {
        /// Task definition for the new process.
        task: Task,
    },
}

/// What the supervisor does on a control message.
pub enum Control<C> {
    /// Tell the worker, taken out of the table, to shut down; `worker` is
    /// `None` when no worker has the identifier `id`.
    Shutdown { id: String, worker: Option<WorkerState<C>> },
    /// Start a new worker.
    Spawn(Spawn),
}

/// A request to start `task` as a new worker: a fresh identifier, the
/// given socket and a fresh retry state.
pub open spec fn is_spawn_of(s: Spawn, task: Task, socket: Seq<char>) -> bool {
    &&& is_worker_id(s.id@)
    &&& s.task@ == task@
    &&& s.task.env_assignments() == task.env_assignments()
    &&& s.socket@ == socket
    &&& s.retry.limit == task@.limit
    &&& s.retry.factor == task@.factor
    &&& s.retry.attempts == 0
}

/// Start `task` as a new worker of the supervisor listening on `socket`.
pub fn new_spawn(task: Task, socket: &String) -> (s: Spawn)
    ensures
        is_spawn_of(s, task, socket@),
{
    let id = id();
    let retry = task.retry();
    Spawn { id, task, socket: socket.clone(), retry }
}

impl<C> SupervisorState<C> {
    /// Handle a control message: a shutdown takes the worker out of the
    /// table, so that it is not restarted; a spawn asks for a new worker.
    pub fn control(&mut self, msg: Message, socket: &String) -> (x: Control<C>)
        ensures
            match msg {
                Message::Shutdown { id } => x matches Control::Shutdown { id: xid, worker } && xid == id
                    && (worker is None <==> !has_id(old(self)@, id@))
                    && (worker is None ==> final(self)@ == old(self)@)
                    && (worker matches Some(w) ==> exists|i: int|
                        first_with_id(old(self)@, id@, i)
                        && w == old(self)@[i]
                        && final(self)@ == take_out(old(self)@, i)),
                Message::Spawn { task } => x matches Control::Spawn(s) && is_spawn_of(s, task, socket@)
                    && final(self)@ == old(self)@,
            },
    {
        match msg {
            Message::Shutdown { id } => {
                let worker = self.remove(&id);
                Control::Shutdown { id, worker }
            }
            Message::Spawn { task } => Control::Spawn(new_spawn(task, socket)),
        }
    }
}

/// What a [`SupervisorBuilder`] or a [`Supervisor`] holds.
pub struct SupervisorView<H, R> {
    /// Socket path; `None` selects `psup.sock` in the temporary directory.
    pub socket: Option<Seq<char>>,
    pub commands: Seq<Task>,
    pub ipc_handler: Option<H>,
    pub shutdown: Option<R>,
}

/// Build a supervisor.
pub struct SupervisorBuilder<H, R> {
    socket: Option<String>,
    commands: Vec<Task>,
    ipc_handler: Option<H>,
    shutdown: Option<R>,
}

impl<H, R> View for SupervisorBuilder<H, R> {
    type V = SupervisorView<H, R>;

    closed spec fn view(&self) -> SupervisorView<H, R> {
        SupervisorView {
            socket: match self.socket {
                Some(s) => Some(s@),
                None => None,
            },
            commands: self.commands@,
            ipc_handler: self.ipc_handler,
            shutdown: self.shutdown,
        }
    }
}

impl<H, R> SupervisorBuilder<H, R> {
    /// Create a new supervisor builder: default socket path (`psup.sock` in
    /// the temporary directory, see [`Supervisor::socket_path`]), no
    /// workers, no server handler and no shutdown receiver.
    pub fn new() -> (b: Self)
        ensures
            b@.socket is None,
            b@.commands == Seq::<Task>::empty(),
            b@.ipc_handler is None,
            b@.shutdown is None,
    {
        SupervisorBuilder { socket: None, commands: Vec::new(), ipc_handler: None, shutdown: None }
    }

    /// Set the IPC server handler.
    pub fn server(self, handler: H) -> (b: Self)
        ensures
            b@ == (SupervisorView { ipc_handler: Some(handler), ..self@ }),
    {
        SupervisorBuilder { ipc_handler: Some(handler), ..self }
    }

    /// Set the socket path.
    pub fn path(self, path: String) -> (b: Self)
        ensures
            b@ == (SupervisorView { socket: Some(path@), ..self@ }),
    {
        SupervisorBuilder { socket: Some(path), ..self }
    }

    /// Add a worker process.
    pub fn add_worker(self, task: Task) -> (b: Self)
        ensures
            b@ == (SupervisorView { commands: self@.commands.push(task), ..self@ }),
    {
        let mut b = self;
        b.commands.push(task);
        b
    }

    /// Add a worker process marked as a daemon: the command `cmd` run with
    /// `args`, restarted if it exits without being explicitly shut down by
    /// the supervisor.
    pub fn add_daemon(self, cmd: String, args: Vec<String>) -> (b: Self)
        ensures
            b@.commands.len() == self@.commands.len() + 1,
            b@.commands.drop_last() == self@.commands,
            b@.commands.last()@ == (TaskView {
                cmd: cmd@,
                args: string_views(args@),
                envs: Map::empty(),
                daemon: true,
                detached: false,
                limit: DEFAULT_RETRY_LIMIT as nat,
                factor: 0,
            }),
            b@.socket == self@.socket,
            b@.ipc_handler == self@.ipc_handler,
            b@.shutdown == self@.shutdown,
    {
        let task = Task::new(cmd.as_str()).args(args).daemon(true);
        let b = self.add_worker(task);
        assert(b@.commands.drop_last() =~= self@.commands);
        b
    }

    /// Register a shutdown handler with the supervisor.
    ///
    /// When a message is received on the shutdown receiver all
    /// managed processes are killed.
    pub fn shutdown(self, rx: R) -> (b: Self)
        ensures
            b@ == (SupervisorView { shutdown: Some(rx), ..self@ }),
    {
        SupervisorBuilder { shutdown: Some(rx), ..self }
    }

    /// Return the supervisor.
    pub fn build(self) -> (s: Supervisor<H, R>)
        ensures
            s@ == self@,
    {
        Supervisor {
            socket: self.socket,
            commands: self.commands,
            ipc_handler: self.ipc_handler,
            shutdown: self.shutdown,
        }
    }
}

/// Supervisor manages long-running worker processes.
pub struct Supervisor<H, R> {
    socket: Option<String>,
    commands: Vec<Task>,
    ipc_handler: Option<H>,
    shutdown: Option<R>,
}

impl<H, R> View for Supervisor<H, R> {
    type V = SupervisorView<H, R>;

    closed spec fn view(&self) -> SupervisorView<H, R> {
        SupervisorView {
            socket: match self.socket {
                Some(s) => Some(s@),
                None => None,
            },
            commands: self.commands@,
            ipc_handler: self.ipc_handler,
            shutdown: self.shutdown,
        }
    }
}

/// The name of the default socket file.
pub open spec fn socket_file_name() -> Seq<char> {
    seq!['p', 's', 'u', 'p', '.', 's', 'o', 'c', 'k']
}

/// The path of the file `name` in the directory `dir`, as `Path::join`
/// gives it for a relative name without separators: a separator is put
/// between them unless `dir` is empty or already ends with one.
pub open spec fn join_spec(dir: Seq<char>, name: Seq<char>) -> Seq<char> {
    if dir.len() == 0 {
        name
    } else if dir.last() == '/' {
        dir + name
    } else {
        dir + seq!['/'] + name
    }
}

/// The default socket path: `psup.sock` in the temporary directory.
pub open spec fn default_socket_spec(temp_dir: Seq<char>) -> Seq<char> {
    join_spec(temp_dir, socket_file_name())
}

/// The default socket path, `psup.sock` in the temporary directory `temp_dir`.
pub fn default_socket_path(temp_dir: &String) -> (p: String)
    ensures
        p@ == default_socket_spec(temp_dir@),
{
    let name = "psup.sock";
    proof {
        reveal_strlit("psup.sock");
        assert(name@ =~= socket_file_name());
    }
    let dir = temp_dir.as_str();
    let n = dir.unicode_len();
    if n == 0 {
        return name.to_string();
    }
    let mut p = temp_dir.clone();
    if dir.get_char(n - 1) != '/' {
        let sep = "/";
        proof {
            reveal_strlit("/");
            assert(sep@ =~= seq!['/']);
        }
        p.append(sep);
    }
    p.append(name);
    p
}

/// The socket path of a supervisor with view `v`: the one that was set,
/// else the default in the temporary directory `temp_dir`.
pub open spec fn socket_of<H, R>(v: SupervisorView<H, R>, temp_dir: Seq<char>) -> Seq<char> {
    match v.socket {
        Some(s) => s,
        None => default_socket_spec(temp_dir),
    }
}

impl<H, R> Supervisor<H, R> {
    /// The socket path: the one that was set, else `psup.sock` in the
    /// temporary directory `temp_dir`.
    pub fn socket_path(&self, temp_dir: &String) -> (p: String)
        ensures
            p@ == socket_of(self@, temp_dir@),
    {
        match &self.socket {
            Some(s) => s.clone(),
            None => default_socket_path(temp_dir),
        }
    }

    /// The initial worker processes, in the order they were added.
    pub fn commands(&self) -> (c: &Vec<Task>)
        ensures
            c@ == self@.commands,
    {
        &self.commands
    }

    /// The IPC server handler, if one was set.
    pub fn ipc_handler(&self) -> (h: Option<&H>)
        ensures
            h matches Some(x) ==> self@.ipc_handler == Some(*x),
            h is None <==> self@.ipc_handler is None,
    {
        self.ipc_handler.as_ref()
    }

    /// Take the shutdown receiver out of the supervisor.
    pub fn take_shutdown(&mut self) -> (r: Option<R>)
        ensures
            r == old(self)@.shutdown,
            final(self)@ == (SupervisorView { shutdown: None, ..old(self)@ }),
    {
        self.shutdown.take()
    }

    /// Requests to start the initial worker processes, one for each task
    /// added to the builder and in that order.
    pub fn initial_spawns(&self, temp_dir: &String) -> (r: Vec<Spawn>)
        ensures
            r.len() == self@.commands.len(),
            forall|i: int| 0 <= i < r.len() ==> is_spawn_of(#[trigger] r@[i], self@.commands[i], socket_of(self@, temp_dir@)),
    {
        let socket = self.socket_path(temp_dir);
        let mut r: Vec<Spawn> = Vec::new();
        let n = self.commands.len();
        let mut i: usize = 0;
        while i < n
            invariant
                n == self.commands.len(),
                i <= n,
                r.len() == i,
                socket@ == socket_of(self@, temp_dir@),
                forall|j: int| 0 <= j < i ==> is_spawn_of(#[trigger] r@[j], self.commands@[j], socket@),
            decreases n - i,
        {
            let task = self.commands[i].clone();
            r.push(new_spawn(task, &socket));
            i = i + 1;
        }
        r
    }

    /// A request to spawn a worker task: a fresh opaque identifier, the
    /// supervisor socket and a fresh retry state.
    pub fn spawn(&self, task: Task, temp_dir: &String) -> (s: Spawn)
        ensures
            is_spawn_of(s, task, socket_of(self@, temp_dir@)),
    {
        let socket = self.socket_path(temp_dir);
        new_spawn(task, &socket)
    }
}

/// A supervisor whose socket path was never set listens on `psup.sock` in
/// the temporary directory; one whose path was set listens there.
pub proof fn lemma_default_socket<H, R>(v: SupervisorView<H, R>, temp_dir: Seq<char>)
    ensures
        v.socket is None ==> socket_of(v, temp_dir) == join_spec(temp_dir, socket_file_name()),
        v.socket matches Some(p) ==> socket_of(v, temp_dir) == p,
        temp_dir.len() > 0 && temp_dir.last() != '/' ==>
            join_spec(temp_dir, socket_file_name()) == temp_dir + seq!['/'] + socket_file_name(),
{
}

}
