//! Worker process definitions and their restart policy.
use vstd::prelude::*;
use crate::vars::{EnvVars, assignments_map};

verus! {

/// The restart limit a new task starts with.
pub const DEFAULT_RETRY_LIMIT: usize = 5;

/// What a [`Task`] holds, as plain mathematical values.
pub struct TaskView {
    pub cmd: Seq<char>,
    pub args: Seq<Seq<char>>,
    pub envs: Map<Seq<char>, Seq<char>>,
    pub daemon: bool,
    pub detached: bool,
    pub limit: nat,
    pub factor: nat,
}

/// The views of a sequence of strings.
pub open spec fn string_views(s: Seq<String>) -> Seq<Seq<char>> {
    s.map_values(|x: String| x@)
}

/// Defines a worker process command.
#[derive(Debug)]
pub struct Task {
    cmd: String,
    args: Vec<String>,
    envs: EnvVars,
    daemon: bool,
    detached: bool,
    limit: usize,
    factor: usize,
}

impl View for Task {
    type V = TaskView;

    closed spec fn view(&self) -> TaskView {
        TaskView {
            cmd: self.cmd@,
            args: string_views(self.args@),
            envs: self.envs@,
            daemon: self.daemon,
            detached: self.detached,
            limit: self.limit as nat,
            factor: self.factor as nat,
        }
    }
}

/// The restart state of one worker: how often it may be restarted, the
/// delay factor in milliseconds and how many restarts were attempted.
#[derive(Debug, Clone, Copy, PartialEq, Eq, Structural)]
pub struct Retry {
    /// The limit on the number of times to attempt to restart a process.
    pub limit: usize,
    /// The retry delay factor in milliseconds.
    pub factor: usize,
    /// The current number of attempts.
    pub attempts: usize,
}

fn clone_strings(v: &Vec<String>) -> (r: Vec<String>)
    ensures
        r@ == v@,
{
    let mut r: Vec<String> = Vec::new();
    let n = v.len();
    let mut i: usize = 0;
    while i < n
        invariant
            n == v.len(),
            i <= n,
            r@ == v@.take(i as int),
        decreases n - i,
    {
        r.push(v[i].clone());
        proof {
            assert(r@ =~= v@.take(i + 1));
        }
        i = i + 1;
    }
    proof {
        assert(v@.take(n as int) =~= v@);
    }
    r
}

impl Clone for Task {
    fn clone(&self) -> (t: Self)
        ensures
            t@ == self@,
            t.env_assignments() == self.env_assignments(),
    {
        Task {
            cmd: self.cmd.clone(),
            args: clone_strings(&self.args),
            envs: self.envs.clone(),
            daemon: self.daemon,
            detached: self.detached,
            limit: self.limit,
            factor: self.factor,
        }
    }
}

impl Task {
    /// The environment variables of the task, in the order their names were set.
    pub closed spec fn env_assignments(&self) -> Seq<(String, String)> {
        self.envs.assignments()
    }

    /// Create a new task.
    pub fn new(cmd: &str) -> (t: Task)
        ensures
            t@ == (TaskView {
                cmd: cmd@,
                args: Seq::empty(),
                envs: Map::empty(),
                daemon: false,
                detached: false,
                limit: DEFAULT_RETRY_LIMIT as nat,
                factor: 0,
            }),
    {
        let t = Task {
            cmd: cmd.to_string(),
            args: Vec::new(),
            envs: EnvVars::new(),
            daemon: false,
            detached: false,
            limit: DEFAULT_RETRY_LIMIT,
            factor: 0,
        };
        proof {
            assert(string_views(t.args@) =~= Seq::<Seq<char>>::empty());
        }
        t
    }

    /// A task from optional settings: absent arguments and variables are
    /// empty, absent flags are off, and the retry settings are the defaults.
    pub fn from_options(
        command: String,
        args: Option<Vec<String>>,
        envs: Option<Vec<(String, String)>>,
        daemon: Option<bool>,
        detached: Option<bool>,
    ) -> (t: Task)
        ensures
            t@ == (TaskView {
                cmd: command@,
                args: match args {
                    Some(a) => string_views(a@),
                    None => Seq::empty(),
                },
                envs: match envs {
                    Some(e) => assignments_map(e@),
                    None => Map::empty(),
                },
                daemon: match daemon {
                    Some(d) => d,
                    None => false,
                },
                detached: match detached {
                    Some(d) => d,
                    None => false,
                },
                limit: DEFAULT_RETRY_LIMIT as nat,
                factor: 0,
            }),
    {
        let args = match args {
            Some(a) => a,
            None => Vec::new(),
        };
        let envs = match envs {
            Some(e) => e,
            None => Vec::new(),
        };
        let daemon = match daemon {
            Some(d) => d,
            None => false,
        };
        let detached = match detached {
            Some(d) => d,
            None => false,
        };
        let t = Task::new(command.as_str()).args(args).envs(envs).daemon(daemon).detached(detached);
        proof {
            assert(string_views(Seq::<String>::empty()) =~= Seq::<Seq<char>>::empty());
            assert(assignments_map(Seq::<(String, String)>::empty()) == Map::<Seq<char>, Seq<char>>::empty());
        }
        t
    }

    /// Set command arguments.
    pub fn args(self, args: Vec<String>) -> (t: Task)
        ensures
            t@ == (TaskView { args: string_views(args@), ..self@ }),
    {
        Task { args, ..self }
    }

    /// Set command environment variables; when a name is given twice the
    /// later value is kept.
    pub fn envs(self, vars: Vec<(String, String)>) -> (t: Task)
        ensures
            t@ == (TaskView { envs: assignments_map(vars@), ..self@ }),
    {
        Task { envs: EnvVars::from_assignments(vars), ..self }
    }

    /// Set the daemon flag for the worker command.
    ///
    /// Daemon processes are restarted if they die without being explicitly
    /// shutdown by the supervisor.
    pub fn daemon(self, flag: bool) -> (t: Task)
        ensures
            t@ == (TaskView { daemon: flag, ..self@ }),
    {
        Task { daemon: flag, ..self }
    }

    /// Set the detached flag for the worker command.
    ///
    /// If a worker is detached it will not connect to the IPC socket.
    pub fn detached(self, flag: bool) -> (t: Task)
        ensures
            t@ == (TaskView { detached: flag, ..self@ }),
    {
        Task { detached: flag, ..self }
    }

    /// Set the retry limit when restarting dead workers.
    ///
    /// Only applies to tasks that have the `daemon` flag set;
    /// non-daemon tasks are not restarted. If this value is
    /// set to zero then it overrides the `daemon` flag and no
    /// attempts to restart the process are made.
    ///
    /// The default value is `5`.
    pub fn retry_limit(self, limit: usize) -> (t: Task)
        ensures
            t@ == (TaskView { limit: limit as nat, ..self@ }),
    {
        Task { limit, ..self }
    }

    /// Set the retry factor in milliseconds.
    ///
    /// The default value is `0` which means retry attempts
    /// are performed immediately.
    pub fn retry_factor(self, factor: usize) -> (t: Task)
        ensures
            t@ == (TaskView { factor: factor as nat, ..self@ }),
    {
        Task { factor, ..self }
    }

    /// The environment variables of the task.
    pub fn env_vars(&self) -> (e: &EnvVars)
        ensures
            e@ == self@.envs,
            e.assignments() == self.env_assignments(),
    {
        &self.envs
    }

    /// The command of the task.
    pub fn command(&self) -> (c: &String)
        ensures
            c@ == self@.cmd,
    {
        &self.cmd
    }

    /// The arguments of the task.
    pub fn arguments(&self) -> (a: &Vec<String>)
        ensures
            string_views(a@) == self@.args,
    {
        &self.args
    }

    /// Whether the task is a daemon.
    pub fn is_daemon(&self) -> (b: bool)
        ensures
            b == self@.daemon,
    {
        self.daemon
    }

    /// Whether the task is detached from the socket.
    pub fn is_detached(&self) -> (b: bool)
        ensures
            b == self@.detached,
    {
        self.detached
    }

    /// Get a retry state for the task, with no attempt counted.
    pub fn retry(&self) -> (r: Retry)
        ensures
            r.limit == self@.limit,
            r.factor == self@.factor,
            r.attempts == 0,
    {
        Retry { limit: self.limit, factor: self.factor, attempts: 0 }
    }
}

}
