//! Worker is a process performing a long-running task.
use vstd::prelude::*;
use crate::error::Error;

verus! {

/// What a [`Worker`] holds.
pub struct WorkerView<H> {
    pub handler: Option<H>,
    pub relaxed: bool,
}

/// Worker process handler.
pub struct Worker<H> {
    handler: Option<H>,
    relaxed: bool,
}

impl<H> View for Worker<H> {
    type V = WorkerView<H>;

    closed spec fn view(&self) -> WorkerView<H> {
        WorkerView { handler: self.handler, relaxed: self.relaxed }
    }
}

/// Where and as whom a worker connects to its supervisor.
#[derive(Debug, Clone, PartialEq, Eq)]
pub struct Connection {
    /// Socket path of the supervisor.
    pub path: String,
    /// Opaque identifier of the worker.
    pub id: String,
}

/// How a worker starts, from the worker identifier and the socket path
/// found in its environment: without an identifier it is an error unless
/// the worker is relaxed; with an identifier it connects when it has a
/// handler and was given a socket path, and otherwise does nothing.
pub open spec fn start_spec<H>(
    w: WorkerView<H>,
    worker_id: Option<String>,
    socket: Option<String>,
) -> Result<Option<Connection>, Error> {
    match worker_id {
        Some(id) => match socket {
            Some(path) => if w.handler is Some {
                Ok(Some(Connection { path, id }))
            } else {
                Ok(None)
            },
            None => Ok(None),
        },
        None => if w.relaxed {
            Ok(None)
        } else {
            Err(Error::WorkerNoId)
        },
    }
}

impl<H> Worker<H> {
    /// Create a new worker.
    pub fn new() -> (w: Self)
        ensures
            w@.handler is None,
            !w@.relaxed,
    {
        Worker { handler: None, relaxed: false }
    }

    /// Set the relaxed flag.
    ///
    /// When a worker is relaxed it will start with or without a supervisor.
    ///
    /// The default is `false` so workers expect to be run in the context
    /// of a supervisor and it is an error if no worker id is available in
    /// the environment.
    ///
    /// When this flag is enabled and the required environment variables
    /// do not exist the worker does not attempt to connect to a supervisor.
    pub fn relaxed(self, flag: bool) -> (w: Self)
        ensures
            w@ == (WorkerView { relaxed: flag, ..self@ }),
    {
        Worker { relaxed: flag, ..self }
    }

    /// Set a client connection handler.
    ///
    /// The handler function receives the socket stream and opaque
    /// worker identifier and can communicate with the supervisor using
    /// the socket stream.
    pub fn client(self, handler: H) -> (w: Self)
        ensures
            w@ == (WorkerView { handler: Some(handler), ..self@ }),
    {
        Worker { handler: Some(handler), ..self }
    }

    /// The client connection handler, if one was set.
    pub fn handler(&self) -> (h: Option<&H>)
        ensures
            h matches Some(x) ==> self@.handler == Some(*x),
            h is None <==> self@.handler is None,
    {
        self.handler.as_ref()
    }

    /// Decide how this worker starts, given the values of the worker
    /// identifier and socket path variables of its environment.
    pub fn start(&self, worker_id: Option<String>, socket: Option<String>) -> (r: Result<Option<Connection>, Error>)
        ensures
            r == start_spec(self@, worker_id, socket),
            self@.handler is Some && worker_id is Some && socket is Some ==>
                r == Ok::<Option<Connection>, Error>(Some(Connection { path: socket->0, id: worker_id->0 })),
            r is Err <==> worker_id is None && !self@.relaxed,
            r matches Ok(Some(c)) ==> self@.handler is Some && worker_id == Some(c.id) && socket == Some(c.path),
    {
        match worker_id {
            Some(id) => match socket {
                Some(path) => if self.handler.is_some() {
                    Ok(Some(Connection { path, id }))
                } else {
                    Ok(None)
                },
                None => Ok(None),
            },
            None => if self.relaxed {
                Ok(None)
            } else {
                Err(Error::WorkerNoId)
            },
        }
    }
}

/// A relaxed worker starts with or without a supervisor: it never fails
/// to start. A worker that is not relaxed fails exactly when no worker
/// identifier is available. A worker connects only with a handler, an
/// identifier and a socket path, and then as that worker to that socket.
pub proof fn lemma_relaxed_never_fails<H>(w: WorkerView<H>, worker_id: Option<String>, socket: Option<String>)
    ensures
        w.relaxed ==> start_spec(w, worker_id, socket) is Ok,
        !w.relaxed ==> (start_spec(w, worker_id, socket) is Err <==> worker_id is None),
        start_spec(w, worker_id, socket) matches Ok(Some(_)) ==> w.handler is Some,
        start_spec(w, worker_id, socket) matches Ok(Some(c)) ==>
            worker_id == Some(c.id) && socket == Some(c.path),
{
}

/// A worker with a handler that is given both an identifier and a socket
/// path connects to that socket as that worker, whether it is relaxed or
/// not: the relaxed flag matters only when no identifier is given.
pub proof fn lemma_supervised_worker_connects<H>(w: WorkerView<H>, id: String, path: String)
    requires
        w.handler is Some,
    ensures
        start_spec(w, Some(id), Some(path)) == Ok::<Option<Connection>, Error>(Some(Connection { path, id })),
        start_spec(WorkerView { relaxed: !w.relaxed, ..w }, Some(id), Some(path))
            == start_spec(w, Some(id), Some(path)),
{
}

}
