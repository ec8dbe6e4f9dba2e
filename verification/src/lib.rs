//! Process supervisor: the decision logic behind supervising worker
//! processes that talk to their supervisor over a Unix socket.
//!
//! The supervisor starts worker processes from [`Task`] definitions, hands
//! each one its identifier and the socket path in the environment, keeps a
//! table of running workers and restarts daemon workers that die without
//! being shut down, within a retry limit and after a growing delay.
pub mod error;
pub mod ident;
pub mod launch;
pub mod protocol;
pub mod restart;
pub mod state;
pub mod supervisor;
pub mod task;
pub mod vars;
pub mod worker;

pub use error::Error;
pub use ident::id;
pub use launch::{SOCKET, Spawn, WORKER_ID};
pub use protocol::{Connected, WorkerInfo};
pub use restart::Restart;
pub use state::{Exit, SupervisorState, WorkerState};
pub use supervisor::{Control, Message, Supervisor, SupervisorBuilder};
pub use task::{Retry, Task};
pub use vars::EnvVars;
pub use worker::{Connection, Worker};
