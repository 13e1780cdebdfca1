//! Control plane that bridges a local request socket to a remote tmux
//! session: the request vocabulary, the remote calls each request becomes,
//! and the per-connection server state machine.

pub mod navigation;
pub mod protocol;
pub mod server;

pub use navigation::{edge_query, move_command, pane_exists, RemoteCall};
pub use protocol::{Command, Direction};
pub use server::{reply_for, unrecognized, Action, Event, Phase, Server};
