//! Scoped, nestable traps for the interruption events of a Windows process.
//!
//! A trap registers one handler for a list of [`Signal`]s while a body of work
//! runs. Traps nest: for each signal only the handler of the innermost trap
//! that names it is chosen. The first active trap brings up a listener thread
//! that owns a hidden window; control events that arrive on the console's own
//! callback are forwarded to that window as messages, and every handler is
//! chosen from the message pump of the listener.
//!
//! The operating system is reached through the [`Host`] trait only, and every
//! call on a host goes through a [`Driver`], which keeps the history of the
//! calls. The registration stack, the choice of a handler for each message
//! and the order in which the listener is brought up and torn down are
//! verified for every behaviour of the host.

pub mod channel;
pub mod error;
pub mod host;
pub mod laws;
pub mod listener;
pub mod pump;
pub mod scope;
pub mod signal;
pub mod stack;
pub mod stream;

pub use error::Error;
pub use host::{Driver, Host, HostEvent};
pub use listener::{TrapThreadData, WindowHandle};
pub use pump::{console_ctrl_handler, window_proc, Dispatch, WindowInfo};
pub use scope::{trap, Session, Trap};
pub use signal::{Message, Signal};
pub use stack::TrapStack;
pub use stream::{trap_stream, Async, SignalSender, SignalStream};
