//! The signals that can be trapped, and how they are read from the
//! notifications of the operating system.

use vstd::prelude::*;

verus! {

/// Console control event raised by Ctrl+C.
pub const CTRL_C_EVENT: u32 = 0;

/// Console control event raised by Ctrl+Break.
pub const CTRL_BREAK_EVENT: u32 = 1;

/// Console control event raised when the console window is closed.
pub const CTRL_CLOSE_EVENT: u32 = 2;

/// Window message that asks a window to close.
pub const WM_CLOSE: u32 = 0x0010;

/// Thread message that ends a message pump.
pub const WM_QUIT: u32 = 0x0012;

/// One of the abstracted signals available to a Windows process. Several of
/// them may be named by a single trap.
#[derive(Debug, Clone, Copy, PartialEq, Eq, Hash, Structural)]
pub enum Signal {
    /// The console control event `CTRL_C_EVENT`, the counterpart of `SIGINT`.
    /// It is usually raised by Ctrl+C in the console.
    CtrlC,
    /// The console control event `CTRL_BREAK_EVENT`, roughly `SIGQUIT`. It is
    /// raised by Ctrl+Break in the console.
    CtrlBreak,
    /// The console control event `CTRL_CLOSE_EVENT`, roughly `SIGHUP`. It is
    /// raised when the user closes the console window.
    CloseConsole,
    /// The window message `WM_CLOSE`, roughly `SIGTERM`. It is sent to the
    /// top-level windows of a process by tools that ask it to end.
    CloseWindow,
}

/// A message taken from the pump of the listener thread.
#[derive(Debug, Clone, Copy, PartialEq, Eq, Structural)]
pub struct Message {
    /// The message identifier.
    pub message: u32,
    /// The first message parameter.
    pub wparam: usize,
    /// The second message parameter.
    pub lparam: isize,
}

/// The signal that a console control event stands for, if any.
pub open spec fn signal_of_ctrl_event(event: u32) -> Option<Signal> {
    if event == CTRL_C_EVENT {
        Some(Signal::CtrlC)
    } else if event == CTRL_BREAK_EVENT {
        Some(Signal::CtrlBreak)
    } else if event == CTRL_CLOSE_EVENT {
        Some(Signal::CloseConsole)
    } else {
        None
    }
}

/// The low 32 bits of a message parameter: the control event that a forwarded
/// message carries.
pub open spec fn low_dword(wparam: usize) -> u32 {
    (wparam as int % 0x1_0000_0000) as u32
}

/// The signal that a window message stands for, if any, where `console_ctrl`
/// is the identifier under which control events are forwarded.
pub open spec fn signal_of_message(msg: u32, wparam: usize, console_ctrl: u32) -> Option<Signal> {
    if msg == WM_CLOSE {
        Some(Signal::CloseWindow)
    } else if msg == console_ctrl {
        signal_of_ctrl_event(low_dword(wparam))
    } else {
        None
    }
}

/// The console control event that raises `signal`, where there is one.
pub open spec fn ctrl_event_of_signal(signal: Signal) -> Option<u32> {
    match signal {
        Signal::CtrlC => Some(CTRL_C_EVENT),
        Signal::CtrlBreak => Some(CTRL_BREAK_EVENT),
        Signal::CloseConsole => Some(CTRL_CLOSE_EVENT),
        Signal::CloseWindow => None,
    }
}

/// The message as which `signal` reaches the pump of the listener: `WM_CLOSE`
/// itself for a closing window, the forwarding message with the control event
/// as its first parameter for the others.
pub open spec fn message_of_signal(signal: Signal, console_ctrl: u32) -> Message {
    match ctrl_event_of_signal(signal) {
        Some(event) => Message { message: console_ctrl, wparam: event as usize, lparam: 0 },
        None => Message { message: WM_CLOSE, wparam: 0, lparam: 0 },
    }
}

/// The low 32 bits of `wparam`.
pub fn truncate_to_dword(wparam: usize) -> (event: u32)
    ensures
        event == low_dword(wparam),
{
    (wparam as u64 % 0x1_0000_0000u64) as u32
}

impl Signal {
    /// Reads a console control event.
    pub fn from_console_ctrl_event(event: u32) -> (signal: Option<Signal>)
        ensures
            signal == signal_of_ctrl_event(event),
    {
        if event == CTRL_C_EVENT {
            Some(Signal::CtrlC)
        } else if event == CTRL_BREAK_EVENT {
            Some(Signal::CtrlBreak)
        } else if event == CTRL_CLOSE_EVENT {
            Some(Signal::CloseConsole)
        } else {
            None
        }
    }

    /// Reads a message of the listener's pump. `WM_CLOSE` is the signal of a
    /// closing window; a message with the identifier `console_ctrl` carries a
    /// forwarded control event in the low 32 bits of `wparam`.
    pub fn from_window_message(msg: u32, wparam: usize, _lparam: isize, console_ctrl: u32) -> (signal:
        Option<Signal>)
        ensures
            signal == signal_of_message(msg, wparam, console_ctrl),
    {
        if msg == WM_CLOSE {
            Some(Signal::CloseWindow)
        } else if msg == console_ctrl {
            Signal::from_console_ctrl_event(truncate_to_dword(wparam))
        } else {
            None
        }
    }

    /// The console control event that raises this signal, where there is one.
    pub fn to_console_ctrl_event(self) -> (event: Option<u32>)
        ensures
            event == ctrl_event_of_signal(self),
    {
        match self {
            Signal::CtrlC => Some(CTRL_C_EVENT),
            Signal::CtrlBreak => Some(CTRL_BREAK_EVENT),
            Signal::CloseConsole => Some(CTRL_CLOSE_EVENT),
            Signal::CloseWindow => None,
        }
    }

    /// The message as which this signal reaches the pump of the listener.
    pub fn to_window_message(self, console_ctrl: u32) -> (msg: Message)
        ensures
            msg == message_of_signal(self, console_ctrl),
    {
        match self.to_console_ctrl_event() {
            Some(event) => Message { message: console_ctrl, wparam: event as usize, lparam: 0 },
            None => Message { message: WM_CLOSE, wparam: 0, lparam: 0 },
        }
    }
}

/// Every signal is read back from its own control event, and no two signals
/// share one.
pub proof fn lemma_ctrl_event_round_trip(signal: Signal)
    ensures
        ctrl_event_of_signal(signal) matches Some(event) ==> signal_of_ctrl_event(event) == Some(
            signal,
        ),
        forall|other: Signal|
            ctrl_event_of_signal(signal) is Some && ctrl_event_of_signal(other)
                == ctrl_event_of_signal(signal) ==> other == signal,
{
}

/// A control event that stands for a signal is the event of exactly that
/// signal.
pub proof fn lemma_signal_of_ctrl_event_unique(event: u32)
    ensures
        signal_of_ctrl_event(event) matches Some(signal) ==> ctrl_event_of_signal(signal) == Some(
            event,
        ),
{
}

/// Every signal is read back from the message as which it reaches the pump,
/// whenever the forwarding identifier is not `WM_CLOSE` itself.
pub proof fn lemma_message_round_trip(signal: Signal, console_ctrl: u32)
    requires
        console_ctrl != WM_CLOSE,
    ensures
        ({
            let msg = message_of_signal(signal, console_ctrl);
            signal_of_message(msg.message, msg.wparam, console_ctrl) == Some(signal)
        }),
{
}

/// A control event survives the bridge: forwarded as the first parameter of
/// the forwarding message, it is read as the signal it stood for.
pub proof fn lemma_forwarded_event_is_preserved(event: u32, console_ctrl: u32)
    requires
        console_ctrl != WM_CLOSE,
    ensures
        signal_of_message(console_ctrl, event as usize, console_ctrl) == signal_of_ctrl_event(
            event,
        ),
{
}

} // verus!
