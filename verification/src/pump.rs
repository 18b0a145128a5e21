//! What is decided for each notification: whether a console control event is
//! forwarded to the listener, which handler a pumped message is for, and
//! whether an unhandled request to close ends the process.

use crate::host::{Driver, Host, HostEvent};
use crate::listener::WindowHandle;
use crate::signal::{signal_of_ctrl_event, signal_of_message, Message, Signal, WM_CLOSE};
use crate::stack::TrapStack;
use vstd::prelude::*;

verus! {

/// What the listener does with a message that it has pumped.
#[derive(Debug)]
pub enum Dispatch<H> {
    /// The message stands for the signal, and the handler is the innermost
    /// one registered for it. The listener calls the handler with the signal
    /// once it has let go of the registration stack.
    Invoke(H, Signal),
    /// A window was asked to close and no handler is registered for that:
    /// the process ends if it owns no window but the listener's.
    ExitIfOnlyWindow,
    /// Nothing is to be done.
    Ignore,
}

/// A top-level window of the system, with the process that owns it.
#[derive(Debug, Clone, Copy, PartialEq, Eq, Structural)]
pub struct WindowInfo {
    /// The handle of the window.
    pub hwnd: usize,
    /// The identifier of the process that created the window.
    pub process_id: u32,
}

/// `window` does not show that the process `process_id` owns a window other
/// than `own`: it is that window itself, or it belongs to another process.
pub open spec fn is_no_other_window(own: WindowHandle, process_id: u32, window: WindowInfo) -> bool {
    window.hwnd == own.hwnd || window.process_id != process_id
}

/// Among `windows` there is one that the process `process_id` owns and that
/// is not `own`.
pub open spec fn owns_other_window(windows: Seq<WindowInfo>, own: WindowHandle, process_id: u32) -> bool {
    exists|i: int| 0 <= i < windows.len() && !is_no_other_window(own, process_id, #[trigger] windows[i])
}

/// The window to which the console control event `event` is forwarded: the
/// listener's, if the event stands for a signal for which a handler is
/// registered; none otherwise.
pub open spec fn forward_target<H>(stack: &TrapStack<H>, event: u32) -> Option<WindowHandle> {
    match signal_of_ctrl_event(event) {
        Some(signal) => if stack.innermost(signal) is Some {
            match stack.listener() {
                Some(listener) => Some(listener.window_handle),
                None => None,
            }
        } else {
            None
        },
        None => None,
    }
}

/// The step of a window enumeration: whether the enumeration goes on after
/// `window`. It stops at the first window that the process owns besides
/// `own`.
pub fn enum_windows_proc(own: WindowHandle, process_id: u32, window: WindowInfo) -> (go_on: bool)
    ensures
        go_on == is_no_other_window(own, process_id, window),
{
    if own.hwnd == window.hwnd {
        true
    } else {
        window.process_id != process_id
    }
}

/// The result of the window procedure of the hidden window for the messages
/// that it answers itself: a request to close and a forwarded control event
/// are answered with 0 and never reach the default procedure, which would
/// destroy the window. `None` leaves the message to the default procedure.
pub fn window_proc(msg: u32, console_ctrl: u32) -> (result: Option<isize>)
    ensures
        result == if msg == WM_CLOSE || msg == console_ctrl {
            Some(0isize)
        } else {
            None
        },
{
    if msg == WM_CLOSE || msg == console_ctrl {
        Some(0)
    } else {
        None
    }
}

/// The bridge from the console's control callback to the listener. The
/// callback runs where no handler may run, so the event is only forwarded: if
/// it stands for a signal for which a handler is registered, it is posted to
/// the listener's window under the identifier `console_ctrl`. The result
/// tells the system whether the event was taken: `true` exactly if it was
/// posted. An event that is not taken is left to the system's default.
pub fn console_ctrl_handler<H, P: Host>(
    stack: &TrapStack<H>,
    driver: &mut Driver<P>,
    console_ctrl: u32,
    event: u32,
) -> (handled: bool)
    ensures
        match forward_target(stack, event) {
            None => !handled && final(driver).trace() == old(driver).trace(),
            Some(target) => final(driver).trace() == old(driver).trace().push(
                HostEvent::Posted {
                    target,
                    message: console_ctrl,
                    wparam: event as usize,
                    lparam: 0,
                    failure: final(driver).trace().last()->failure,
                },
            ) && handled == (final(driver).trace().last()->failure is None),
        },
{
    match Signal::from_console_ctrl_event(event) {
        Some(signal) => {
            if stack.has_handler_for(signal) {
                match stack.listener_data() {
                    Some(listener) => {
                        let posted = listener.enqueue_ctrl_event(driver, console_ctrl, event);
                        posted.is_ok()
                    },
                    None => false,
                }
            } else {
                false
            }
        },
        None => false,
    }
}

impl<H> TrapStack<H> {
    /// What the listener does with `msg`. If the message stands for a signal
    /// with a registered handler, that is a copy of the innermost handler, to
    /// be called with the signal. A request to close a window for which no
    /// handler is registered falls to the policy of
    /// [`TrapStack::exit_if_only_window`]. Any other message is ignored: one
    /// that stands for no signal, and a forwarded control event whose
    /// handler is gone.
    pub fn on_message(&self, msg: Message, console_ctrl: u32) -> (dispatch: Dispatch<H>) where
        H: Clone,

        ensures
            match dispatch {
                Dispatch::Invoke(handler, signal) => {
                    &&& signal_of_message(msg.message, msg.wparam, console_ctrl) == Some(signal)
                    &&& self.innermost(signal) matches Some(innermost)
                    &&& cloned(innermost, handler)
                },
                Dispatch::ExitIfOnlyWindow => {
                    &&& signal_of_message(msg.message, msg.wparam, console_ctrl) matches Some(signal)
                    &&& self.innermost(signal) is None
                    &&& msg.message == WM_CLOSE
                },
                Dispatch::Ignore => {
                    signal_of_message(msg.message, msg.wparam, console_ctrl) matches Some(signal)
                        ==> self.innermost(signal) is None && msg.message != WM_CLOSE
                },
            },
    {
        match Signal::from_window_message(msg.message, msg.wparam, msg.lparam, console_ctrl) {
            Some(signal) => {
                match self.lookup_innermost(signal) {
                    Some(handler) => Dispatch::Invoke(handler.clone(), signal),
                    None => {
                        if msg.message == WM_CLOSE {
                            Dispatch::ExitIfOnlyWindow
                        } else {
                            Dispatch::Ignore
                        }
                    },
                }
            },
            None => Dispatch::Ignore,
        }
    }

    /// The policy for a request to close that no handler takes: the process
    /// ends, with status 0, exactly if among the top-level `windows` of the
    /// system it owns none but the listener's. The result says whether the
    /// process ends.
    pub fn exit_if_only_window(&self, windows: &[WindowInfo], process_id: u32) -> (exit: bool)
        requires
            self.listener() is Some,
        ensures
            exit == !owns_other_window(windows@, self.listener()->0.window_handle, process_id),
    {
        let own = match self.listener_data() {
            Some(listener) => listener.window_handle,
            None => WindowHandle { hwnd: 0 },
        };
        let mut i: usize = 0;
        while i < windows.len()
            invariant
                i <= windows.len(),
                own == self.listener()->0.window_handle,
                forall|k: int| 0 <= k < i ==> is_no_other_window(own, process_id, #[trigger] windows@[k]),
            decreases windows.len() - i,
        {
            if !enum_windows_proc(own, process_id, windows[i]) {
                return false;
            }
            i = i + 1;
        }
        true
    }
}

} // verus!
