//! The listener thread as its creator knows it: how it is brought up, how a
//! control event is handed to it, and how it is torn down.

use crate::channel::{bounded, recv, send};
use crate::error::Error;
use crate::host::{failure_of, Driver, Host, HostEvent};
use crate::signal::{low_dword, truncate_to_dword, WM_QUIT};
use crossbeam_channel::Sender;
use vstd::prelude::*;

verus! {

/// The handle of a window.
#[derive(Debug, Clone, Copy, PartialEq, Eq, Structural)]
pub struct WindowHandle {
    /// The handle as the system gave it.
    pub hwnd: usize,
}

/// What a starting listener tells its creator: a value that it has obtained,
/// or the error code with which it gave up.
pub type Report = Result<usize, u32>;

/// The number of reports of a listener that starts well: its thread
/// identifier, then the handle of its window.
pub const RENDEZVOUS_CAPACITY: usize = 2;

/// The error code under which a listener is reported that ended without
/// naming its window: the system's code for an invalid window handle.
pub const ERROR_INVALID_WINDOW_HANDLE: u32 = 1400;

/// A running listener: the thread that pumps messages and the hidden window
/// that receives them.
#[derive(Debug, Clone, Copy, PartialEq, Eq, Structural)]
pub struct TrapThreadData {
    /// The identifier of the listener thread.
    pub thread_id: u32,
    /// The hidden window of the listener.
    pub window_handle: WindowHandle,
}

/// What the creator makes of the two reports of a starting listener, each
/// `None` where the listener was gone before it made the report.
pub open spec fn outcome_of_reports(thread: Option<Report>, window: Option<Report>) -> Result<
    TrapThreadData,
    Error,
> {
    match (thread, window) {
        (Some(Ok(thread_id)), Some(Ok(hwnd))) => Ok(
            TrapThreadData { thread_id: low_dword(thread_id), window_handle: WindowHandle { hwnd } },
        ),
        (Some(Err(code)), _) => Err(Error::CreateWindow(code)),
        (_, Some(Err(code))) => Err(Error::CreateWindow(code)),
        _ => Err(Error::CreateWindow(ERROR_INVALID_WINDOW_HANDLE)),
    }
}

/// The calls by which a listener is torn down, in their order: the control
/// callback is taken out before the thread is told to quit, so that no new
/// notification is forwarded once the teardown has begun; the thread is
/// waited for last.
pub open spec fn teardown_calls(listener: TrapThreadData) -> Seq<HostEvent> {
    seq![
        HostEvent::Unregistered,
        HostEvent::PostedToThread { thread_id: listener.thread_id, message: WM_QUIT, wparam: 0, lparam: 0 },
        HostEvent::Joined,
    ]
}

/// The calls that `started` has cost: one failed registration; a
/// registration and a thread for a listener that runs; and, for a listener
/// that could not create its window, the calls that undo both.
pub open spec fn startup_calls(started: Result<TrapThreadData, Error>) -> Seq<HostEvent> {
    match started {
        Ok(_) => seq![HostEvent::Registered(None), HostEvent::Spawned],
        Err(Error::SetConsoleCtrlHandler(code)) => seq![HostEvent::Registered(Some(code))],
        Err(Error::CreateWindow(_)) => seq![
            HostEvent::Registered(None),
            HostEvent::Spawned,
            HostEvent::Unregistered,
            HostEvent::Joined,
        ],
    }
}

/// The listener's side of the rendezvous with its creator. The listener
/// reports its thread identifier and then the handle of its window, or the
/// error code with which the window could not be created. The result says
/// whether the listener goes on to pump messages: its window exists and the
/// creator was there to hear of it.
pub fn announce(ready: &Sender<Report>, thread_id: u32, target: Result<WindowHandle, u32>) -> (running:
    bool)
    ensures
        running ==> target is Ok,
{
    let (first, second) = reports_for(thread_id, target);
    let heard = send(ready, first);
    let named = send(ready, second);
    pumps_if(target, heard, named)
}

/// The two reports of a starting listener, in the order in which it makes
/// them: its thread identifier, then the handle of its window or the error
/// code with which the window could not be created.
pub open spec fn reports_of(thread_id: u32, target: Result<WindowHandle, u32>) -> (Report, Report) {
    (
        Ok(thread_id as usize),
        match target {
            Ok(window) => Ok(window.hwnd),
            Err(code) => Err(code),
        },
    )
}

/// Whether a listener goes on to pump messages once it has made its reports:
/// it has a window, and the creator has taken both reports.
pub open spec fn pumps_after(target: Result<WindowHandle, u32>, heard: bool, named: bool) -> bool {
    target is Ok && heard && named
}

/// The two reports that [`announce`] hands to the channel.
pub fn reports_for(thread_id: u32, target: Result<WindowHandle, u32>) -> (reports: (Report, Report))
    ensures
        reports == reports_of(thread_id, target),
{
    let window = match target {
        Ok(window) => Ok(window.hwnd),
        Err(code) => Err(code),
    };
    (Ok(thread_id as usize), window)
}

/// What [`announce`] returns, where `heard` and `named` say whether the
/// channel has taken the first and the second report.
pub fn pumps_if(target: Result<WindowHandle, u32>, heard: bool, named: bool) -> (running: bool)
    ensures
        running == pumps_after(target, heard, named),
{
    target.is_ok() && heard && named
}

/// The rendezvous loses nothing: a creator that receives both reports of a
/// listener reads from them the thread and the window that the listener has
/// reported, or the error with which its window could not be created.
pub proof fn lemma_reports_are_read_back(thread_id: u32, target: Result<WindowHandle, u32>)
    ensures
        ({
            let (first, second) = reports_of(thread_id, target);
            outcome_of_reports(Some(first), Some(second)) == match target {
                Ok(window) => Ok::<TrapThreadData, Error>(
                    TrapThreadData { thread_id, window_handle: window },
                ),
                Err(code) => Err::<TrapThreadData, Error>(Error::CreateWindow(code)),
            }
        }),
{
    assert(low_dword(thread_id as usize) == thread_id);
}

impl TrapThreadData {
    /// The creator's reading of the two reports of a starting listener.
    pub fn from_reports(thread: Option<Report>, window: Option<Report>) -> (started: Result<
        TrapThreadData,
        Error,
    >)
        ensures
            started == outcome_of_reports(thread, window),
    {
        match (thread, window) {
            (Some(Ok(thread_id)), Some(Ok(hwnd))) => Ok(
                TrapThreadData {
                    thread_id: truncate_to_dword(thread_id),
                    window_handle: WindowHandle { hwnd },
                },
            ),
            (Some(Err(code)), _) => Err(Error::CreateWindow(code)),
            (_, Some(Err(code))) => Err(Error::CreateWindow(code)),
            _ => Err(Error::CreateWindow(ERROR_INVALID_WINDOW_HANDLE)),
        }
    }

    /// Brings up a listener: installs the console control callback, starts
    /// the thread and waits for its two reports. Either a listener runs
    /// afterwards or nothing is left of the attempt: where the thread could
    /// not create its window, the callback is taken out again and the thread
    /// is waited for.
    pub fn new<P: Host>(driver: &mut Driver<P>) -> (started: Result<TrapThreadData, Error>)
        ensures
            final(driver).trace() == old(driver).trace() + startup_calls(started),
    {
        let ghost before = driver.trace();
        let registered = driver.register_control_callback();
        if let Err(code) = registered {
            let started = Err(Error::SetConsoleCtrlHandler(code));
            assert(driver.trace() =~= before + startup_calls(started));
            return started;
        }
        let (ready, reports) = bounded(RENDEZVOUS_CAPACITY);
        driver.spawn_listener(ready);
        let thread = recv(&reports);
        let window = recv(&reports);
        let started = TrapThreadData::from_reports(thread, window);
        match started {
            Ok(_) => {
                assert(driver.trace() =~= before + startup_calls(started));
            },
            Err(error) => {
                driver.unregister_control_callback();
                driver.join_listener();
                assert(error is CreateWindow);
                assert(driver.trace() =~= before + startup_calls(started));
            },
        }
        started
    }

    /// Hands a console control event to the listener: posts it to the hidden
    /// window under the identifier `console_ctrl`.
    pub fn enqueue_ctrl_event<P: Host>(&self, driver: &mut Driver<P>, console_ctrl: u32, event: u32) -> (result:
        Result<(), u32>)
        ensures
            final(driver).trace() == old(driver).trace().push(
                HostEvent::Posted {
                    target: self.window_handle,
                    message: console_ctrl,
                    wparam: event as usize,
                    lparam: 0,
                    failure: failure_of(result),
                },
            ),
    {
        driver.post_message(self.window_handle, console_ctrl, event as usize, 0)
    }

    /// Tears the listener down. When this returns the thread has ended.
    pub fn shutdown<P: Host>(self, driver: &mut Driver<P>)
        ensures
            final(driver).trace() == old(driver).trace() + teardown_calls(self),
    {
        let ghost before = driver.trace();
        driver.unregister_control_callback();
        driver.post_thread_message(self.thread_id, WM_QUIT, 0, 0);
        driver.join_listener();
        assert(driver.trace() =~= before + teardown_calls(self));
    }
}

} // verus!
