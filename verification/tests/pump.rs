use wintrap::listener::{
    announce, pumps_if, reports_for, Report, ERROR_INVALID_WINDOW_HANDLE,
};
use wintrap::pump::enum_windows_proc;
use wintrap::signal::{CTRL_BREAK_EVENT, CTRL_CLOSE_EVENT, CTRL_C_EVENT, WM_CLOSE, WM_QUIT};
use wintrap::stream::signal_channel;
use crossbeam_channel::Sender;
use wintrap::{
    console_ctrl_handler, trap_stream, Async, Dispatch, Driver, Error, Host, HostEvent, Message,
    Session, Signal, SignalSender, TrapStack, TrapThreadData, WindowHandle, WindowInfo,
};

const OWNER: u32 = 1;
const LISTENER: u32 = 7;
const WINDOW: WindowHandle = WindowHandle { hwnd: 0x5_0a1c };
const CONSOLE_CTRL: u32 = 0xc1a5;
const PROCESS: u32 = 4242;


/// A host that plays a script: it answers as it was told to, keeps the calls
/// made on it, and lets the messages posted to its window wait until the test
/// pumps them. Its listener makes its reports at once.
struct Scripted {
    registration: Result<(), u32>,
    window: Result<WindowHandle, u32>,
    posting: Result<(), u32>,
    log: Vec<HostEvent>,
    pending: Vec<Message>,
}

impl Scripted {
    fn new() -> Scripted {
        Scripted {
            registration: Ok(()),
            window: Ok(WINDOW),
            posting: Ok(()),
            log: Vec::new(),
            pending: Vec::new(),
        }
    }
}

impl Host for Scripted {
    fn register_control_callback(&mut self) -> Result<(), u32> {
        self.log.push(HostEvent::Registered(self.registration.err()));
        self.registration
    }

    fn unregister_control_callback(&mut self) {
        self.log.push(HostEvent::Unregistered);
    }

    fn spawn_listener(&mut self, ready: Sender<Report>) {
        self.log.push(HostEvent::Spawned);
        announce(&ready, LISTENER, self.window);
    }

    fn post_message(
        &mut self,
        target: WindowHandle,
        message: u32,
        wparam: usize,
        lparam: isize,
    ) -> Result<(), u32> {
        let failure = self.posting.err();
        self.log.push(HostEvent::Posted { target, message, wparam, lparam, failure });
        if failure.is_none() {
            self.pending.push(Message { message, wparam, lparam });
        }
        self.posting
    }

    fn post_thread_message(&mut self, thread_id: u32, message: u32, wparam: usize, lparam: isize) {
        self.log.push(HostEvent::PostedToThread { thread_id, message, wparam, lparam });
    }

    fn join_listener(&mut self) {
        self.log.push(HostEvent::Joined);
    }
}

fn host() -> Driver<Scripted> {
    Driver::new(Scripted::new())
}

fn kind<H>(dispatch: &Dispatch<H>) -> &'static str {
    match dispatch {
        Dispatch::Invoke(..) => "invoke",
        Dispatch::ExitIfOnlyWindow => "exit-if-only-window",
        Dispatch::Ignore => "ignore",
    }
}

fn close() -> Message {
    Message { message: WM_CLOSE, wparam: 0, lparam: 0 }
}

fn forwarded(event: u32) -> Message {
    Message { message: CONSOLE_CTRL, wparam: event as usize, lparam: 0 }
}

#[test]
fn new_stack_is_idle() {
    let stack: TrapStack<u8> = TrapStack::new();
    assert_eq!(stack.active_count(), 0);
    assert!(stack.listener_data().is_none());
    assert!(!stack.has_handler_for(Signal::CtrlC));
    assert!(stack.lookup_innermost(Signal::CloseWindow).is_none());
}

#[test]
fn push_registers_and_pop_restores() {
    let mut host = host();
    let mut stack: TrapStack<u8> = TrapStack::new();
    stack.push_trap(&[Signal::CtrlC, Signal::CloseWindow], 1, &mut host).unwrap();
    stack.push_trap(&[Signal::CtrlC, Signal::CtrlBreak], 2, &mut host).unwrap();
    assert_eq!(stack.active_count(), 2);
    assert_eq!(stack.lookup_innermost(Signal::CtrlC), Some(&2));
    assert_eq!(stack.lookup_innermost(Signal::CtrlBreak), Some(&2));
    assert_eq!(stack.lookup_innermost(Signal::CloseWindow), Some(&1));
    assert_eq!(stack.lookup_innermost(Signal::CloseConsole), None);
    stack.pop_trap(&[Signal::CtrlC, Signal::CtrlBreak], &mut host);
    assert_eq!(stack.active_count(), 1);
    assert_eq!(stack.lookup_innermost(Signal::CtrlC), Some(&1));
    assert_eq!(stack.lookup_innermost(Signal::CtrlBreak), None);
    assert_eq!(stack.lookup_innermost(Signal::CloseWindow), Some(&1));
    stack.pop_trap(&[Signal::CtrlC, Signal::CloseWindow], &mut host);
    assert_eq!(stack.active_count(), 0);
    assert_eq!(stack.lookup_innermost(Signal::CtrlC), None);
    assert!(stack.listener_data().is_none());
}

#[test]
fn message_is_dispatched_to_the_innermost_handler() {
    let mut host = host();
    let mut stack: TrapStack<u8> = TrapStack::new();
    stack.push_trap(&[Signal::CtrlC, Signal::CloseWindow], 1, &mut host).unwrap();
    stack.push_trap(&[Signal::CtrlC], 2, &mut host).unwrap();
    match stack.on_message(forwarded(CTRL_C_EVENT), CONSOLE_CTRL) {
        Dispatch::Invoke(handler, signal) => {
            assert_eq!(handler, 2);
            assert_eq!(signal, Signal::CtrlC);
        }
        other => panic!("{}", kind(&other)),
    }
    match stack.on_message(close(), CONSOLE_CTRL) {
        Dispatch::Invoke(handler, signal) => {
            assert_eq!(handler, 1);
            assert_eq!(signal, Signal::CloseWindow);
        }
        other => panic!("{}", kind(&other)),
    }
}

#[test]
fn unhandled_messages_invoke_nothing() {
    let mut host = host();
    let mut stack: TrapStack<u8> = TrapStack::new();
    stack.push_trap(&[Signal::CtrlC], 1, &mut host).unwrap();
    assert_eq!(kind(&stack.on_message(close(), CONSOLE_CTRL)), "exit-if-only-window");
    assert_eq!(kind(&stack.on_message(forwarded(CTRL_BREAK_EVENT), CONSOLE_CTRL)), "ignore");
    assert_eq!(kind(&stack.on_message(forwarded(CTRL_CLOSE_EVENT), CONSOLE_CTRL)), "ignore");
    assert_eq!(kind(&stack.on_message(forwarded(9), CONSOLE_CTRL)), "ignore");
    let quit = Message { message: WM_QUIT, wparam: 0, lparam: 0 };
    assert_eq!(kind(&stack.on_message(quit, CONSOLE_CTRL)), "ignore");
    let idle: TrapStack<u8> = TrapStack::new();
    assert_eq!(kind(&idle.on_message(forwarded(CTRL_C_EVENT), CONSOLE_CTRL)), "ignore");
}

#[test]
fn control_event_with_a_handler_is_forwarded() {
    let mut host = host();
    let mut stack: TrapStack<u8> = TrapStack::new();
    stack.push_trap(&[Signal::CtrlBreak], 1, &mut host).unwrap();
    host.host.log.clear();
    assert!(console_ctrl_handler(&stack, &mut host, CONSOLE_CTRL, CTRL_BREAK_EVENT));
    assert_eq!(
        host.host.log,
        vec![HostEvent::Posted {
            target: WINDOW,
            message: CONSOLE_CTRL,
            wparam: 1,
            lparam: 0,
            failure: None,
        }]
    );
    assert_eq!(host.host.pending, vec![forwarded(CTRL_BREAK_EVENT)]);
}

#[test]
fn control_event_without_a_handler_is_left_to_the_system() {
    let mut host = host();
    let mut stack: TrapStack<u8> = TrapStack::new();
    assert!(!console_ctrl_handler(&stack, &mut host, CONSOLE_CTRL, CTRL_C_EVENT));
    stack.push_trap(&[Signal::CtrlBreak, Signal::CloseWindow], 1, &mut host).unwrap();
    host.host.log.clear();
    assert!(!console_ctrl_handler(&stack, &mut host, CONSOLE_CTRL, CTRL_C_EVENT));
    assert!(!console_ctrl_handler(&stack, &mut host, CONSOLE_CTRL, CTRL_CLOSE_EVENT));
    assert!(!console_ctrl_handler(&stack, &mut host, CONSOLE_CTRL, 5));
    assert!(host.host.log.is_empty());
    assert!(host.host.pending.is_empty());
}

#[test]
fn control_event_that_cannot_be_posted_is_not_handled() {
    let mut host = host();
    let mut stack: TrapStack<u8> = TrapStack::new();
    stack.push_trap(&[Signal::CtrlC], 1, &mut host).unwrap();
    host.host.log.clear();
    host.host.posting = Err(1816);
    assert!(!console_ctrl_handler(&stack, &mut host, CONSOLE_CTRL, CTRL_C_EVENT));
    assert_eq!(
        host.host.log,
        vec![HostEvent::Posted {
            target: WINDOW,
            message: CONSOLE_CTRL,
            wparam: 0,
            lparam: 0,
            failure: Some(1816),
        }]
    );
    assert!(host.host.pending.is_empty());
}

#[test]
fn process_exits_only_without_another_window_of_its_own() {
    let mut host = host();
    let mut stack: TrapStack<u8> = TrapStack::new();
    stack.push_trap(&[Signal::CtrlC], 1, &mut host).unwrap();
    let own = WindowInfo { hwnd: WINDOW.hwnd, process_id: PROCESS };
    let foreign = WindowInfo { hwnd: 0x77, process_id: PROCESS + 1 };
    let sibling = WindowInfo { hwnd: 0x78, process_id: PROCESS };
    assert!(stack.exit_if_only_window(&[], PROCESS));
    assert!(stack.exit_if_only_window(&[own], PROCESS));
    assert!(stack.exit_if_only_window(&[foreign, own, foreign], PROCESS));
    assert!(!stack.exit_if_only_window(&[sibling], PROCESS));
    assert!(!stack.exit_if_only_window(&[foreign, own, sibling], PROCESS));
    assert!(!stack.exit_if_only_window(&[sibling, own], PROCESS));
}

#[test]
fn enumeration_stops_at_another_window_of_the_process() {
    let mine = WindowInfo { hwnd: WINDOW.hwnd, process_id: PROCESS };
    assert!(enum_windows_proc(WINDOW, PROCESS, mine));
    assert!(enum_windows_proc(WINDOW, PROCESS, WindowInfo { hwnd: 3, process_id: PROCESS + 1 }));
    assert!(!enum_windows_proc(WINDOW, PROCESS, WindowInfo { hwnd: 3, process_id: PROCESS }));
    assert!(enum_windows_proc(
        WINDOW,
        PROCESS,
        WindowInfo { hwnd: WINDOW.hwnd, process_id: PROCESS + 1 }
    ));
}

#[test]
fn listener_is_brought_up_from_its_reports() {
    let mut host = host();
    let listener = TrapThreadData::new(&mut host).unwrap();
    assert_eq!(listener, TrapThreadData { thread_id: LISTENER, window_handle: WINDOW });
    assert_eq!(host.host.log, vec![HostEvent::Registered(None), HostEvent::Spawned]);
}

#[test]
fn listener_shutdown_follows_the_order() {
    let mut host = host();
    let listener = TrapThreadData { thread_id: 31, window_handle: WINDOW };
    listener.shutdown(&mut host);
    assert_eq!(
        host.host.log,
        vec![
            HostEvent::Unregistered,
            HostEvent::PostedToThread { thread_id: 31, message: WM_QUIT, wparam: 0, lparam: 0 },
            HostEvent::Joined,
        ]
    );
}

#[test]
fn control_event_is_posted_to_the_listeners_window() {
    let mut host = host();
    let listener = TrapThreadData { thread_id: 31, window_handle: WindowHandle { hwnd: 0xbeef } };
    assert_eq!(listener.enqueue_ctrl_event(&mut host, CONSOLE_CTRL, CTRL_CLOSE_EVENT), Ok(()));
    host.host.posting = Err(1400);
    assert_eq!(listener.enqueue_ctrl_event(&mut host, CONSOLE_CTRL, CTRL_C_EVENT), Err(1400));
    assert_eq!(
        host.host.log,
        vec![
            HostEvent::Posted {
                target: WindowHandle { hwnd: 0xbeef },
                message: CONSOLE_CTRL,
                wparam: 2,
                lparam: 0,
                failure: None,
            },
            HostEvent::Posted {
                target: WindowHandle { hwnd: 0xbeef },
                message: CONSOLE_CTRL,
                wparam: 0,
                lparam: 0,
                failure: Some(1400),
            },
        ]
    );
}

#[test]
fn reports_are_read_by_the_creator() {
    let ok = |v: usize| -> Option<Report> { Some(Ok(v)) };
    assert_eq!(
        TrapThreadData::from_reports(ok(5), ok(9)),
        Ok(TrapThreadData { thread_id: 5, window_handle: WindowHandle { hwnd: 9 } })
    );
    assert_eq!(
        TrapThreadData::from_reports(ok(5), Some(Err(1407))),
        Err(Error::CreateWindow(1407))
    );
    assert_eq!(
        TrapThreadData::from_reports(Some(Err(8)), None),
        Err(Error::CreateWindow(8))
    );
    assert_eq!(
        TrapThreadData::from_reports(Some(Err(8)), Some(Err(9))),
        Err(Error::CreateWindow(8))
    );
    assert_eq!(
        TrapThreadData::from_reports(ok(5), None),
        Err(Error::CreateWindow(ERROR_INVALID_WINDOW_HANDLE))
    );
    assert_eq!(
        TrapThreadData::from_reports(None, None),
        Err(Error::CreateWindow(1400))
    );
    assert_eq!(
        TrapThreadData::from_reports(None, ok(9)),
        Err(Error::CreateWindow(1400))
    );
}

#[test]
fn announced_reports_cross_the_channel() {
    let (ready, reports) = crossbeam_channel::bounded::<Report>(2);
    assert!(announce(&ready, 11, Ok(WindowHandle { hwnd: 22 })));
    assert_eq!(reports.try_recv(), Ok(Ok(11)));
    assert_eq!(reports.try_recv(), Ok(Ok(22)));
    assert!(!announce(&ready, 11, Err(33)));
    assert_eq!(reports.try_recv(), Ok(Ok(11)));
    assert_eq!(reports.try_recv(), Ok(Err(33)));
    drop(reports);
    assert!(!announce(&ready, 11, Ok(WindowHandle { hwnd: 22 })));
}

#[test]
fn stream_hands_out_what_was_delivered() {
    let (sender, mut stream) = signal_channel();
    assert_eq!(stream.poll(), Async::NotReady);
    assert!(sender.deliver(Signal::CtrlBreak));
    assert_eq!(stream.poll(), Async::Ready(Some(Signal::CtrlBreak)));
    assert_eq!(stream.poll(), Async::NotReady);
    assert!(sender.deliver(Signal::CloseWindow));
    drop(sender);
    assert_eq!(stream.poll(), Async::Ready(Some(Signal::CloseWindow)));
    assert_eq!(stream.poll(), Async::Ready(None));
    assert_eq!(stream.poll(), Async::Ready(None));
}

#[test]
fn delivery_fails_once_the_stream_is_gone() {
    let (sender, stream) = signal_channel();
    drop(stream);
    assert!(!sender.deliver(Signal::CtrlC));
}

#[test]
fn trapped_signals_arrive_on_the_stream() {
    struct Deliver(std::sync::Arc<SignalSender>);
    impl Clone for Deliver {
        fn clone(&self) -> Self {
            Deliver(self.0.clone())
        }
    }
    let mut session: Session<Deliver, Scripted> = Session::new(Scripted::new(), CONSOLE_CTRL);
    let result = trap_stream(
        &mut session,
        OWNER,
        &[Signal::CtrlC, Signal::CloseWindow],
        |sender| Deliver(std::sync::Arc::new(sender)),
        |session, mut stream| {
            assert_eq!(stream.poll(), Async::NotReady);
            assert!(console_ctrl_handler(
                &session.stack,
                &mut session.driver,
                CONSOLE_CTRL,
                CTRL_C_EVENT
            ));
            let msg = session.driver.host.pending.remove(0);
            match session.stack.on_message(msg, CONSOLE_CTRL) {
                Dispatch::Invoke(handler, signal) => assert!(handler.0.deliver(signal)),
                other => panic!("{}", kind(&other)),
            }
            let first = stream.poll();
            (first, stream)
        },
    );
    let (first, mut stream) = result.unwrap();
    assert_eq!(first, Async::Ready(Some(Signal::CtrlC)));
    assert_eq!(session.stack.active_count(), 0);
    assert_eq!(stream.poll(), Async::Ready(None));
}

#[test]
fn stack_tells_whether_a_trap_can_be_closed() {
    let mut host = host();
    let mut stack: TrapStack<u8> = TrapStack::new();
    assert!(!stack.can_pop(&[]));
    assert!(!stack.can_pop(&[Signal::CtrlC]));
    stack.push_trap(&[Signal::CtrlC, Signal::CtrlC, Signal::CloseWindow], 1, &mut host).unwrap();
    assert!(stack.can_pop(&[Signal::CtrlC, Signal::CtrlC, Signal::CloseWindow]));
    assert!(stack.can_pop(&[Signal::CloseWindow, Signal::CtrlC]));
    assert!(stack.can_pop(&[]));
    assert!(!stack.can_pop(&[Signal::CtrlC, Signal::CtrlC, Signal::CtrlC]));
    assert!(!stack.can_pop(&[Signal::CtrlBreak]));
    assert!(!stack.can_pop(&[Signal::CloseWindow, Signal::CloseWindow]));
}

#[test]
fn low_dword_is_taken_from_wide_values() {
    assert_eq!(wintrap::signal::truncate_to_dword(0), 0);
    assert_eq!(wintrap::signal::truncate_to_dword(0xffff_ffff), 0xffff_ffff);
    if let Ok(wide) = usize::try_from(0x0000_0007_0000_0002u64) {
        assert_eq!(wintrap::signal::truncate_to_dword(wide), 2);
        assert_eq!(
            TrapThreadData::from_reports(Some(Ok(wide)), Some(Ok(wide))),
            Ok(TrapThreadData { thread_id: 2, window_handle: WindowHandle { hwnd: wide } })
        );
    }
}

#[test]
fn listener_reports_its_thread_then_its_window() {
    assert_eq!(reports_for(11, Ok(WindowHandle { hwnd: 22 })), (Ok(11), Ok(22)));
    assert_eq!(reports_for(11, Err(1407)), (Ok(11), Err(1407)));
    assert_eq!(reports_for(u32::MAX, Ok(WindowHandle { hwnd: 0 })), (Ok(0xffff_ffff), Ok(0)));
}

#[test]
fn listener_pumps_only_with_a_window_and_a_creator() {
    let window: Result<WindowHandle, u32> = Ok(WINDOW);
    assert!(pumps_if(window, true, true));
    assert!(!pumps_if(window, false, true));
    assert!(!pumps_if(window, true, false));
    assert!(!pumps_if(window, false, false));
    assert!(!pumps_if(Err(5), true, true));
    assert!(!pumps_if(Err(5), false, false));
}

#[test]
fn creator_reads_back_what_the_listener_reports() {
    let (thread, window) = reports_for(LISTENER, Ok(WINDOW));
    assert_eq!(
        TrapThreadData::from_reports(Some(thread), Some(window)),
        Ok(TrapThreadData { thread_id: LISTENER, window_handle: WINDOW })
    );
    let (thread, window) = reports_for(LISTENER, Err(1407));
    assert_eq!(
        TrapThreadData::from_reports(Some(thread), Some(window)),
        Err(Error::CreateWindow(1407))
    );
}
