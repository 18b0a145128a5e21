use crossbeam_channel::Sender;
use wintrap::listener::{announce, Report};
use wintrap::{trap, Host, Session, Signal, WindowHandle};

/// A host of the test's own, which keeps the names of the calls made on it.
struct Named {
    calls: Vec<&'static str>,
    listener: Option<bool>,
}

impl Host for Named {
    fn register_control_callback(&mut self) -> Result<(), u32> {
        self.calls.push("register");
        Ok(())
    }

    fn unregister_control_callback(&mut self) {
        self.calls.push("unregister");
    }

    fn spawn_listener(&mut self, ready: Sender<Report>) {
        self.calls.push("spawn");
        self.listener = Some(announce(&ready, 77, Ok(WindowHandle { hwnd: 88 })));
    }

    fn post_message(
        &mut self,
        _target: WindowHandle,
        _message: u32,
        _wparam: usize,
        _lparam: isize,
    ) -> Result<(), u32> {
        self.calls.push("post");
        Ok(())
    }

    fn post_thread_message(&mut self, _thread_id: u32, _message: u32, _wparam: usize, _lparam: isize) {
        self.calls.push("quit");
    }

    fn join_listener(&mut self) {
        self.calls.push("join");
        let running = self.listener.take().unwrap();
        assert!(running);
    }
}

#[test]
fn host_of_the_caller_is_driven_in_order() {
    let host = Named { calls: Vec::new(), listener: None };
    let mut session: Session<fn(Signal), Named> = Session::new(host, 0xc000);
    let listener = trap(&mut session, 3, vec![Signal::CtrlC], |_| {}, |session| {
        session.stack.listener_data()
    })
    .unwrap()
    .unwrap();
    assert_eq!(listener.thread_id, 77);
    assert_eq!(listener.window_handle, WindowHandle { hwnd: 88 });
    assert_eq!(session.driver.host.calls, vec!["register", "spawn", "unregister", "quit", "join"]);
}
