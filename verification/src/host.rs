//! The operating system as the library sees it, and the record of what the
//! library has asked of it.

use crate::listener::{Report, WindowHandle};
use crossbeam_channel::Sender;
use vstd::prelude::*;

verus! {

/// The primitives that the binding to the operating system supplies.
///
/// Nothing is assumed of an implementation: whatever it answers, the library
/// goes on as its contracts say. The primitives of the teardown report no
/// failure: a host that cannot complete one of them does not return from it.
pub trait Host {
    /// Installs the callback through which the system delivers console
    /// control events. On failure the error code of the system comes back.
    fn register_control_callback(&mut self) -> Result<(), u32>;

    /// Takes the console control callback out again.
    fn unregister_control_callback(&mut self);

    /// Starts the listener thread. The thread creates its hidden window,
    /// reports on `ready` as [`crate::listener::announce`] does, and then
    /// pumps messages until it is told to quit.
    fn spawn_listener(&mut self, ready: Sender<Report>);

    /// Posts a message to the window `target`. On failure the error code of
    /// the system comes back.
    fn post_message(&mut self, target: WindowHandle, message: u32, wparam: usize, lparam: isize) -> Result<
        (),
        u32,
    >;

    /// Posts a message to the queue of the thread `thread_id`.
    fn post_thread_message(&mut self, thread_id: u32, message: u32, wparam: usize, lparam: isize);

    /// Waits until the listener thread has ended.
    fn join_listener(&mut self);
}

/// One call that the library has made on its host, with what the host
/// answered.
#[derive(Debug, Clone, Copy, PartialEq, Eq)]
pub enum HostEvent {
    /// The console control callback was offered for registration; the
    /// payload is the error code where the system refused it.
    Registered(Option<u32>),
    /// The console control callback was taken out.
    Unregistered,
    /// A listener thread was started.
    Spawned,
    /// A message was posted to a window; `failure` is the error code where
    /// the system refused it.
    Posted { target: WindowHandle, message: u32, wparam: usize, lparam: isize, failure: Option<u32> },
    /// A message was posted to the queue of a thread.
    PostedToThread { thread_id: u32, message: u32, wparam: usize, lparam: isize },
    /// The listener thread was waited for until it ended.
    Joined,
}

/// The error code in the answer of a host, if it is a failure.
pub open spec fn failure_of(result: Result<(), u32>) -> Option<u32> {
    match result {
        Ok(_) => None,
        Err(code) => Some(code),
    }
}

/// A host together with the history of the calls that were made on it
/// through this driver. The library reaches its host through a driver only,
/// and states over the history in which order it has driven the host.
pub struct Driver<P> {
    /// The host.
    pub host: P,
    /// The calls made so far, oldest first.
    pub calls: Ghost<Seq<HostEvent>>,
}

impl<P: Host> Driver<P> {
    /// The calls made on the host so far, oldest first.
    pub open spec fn trace(&self) -> Seq<HostEvent> {
        self.calls@
    }

    /// A driver for `host`, on which no call was made yet.
    pub fn new(host: P) -> (driver: Driver<P>)
        ensures
            driver.host == host,
            driver.trace() == Seq::<HostEvent>::empty(),
    {
        Driver { host, calls: Ghost(Seq::empty()) }
    }

    /// Has the host install the console control callback.
    pub fn register_control_callback(&mut self) -> (result: Result<(), u32>)
        ensures
            final(self).trace() == old(self).trace().push(HostEvent::Registered(failure_of(result))),
    {
        let result = self.host.register_control_callback();
        proof {
            self.calls@ = self.calls@.push(HostEvent::Registered(failure_of(result)));
        }
        result
    }

    /// Has the host take the console control callback out.
    pub fn unregister_control_callback(&mut self)
        ensures
            final(self).trace() == old(self).trace().push(HostEvent::Unregistered),
    {
        self.host.unregister_control_callback();
        proof {
            self.calls@ = self.calls@.push(HostEvent::Unregistered);
        }
    }

    /// Has the host start the listener thread, which reports on `ready`.
    pub fn spawn_listener(&mut self, ready: Sender<Report>)
        ensures
            final(self).trace() == old(self).trace().push(HostEvent::Spawned),
    {
        self.host.spawn_listener(ready);
        proof {
            self.calls@ = self.calls@.push(HostEvent::Spawned);
        }
    }

    /// Has the host post a message to the window `target`.
    pub fn post_message(&mut self, target: WindowHandle, message: u32, wparam: usize, lparam: isize) -> (result:
        Result<(), u32>)
        ensures
            final(self).trace() == old(self).trace().push(
                HostEvent::Posted { target, message, wparam, lparam, failure: failure_of(result) },
            ),
    {
        let result = self.host.post_message(target, message, wparam, lparam);
        proof {
            self.calls@ = self.calls@.push(
                HostEvent::Posted { target, message, wparam, lparam, failure: failure_of(result) },
            );
        }
        result
    }

    /// Has the host post a message to the queue of the thread `thread_id`.
    pub fn post_thread_message(&mut self, thread_id: u32, message: u32, wparam: usize, lparam: isize)
        ensures
            final(self).trace() == old(self).trace().push(
                HostEvent::PostedToThread { thread_id, message, wparam, lparam },
            ),
    {
        self.host.post_thread_message(thread_id, message, wparam, lparam);
        proof {
            self.calls@ = self.calls@.push(
                HostEvent::PostedToThread { thread_id, message, wparam, lparam },
            );
        }
    }

    /// Has the host wait until the listener thread has ended.
    pub fn join_listener(&mut self)
        ensures
            final(self).trace() == old(self).trace().push(HostEvent::Joined),
    {
        self.host.join_listener();
        proof {
            self.calls@ = self.calls@.push(HostEvent::Joined);
        }
    }
}

} // verus!
