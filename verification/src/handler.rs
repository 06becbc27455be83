//! The capability that input is handed to.

use vstd::prelude::*;
use crate::error::Error;
use crate::input::Event;
use crate::input::MouseState;
use crate::input::RelativeMouseState;
use crate::window::directive_for;
use crate::window::mode_after_event;
use crate::window::mode_after_mouse;
use crate::window::mouse_poll;
use crate::window::Directive;
use crate::window::MousePoll;
use crate::window::WindowState;

verus! {

/// Something that reacts to the input of a window.
///
/// A handler may say in two spec functions what its methods do: each
/// relates the handler before a call, what it was handed, the handler after
/// the call, and the result. Whoever hands input on states its own result in
/// these terms. A handler that says nothing promises nothing: whatever its
/// methods do is allowed.
pub trait EventHandler {
    /// What `handle_keys` does: called on `self` with `state` and `event`, it
    /// may leave the handler as `after` and return `r`.
    open spec fn keys_handled(
        &self,
        state: &WindowState,
        event: &Event,
        after: &Self,
        r: Result<(), Error>,
    ) -> bool {
        true
    }

    /// What `handle_mouse` does: called on `self` with `state`, `ms` and
    /// `rms`, it may leave the handler as `after` and return `r`.
    open spec fn mouse_handled(
        &self,
        state: &WindowState,
        ms: &MouseState,
        rms: &RelativeMouseState,
        after: &Self,
        r: Result<(), Error>,
    ) -> bool {
        true
    }

    /// Takes an event of the queue. `state` is the state of the window after
    /// the event was looked at.
    fn handle_keys(&mut self, state: &WindowState, event: &Event) -> (r: Result<(), Error>)
        ensures
            old(self).keys_handled(state, event, final(self), r),
    ;

    /// Takes the mouse sample of a poll: the buttons and the position in
    /// `ms`, the motion since the last sample in `rms`.
    fn handle_mouse(
        &mut self,
        state: &WindowState,
        ms: &MouseState,
        rms: &RelativeMouseState,
    ) -> (r: Result<(), Error>)
        ensures
            old(self).mouse_handled(state, ms, rms, final(self), r),
    ;
}

/// A handler that does nothing.
pub struct DummyHandler();

impl EventHandler for DummyHandler {
    /// Every event is accepted.
    open spec fn keys_handled(
        &self,
        state: &WindowState,
        event: &Event,
        after: &Self,
        r: Result<(), Error>,
    ) -> bool {
        r is Ok
    }

    /// Every sample is accepted.
    open spec fn mouse_handled(
        &self,
        state: &WindowState,
        ms: &MouseState,
        rms: &RelativeMouseState,
        after: &Self,
        r: Result<(), Error>,
    ) -> bool {
        r is Ok
    }

    fn handle_keys(&mut self, _state: &WindowState, _event: &Event) -> (r: Result<(), Error>) {
        Ok(())
    }

    fn handle_mouse(
        &mut self,
        _state: &WindowState,
        _ms: &MouseState,
        _rms: &RelativeMouseState,
    ) -> (r: Result<(), Error>) {
        Ok(())
    }
}

/// The result of a handler's method, as the one who handed the input on
/// reports it: success, or the handler's error as it came.
pub open spec fn handler_result<V>(res: Result<V, Error>) -> Result<(), Error> {
    match res {
        Ok(_) => Ok(()),
        Err(e) => Err(e),
    }
}

impl WindowState {
    /// Looks at one event of the queue, as `handle_event` does, and hands it
    /// to `handler` where that is the directive.
    ///
    /// The handler decides nothing here: the state of the window and the
    /// directive are those of `handle_event`. An event that is to be handed
    /// on is handed to `handle_keys` once, with the state of the window as it
    /// is after the event, and the call fails exactly if the handler does,
    /// with the handler's error. For every other event the handler is left
    /// as it was, and the call succeeds.
    pub fn dispatch_event<H: EventHandler>(
        &mut self,
        handler: &mut H,
        event: &Event,
        shift: bool,
    ) -> (res: Result<Directive, Error>)
        ensures
            final(self).mode() == mode_after_event(old(self).mode(), *event, shift),
            final(self).same_clock(old(self)),
            match res {
                Ok(d) => d == directive_for(old(self).mode(), *event, shift),
                Err(_) => directive_for(old(self).mode(), *event, shift) == Directive::Forward,
            },
            directive_for(old(self).mode(), *event, shift) != Directive::Forward ==> res is Ok
                && *final(handler) == *old(handler),
            directive_for(old(self).mode(), *event, shift) == Directive::Forward
                ==> old(handler).keys_handled(
                final(self),
                event,
                final(handler),
                handler_result(res),
            ),
    {
        let directive = self.handle_event(event, shift);
        match directive {
            Directive::Forward => {
                let r = handler.handle_keys(self, event);
                match r {
                    Ok(done) => {
                        assert(r == Ok::<(), Error>(()));
                        Ok(directive)
                    },
                    Err(e) => Err(e),
                }
            },
            _ => Ok(directive),
        }
    }

    /// Decides what becomes of the mouse sample of this poll, as
    /// `poll_mouse` does, and carries it out: `read` is called for the
    /// sample unless the window is locked, and the sample is handed to
    /// `handler` where that is the decision.
    ///
    /// A sample that is to be handed on is handed to `handle_mouse` once,
    /// with the state of the window as it is after the poll and the buttons
    /// in `ms`, and the call fails exactly if the handler does, with the
    /// handler's error. For a sample that is not handed on the handler is
    /// left as it was, and the call succeeds.
    pub fn dispatch_mouse<H: EventHandler, R: FnOnce() -> RelativeMouseState>(
        &mut self,
        handler: &mut H,
        ms: &MouseState,
        read: R,
    ) -> (res: Result<MousePoll, Error>)
        requires
            read.requires(()),
        ensures
            final(self).mode() == mode_after_mouse(old(self).mode()),
            final(self).same_clock(old(self)),
            match res {
                Ok(poll) => poll == mouse_poll(old(self).mode(), ms.left),
                Err(_) => mouse_poll(old(self).mode(), ms.left) == MousePoll::Forward,
            },
            mouse_poll(old(self).mode(), ms.left) != MousePoll::Forward ==> res is Ok
                && *final(handler) == *old(handler),
            mouse_poll(old(self).mode(), ms.left) != MousePoll::Ignore ==> exists|
                rms: RelativeMouseState,
            | read.ensures((), rms),
            mouse_poll(old(self).mode(), ms.left) == MousePoll::Forward ==> exists|
                rms: RelativeMouseState,
            |
                read.ensures((), rms) && old(handler).mouse_handled(
                    final(self),
                    ms,
                    &rms,
                    final(handler),
                    handler_result(res),
                ),
    {
        let poll = self.poll_mouse(ms.left);
        match poll {
            MousePoll::Ignore => Ok(poll),
            MousePoll::Discard => {
                let _ = read();
                Ok(poll)
            },
            MousePoll::Forward => {
                let rms = read();
                let r = handler.handle_mouse(self, ms, &rms);
                match r {
                    Ok(done) => {
                        assert(r == Ok::<(), Error>(()));
                        Ok(poll)
                    },
                    Err(e) => Err(e),
                }
            },
        }
    }
}

} // verus!
