//! The state of the window: input modes and the frame clock.
//!
//! The window is in one of three input modes. *Captured*: the pointer is
//! hidden and its motion turns the camera. *Free*: the pointer is visible and
//! turns the camera only while the primary button is held. *Locked*: no input
//! reaches the handler at all; whether the pointer was captured is remembered
//! and restored on unlock.
//!
//! The functions here decide. They touch neither the operating system nor the
//! handler: each returns what is to be done, and the caller does it.

use vstd::prelude::*;
use std::time::Duration;
use std::time::Instant;
use crate::input::Event;
use crate::input::Key;
use crate::time::duration_nanos;

verus! {

/// The input mode of the window, as the transition rules see it.
#[derive(Clone, Copy, Debug, PartialEq, Eq, Structural)]
pub struct InputMode {
    /// No event reaches the handler.
    pub locked: bool,
    /// The pointer is captured.
    pub captured: bool,
    /// The next mouse sample taken while captured is thrown away.
    pub drop_next_mouse: bool,
    /// A screenshot was asked for; the flag says whether it is lossless.
    pub pending_screenshot: Option<bool>,
}

/// What the caller has to do after an event was looked at.
#[derive(Clone, Copy, Debug, PartialEq, Eq, Structural)]
pub enum Directive {
    /// End the session.
    Quit,
    /// Hand the event to the handler.
    Forward,
    /// Nothing is to be done.
    Skip,
    /// Capture the pointer (`true`) or release it (`false`).
    SetCapture(bool),
    /// Release the pointer and mark the window as locked.
    Lock,
    /// Capture the pointer if the flag is set, release it otherwise, and mark
    /// the window as unlocked.
    Unlock(bool),
}

/// What the caller has to do with the mouse sample of a poll.
#[derive(Clone, Copy, Debug, PartialEq, Eq, Structural)]
pub enum MousePoll {
    /// Read the sample and hand it to the handler.
    Forward,
    /// Read the sample and throw it away.
    Discard,
    /// Do not read a sample: the motion of the pointer keeps adding up.
    Ignore,
}

/// Whether the event ends the session.
pub open spec fn is_quit(event: Event) -> bool {
    event == Event::Quit || event == Event::KeyDown(Key::Escape)
}

/// Whether the event is one of the keys that control the input mode. Such an
/// event is never handed to the handler.
pub open spec fn is_control(event: Event) -> bool {
    event == Event::KeyDown(Key::Tab) || event == Event::KeyDown(Key::P) || event
        == Event::KeyDown(Key::L)
}

/// The input mode after the pointer was set to captured (`state`) or free.
/// Going from free to captured asks for the next mouse sample to be dropped.
pub open spec fn mode_after_capture(m: InputMode, state: bool) -> InputMode {
    InputMode {
        captured: state,
        drop_next_mouse: m.drop_next_mouse || (state && !m.captured),
        ..m
    }
}

/// The input mode after input was locked. Whether the pointer was captured
/// is kept.
pub open spec fn mode_after_lock(m: InputMode) -> InputMode {
    InputMode { locked: true, ..m }
}

/// The input mode after input was unlocked. Unlocking with the pointer
/// captured asks for the next mouse sample to be dropped.
pub open spec fn mode_after_unlock(m: InputMode) -> InputMode {
    InputMode { locked: false, drop_next_mouse: m.drop_next_mouse || m.captured, ..m }
}

/// The input mode after `event`, where `shift` says whether a shift key was
/// held when it arrived.
pub open spec fn mode_after_event(m: InputMode, event: Event, shift: bool) -> InputMode {
    if event == Event::KeyDown(Key::Tab) {
        if m.locked {
            m
        } else {
            mode_after_capture(m, !m.captured)
        }
    } else if event == Event::KeyDown(Key::P) {
        InputMode { pending_screenshot: Some(shift), ..m }
    } else if event == Event::KeyDown(Key::L) {
        if shift {
            mode_after_unlock(m)
        } else {
            mode_after_lock(m)
        }
    } else {
        m
    }
}

/// What the caller has to do for `event`, arriving in mode `m`.
pub open spec fn directive_for(m: InputMode, event: Event, shift: bool) -> Directive {
    if is_quit(event) {
        Directive::Quit
    } else if event == Event::KeyDown(Key::Tab) {
        if m.locked {
            Directive::Skip
        } else {
            Directive::SetCapture(!m.captured)
        }
    } else if event == Event::KeyDown(Key::P) {
        Directive::Skip
    } else if event == Event::KeyDown(Key::L) {
        if shift {
            Directive::Unlock(m.captured)
        } else {
            Directive::Lock
        }
    } else if m.locked {
        Directive::Skip
    } else {
        Directive::Forward
    }
}

/// Whether the mouse sample of a poll taken in mode `m` is handed to the
/// handler. `left` says whether the primary button is held.
pub open spec fn mouse_forwarded(m: InputMode, left: bool) -> bool {
    if m.locked {
        false
    } else if m.captured {
        !m.drop_next_mouse
    } else {
        left
    }
}

/// What the caller has to do with the mouse sample of a poll taken in mode
/// `m`. A locked window reads no sample; an unlocked one reads it, and throws
/// it away unless it is handed on.
pub open spec fn mouse_poll(m: InputMode, left: bool) -> MousePoll {
    if m.locked {
        MousePoll::Ignore
    } else if mouse_forwarded(m, left) {
        MousePoll::Forward
    } else {
        MousePoll::Discard
    }
}

/// The input mode after a mouse poll. An unlocked poll uses up the request
/// to drop a sample.
pub open spec fn mode_after_mouse(m: InputMode) -> InputMode {
    if m.locked {
        m
    } else {
        InputMode { drop_next_mouse: false, ..m }
    }
}

/// The input mode after the events of a queue, taken in order. Each event
/// comes with the state of the shift keys at its arrival.
pub open spec fn mode_after_events(m: InputMode, events: Seq<(Event, bool)>) -> InputMode
    decreases events.len(),
{
    if events.len() == 0 {
        m
    } else {
        let last = events.last();
        mode_after_event(mode_after_events(m, events.drop_last()), last.0, last.1)
    }
}

/// Whether the event, with that state of the shift keys, unlocks input.
pub open spec fn unlocks(event: Event, shift: bool) -> bool {
    event == Event::KeyDown(Key::L) && shift
}

/// An event is handed to the handler exactly if input is not locked and the
/// event neither ends the session nor is one of the keys that control the
/// input mode. Only those keys change the input mode.
pub proof fn law_handler_sees_what_no_rule_claims(m: InputMode, event: Event, shift: bool)
    ensures
        directive_for(m, event, shift) == Directive::Forward <==> !m.locked && !is_quit(event)
            && !is_control(event),
        !is_control(event) ==> mode_after_event(m, event, shift) == m,
{
}

/// Switching from free to captured asks for the next mouse sample to be
/// dropped. The poll that follows hands nothing to the handler, whatever the
/// buttons, and uses the request up: the poll after it hands its sample on.
pub proof fn law_capture_toggle_drops_one_sample(
    m: InputMode,
    shift: bool,
    left: bool,
    next_left: bool,
)
    requires
        !m.locked,
        !m.captured,
    ensures
        ({
            let toggled = mode_after_event(m, Event::KeyDown(Key::Tab), shift);
            let polled = mode_after_mouse(toggled);
            &&& toggled.captured
            &&& toggled.drop_next_mouse
            &&& !mouse_forwarded(toggled, left)
            &&& !polled.drop_next_mouse
            &&& mouse_forwarded(polled, next_left)
            &&& mode_after_mouse(polled) == polled
        }),
{
}

/// Every event that leads into the captured, unlocked mode from another mode
/// asks for the next mouse sample to be dropped, and no event withdraws such
/// a request.
pub proof fn law_entering_capture_drops_next_sample(m: InputMode, event: Event, shift: bool)
    ensures
        ({
            let n = mode_after_event(m, event, shift);
            &&& (n.captured && !n.locked && (!m.captured || m.locked)) ==> n.drop_next_mouse
            &&& m.drop_next_mouse ==> n.drop_next_mouse
        }),
{
}

/// Unlocking with the pointer captured, and capturing a free pointer, ask
/// for the next mouse sample to be dropped, by a key or by a call. Once
/// unlocked, the poll that follows hands nothing to the handler and uses the
/// request up; the poll after it hands its sample on. Unlocking with the
/// pointer free, and releasing the pointer, leave the request as it was.
pub proof fn law_entering_capture_by_call_drops_one_sample(m: InputMode, left: bool)
    ensures
        m.captured ==> ({
            let unlocked = mode_after_unlock(m);
            &&& unlocked.drop_next_mouse
            &&& !mouse_forwarded(unlocked, left)
            &&& mouse_forwarded(mode_after_mouse(unlocked), left)
        }),
        !m.captured ==> mode_after_unlock(m).drop_next_mouse == m.drop_next_mouse,
        !m.captured ==> mode_after_capture(m, true).drop_next_mouse,
        !m.captured && !m.locked ==> ({
            let captured = mode_after_capture(m, true);
            &&& !mouse_forwarded(captured, left)
            &&& mouse_forwarded(mode_after_mouse(captured), left)
        }),
        mode_after_capture(m, false).drop_next_mouse == m.drop_next_mouse,
        mode_after_capture(m, m.captured) == m,
{
}

/// While input is locked, no event and no mouse sample is handed to the
/// handler, a mouse poll changes nothing, and Tab is ignored.
pub proof fn law_locked_blocks_input(m: InputMode, event: Event, shift: bool, left: bool)
    requires
        m.locked,
    ensures
        directive_for(m, event, shift) != Directive::Forward,
        !mouse_forwarded(m, left),
        mode_after_mouse(m) == m,
        mode_after_event(m, Event::KeyDown(Key::Tab), shift) == m,
        directive_for(m, Event::KeyDown(Key::Tab), shift) == Directive::Skip,
{
}

/// Only unlocking ends a lock. Over any queue of events without one that
/// unlocks, a locked window stays locked, remembers whether the pointer was
/// captured, and hands none of the events to the handler.
pub proof fn law_locked_until_unlocked(m: InputMode, events: Seq<(Event, bool)>)
    requires
        m.locked,
        forall|i: int| 0 <= i < events.len() ==> !unlocks(events[i].0, events[i].1),
    ensures
        mode_after_events(m, events).locked,
        mode_after_events(m, events).captured == m.captured,
        forall|i: int|
            0 <= i < events.len() ==> directive_for(
                #[trigger] mode_after_events(m, events.take(i)),
                events[i].0,
                events[i].1,
            ) != Directive::Forward,
    decreases events.len(),
{
    if events.len() > 0 {
        law_locked_until_unlocked(m, events.drop_last());
        assert forall|i: int| 0 <= i < events.len() implies directive_for(
            #[trigger] mode_after_events(m, events.take(i)),
            events[i].0,
            events[i].1,
        ) != Directive::Forward by {
            if i < events.len() - 1 {
                assert(events.take(i) == events.drop_last().take(i));
                assert(events[i] == events.drop_last()[i]);
            } else {
                assert(events.take(i) == events.drop_last());
            }
        }
    }
}

/// The state of the window.
pub struct WindowState {
    /// Input is locked.
    pub lock: bool,
    /// The pointer is captured.
    pub capture: bool,
    /// The next mouse sample taken while captured is thrown away.
    pub drop_mouse: bool,
    /// The clock that the samples are read from.
    pub instant: Instant,
    /// The sample that was current before the last frame began.
    pub previous: Duration,
    /// The sample taken when the last frame began.
    pub current: Duration,
    /// A screenshot was asked for; the flag says whether it is lossless.
    pub screenshot: Option<bool>,
}

impl WindowState {
    /// The input mode that the state holds.
    pub open spec fn mode(&self) -> InputMode {
        InputMode {
            locked: self.lock,
            captured: self.capture,
            drop_next_mouse: self.drop_mouse,
            pending_screenshot: self.screenshot,
        }
    }

    /// The current sample is not earlier than the previous one.
    pub open spec fn clock_ordered(&self) -> bool {
        duration_nanos(self.previous) <= duration_nanos(self.current)
    }

    /// The length of the last frame in nanoseconds.
    pub open spec fn frame_nanos(&self) -> nat {
        if duration_nanos(self.current) >= duration_nanos(self.previous) {
            (duration_nanos(self.current) - duration_nanos(self.previous)) as nat
        } else {
            0
        }
    }

    /// Whether `other` has the same clock: origin and both samples.
    pub open spec fn same_clock(&self, other: &WindowState) -> bool {
        &&& self.instant == other.instant
        &&& self.previous == other.previous
        &&& self.current == other.current
    }

    /// A fresh state: unlocked, captured, with the first mouse sample to be
    /// dropped, no screenshot pending, and a clock that starts now.
    pub fn new() -> (s: WindowState)
        ensures
            s.mode() == (InputMode {
                locked: false,
                captured: true,
                drop_next_mouse: true,
                pending_screenshot: None,
            }),
            s.previous == s.current,
            s.clock_ordered(),
            s.frame_nanos() == 0,
    {
        let instant = Instant::now();
        let time = instant.elapsed();
        WindowState {
            lock: false,
            capture: true,
            drop_mouse: true,
            instant,
            previous: time,
            current: time,
            screenshot: None,
        }
    }

    /// Takes `now` as the sample of a new frame. The sample that was current
    /// becomes the previous one. A sample earlier than the current one does
    /// not move the clock back: the new frame then has length zero.
    pub fn advance(&mut self, now: Duration)
        ensures
            final(self).mode() == old(self).mode(),
            final(self).instant == old(self).instant,
            final(self).previous == old(self).current,
            final(self).current == if duration_nanos(now) >= duration_nanos(old(self).current) {
                now
            } else {
                old(self).current
            },
            final(self).clock_ordered(),
    {
        self.previous = self.current;
        if now.as_nanos() >= self.current.as_nanos() {
            self.current = now;
        }
    }

    /// Reads the clock and starts a new frame with that sample. Whatever the
    /// clock returns, the sample that was current becomes the previous one
    /// and the clock does not move back.
    pub fn step_frame(&mut self)
        ensures
            final(self).mode() == old(self).mode(),
            final(self).instant == old(self).instant,
            final(self).previous == old(self).current,
            duration_nanos(final(self).current) >= duration_nanos(old(self).current),
            final(self).clock_ordered(),
    {
        let now = self.instant.elapsed();
        self.advance(now);
    }

    /// The length of the last frame: the current sample less the previous
    /// one, and zero where the previous one is the later.
    pub fn frame_duration(&self) -> (d: Duration)
        ensures
            duration_nanos(d) == self.frame_nanos(),
            self.clock_ordered() ==> duration_nanos(d) == duration_nanos(self.current)
                - duration_nanos(self.previous),
    {
        self.current.saturating_sub(self.previous)
    }

    /// Whether input is locked.
    pub fn locked(&self) -> (b: bool)
        ensures
            b == self.mode().locked,
            b == self.lock,
    {
        self.lock
    }

    /// Whether the pointer is captured.
    pub fn captured(&self) -> (b: bool)
        ensures
            b == self.mode().captured,
            b == self.capture,
    {
        self.capture
    }

    /// Whether the next mouse sample taken while captured is thrown away.
    pub fn drops_next_mouse(&self) -> (b: bool)
        ensures
            b == self.mode().drop_next_mouse,
            b == self.drop_mouse,
    {
        self.drop_mouse
    }

    /// The pending screenshot request, if there is one.
    pub fn pending_screenshot(&self) -> (p: Option<bool>)
        ensures
            p == self.mode().pending_screenshot,
            p == self.screenshot,
    {
        self.screenshot
    }

    /// The sample that was current before the last frame began.
    pub fn previous_sample(&self) -> (d: Duration)
        ensures
            d == self.previous,
    {
        self.previous
    }

    /// The sample taken when the last frame began.
    pub fn current_sample(&self) -> (d: Duration)
        ensures
            d == self.current,
    {
        self.current
    }

    /// Sets whether the pointer is captured. Capturing a free pointer asks
    /// for the next mouse sample to be dropped.
    pub fn set_capture_mode(&mut self, state: bool)
        ensures
            final(self).mode() == mode_after_capture(old(self).mode(), state),
            final(self).same_clock(old(self)),
    {
        if state && !self.capture {
            self.drop_mouse = true;
        }
        self.capture = state;
    }

    /// Locks input. Whether the pointer was captured is kept.
    pub fn lock(&mut self)
        ensures
            final(self).mode() == mode_after_lock(old(self).mode()),
            final(self).same_clock(old(self)),
    {
        self.lock = true;
    }

    /// Unlocks input. The result says whether the pointer is to be captured
    /// again; if it is, the next mouse sample is asked to be dropped.
    pub fn unlock(&mut self) -> (captured: bool)
        ensures
            final(self).mode() == mode_after_unlock(old(self).mode()),
            final(self).same_clock(old(self)),
            captured == old(self).mode().captured,
    {
        self.lock = false;
        if self.capture {
            self.drop_mouse = true;
        }
        self.capture
    }

    /// Looks at one event of the queue and says what is to be done for it.
    /// `shift` says whether a shift key was held when the event arrived.
    ///
    /// `Quit` and Escape end the session. Tab switches between captured and
    /// free unless input is locked. P asks for a screenshot, lossless with
    /// shift. L locks, and L with shift unlocks. Entering the captured mode,
    /// by Tab or by unlocking, asks for the next mouse sample to be dropped.
    /// Every other event is to be handed to the handler unless input is
    /// locked.
    pub fn handle_event(&mut self, event: &Event, shift: bool) -> (d: Directive)
        ensures
            final(self).mode() == mode_after_event(old(self).mode(), *event, shift),
            d == directive_for(old(self).mode(), *event, shift),
            is_quit(*event) ==> final(self).mode() == old(self).mode(),
            final(self).same_clock(old(self)),
    {
        match event {
            Event::Quit => Directive::Quit,
            Event::KeyDown(key) => match key {
                Key::Escape => Directive::Quit,
                Key::Tab => {
                    if !self.locked() {
                        let capture = !self.capture;
                        self.set_capture_mode(capture);
                        Directive::SetCapture(capture)
                    } else {
                        Directive::Skip
                    }
                },
                Key::P => {
                    self.screenshot = Some(shift);
                    Directive::Skip
                },
                Key::L => {
                    if !shift {
                        self.lock();
                        Directive::Lock
                    } else {
                        let captured = self.unlock();
                        Directive::Unlock(captured)
                    }
                },
                _ => self.pass(),
            },
            _ => self.pass(),
        }
    }

    /// The directive for an event that no rule claims: hand it on unless
    /// input is locked.
    fn pass(&self) -> (d: Directive)
        ensures
            d == if self.mode().locked {
                Directive::Skip
            } else {
                Directive::Forward
            },
    {
        if self.lock {
            Directive::Skip
        } else {
            Directive::Forward
        }
    }

    /// Decides what becomes of the mouse sample of this poll. `left` says
    /// whether the primary button is held.
    ///
    /// Locked: no sample is read. Captured: the sample is handed on, unless
    /// one is to be dropped. Free: it is handed on only while the primary
    /// button is held. An unlocked poll uses up the request to drop a sample.
    pub fn poll_mouse(&mut self, left: bool) -> (poll: MousePoll)
        ensures
            poll == mouse_poll(old(self).mode(), left),
            (poll == MousePoll::Forward) == mouse_forwarded(old(self).mode(), left),
            final(self).mode() == mode_after_mouse(old(self).mode()),
            final(self).same_clock(old(self)),
    {
        if self.lock {
            MousePoll::Ignore
        } else {
            let forward = if self.capture {
                !self.drop_mouse
            } else {
                left
            };
            self.drop_mouse = false;
            if forward {
                MousePoll::Forward
            } else {
                MousePoll::Discard
            }
        }
    }

    /// Takes the pending screenshot request, leaving none.
    pub fn take_screenshot(&mut self) -> (p: Option<bool>)
        ensures
            p == old(self).mode().pending_screenshot,
            final(self).mode() == (InputMode { pending_screenshot: None, ..old(self).mode() }),
            final(self).same_clock(old(self)),
    {
        let p = self.screenshot;
        self.screenshot = None;
        p
    }
}

} // verus!
