use clay_viewer::error::Error;
use clay_viewer::handler::{DummyHandler, EventHandler};
use clay_viewer::input::{Event, Key, MouseState, RelativeMouseState};
use clay_viewer::motion::Motion;
use clay_viewer::window::{Directive, MousePoll, WindowState};
use std::cell::Cell;

/// Records what it was handed, and fails where it is told to.
struct Recorder {
    keys: Vec<Event>,
    mice: Vec<(bool, i32, i32)>,
    fail: bool,
}

impl Recorder {
    fn new(fail: bool) -> Recorder {
        Recorder { keys: Vec::new(), mice: Vec::new(), fail }
    }
}

impl EventHandler for Recorder {
    fn handle_keys(&mut self, _state: &WindowState, event: &Event) -> Result<(), Error> {
        self.keys.push(*event);
        if self.fail {
            Err(Error::Handler(String::from("key refused")))
        } else {
            Ok(())
        }
    }

    fn handle_mouse(
        &mut self,
        state: &WindowState,
        ms: &MouseState,
        rms: &RelativeMouseState,
    ) -> Result<(), Error> {
        self.mice.push((state.captured(), rms.x, rms.y));
        if self.fail && !ms.left {
            Err(Error::Handler(String::from("mouse refused")))
        } else {
            Ok(())
        }
    }
}

fn free_state() -> WindowState {
    let mut state = WindowState::new();
    state.set_capture_mode(false);
    state.unlock();
    state
}

fn buttons(left: bool) -> MouseState {
    MouseState { left, middle: false, right: false, x: 0, y: 0 }
}

fn moved(x: i32, y: i32) -> RelativeMouseState {
    RelativeMouseState { left: false, middle: false, right: false, x, y }
}

#[test]
fn events_reach_the_handler_unless_a_rule_claims_them() {
    let mut state = free_state();
    let mut handler = Recorder::new(false);
    assert_eq!(state.dispatch_event(&mut handler, &Event::KeyDown(Key::W), false), Ok(Directive::Forward));
    assert_eq!(state.dispatch_event(&mut handler, &Event::KeyDown(Key::Tab), false), Ok(Directive::SetCapture(true)));
    assert_eq!(state.dispatch_event(&mut handler, &Event::KeyDown(Key::P), false), Ok(Directive::Skip));
    assert_eq!(state.dispatch_event(&mut handler, &Event::KeyUp(Key::W), false), Ok(Directive::Forward));
    assert_eq!(state.dispatch_event(&mut handler, &Event::Other, false), Ok(Directive::Forward));
    assert_eq!(state.dispatch_event(&mut handler, &Event::Quit, false), Ok(Directive::Quit));
    assert_eq!(handler.keys, vec![Event::KeyDown(Key::W), Event::KeyUp(Key::W), Event::Other]);
    assert!(state.captured());
    assert_eq!(state.pending_screenshot(), Some(false));
}

#[test]
fn nothing_reaches_the_handler_while_locked() {
    let mut state = free_state();
    let mut handler = Recorder::new(true);
    assert_eq!(state.dispatch_event(&mut handler, &Event::KeyDown(Key::L), false), Ok(Directive::Lock));
    assert_eq!(state.dispatch_event(&mut handler, &Event::KeyDown(Key::W), false), Ok(Directive::Skip));
    assert_eq!(state.dispatch_event(&mut handler, &Event::KeyDown(Key::Tab), false), Ok(Directive::Skip));
    assert_eq!(state.dispatch_event(&mut handler, &Event::KeyUp(Key::W), false), Ok(Directive::Skip));
    assert_eq!(state.dispatch_event(&mut handler, &Event::Other, false), Ok(Directive::Skip));
    let reads = Cell::new(0);
    let read = || {
        reads.set(reads.get() + 1);
        moved(9, 9)
    };
    assert_eq!(state.dispatch_mouse(&mut handler, &buttons(true), read), Ok(MousePoll::Ignore));
    assert_eq!(reads.get(), 0);
    assert!(handler.keys.is_empty());
    assert!(handler.mice.is_empty());
    assert!(!state.captured());
}

#[test]
fn handler_error_comes_back_and_the_state_is_kept() {
    let mut state = free_state();
    let mut handler = Recorder::new(true);
    assert_eq!(
        state.dispatch_event(&mut handler, &Event::KeyDown(Key::A), true),
        Err(Error::Handler(String::from("key refused")))
    );
    assert_eq!(handler.keys, vec![Event::KeyDown(Key::A)]);
    assert!(!state.locked());
    assert_eq!(state.dispatch_event(&mut handler, &Event::KeyDown(Key::Tab), true), Ok(Directive::SetCapture(true)));
    state.drop_mouse = false;
    assert_eq!(
        state.dispatch_mouse(&mut handler, &buttons(false), || moved(1, 2)),
        Err(Error::Handler(String::from("mouse refused")))
    );
    assert_eq!(handler.mice, vec![(true, 1, 2)]);
}

#[test]
fn dropped_sample_is_read_and_thrown_away() {
    let mut state = free_state();
    let mut handler = Recorder::new(false);
    state.dispatch_event(&mut handler, &Event::KeyDown(Key::Tab), false).unwrap();
    let reads = Cell::new(0);
    let poll = state.dispatch_mouse(&mut handler, &buttons(false), || {
        reads.set(reads.get() + 1);
        moved(500, 500)
    });
    assert_eq!(poll, Ok(MousePoll::Discard));
    assert_eq!(reads.get(), 1);
    assert!(handler.mice.is_empty());
    let poll = state.dispatch_mouse(&mut handler, &buttons(false), || {
        reads.set(reads.get() + 1);
        moved(3, -4)
    });
    assert_eq!(poll, Ok(MousePoll::Forward));
    assert_eq!(reads.get(), 2);
    assert_eq!(handler.mice, vec![(true, 3, -4)]);
}

#[test]
fn free_window_hands_the_mouse_on_while_the_button_is_held() {
    let mut state = free_state();
    let mut handler = Recorder::new(false);
    assert_eq!(state.dispatch_mouse(&mut handler, &buttons(true), || moved(7, 0)), Ok(MousePoll::Forward));
    assert_eq!(state.dispatch_mouse(&mut handler, &buttons(false), || moved(8, 0)), Ok(MousePoll::Discard));
    assert_eq!(handler.mice, vec![(false, 7, 0)]);
}

#[test]
fn a_poll_drives_the_motion_through_the_window() {
    let mut state = free_state();
    let mut motion = Motion::new();
    let queue = [
        (Event::KeyDown(Key::W), false),
        (Event::KeyDown(Key::Tab), false),
        (Event::KeyDown(Key::D), false),
        (Event::KeyUp(Key::W), false),
        (Event::KeyDown(Key::L), false),
        (Event::KeyDown(Key::Space), false),
        (Event::KeyDown(Key::L), true),
        (Event::KeyDown(Key::LShift), true),
    ];
    for (event, shift) in queue {
        assert!(state.dispatch_event(&mut motion, &event, shift).is_ok());
    }
    assert_eq!(motion.key_mask, (1 << 6) | (1 << 9));
    assert!(state.captured());
    motion.updated = false;
    assert_eq!(state.dispatch_mouse(&mut motion, &buttons(false), || moved(40, 2)), Ok(MousePoll::Discard));
    assert!(!motion.updated);
    assert_eq!(state.dispatch_mouse(&mut motion, &buttons(false), || moved(0, 0)), Ok(MousePoll::Forward));
    assert!(!motion.updated);
    assert_eq!(state.dispatch_mouse(&mut motion, &buttons(false), || moved(100, 0)), Ok(MousePoll::Forward));
    assert!(motion.updated);
}

#[test]
fn dummy_handler_polls_without_effect() {
    let mut state = free_state();
    let mut handler = DummyHandler();
    assert_eq!(state.dispatch_event(&mut handler, &Event::KeyDown(Key::W), false), Ok(Directive::Forward));
    assert_eq!(state.dispatch_event(&mut handler, &Event::KeyDown(Key::Escape), false), Ok(Directive::Quit));
    assert_eq!(state.dispatch_mouse(&mut handler, &buttons(true), || moved(1, 1)), Ok(MousePoll::Forward));
}

#[test]
fn motion_is_left_alone_by_what_is_not_handed_on() {
    let mut state = free_state();
    let mut motion = Motion::new();
    motion.handle_key_edge(Key::W, true);
    motion.updated = false;
    for (event, shift) in [
        (Event::KeyDown(Key::Tab), false),
        (Event::KeyDown(Key::P), true),
        (Event::KeyDown(Key::L), false),
        (Event::KeyDown(Key::D), false),
        (Event::KeyUp(Key::W), false),
        (Event::Quit, false),
    ] {
        assert!(state.dispatch_event(&mut motion, &event, shift).is_ok());
        assert_eq!(motion.key_mask, 1);
        assert!(!motion.updated);
    }
    assert_eq!(state.dispatch_mouse(&mut motion, &buttons(true), || moved(5, 5)), Ok(MousePoll::Ignore));
    assert!(!motion.updated);
    state.unlock();
    assert_eq!(state.dispatch_mouse(&mut motion, &buttons(true), || moved(5, 5)), Ok(MousePoll::Discard));
    assert!(!motion.updated);
    assert_eq!(motion.key_mask, 1);
}

/// Drains `queue` as a window does: stops at the first event that ends the
/// session or that the handler refuses, and polls the mouse after the last.
fn poll<H: EventHandler>(
    state: &mut WindowState,
    handler: &mut H,
    queue: &[(Event, bool)],
) -> Result<bool, Error> {
    for (event, shift) in queue {
        if state.dispatch_event(handler, event, *shift)? == Directive::Quit {
            return Ok(true);
        }
    }
    state.dispatch_mouse(handler, &buttons(true), || moved(1, 1))?;
    Ok(false)
}

#[test]
fn a_refused_event_ends_the_poll_with_the_handlers_error() {
    let mut state = free_state();
    let mut handler = Recorder::new(true);
    let queue = [(Event::KeyDown(Key::W), false), (Event::KeyDown(Key::A), false)];
    assert_eq!(
        poll(&mut state, &mut handler, &queue),
        Err(Error::Handler(String::from("key refused")))
    );
    assert_eq!(handler.keys, vec![Event::KeyDown(Key::W)]);
    assert!(handler.mice.is_empty());
    assert!(!state.locked());
    assert!(!state.captured());
    assert!(state.drop_mouse);
}

#[test]
fn a_poll_without_a_handler_never_fails_and_tells_a_quit() {
    let mut state = free_state();
    let mut handler = DummyHandler();
    let plain = [
        (Event::KeyDown(Key::W), false),
        (Event::KeyDown(Key::Tab), false),
        (Event::KeyDown(Key::L), false),
        (Event::Other, true),
        (Event::KeyDown(Key::L), true),
        (Event::KeyUp(Key::Escape), false),
    ];
    assert_eq!(poll(&mut state, &mut handler, &plain), Ok(false));
    assert_eq!(poll(&mut state, &mut handler, &[]), Ok(false));
    let with_quit = [(Event::KeyDown(Key::A), false), (Event::Quit, false), (Event::KeyDown(Key::L), false)];
    assert_eq!(poll(&mut state, &mut handler, &with_quit), Ok(true));
    assert!(!state.locked());
    let with_escape = [(Event::KeyDown(Key::Escape), false)];
    assert_eq!(poll(&mut state, &mut handler, &with_escape), Ok(true));
    assert_eq!(poll(&mut state, &mut handler, &plain), Ok(false));
}

#[test]
fn the_handler_sees_the_window_as_it_is_after_the_poll() {
    let mut state = free_state();
    state.set_capture_mode(true);
    let mut handler = Recorder::new(false);
    assert_eq!(state.dispatch_mouse(&mut handler, &buttons(false), || moved(2, 3)), Ok(MousePoll::Discard));
    assert_eq!(state.dispatch_mouse(&mut handler, &buttons(false), || moved(4, 5)), Ok(MousePoll::Forward));
    assert_eq!(handler.mice, vec![(true, 4, 5)]);
}
