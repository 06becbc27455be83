use clay_viewer::input::{Event, Key};
use clay_viewer::window::{Directive, MousePoll, WindowState};
use std::time::Duration;

fn free_state() -> WindowState {
    let mut state = WindowState::new();
    state.set_capture_mode(false);
    state.unlock();
    state
}

#[test]
fn fresh_state_is_captured_and_drops_first_sample() {
    let mut state = WindowState::new();
    assert!(!state.locked());
    assert!(!state.lock);
    assert!(state.captured());
    assert!(state.capture);
    assert!(state.drop_mouse);
    assert_eq!(state.pending_screenshot(), None);
    assert_eq!(state.frame_duration(), Duration::ZERO);
    assert_eq!(state.previous, state.current);
    assert_eq!(state.poll_mouse(false), MousePoll::Discard);
    assert_eq!(state.poll_mouse(false), MousePoll::Forward);
}

#[test]
fn quit_and_escape_end_the_session_without_changing_the_mode() {
    let mut state = free_state();
    assert_eq!(state.handle_event(&Event::Quit, false), Directive::Quit);
    assert_eq!(state.handle_event(&Event::KeyDown(Key::Escape), true), Directive::Quit);
    assert!(!state.lock);
    assert!(!state.capture);
    assert!(state.drop_mouse);
    assert_eq!(state.pending_screenshot(), None);
}

#[test]
fn quit_ends_the_session_even_when_locked() {
    let mut state = free_state();
    state.lock();
    assert_eq!(state.handle_event(&Event::Quit, false), Directive::Quit);
    assert_eq!(state.handle_event(&Event::KeyDown(Key::Escape), false), Directive::Quit);
    assert!(state.locked());
}

#[test]
fn escape_going_up_is_an_ordinary_event() {
    let mut state = free_state();
    assert_eq!(state.handle_event(&Event::KeyUp(Key::Escape), false), Directive::Forward);
}

#[test]
fn toggling_into_capture_drops_exactly_one_sample() {
    let mut state = free_state();
    state.drop_mouse = false;
    assert_eq!(state.handle_event(&Event::KeyDown(Key::Tab), false), Directive::SetCapture(true));
    assert!(state.captured());
    assert!(state.drop_mouse);
    assert_eq!(state.poll_mouse(true), MousePoll::Discard);
    assert!(!state.drop_mouse);
    assert_eq!(state.poll_mouse(false), MousePoll::Forward);
    assert_eq!(state.poll_mouse(false), MousePoll::Forward);
}

#[test]
fn toggling_out_of_capture_asks_for_no_drop() {
    let mut state = free_state();
    state.set_capture_mode(true);
    state.drop_mouse = false;
    assert_eq!(state.handle_event(&Event::KeyDown(Key::Tab), false), Directive::SetCapture(false));
    assert!(!state.captured());
    assert!(!state.drop_mouse);
}

#[test]
fn toggling_out_of_capture_keeps_a_pending_drop() {
    let mut state = WindowState::new();
    assert!(state.drop_mouse);
    assert_eq!(state.handle_event(&Event::KeyDown(Key::Tab), true), Directive::SetCapture(false));
    assert!(state.drop_mouse);
}

#[test]
fn tab_is_ignored_while_locked() {
    let mut state = free_state();
    state.set_capture_mode(true);
    state.drop_mouse = false;
    state.lock();
    assert_eq!(state.handle_event(&Event::KeyDown(Key::Tab), false), Directive::Skip);
    assert!(state.captured());
    assert!(state.locked());
    assert!(!state.drop_mouse);
}

#[test]
fn locked_window_hands_nothing_on() {
    let mut state = free_state();
    assert_eq!(state.handle_event(&Event::KeyDown(Key::L), false), Directive::Lock);
    assert!(state.locked());
    for key in [Key::W, Key::Up, Key::Space, Key::LShift, Key::Q, Key::Other] {
        assert_eq!(state.handle_event(&Event::KeyDown(key), false), Directive::Skip);
        assert_eq!(state.handle_event(&Event::KeyUp(key), false), Directive::Skip);
    }
    assert_eq!(state.handle_event(&Event::Other, false), Directive::Skip);
    assert_eq!(state.poll_mouse(true), MousePoll::Ignore);
    assert_eq!(state.poll_mouse(false), MousePoll::Ignore);
    assert!(state.drop_mouse);
}

#[test]
fn locking_remembers_capture_and_unlocking_restores_it() {
    let mut state = free_state();
    state.set_capture_mode(true);
    state.drop_mouse = false;
    assert_eq!(state.handle_event(&Event::KeyDown(Key::L), false), Directive::Lock);
    assert!(state.locked());
    assert!(state.captured());
    assert!(!state.drop_mouse);
    assert_eq!(state.handle_event(&Event::KeyDown(Key::L), true), Directive::Unlock(true));
    assert!(!state.locked());
    assert!(state.captured());
    assert!(state.drop_mouse);
    assert_eq!(state.poll_mouse(false), MousePoll::Discard);
    assert_eq!(state.poll_mouse(false), MousePoll::Forward);
}

#[test]
fn unlocking_a_free_window_asks_for_no_drop() {
    let mut state = free_state();
    state.drop_mouse = false;
    state.lock();
    assert_eq!(state.handle_event(&Event::KeyDown(Key::L), true), Directive::Unlock(false));
    assert!(!state.locked());
    assert!(!state.captured());
    assert!(!state.drop_mouse);
}

#[test]
fn screenshot_request_records_the_shift_key() {
    let mut state = free_state();
    assert_eq!(state.handle_event(&Event::KeyDown(Key::P), false), Directive::Skip);
    assert_eq!(state.pending_screenshot(), Some(false));
    assert_eq!(state.handle_event(&Event::KeyDown(Key::P), true), Directive::Skip);
    assert_eq!(state.pending_screenshot(), Some(true));
    assert_eq!(state.take_screenshot(), Some(true));
    assert_eq!(state.pending_screenshot(), None);
    assert_eq!(state.take_screenshot(), None);
}

#[test]
fn screenshot_can_be_requested_while_locked() {
    let mut state = free_state();
    state.lock();
    assert_eq!(state.handle_event(&Event::KeyDown(Key::P), true), Directive::Skip);
    assert_eq!(state.pending_screenshot(), Some(true));
    assert!(state.locked());
}

#[test]
fn control_keys_are_not_handed_on_but_other_events_are() {
    let mut state = free_state();
    assert_ne!(state.handle_event(&Event::KeyDown(Key::Tab), false), Directive::Forward);
    assert_ne!(state.handle_event(&Event::KeyDown(Key::P), false), Directive::Forward);
    assert_ne!(state.handle_event(&Event::KeyDown(Key::L), true), Directive::Forward);
    assert_eq!(state.handle_event(&Event::KeyUp(Key::Tab), false), Directive::Forward);
    assert_eq!(state.handle_event(&Event::KeyUp(Key::P), false), Directive::Forward);
    assert_eq!(state.handle_event(&Event::KeyUp(Key::L), false), Directive::Forward);
    assert_eq!(state.handle_event(&Event::KeyDown(Key::W), false), Directive::Forward);
    assert_eq!(state.handle_event(&Event::KeyDown(Key::LShift), true), Directive::Forward);
    assert_eq!(state.handle_event(&Event::KeyDown(Key::Other), false), Directive::Forward);
    assert_eq!(state.handle_event(&Event::Other, false), Directive::Forward);
}

#[test]
fn free_window_hands_the_sample_on_only_while_the_button_is_held() {
    let mut state = free_state();
    state.drop_mouse = false;
    assert_eq!(state.poll_mouse(false), MousePoll::Discard);
    assert_eq!(state.poll_mouse(true), MousePoll::Forward);
    assert_eq!(state.poll_mouse(false), MousePoll::Discard);
}

#[test]
fn free_window_disregards_the_request_to_drop() {
    let mut state = free_state();
    assert!(state.drop_mouse);
    assert_eq!(state.poll_mouse(true), MousePoll::Forward);
    assert!(!state.drop_mouse);
}

#[test]
fn programmatic_lock_and_unlock() {
    let mut state = WindowState::new();
    state.drop_mouse = false;
    state.lock();
    assert!(state.locked());
    assert!(state.captured());
    assert!(!state.drop_mouse);
    assert!(state.unlock());
    assert!(!state.locked());
    assert!(state.captured());
    assert!(state.drop_mouse);
    assert_eq!(state.poll_mouse(false), MousePoll::Discard);
    assert_eq!(state.poll_mouse(false), MousePoll::Forward);
    state.set_capture_mode(false);
    state.lock();
    assert!(!state.drop_mouse);
    assert!(!state.unlock());
    assert!(!state.captured());
    assert!(!state.drop_mouse);
}

#[test]
fn unlocking_a_free_window_keeps_a_pending_drop() {
    let mut state = free_state();
    assert!(state.drop_mouse);
    state.lock();
    assert!(!state.unlock());
    assert!(state.drop_mouse);
}

#[test]
fn capturing_a_free_pointer_by_call_drops_one_sample() {
    let mut state = free_state();
    state.drop_mouse = false;
    state.set_capture_mode(true);
    assert!(state.captured());
    assert!(state.drop_mouse);
    assert_eq!(state.poll_mouse(true), MousePoll::Discard);
    assert_eq!(state.poll_mouse(false), MousePoll::Forward);
}

#[test]
fn setting_the_capture_mode_it_has_changes_nothing() {
    let mut state = free_state();
    state.drop_mouse = false;
    state.set_capture_mode(false);
    assert!(!state.captured());
    assert!(!state.drop_mouse);
    state.set_capture_mode(true);
    state.drop_mouse = false;
    state.set_capture_mode(true);
    assert!(state.captured());
    assert!(!state.drop_mouse);
    state.set_capture_mode(false);
    assert!(!state.captured());
    assert!(!state.drop_mouse);
}

#[test]
fn capturing_while_locked_drops_the_sample_after_the_unlock() {
    let mut state = free_state();
    state.drop_mouse = false;
    state.lock();
    state.set_capture_mode(true);
    assert!(state.drop_mouse);
    assert_eq!(state.poll_mouse(true), MousePoll::Ignore);
    assert!(state.unlock());
    assert_eq!(state.poll_mouse(true), MousePoll::Discard);
    assert_eq!(state.poll_mouse(true), MousePoll::Forward);
}

#[test]
fn getters_give_the_fields() {
    let mut state = WindowState::new();
    assert!(state.drops_next_mouse());
    state.poll_mouse(false);
    assert!(!state.drops_next_mouse());
    assert_eq!(state.drops_next_mouse(), state.drop_mouse);
    let start = state.current_sample();
    assert_eq!(state.previous_sample(), start);
    state.advance(start + Duration::from_millis(7));
    assert_eq!(state.previous_sample(), start);
    assert_eq!(state.current_sample(), start + Duration::from_millis(7));
    assert_eq!(state.previous_sample(), state.previous);
    assert_eq!(state.current_sample(), state.current);
    assert_eq!(state.locked(), state.lock);
    assert_eq!(state.captured(), state.capture);
    state.handle_event(&Event::KeyDown(Key::P), true);
    assert_eq!(state.pending_screenshot(), state.screenshot);
    assert_eq!(state.screenshot, Some(true));
}

#[test]
fn frame_duration_is_the_difference_of_the_two_samples() {
    let mut state = WindowState::new();
    let start = state.current;
    state.advance(start + Duration::from_millis(10));
    assert_eq!(state.previous, start);
    assert_eq!(state.current, start + Duration::from_millis(10));
    assert_eq!(state.frame_duration(), Duration::from_millis(10));
    state.advance(start + Duration::from_millis(25));
    assert_eq!(state.previous, start + Duration::from_millis(10));
    assert_eq!(state.frame_duration(), Duration::from_millis(15));
    state.advance(start + Duration::from_millis(25));
    assert_eq!(state.frame_duration(), Duration::ZERO);
}

#[test]
fn an_earlier_sample_does_not_move_the_clock_back() {
    let mut state = WindowState::new();
    let start = state.current;
    state.advance(start + Duration::from_secs(2));
    state.advance(start + Duration::from_secs(1));
    assert_eq!(state.previous, start + Duration::from_secs(2));
    assert_eq!(state.current, start + Duration::from_secs(2));
    assert_eq!(state.frame_duration(), Duration::ZERO);
}

#[test]
fn frame_duration_of_samples_out_of_order_is_zero() {
    let mut state = WindowState::new();
    state.previous = Duration::from_secs(5);
    state.current = Duration::from_secs(3);
    assert_eq!(state.frame_duration(), Duration::ZERO);
    state.previous = Duration::from_nanos(1);
    state.current = Duration::from_nanos(1_000_000_003);
    assert_eq!(state.frame_duration(), Duration::new(1, 2));
}

#[test]
fn step_frame_moves_the_current_sample_to_the_previous() {
    let mut state = WindowState::new();
    let before = state.current;
    state.step_frame();
    assert_eq!(state.previous, before);
    assert!(state.current >= before);
    assert_eq!(state.frame_duration(), state.current - state.previous);
    assert!(state.captured());
    assert!(state.drop_mouse);
}

#[test]
fn advancing_the_clock_leaves_the_mode_alone() {
    let mut state = free_state();
    state.handle_event(&Event::KeyDown(Key::P), true);
    state.lock();
    state.advance(Duration::from_secs(100));
    assert!(state.locked());
    assert!(!state.captured());
    assert!(state.drop_mouse);
    assert_eq!(state.pending_screenshot(), Some(true));
}
