use random_city::game_loop::{handle_event, Control, Event, FrameClock, StepMode, TARGET_TIME_STEP};
use random_city::movement::{Direction, Key, MoveState};

#[test]
fn keys_set_and_clear_flags() {
    let mut s = MoveState::new();
    s.keydown(Key::W);
    s.keydown(Key::D);
    assert_eq!(s, MoveState { forwards: true, backwards: false, left: false, right: true });
    s.keyup(Key::W);
    assert_eq!(s, MoveState { forwards: false, backwards: false, left: false, right: true });
}

#[test]
fn unknown_keys_are_ignored() {
    let mut s = MoveState::new();
    s.keydown(Key::Other);
    s.keydown(Key::Escape);
    assert_eq!(s, MoveState::new());
}

#[test]
fn directions_in_fixed_order() {
    let s = MoveState { forwards: true, backwards: true, left: true, right: true };
    assert_eq!(
        s.directions(),
        vec![Direction::Forward, Direction::Left, Direction::Back, Direction::Right]
    );
    assert!(MoveState::new().directions().is_empty());
    assert_eq!(Direction::Left.unit(), (-1, 0, 0));
    assert_eq!(Direction::Forward.unit(), (0, 0, 1));
    assert_eq!(Direction::Back.unit(), (0, 0, -1));
    assert_eq!(Direction::Right.unit(), (1, 0, 0));
}

#[test]
fn fixed_step_runs_two_ticks_for_two_and_a_half() {
    let mut clock = FrameClock::new(StepMode::Fixed, 1000);
    let elapsed = 2 * TARGET_TIME_STEP + TARGET_TIME_STEP / 2;
    let plan = clock.advance(1000 + elapsed);
    assert_eq!(plan.updates, 2);
    assert_eq!(plan.dt_ns, TARGET_TIME_STEP);
    assert_eq!(clock.frame_time, TARGET_TIME_STEP / 2);
    assert_eq!(plan.sleep_ns, TARGET_TIME_STEP - TARGET_TIME_STEP / 2);
    // the carried half tick completes a tick in the next frame
    let plan = clock.advance(1000 + elapsed + TARGET_TIME_STEP / 2 + 1);
    assert_eq!(plan.updates, 1);
    assert_eq!(clock.frame_time, 0);
}

#[test]
fn fixed_step_short_frame_runs_no_tick() {
    let mut clock = FrameClock::new(StepMode::Fixed, 0);
    let plan = clock.advance(5);
    assert_eq!(plan.updates, 0);
    assert_eq!(clock.frame_time, 5);
    assert_eq!(plan.sleep_ns, TARGET_TIME_STEP - 5);
}

#[test]
fn fixed_step_huge_gap() {
    let mut clock = FrameClock::new(StepMode::Fixed, 0);
    let plan = clock.advance(u64::MAX);
    assert_eq!(plan.updates, u64::MAX / TARGET_TIME_STEP);
    assert_eq!(clock.frame_time, u64::MAX % TARGET_TIME_STEP);
}

#[test]
fn variable_step_updates_once_with_elapsed() {
    let mut clock = FrameClock::new(StepMode::Variable, 100);
    let plan = clock.advance(4100);
    assert_eq!(plan.updates, 1);
    assert_eq!(plan.dt_ns, 4000);
    assert_eq!(plan.sleep_ns, 0);
    let plan = clock.advance(4100);
    assert_eq!(plan.updates, 1);
    assert_eq!(plan.dt_ns, 0);
}

#[test]
fn events_drive_keys_and_loop() {
    let mut s = MoveState::new();
    assert_eq!(handle_event(&mut s, Event::KeyPressed(Key::A)), Control::Continue);
    assert!(s.left);
    assert_eq!(handle_event(&mut s, Event::KeyReleased(Key::A)), Control::Continue);
    assert!(!s.left);
    assert_eq!(handle_event(&mut s, Event::Resized(640, 480)), Control::Resize(640, 480));
    assert_eq!(handle_event(&mut s, Event::KeyPressed(Key::Escape)), Control::Quit);
    assert_eq!(handle_event(&mut s, Event::KeyReleased(Key::Escape)), Control::Quit);
    assert_eq!(handle_event(&mut s, Event::Closed), Control::Quit);
    assert_eq!(handle_event(&mut s, Event::Other), Control::Continue);
    assert_eq!(s, MoveState::new());
}
