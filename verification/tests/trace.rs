use frame_loop::angle::Angle;
use frame_loop::input::{Key, KeyState};
use frame_loop::machine::{Action, Event, Frame, FrameLoop, LoopState};

const MILLI: u64 = 1_000_000;

fn press(key: Key) -> Event {
    Event::Key { key, state: KeyState::Pressed }
}

fn release(key: Key) -> Event {
    Event::Key { key, state: KeyState::Released }
}

fn tick(delta_nanos: u64) -> Event {
    Event::Tick { delta_nanos }
}

fn draw(units: i128) -> Action {
    Action::Draw(Frame { angle: Angle { units }, vertex_count: 6 })
}

#[test]
fn replay_of_nothing_does_nothing() {
    let mut fl = FrameLoop::new();
    let actions = fl.replay(&[]);
    assert!(actions.is_empty());
    assert_eq!(fl, FrameLoop::new());
}

#[test]
fn replay_gives_one_action_for_each_event() {
    let mut fl = FrameLoop::new();
    let events = [
        press(Key::Right),
        tick(100 * MILLI),
        Event::Other,
        press(Key::Left),
        tick(50 * MILLI),
        release(Key::Right),
        tick(30 * MILLI),
    ];
    let actions = fl.replay(&events);
    assert_eq!(
        actions,
        vec![
            Action::Idle,
            draw(1_100_000_000),
            Action::Idle,
            Action::Idle,
            draw(1_100_000_000),
            Action::Idle,
            draw(1_070_000_000),
        ]
    );
    assert_eq!(fl.angle.units, 1_070_000_000);
    assert_eq!(fl.state, LoopState::Running);
}

#[test]
fn replay_agrees_with_handling_one_by_one() {
    let events = [
        tick(3),
        press(Key::Left),
        tick(16 * MILLI),
        tick(17 * MILLI),
        press(Key::Up),
        release(Key::Left),
        press(Key::Right),
        tick(400 * MILLI),
        press(Key::Escape),
        tick(16 * MILLI),
    ];
    let mut batch = FrameLoop::new();
    let actions = batch.replay(&events);
    let mut single = FrameLoop::new();
    let mut expected = Vec::new();
    for event in events {
        expected.push(single.handle(event));
    }
    assert_eq!(actions, expected);
    assert_eq!(batch, single);
}

#[test]
fn angle_is_time_right_less_time_left() {
    let mut fl = FrameLoop::new();
    let events = [
        press(Key::Right),
        tick(200 * MILLI),
        tick(300 * MILLI),
        press(Key::Left),
        tick(1_000 * MILLI),
        release(Key::Right),
        tick(700 * MILLI),
        tick(50 * MILLI),
        release(Key::Left),
        tick(5_000 * MILLI),
        press(Key::Right),
        tick(1),
    ];
    fl.replay(&events);
    let right: i128 = 200_000_000 + 300_000_000 + 1_000_000_000 + 1;
    let left: i128 = 1_000_000_000 + 700_000_000 + 50_000_000;
    assert_eq!(fl.angle.units, 1_000_000_000 + right - left);
    assert_eq!(fl.angle.units, 750_000_001);
}

#[test]
fn ticks_after_the_stop_do_not_count() {
    let mut fl = FrameLoop::new();
    let events = [
        press(Key::Right),
        tick(250 * MILLI),
        Event::CloseRequested,
        tick(250 * MILLI),
        press(Key::Left),
        tick(250 * MILLI),
    ];
    let actions = fl.replay(&events);
    assert_eq!(
        actions,
        vec![
            Action::Idle,
            draw(1_250_000_000),
            Action::Exit,
            Action::Idle,
            Action::Idle,
            Action::Idle,
        ]
    );
    assert_eq!(fl.angle.units, 1_250_000_000);
    assert_eq!(fl.state, LoopState::Terminated);
    assert!(fl.input.right);
    assert!(!fl.input.left);
}

#[test]
fn exit_comes_exactly_once() {
    let mut fl = FrameLoop::new();
    let events = [
        tick(MILLI),
        press(Key::Escape),
        release(Key::Escape),
        Event::CloseRequested,
        press(Key::Escape),
        tick(MILLI),
    ];
    let actions = fl.replay(&events);
    assert_eq!(actions.len(), events.len());
    let exits = actions.iter().filter(|a| **a == Action::Exit).count();
    assert_eq!(exits, 1);
    assert_eq!(actions[1], Action::Exit);
    for action in &actions[2..] {
        assert_eq!(*action, Action::Idle);
    }
}

#[test]
fn no_stop_means_no_exit() {
    let mut fl = FrameLoop::new();
    let events = [tick(MILLI), press(Key::Other), Event::Other, release(Key::Up), tick(MILLI)];
    let actions = fl.replay(&events);
    assert!(actions.iter().all(|a| *a != Action::Exit));
    assert!(fl.is_running());
}

#[test]
fn idle_ticks_leave_the_loop_as_it_was() {
    let mut fl = FrameLoop::new();
    fl.replay(&[press(Key::Left), tick(123 * MILLI), release(Key::Left), press(Key::Down)]);
    let before = fl;
    let ticks = [tick(1), tick(16 * MILLI), tick(u64::MAX), tick(0)];
    let actions = fl.replay(&ticks);
    assert_eq!(fl, before);
    assert_eq!(actions, vec![draw(877_000_000); 4]);
}

#[test]
fn replay_stops_before_the_angle_leaves_its_range() {
    let mut fl = FrameLoop::new();
    fl.angle = Angle { units: i128::MAX - 100 };
    let events = [press(Key::Right), tick(60), tick(40), tick(1), tick(0), Event::CloseRequested];
    let actions = fl.replay(&events);
    assert_eq!(actions, vec![Action::Idle, draw(i128::MAX - 40), draw(i128::MAX)]);
    assert_eq!(fl.angle.units, i128::MAX);
    assert!(fl.is_running());
    assert!(!fl.can_handle(&events[actions.len()]));
}
