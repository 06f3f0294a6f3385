use leafwing_input_manager::{ActionState, Actionlike, Duration, Instant, VirtualButtonState};

#[derive(Clone, Copy, PartialEq, Eq, Hash, Debug)]
enum Action {
    Run,
    Jump,
    Hide,
}

impl Actionlike for Action {
    fn count() -> usize {
        3
    }

    fn index(&self) -> usize {
        match self {
            Action::Run => 0,
            Action::Jump => 1,
            Action::Hide => 2,
        }
    }

    fn from_index(i: usize) -> Self {
        match i {
            0 => Action::Run,
            1 => Action::Jump,
            _ => Action::Hide,
        }
    }
}

fn sorted(mut v: Vec<Action>) -> Vec<Action> {
    v.sort_by_key(|a| a.index());
    v
}

#[test]
fn press_lifecycle() {
    let mut action_state = ActionState::<Action>::default();

    // Starting state
    action_state.update(&[]);

    assert!(!action_state.pressed(Action::Run));
    assert!(!action_state.just_pressed(Action::Run));
    assert!(action_state.released(Action::Run));
    assert!(action_state.just_released(Action::Run));

    // Pressing
    action_state.update(&[Action::Run]);

    assert!(action_state.pressed(Action::Run));
    assert!(action_state.just_pressed(Action::Run));
    assert!(!action_state.released(Action::Run));
    assert!(!action_state.just_released(Action::Run));

    // Waiting
    action_state.tick(Instant::from_nanos(1_000));
    action_state.update(&[Action::Run]);

    assert!(action_state.pressed(Action::Run));
    assert!(!action_state.just_pressed(Action::Run));
    assert!(!action_state.released(Action::Run));
    assert!(!action_state.just_released(Action::Run));

    // Releasing
    action_state.update(&[]);
    assert!(!action_state.pressed(Action::Run));
    assert!(!action_state.just_pressed(Action::Run));
    assert!(action_state.released(Action::Run));
    assert!(action_state.just_released(Action::Run));

    // Waiting
    action_state.tick(Instant::from_nanos(2_000));
    action_state.update(&[]);

    assert!(!action_state.pressed(Action::Run));
    assert!(!action_state.just_pressed(Action::Run));
    assert!(action_state.released(Action::Run));
    assert!(!action_state.just_released(Action::Run));
}

#[test]
fn durations() {
    let mut action_state = ActionState::<Action>::default();

    // Virtual buttons start released
    assert!(action_state.state(Action::Jump).released());
    assert_eq!(action_state.state(Action::Jump).instant_started(), None);
    assert_eq!(action_state.state(Action::Jump).current_duration(), Duration::zero());
    assert_eq!(action_state.state(Action::Jump).previous_duration(), Duration::zero());

    // Pressing a button swaps the state
    action_state.press(Action::Jump);
    assert!(action_state.state(Action::Jump).pressed());
    assert_eq!(action_state.state(Action::Jump).instant_started(), None);
    assert_eq!(action_state.state(Action::Jump).current_duration(), Duration::zero());
    assert_eq!(action_state.state(Action::Jump).previous_duration(), Duration::zero());

    // Ticking time sets the instant for the new state
    let t0 = Instant::from_nanos(5_000_000);
    action_state.tick(t0);
    assert_eq!(action_state.state(Action::Jump).instant_started(), Some(t0));
    assert_eq!(action_state.state(Action::Jump).current_duration(), Duration::zero());
    assert_eq!(action_state.state(Action::Jump).previous_duration(), Duration::zero());

    // Time passes
    let t1 = Instant::from_nanos(5_001_000);

    // The duration is updated
    action_state.tick(t1);
    assert_eq!(action_state.state(Action::Jump).instant_started(), Some(t0));
    assert_eq!(action_state.state(Action::Jump).current_duration(), t1.saturating_duration_since(t0));
    assert_eq!(action_state.state(Action::Jump).previous_duration(), Duration::zero());

    // Releasing again, swapping the current duration to the previous one
    action_state.release(Action::Jump);
    assert_eq!(action_state.state(Action::Jump).instant_started(), None);
    assert_eq!(action_state.state(Action::Jump).current_duration(), Duration::zero());
    assert_eq!(action_state.state(Action::Jump).previous_duration(), t1.saturating_duration_since(t0));
}

#[test]
fn never_pressed_actions_are_released_and_untimed() {
    let action_state = ActionState::<Action>::default();
    for a in [Action::Run, Action::Jump, Action::Hide] {
        assert!(action_state.released(a));
        assert!(action_state.just_released(a));
        assert!(!action_state.pressed(a));
        assert_eq!(action_state.state(a), VirtualButtonState::default());
        assert_eq!(action_state.state(a).current_duration().as_nanos(), 0);
        assert_eq!(action_state.state(a).previous_duration().as_nanos(), 0);
        assert_eq!(action_state.state(a).instant_started(), None);
    }
}

#[test]
fn first_tick_ends_just_released() {
    let mut action_state = ActionState::<Action>::default();
    action_state.tick(Instant::from_nanos(10));
    assert!(action_state.released(Action::Hide));
    assert!(!action_state.just_released(Action::Hide));
    assert_eq!(action_state.state(Action::Hide).instant_started(), Some(Instant::from_nanos(10)));
}

#[test]
fn press_carries_current_duration_to_previous() {
    let mut action_state = ActionState::<Action>::default();
    action_state.tick(Instant::from_nanos(100));
    action_state.tick(Instant::from_nanos(350));
    assert_eq!(action_state.state(Action::Run).current_duration(), Duration::from_nanos(250));
    action_state.press(Action::Run);
    assert!(action_state.pressed(Action::Run));
    assert!(action_state.just_pressed(Action::Run));
    assert_eq!(action_state.state(Action::Run).instant_started(), None);
    assert_eq!(action_state.state(Action::Run).current_duration(), Duration::zero());
    assert_eq!(action_state.state(Action::Run).previous_duration(), Duration::from_nanos(250));
}

#[test]
fn press_and_release_are_idempotent() {
    let mut action_state = ActionState::<Action>::default();
    action_state.press(Action::Jump);
    action_state.tick(Instant::from_nanos(7));
    action_state.tick(Instant::from_nanos(19));
    let before = action_state.clone();
    action_state.press(Action::Jump);
    assert_eq!(action_state, before);
    action_state.release(Action::Run);
    assert_eq!(action_state, before);
}

#[test]
fn update_with_the_pressed_set_changes_nothing() {
    let mut action_state = ActionState::<Action>::default();
    action_state.press(Action::Jump);
    action_state.press(Action::Hide);
    action_state.tick(Instant::from_nanos(40));
    action_state.tick(Instant::from_nanos(90));
    let before = action_state.clone();
    let pressed = action_state.get_pressed();
    action_state.update(&pressed);
    assert_eq!(action_state, before);
}

#[test]
fn run_and_jump_scenario() {
    let mut action_state = ActionState::<Action>::default();
    action_state.press(Action::Jump);
    assert!(action_state.just_pressed(Action::Jump));
    let t0 = Instant::from_nanos(1_000_000);
    action_state.tick(t0);
    assert!(!action_state.just_pressed(Action::Jump));
    assert!(action_state.pressed(Action::Jump));
    let t1 = Instant::from_nanos(1_016_000);
    action_state.tick(t1);
    assert_eq!(action_state.state(Action::Jump).current_duration(), Duration::from_nanos(16_000));
    action_state.release(Action::Jump);
    assert!(action_state.just_released(Action::Jump));
    assert_eq!(action_state.state(Action::Jump).previous_duration(), Duration::from_nanos(16_000));
    assert_eq!(action_state.state(Action::Jump).current_duration(), Duration::zero());
    assert!(action_state.released(Action::Run));
}

#[test]
fn tick_before_the_recorded_start_gives_zero() {
    let mut action_state = ActionState::<Action>::default();
    action_state.tick(Instant::from_nanos(500));
    action_state.tick(Instant::from_nanos(200));
    assert_eq!(action_state.state(Action::Run).current_duration(), Duration::zero());
    assert_eq!(action_state.state(Action::Run).instant_started(), Some(Instant::from_nanos(500)));
}

#[test]
fn batch_queries() {
    let mut action_state = ActionState::<Action>::default();
    assert_eq!(sorted(action_state.get_just_released()), vec![Action::Run, Action::Jump, Action::Hide]);
    assert!(action_state.get_pressed().is_empty());
    action_state.tick(Instant::from_nanos(1));
    action_state.update(&[Action::Hide, Action::Run, Action::Hide]);
    assert_eq!(sorted(action_state.get_pressed()), vec![Action::Run, Action::Hide]);
    assert_eq!(sorted(action_state.get_just_pressed()), vec![Action::Run, Action::Hide]);
    assert_eq!(action_state.get_released(), vec![Action::Jump]);
    assert!(action_state.get_just_released().is_empty());
    action_state.release_all();
    assert_eq!(sorted(action_state.get_just_released()), vec![Action::Run, Action::Hide]);
    assert_eq!(sorted(action_state.get_released()), vec![Action::Run, Action::Jump, Action::Hide]);
    let again = action_state.clone();
    action_state.release_all();
    assert_eq!(action_state, again);
}

#[test]
fn set_state_moves_timing() {
    let mut source = ActionState::<Action>::default();
    source.press(Action::Run);
    source.tick(Instant::from_nanos(3));
    source.tick(Instant::from_nanos(10));
    let moved = source.state(Action::Run);
    let mut target = ActionState::<Action>::default();
    target.set_state(Action::Hide, moved);
    assert_eq!(target.state(Action::Hide), moved);
    assert_eq!(target.state(Action::Hide).current_duration(), Duration::from_nanos(7));
    assert!(target.released(Action::Run));
}

#[test]
fn default_map_has_one_entry_per_action() {
    let map: Vec<u32> = ActionState::<Action>::default_map();
    assert_eq!(map, vec![0, 0, 0]);
}

#[test]
fn press_and_release_leave_other_actions_alone() {
    let mut action_state = ActionState::<Action>::default();
    action_state.tick(Instant::from_nanos(4));
    let run_before = action_state.state(Action::Run);
    let hide_before = action_state.state(Action::Hide);
    action_state.press(Action::Jump);
    assert_eq!(action_state.state(Action::Run), run_before);
    assert_eq!(action_state.state(Action::Hide), hide_before);
    action_state.release(Action::Jump);
    assert_eq!(action_state.state(Action::Run), run_before);
    assert_eq!(action_state.state(Action::Hide), hide_before);
    assert!(action_state.just_released(Action::Jump));
}

#[test]
fn tick_keeps_the_pressed_and_released_lists() {
    let mut action_state = ActionState::<Action>::default();
    action_state.update(&[Action::Jump]);
    let pressed = action_state.get_pressed();
    let released = action_state.get_released();
    action_state.tick(Instant::from_nanos(12));
    assert_eq!(action_state.get_pressed(), pressed);
    assert_eq!(action_state.get_released(), released);
    assert!(action_state.get_just_pressed().is_empty());
    assert!(action_state.get_just_released().is_empty());
}

#[test]
fn never_pressed_action_stays_released_over_ticks_and_releases() {
    let mut action_state = ActionState::<Action>::default();
    action_state.tick(Instant::from_nanos(1));
    action_state.release(Action::Hide);
    action_state.press(Action::Run);
    action_state.tick(Instant::from_nanos(9));
    action_state.release_all();
    assert!(action_state.released(Action::Hide));
    assert!(!action_state.just_released(Action::Hide));
    assert_eq!(action_state.state(Action::Hide).previous_duration(), Duration::zero());
    assert_eq!(action_state.state(Action::Hide).current_duration(), Duration::from_nanos(8));
}
