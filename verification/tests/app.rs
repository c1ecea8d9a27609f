use sysdash::app::{Action, AppState, InputEvent, Key, LoopEvent, Tui};
use sysdash::widget::SelectedTab;

#[test]
fn default_state_is_running_on_main() {
    let t = Tui::default();
    assert_eq!(t.state, AppState::RUNNING);
    assert_eq!(t.selected_tab, SelectedTab::Main);
    assert!(!t.is_clear);
    assert_eq!(t.scroll.offset, 0);
    assert!(t.is_running());
}

#[test]
fn quit_stops_the_running_predicate() {
    let mut t = Tui::default();
    t.handle_key_event(Key::CharQ);
    assert_eq!(t.state, AppState::QUIT);
    assert!(!t.is_running());
}

#[test]
fn update_is_noop_after_quit() {
    let mut t = Tui::default();
    assert!(t.update());
    t.exit();
    assert!(!t.update());
    let before = t;
    let a = t.step(&LoopEvent::Tick);
    assert_eq!(a, Action::Idle);
    assert_eq!(t, before);
    let a = t.step(&LoopEvent::Input(InputEvent::KeyPress(Key::Right)));
    assert_eq!(a, Action::Idle);
    assert_eq!(t, before);
}

#[test]
fn tab_switch_sets_clear_flag_consumed_once() {
    let mut t = Tui::default();
    t.handle_key_event(Key::Tab);
    assert!(t.is_clear);
    let first_tick = t.step(&LoopEvent::Tick);
    assert_eq!(first_tick, Action::Render { clear: true });
    assert!(!t.is_clear);
    let second_tick = t.step(&LoopEvent::Tick);
    assert_eq!(second_tick, Action::Render { clear: false });
}

#[test]
fn left_and_right_always_set_clear_flag() {
    let mut t = Tui::default();
    t.handle_key_event(Key::Right);
    assert!(t.is_clear);
    t.is_clear = false;
    t.handle_key_event(Key::Right);
    assert!(t.is_clear);
    t.is_clear = false;
    t.handle_key_event(Key::Left);
    assert!(t.is_clear);
}

#[test]
fn scroll_keys_are_ignored_outside_process_tab() {
    let mut t = Tui::default();
    t.set_scroll_bounds(80, 30);
    assert_eq!(t.selected_tab, SelectedTab::Main);
    let before = t;
    for key in [Key::Up, Key::Down, Key::UpperG, Key::LowerG] {
        t.handle_key_event(key);
        assert_eq!(t, before);
    }
}

#[test]
fn scroll_keys_act_on_process_tab() {
    let mut t = Tui::default();
    t.set_scroll_bounds(80, 30);
    t.handle_key_event(Key::Tab);
    assert_eq!(t.selected_tab, SelectedTab::Process);
    t.handle_key_event(Key::Down);
    assert_eq!(t.scroll.offset, 1);
    t.handle_key_event(Key::UpperG);
    assert_eq!(t.scroll.offset, 50);
    t.handle_key_event(Key::Up);
    assert_eq!(t.scroll.offset, 49);
    t.handle_key_event(Key::LowerG);
    assert_eq!(t.scroll.offset, 0);
}

#[test]
fn refresh_key_asks_for_new_collaborators() {
    let mut t = Tui::default();
    let before = t;
    let a = t.step(&LoopEvent::Input(InputEvent::KeyPress(Key::CharR)));
    assert_eq!(a, Action::RecreateCollaborators);
    assert_eq!(t, before);
}

#[test]
fn unrecognized_input_is_ignored() {
    let mut t = Tui::default();
    let before = t;
    let a = t.step(&LoopEvent::Input(InputEvent::KeyPress(Key::Other)));
    assert_eq!(a, Action::Idle);
    assert_eq!(t, before);
    let a = t.step(&LoopEvent::Input(InputEvent::Other));
    assert_eq!(a, Action::Idle);
    assert_eq!(t, before);
}

#[test]
fn scenario_tab_scroll_quit() {
    let mut t = Tui::default();
    t.set_scroll_bounds(80, 30);
    assert_eq!(t.selected_tab, SelectedTab::Main);
    assert_eq!(t.scroll.offset, 0);
    assert!(t.is_running());

    let a = t.step(&LoopEvent::Input(InputEvent::KeyPress(Key::Tab)));
    assert_eq!(a, Action::Idle);
    assert_eq!(t.selected_tab, SelectedTab::Process);
    assert!(t.is_clear);

    let a = t.step(&LoopEvent::Tick);
    assert_eq!(a, Action::Render { clear: true });
    assert!(!t.is_clear);

    let a = t.step(&LoopEvent::Input(InputEvent::KeyPress(Key::UpperG)));
    assert_eq!(a, Action::Idle);
    assert_eq!(t.scroll.offset, 50);

    let a = t.step(&LoopEvent::Input(InputEvent::KeyPress(Key::CharQ)));
    assert_eq!(a, Action::Idle);
    assert!(!t.is_running());

    let before = t;
    let a = t.step(&LoopEvent::Tick);
    assert_eq!(a, Action::Idle);
    assert_eq!(t, before);
}

#[test]
fn scenario_two_rapid_presses_before_tick() {
    let mut t = Tui::default();
    let a1 = t.step(&LoopEvent::Input(InputEvent::KeyPress(Key::Right)));
    let a2 = t.step(&LoopEvent::Input(InputEvent::KeyPress(Key::Right)));
    assert_eq!(a1, Action::Idle);
    assert_eq!(a2, Action::Idle);
    assert_eq!(t.selected_tab, SelectedTab::Process);
    let a3 = t.step(&LoopEvent::Tick);
    assert_eq!(a3, Action::Render { clear: true });
    assert_eq!(t.selected_tab, SelectedTab::Process);
}

#[test]
fn input_events_never_render() {
    for key in [
        Key::CharQ,
        Key::CharR,
        Key::Left,
        Key::Right,
        Key::Tab,
        Key::UpperG,
        Key::LowerG,
        Key::Up,
        Key::Down,
        Key::Other,
    ] {
        let mut u = Tui::default();
        u.set_scroll_bounds(80, 30);
        let a = u.step(&LoopEvent::Input(InputEvent::KeyPress(key)));
        assert!(!matches!(a, Action::Render { .. }));
    }
}
