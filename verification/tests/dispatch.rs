use key_dispatch::event::DeadKeyStatus;
use key_dispatch::event::HostOp;
use key_dispatch::event::HostReply;
use key_dispatch::event::KeyConfig;
use key_dispatch::event::KeyEvent;
use key_dispatch::event::PaneInfo;
use key_dispatch::event::RawKeyEvent;
use key_dispatch::event::Verdict;
use key_dispatch::input_map::InputMap;
use key_dispatch::input_map::KeyAssignment;
use key_dispatch::input_map::KeyBinding;
use key_dispatch::input_map::KeyTableEntry;
use key_dispatch::input_map::LeaderBinding;
use key_dispatch::key_table::KeyTableArgs;
use key_dispatch::modifiers::Modifiers;
use key_dispatch::modifiers::ALT;
use key_dispatch::modifiers::CTRL;
use key_dispatch::modifiers::LEADER;
use key_dispatch::modifiers::LEFT_ALT;
use key_dispatch::modifiers::RIGHT_ALT;
use key_dispatch::modifiers::SHIFT;
use key_dispatch::window::TermWindow;
use termwiz::input::KeyCode as KC;
use wezterm_input_types::KeyCode as WK;
use wezterm_input_types::PhysKeyCode;

fn config() -> KeyConfig {
    KeyConfig {
        swap_backspace_and_delete: false,
        send_composed_key_when_left_alt_is_pressed: false,
        send_composed_key_when_right_alt_is_pressed: true,
        allow_win32_input_mode: true,
    }
}

fn pane() -> PaneInfo {
    PaneInfo { active: true, has_modal: false, win32_encoding: false }
}

fn bind(table: Option<&str>, key: WK, bits: u16, action: KeyAssignment) -> KeyBinding {
    KeyBinding {
        table: table.map(|s| s.to_string()),
        key,
        mods: Modifiers::from_bits(bits),
        entry: KeyTableEntry { action },
    }
}

fn leader_map() -> InputMap {
    let mut map = InputMap::new();
    map.leader = Some(LeaderBinding {
        key: WK::Char('a'),
        mods: Modifiers::from_bits(CTRL),
        timeout_milliseconds: 1_000,
    });
    map.bindings.push(bind(None, WK::Char('x'), LEADER, KeyAssignment::Action(5)));
    map.bindings.push(bind(None, WK::Char('q'), CTRL, KeyAssignment::Action(6)));
    map
}

fn args(name: &str) -> KeyTableArgs<'_> {
    KeyTableArgs {
        name,
        timeout_milliseconds: None,
        replace_current: false,
        one_shot: false,
        until_unknown: false,
        prevent_fallback: false,
    }
}

fn down(key: WK, bits: u16) -> KeyEvent {
    KeyEvent { key, modifiers: Modifiers::from_bits(bits), key_is_down: true, win32_input: None }
}

fn up(key: WK, bits: u16) -> KeyEvent {
    KeyEvent { key, modifiers: Modifiers::from_bits(bits), key_is_down: false, win32_input: None }
}

fn raw(key: WK, phys: Option<PhysKeyCode>, raw_code: u32, bits: u16) -> RawKeyEvent {
    RawKeyEvent {
        key,
        modifiers: Modifiers::from_bits(bits),
        phys_code: phys,
        raw_code,
        key_is_down: true,
    }
}

fn none() -> Modifiers {
    Modifiers::none()
}

#[test]
fn a_new_window_is_idle() {
    let mut w = TermWindow::new(config(), InputMap::new());
    assert!(w.is_idle());
    assert_eq!(w.take_ops(), vec![]);
    assert_eq!(w.take_next_frame_time(), None);
    assert!(!w.leader_is_active());
    assert!(!w.leader_is_active_mut());
    assert_eq!(w.current_key_table_name(), None);
    assert_eq!(w.composition_status(), &DeadKeyStatus::NotComposing);
    assert_eq!(w.resume_at(HostReply::Handled, 0), Verdict::Unhandled);
    assert_eq!(w.take_ops(), vec![]);
}

#[test]
fn the_window_and_its_key_tables_read_one_clock() {
    let w = TermWindow::new(config(), InputMap::new());
    assert_eq!(w.key_table_state.clock().origin(), w.clock.origin());
}

#[test]
fn an_overlay_starts_empty_on_the_clock_of_the_window() {
    let mut w = TermWindow::new(config(), InputMap::new());
    assert!(w.overlay.is_none());
    w.open_overlay();
    assert_eq!(w.overlay.as_ref().unwrap().len(), 0);
    assert_eq!(w.overlay.as_ref().unwrap().clock().origin(), w.clock.origin());
    w.overlay.as_mut().unwrap().activate_at(args("copy"), 0);
    w.open_overlay();
    assert_eq!(w.overlay.as_ref().unwrap().len(), 0);
    w.close_overlay();
    assert!(w.overlay.is_none());
    w.close_overlay();
    assert!(w.overlay.is_none());
    assert_eq!(w.take_ops(), vec![]);
}

#[test]
fn a_total_miss_dismisses_through_an_expired_table() {
    let mut w = TermWindow::new(config(), InputMap::new());
    let mut u = args("chooser");
    u.until_unknown = true;
    w.key_table_state.activate_at(u, 0);
    let mut stale = args("stale");
    stale.timeout_milliseconds = Some(100);
    w.key_table_state.activate_at(stale, 0);
    assert_eq!(w.key_event_at(down(WK::Char('k'), 0), pane(), 50), Verdict::Pending);
    assert_eq!(w.key_table_state.len(), 2);
    assert_eq!(w.resume_at(HostReply::Handled, 50), Verdict::Unhandled);
    assert_eq!(w.key_event_at(down(WK::Char('k'), 0), pane(), 150), Verdict::Pending);
    assert_eq!(w.key_table_state.len(), 0);
}

#[test]
fn a_served_key_pops_the_one_shot_table_under_an_expired_one() {
    let mut map = InputMap::new();
    map.bindings.push(bind(None, WK::Char('x'), 0, KeyAssignment::Action(1)));
    let mut w = TermWindow::new(config(), map);
    let mut once = args("once");
    once.one_shot = true;
    w.key_table_state.activate_at(once, 0);
    let mut stale = args("stale");
    stale.timeout_milliseconds = Some(100);
    w.key_table_state.activate_at(stale, 0);
    assert_eq!(w.key_event_at(down(WK::Char('x'), 0), pane(), 200), Verdict::Pending);
    assert_eq!(w.take_ops(), vec![HostOp::Perform(KeyAssignment::Action(1), None)]);
    assert_eq!(w.key_table_state.len(), 0);
}

#[test]
fn composition_status_is_what_was_set() {
    let mut w = TermWindow::new(config(), InputMap::new());
    w.dead_key_status = DeadKeyStatus::Composing("^".to_string());
    assert_eq!(w.composition_status(), &DeadKeyStatus::Composing("^".to_string()));
}

#[test]
fn leader_press_starts_the_leader_and_nothing_else() {
    let mut w = TermWindow::new(config(), leader_map());
    w.key_table_state.activate_at(args("t"), 0);
    let v = w.key_event_at(down(WK::Char('a'), CTRL), pane(), 0);
    assert_eq!(v, Verdict::Handled);
    assert!(w.is_idle());
    assert_eq!(w.take_ops(), vec![HostOp::UpdateTitle, HostOp::InvalidateAt(1_000)]);
    assert_eq!(w.leader_is_down, Some(1_000));
    assert_eq!(w.key_table_state.len(), 1);
    assert!(w.leader_is_active_at(0));
    assert!(w.leader_is_active_at(999));
    assert!(!w.leader_is_active_at(1_000));
}

#[test]
fn leader_expires_and_is_torn_down_once() {
    let mut w = TermWindow::new(config(), leader_map());
    assert_eq!(w.key_event_at(down(WK::Char('a'), CTRL), pane(), 0), Verdict::Handled);
    w.take_ops();
    assert!(w.leader_is_active_mut_at(500));
    assert_eq!(w.take_ops(), vec![]);
    assert_eq!(w.take_next_frame_time(), Some(1_000));
    assert!(!w.leader_is_active_at(1_500));
    assert_eq!(w.take_ops(), vec![HostOp::UpdateTitle, HostOp::Invalidate]);
    assert_eq!(w.leader_is_down, None);
    assert_eq!(w.take_next_frame_time(), None);
    assert!(!w.leader_is_active_at(1_500));
    assert!(!w.leader_is_active_mut_at(1_500));
    assert!(!w.leader_is_active_mut_at(2_000));
    assert_eq!(w.take_ops(), vec![]);
    assert_eq!(w.take_next_frame_time(), None);
}

#[test]
fn either_look_at_the_leader_tears_an_expired_one_down() {
    let mut w = TermWindow::new(config(), leader_map());
    assert_eq!(w.key_event_at(down(WK::Char('a'), CTRL), pane(), 0), Verdict::Handled);
    w.take_ops();
    assert!(!w.leader_is_active_mut_at(1_000));
    assert_eq!(w.take_ops(), vec![HostOp::UpdateTitle, HostOp::Invalidate]);
    assert_eq!(w.leader_is_down, None);
    assert!(!w.leader_is_active_at(1_000));
    assert_eq!(w.take_ops(), vec![]);
}

#[test]
fn looking_at_the_leader_asks_for_a_frame_at_its_deadline() {
    let mut w = TermWindow::new(config(), leader_map());
    assert!(!w.leader_is_active_at(0));
    assert_eq!(w.take_next_frame_time(), None);
    assert_eq!(w.key_event_at(down(WK::Char('a'), CTRL), pane(), 0), Verdict::Handled);
    assert!(w.leader_is_active_at(400));
    assert_eq!(w.take_next_frame_time(), Some(1_000));
    assert_eq!(w.take_ops(), vec![HostOp::UpdateTitle, HostOp::InvalidateAt(1_000)]);
    assert!(!w.leader_is_active_at(1_000));
    assert_eq!(w.take_next_frame_time(), None);
    assert_eq!(w.leader_is_down, None);
    assert_eq!(w.take_ops(), vec![HostOp::UpdateTitle, HostOp::Invalidate]);
}

#[test]
fn leader_release_does_not_start_the_leader() {
    let mut w = TermWindow::new(config(), leader_map());
    let v = w.key_event_at(up(WK::Char('a'), CTRL), pane(), 0);
    assert_eq!(v, Verdict::Pending);
    assert_eq!(w.leader_is_down, None);
    assert_eq!(w.take_ops(), vec![HostOp::PaneKeyUp(KC::Char('a'), Modifiers::from_bits(CTRL))]);
}

#[test]
fn leader_serves_one_binding() {
    let mut w = TermWindow::new(config(), leader_map());
    assert_eq!(w.key_event_at(down(WK::Char('a'), CTRL), pane(), 0), Verdict::Handled);
    w.take_ops();
    assert_eq!(w.key_event_at(down(WK::Char('x'), 0), pane(), 100), Verdict::Pending);
    assert!(!w.is_idle());
    assert_eq!(w.take_ops(), vec![HostOp::Perform(KeyAssignment::Action(5), None)]);
    assert_eq!(w.resume_at(HostReply::Handled, 100), Verdict::Handled);
    assert!(w.is_idle());
    assert_eq!(w.take_ops(), vec![HostOp::Invalidate, HostOp::UpdateTitle, HostOp::Invalidate]);
    assert_eq!(w.leader_is_down, None);
    assert_eq!(w.take_next_frame_time(), Some(1_000));
}

#[test]
fn leader_swallows_an_unbound_key() {
    let mut w = TermWindow::new(config(), leader_map());
    assert_eq!(w.key_event_at(down(WK::Char('a'), CTRL), pane(), 0), Verdict::Handled);
    w.take_ops();
    assert_eq!(w.key_event_at(down(WK::Char('z'), 0), pane(), 100), Verdict::Unhandled);
    assert_eq!(w.take_ops(), vec![HostOp::UpdateTitle, HostOp::Invalidate]);
    assert_eq!(w.leader_is_down, None);
    assert!(w.is_idle());
}

#[test]
fn leader_stays_through_a_modifier_key() {
    let mut w = TermWindow::new(config(), leader_map());
    assert_eq!(w.key_event_at(down(WK::Char('a'), CTRL), pane(), 0), Verdict::Handled);
    w.take_ops();
    assert_eq!(w.key_event_at(down(WK::LeftShift, SHIFT), pane(), 100), Verdict::Pending);
    assert_eq!(w.take_ops(), vec![HostOp::PaneKeyDown(KC::LeftShift, Modifiers::from_bits(SHIFT))]);
    assert_eq!(w.resume_at(HostReply::Handled, 100), Verdict::Unhandled);
    assert_eq!(w.take_ops(), vec![HostOp::ClearCursor]);
    assert_eq!(w.leader_is_down, Some(1_000));
}

#[test]
fn leader_swallows_composed_text() {
    let mut w = TermWindow::new(config(), leader_map());
    assert_eq!(w.key_event_at(down(WK::Char('a'), CTRL), pane(), 0), Verdict::Handled);
    w.take_ops();
    let v = w.key_event_at(down(WK::Composed("ab".to_string()), 0), pane(), 100);
    assert_eq!(v, Verdict::Unhandled);
    assert_eq!(w.take_ops(), vec![HostOp::UpdateTitle, HostOp::Invalidate]);
    assert_eq!(w.leader_is_down, None);
}

#[test]
fn a_failed_action_counts_as_handled() {
    let mut w = TermWindow::new(config(), leader_map());
    assert_eq!(w.key_event_at(down(WK::Char('q'), CTRL), pane(), 0), Verdict::Pending);
    assert_eq!(w.take_ops(), vec![HostOp::Perform(KeyAssignment::Action(6), None)]);
    assert_eq!(w.resume_at(HostReply::Failed, 0), Verdict::Handled);
    assert_eq!(w.take_ops(), vec![HostOp::Invalidate]);
    assert!(w.is_idle());
}

#[test]
fn an_ignored_action_lets_the_key_through() {
    let mut w = TermWindow::new(config(), leader_map());
    assert_eq!(w.key_event_at(down(WK::Char('q'), CTRL), pane(), 0), Verdict::Pending);
    assert_eq!(w.take_ops(), vec![HostOp::Perform(KeyAssignment::Action(6), None)]);
    assert_eq!(w.resume_at(HostReply::Ignored, 0), Verdict::Pending);
    assert_eq!(w.take_ops(), vec![HostOp::PaneKeyDown(KC::Char('q'), Modifiers::from_bits(CTRL))]);
    assert_eq!(w.resume_at(HostReply::Handled, 0), Verdict::Unhandled);
    assert_eq!(
        w.take_ops(),
        vec![HostOp::ScrollToBottom, HostOp::ClearCursor, HostOp::Invalidate]
    );
    assert!(w.is_idle());
}

#[test]
fn an_unbound_key_goes_to_the_pane() {
    let mut w = TermWindow::new(config(), InputMap::new());
    assert_eq!(w.key_event_at(down(WK::Char('\r'), 0), pane(), 0), Verdict::Pending);
    assert_eq!(w.take_ops(), vec![HostOp::PaneKeyDown(KC::Enter, none())]);
    assert_eq!(w.resume_at(HostReply::Handled, 0), Verdict::Unhandled);
    assert_eq!(
        w.take_ops(),
        vec![HostOp::ScrollToBottom, HostOp::ClearCursor, HostOp::Invalidate]
    );
    assert_eq!(w.key_event_at(up(WK::Char('\r'), 0), pane(), 0), Verdict::Pending);
    assert_eq!(w.take_ops(), vec![HostOp::PaneKeyUp(KC::Enter, none())]);
    assert_eq!(w.resume_at(HostReply::Handled, 0), Verdict::Unhandled);
    assert_eq!(w.take_ops(), vec![HostOp::ClearCursor, HostOp::Invalidate]);
}

#[test]
fn a_key_that_the_pane_refuses_has_no_effect() {
    let mut w = TermWindow::new(config(), InputMap::new());
    assert_eq!(w.key_event_at(down(WK::Char('k'), 0), pane(), 0), Verdict::Pending);
    w.take_ops();
    assert_eq!(w.resume_at(HostReply::Failed, 0), Verdict::Unhandled);
    assert_eq!(w.take_ops(), vec![]);
    assert!(w.is_idle());
}

#[test]
fn typing_under_an_overlay_does_not_scroll() {
    let mut w = TermWindow::new(config(), InputMap::new());
    w.open_overlay();
    assert_eq!(w.key_event_at(down(WK::Char('k'), 0), pane(), 0), Verdict::Pending);
    w.take_ops();
    assert_eq!(w.resume_at(HostReply::Handled, 0), Verdict::Unhandled);
    assert_eq!(w.take_ops(), vec![HostOp::ClearCursor, HostOp::Invalidate]);
}

#[test]
fn composed_text_is_written_to_the_pane() {
    let mut w = TermWindow::new(config(), InputMap::new());
    let mut once = args("once");
    once.one_shot = true;
    w.key_table_state.activate_at(once, 0);
    let v = w.key_event_at(down(WK::Composed("n\u{303}o".to_string()), 0), pane(), 0);
    assert_eq!(v, Verdict::Unhandled);
    assert_eq!(
        w.take_ops(),
        vec![
            HostOp::PaneWrite("n\u{303}o".to_string()),
            HostOp::ScrollToBottom,
            HostOp::Invalidate
        ]
    );
    assert_eq!(w.key_table_state.len(), 0);
    assert!(w.is_idle());
}

#[test]
fn composed_text_on_release_is_ignored() {
    let mut w = TermWindow::new(config(), InputMap::new());
    let v = w.key_event_at(up(WK::Composed("ab".to_string()), 0), pane(), 0);
    assert_eq!(v, Verdict::Unhandled);
    assert_eq!(w.take_ops(), vec![]);
}

#[test]
fn an_unrepresentable_key_is_dropped() {
    let mut w = TermWindow::new(config(), InputMap::new());
    assert_eq!(w.key_event_at(down(WK::VoidSymbol, 0), pane(), 0), Verdict::Unhandled);
    assert_eq!(w.key_event_at(down(WK::RawCode(9), 0), pane(), 0), Verdict::Unhandled);
    assert_eq!(w.key_event_at(down(WK::Numpad(12), 0), pane(), 0), Verdict::Unhandled);
    assert_eq!(w.take_ops(), vec![]);
    assert!(w.is_idle());
}

#[test]
fn without_a_pane_nothing_happens() {
    let mut map = InputMap::new();
    map.bindings.push(bind(None, WK::Char('x'), 0, KeyAssignment::Action(1)));
    let mut w = TermWindow::new(config(), map);
    let gone = PaneInfo { active: false, has_modal: false, win32_encoding: false };
    assert_eq!(w.key_event_at(down(WK::Char('x'), 0), gone, 0), Verdict::Unhandled);
    assert_eq!(w.raw_key_event_at(raw(WK::Char('x'), None, 1, 0), gone, 0), Verdict::Unhandled);
    assert_eq!(w.take_ops(), vec![]);
}

#[test]
fn a_raw_event_without_a_pane_still_tears_the_leader_down() {
    let mut w = TermWindow::new(config(), leader_map());
    assert_eq!(w.key_event_at(down(WK::Char('a'), CTRL), pane(), 0), Verdict::Handled);
    w.take_ops();
    let gone = PaneInfo { active: false, has_modal: false, win32_encoding: false };
    assert_eq!(w.key_event_at(down(WK::Char('x'), 0), gone, 2_000), Verdict::Unhandled);
    assert_eq!(w.leader_is_down, Some(1_000));
    assert_eq!(w.raw_key_event_at(raw(WK::Char('x'), None, 1, 0), gone, 2_000), Verdict::Unhandled);
    assert_eq!(w.leader_is_down, None);
    assert_eq!(w.take_ops(), vec![HostOp::UpdateTitle, HostOp::Invalidate]);
}

#[test]
fn until_unknown_tables_leave_after_a_total_miss() {
    let mut w = TermWindow::new(config(), InputMap::new());
    w.key_table_state.activate_at(args("base"), 0);
    let mut u = args("chooser");
    u.until_unknown = true;
    w.key_table_state.activate_at(u, 0);
    assert_eq!(w.raw_key_event_at(raw(WK::Char('k'), Some(PhysKeyCode::K), 45, 0), pane(), 0), Verdict::Unhandled);
    assert_eq!(w.key_table_state.len(), 2);
    assert_eq!(w.key_event_at(up(WK::Char('k'), 0), pane(), 0), Verdict::Pending);
    assert_eq!(w.resume_at(HostReply::Handled, 0), Verdict::Unhandled);
    assert_eq!(w.key_table_state.len(), 2);
    assert_eq!(w.key_event_at(down(WK::Char('k'), 0), pane(), 0), Verdict::Pending);
    assert_eq!(w.key_table_state.len(), 1);
    assert_eq!(w.current_key_table_name_at(0), Some("base".to_string()));
}

#[test]
fn prevent_fallback_handles_the_event_and_sends_no_text() {
    let mut map = InputMap::new();
    map.bindings.push(bind(None, WK::Char('x'), 0, KeyAssignment::Action(1)));
    let mut w = TermWindow::new(config(), map);
    let mut m = args("modal");
    m.prevent_fallback = true;
    w.key_table_state.activate_at(m, 0);
    assert_eq!(w.key_event_at(down(WK::Char('x'), 0), pane(), 0), Verdict::Pending);
    assert_eq!(w.take_ops(), vec![HostOp::Perform(KeyAssignment::Nop, Some("modal".to_string()))]);
    assert_eq!(w.resume_at(HostReply::Handled, 0), Verdict::Handled);
    assert_eq!(w.take_ops(), vec![HostOp::Invalidate]);
    assert_eq!(w.key_table_state.len(), 1);
    assert_eq!(w.current_key_table_name_at(0), Some("modal".to_string()));
    assert!(w.is_idle());
}

#[test]
fn a_one_shot_table_is_gone_once_its_action_is_asked_for() {
    let mut map = InputMap::new();
    map.bindings.push(bind(Some("t"), WK::Char('b'), 0, KeyAssignment::Action(7)));
    let mut w = TermWindow::new(config(), map);
    let mut t = args("t");
    t.one_shot = true;
    w.key_table_state.activate_at(t, 0);
    assert_eq!(w.key_event_at(down(WK::Char('b'), 0), pane(), 0), Verdict::Pending);
    assert_eq!(w.take_ops(), vec![HostOp::Perform(KeyAssignment::Action(7), Some("t".to_string()))]);
    assert_eq!(w.key_table_state.len(), 0);
    assert_eq!(w.resume_at(HostReply::Handled, 0), Verdict::Handled);
    assert_eq!(w.key_table_state.len(), 0);
}

#[test]
fn the_overlay_is_asked_before_the_window() {
    let mut map = InputMap::new();
    map.bindings.push(bind(Some("copy"), WK::Char('y'), 0, KeyAssignment::Action(1)));
    map.bindings.push(bind(Some("win"), WK::Char('y'), 0, KeyAssignment::Action(2)));
    map.bindings.push(bind(Some("win"), WK::Char('w'), 0, KeyAssignment::Action(3)));
    map.bindings.push(bind(None, WK::Char('d'), 0, KeyAssignment::Action(4)));
    let mut w = TermWindow::new(config(), map);
    w.open_overlay();
    w.overlay.as_mut().unwrap().activate_at(args("copy"), 0);
    w.key_table_state.activate_at(args("win"), 0);
    assert_eq!(w.key_event_at(down(WK::Char('y'), 0), pane(), 0), Verdict::Pending);
    assert_eq!(w.take_ops(), vec![HostOp::Perform(KeyAssignment::Action(1), Some("copy".to_string()))]);
    assert_eq!(w.resume_at(HostReply::Handled, 0), Verdict::Handled);
    w.take_ops();
    assert_eq!(w.key_event_at(down(WK::Char('w'), 0), pane(), 0), Verdict::Pending);
    assert_eq!(w.take_ops(), vec![HostOp::Perform(KeyAssignment::Action(3), Some("win".to_string()))]);
    assert_eq!(w.resume_at(HostReply::Handled, 0), Verdict::Handled);
    w.take_ops();
    assert_eq!(w.key_event_at(down(WK::Char('d'), 0), pane(), 0), Verdict::Pending);
    assert_eq!(w.take_ops(), vec![HostOp::Perform(KeyAssignment::Action(4), None)]);
}

#[test]
fn an_action_comes_with_the_name_of_its_table() {
    let mut map = InputMap::new();
    map.bindings.push(bind(Some("copy"), WK::Char('y'), 0, KeyAssignment::Action(1)));
    map.bindings.push(bind(Some("win"), WK::Char('y'), 0, KeyAssignment::Action(2)));
    map.bindings.push(bind(None, WK::Char('y'), 0, KeyAssignment::Action(3)));
    let mut w = TermWindow::new(config(), map);
    assert_eq!(w.key_event_at(down(WK::Char('y'), 0), pane(), 0), Verdict::Pending);
    assert_eq!(w.take_ops(), vec![HostOp::Perform(KeyAssignment::Action(3), None)]);
    assert_eq!(w.resume_at(HostReply::Handled, 0), Verdict::Handled);
    w.take_ops();
    w.key_table_state.activate_at(args("win"), 0);
    assert_eq!(w.key_event_at(down(WK::Char('y'), 0), pane(), 0), Verdict::Pending);
    assert_eq!(
        w.take_ops(),
        vec![HostOp::Perform(KeyAssignment::Action(2), Some("win".to_string()))]
    );
    assert_eq!(w.resume_at(HostReply::Handled, 0), Verdict::Handled);
    w.take_ops();
    w.open_overlay();
    w.overlay.as_mut().unwrap().activate_at(args("copy"), 0);
    let mut timed = args("other");
    timed.timeout_milliseconds = Some(500);
    w.key_table_state.activate_at(timed, 0);
    assert_eq!(w.key_event_at(down(WK::Char('y'), 0), pane(), 600), Verdict::Pending);
    assert_eq!(
        w.take_ops(),
        vec![HostOp::Perform(KeyAssignment::Action(1), Some("copy".to_string()))]
    );
    assert_eq!(w.key_table_state.len(), 1);
    assert_eq!(w.key_table_state.frame(0).unwrap().name(), "win");
    assert_eq!(w.resume_at(HostReply::Handled, 600), Verdict::Handled);
    w.close_overlay();
    w.take_ops();
    assert_eq!(w.key_event_at(down(WK::Char('y'), 0), pane(), 600), Verdict::Pending);
    assert_eq!(
        w.take_ops(),
        vec![HostOp::Perform(KeyAssignment::Action(2), Some("win".to_string()))]
    );
    assert_eq!(w.key_table_state.len(), 1);
}

#[test]
fn a_raw_event_without_binding_dismisses_nothing() {
    let mut w = TermWindow::new(config(), InputMap::new());
    w.key_table_state.activate_at(args("base"), 0);
    let mut u = args("chooser");
    u.until_unknown = true;
    w.key_table_state.activate_at(u, 0);
    let mut stale = args("stale");
    stale.timeout_milliseconds = Some(100);
    w.key_table_state.activate_at(stale, 0);
    let mut released = raw(WK::Char('k'), Some(PhysKeyCode::K), 45, 0);
    released.key_is_down = false;
    assert_eq!(w.raw_key_event_at(released, pane(), 200), Verdict::Unhandled);
    assert_eq!(w.key_table_state.len(), 3);
    let pressed = raw(WK::Char('k'), Some(PhysKeyCode::K), 45, 0);
    assert_eq!(w.raw_key_event_at(pressed, pane(), 200), Verdict::Unhandled);
    assert_eq!(w.key_table_state.len(), 2);
    assert_eq!(w.key_table_state.frame(1).unwrap().name(), "chooser");
    assert_eq!(w.take_ops(), vec![]);
}

#[test]
fn a_raw_event_tries_place_then_code_then_key() {
    let mut map = InputMap::new();
    map.bindings.push(bind(None, WK::Physical(PhysKeyCode::A), 0, KeyAssignment::Action(1)));
    map.bindings.push(bind(None, WK::RawCode(38), 0, KeyAssignment::Action(2)));
    map.bindings.push(bind(None, WK::Char('a'), 0, KeyAssignment::Action(3)));
    let mut w = TermWindow::new(config(), map);
    let ev = raw(WK::Char('a'), Some(PhysKeyCode::A), 38, 0);
    assert_eq!(w.raw_key_event_at(ev.clone(), pane(), 0), Verdict::Pending);
    assert_eq!(w.take_ops(), vec![HostOp::Perform(KeyAssignment::Action(1), None)]);
    assert_eq!(w.resume_at(HostReply::Ignored, 0), Verdict::Pending);
    assert_eq!(w.take_ops(), vec![HostOp::Perform(KeyAssignment::Action(2), None)]);
    assert_eq!(w.resume_at(HostReply::Ignored, 0), Verdict::Pending);
    assert_eq!(w.take_ops(), vec![HostOp::Perform(KeyAssignment::Action(3), None)]);
    assert_eq!(w.resume_at(HostReply::Ignored, 0), Verdict::Unhandled);
    assert_eq!(w.take_ops(), vec![]);
    assert!(w.is_idle());
    assert_eq!(w.raw_key_event_at(ev, pane(), 0), Verdict::Pending);
    assert_eq!(w.resume_at(HostReply::Handled, 0), Verdict::Handled);
    assert_eq!(
        w.take_ops(),
        vec![HostOp::Perform(KeyAssignment::Action(1), None), HostOp::Invalidate]
    );
}

#[test]
fn a_raw_event_without_a_place_starts_with_the_code() {
    let mut map = InputMap::new();
    map.bindings.push(bind(None, WK::Physical(PhysKeyCode::A), 0, KeyAssignment::Action(1)));
    map.bindings.push(bind(None, WK::RawCode(38), 0, KeyAssignment::Action(2)));
    let mut w = TermWindow::new(config(), map);
    assert_eq!(w.raw_key_event_at(raw(WK::Char('a'), None, 38, 0), pane(), 0), Verdict::Pending);
    assert_eq!(w.take_ops(), vec![HostOp::Perform(KeyAssignment::Action(2), None)]);
}

#[test]
fn a_raw_event_does_not_try_the_same_key_twice() {
    let mut map = InputMap::new();
    map.bindings.push(bind(None, WK::RawCode(38), 0, KeyAssignment::Action(2)));
    let mut w = TermWindow::new(config(), map);
    assert_eq!(w.raw_key_event_at(raw(WK::RawCode(38), None, 99, 0), pane(), 0), Verdict::Pending);
    assert_eq!(w.take_ops(), vec![HostOp::Perform(KeyAssignment::Action(2), None)]);
    assert_eq!(w.resume_at(HostReply::Ignored, 0), Verdict::Unhandled);
    assert_eq!(w.take_ops(), vec![]);
    let mut map = InputMap::new();
    map.bindings.push(bind(None, WK::Physical(PhysKeyCode::B), 0, KeyAssignment::Action(4)));
    let mut w = TermWindow::new(config(), map);
    let ev = raw(WK::Physical(PhysKeyCode::B), Some(PhysKeyCode::A), 1, 0);
    assert_eq!(w.raw_key_event_at(ev, pane(), 0), Verdict::Pending);
    assert_eq!(w.resume_at(HostReply::Ignored, 0), Verdict::Unhandled);
    assert_eq!(w.take_ops(), vec![HostOp::Perform(KeyAssignment::Action(4), None)]);
}

#[test]
fn a_raw_event_sends_nothing_to_the_pane() {
    let mut w = TermWindow::new(config(), InputMap::new());
    let v = w.raw_key_event_at(raw(WK::Char('a'), Some(PhysKeyCode::A), 38, LEFT_ALT), pane(), 0);
    assert_eq!(v, Verdict::Unhandled);
    assert_eq!(w.take_ops(), vec![]);
    let mut released = raw(WK::Char('a'), Some(PhysKeyCode::A), 38, 0);
    released.key_is_down = false;
    assert_eq!(w.raw_key_event_at(released, pane(), 0), Verdict::Unhandled);
    assert_eq!(w.take_ops(), vec![]);
}

#[test]
fn a_raw_event_can_start_the_leader() {
    let mut map = InputMap::new();
    map.leader = Some(LeaderBinding {
        key: WK::Physical(PhysKeyCode::Space),
        mods: Modifiers::from_bits(CTRL),
        timeout_milliseconds: 250,
    });
    let mut w = TermWindow::new(config(), map);
    let v = w.raw_key_event_at(raw(WK::Char(' '), Some(PhysKeyCode::Space), 65, CTRL), pane(), 40);
    assert_eq!(v, Verdict::Handled);
    assert_eq!(w.take_ops(), vec![HostOp::UpdateTitle, HostOp::InvalidateAt(290)]);
    assert_eq!(w.leader_is_down, Some(290));
}

#[test]
fn left_alt_sends_the_key_itself() {
    let mut w = TermWindow::new(config(), InputMap::new());
    assert_eq!(w.key_event_at(down(WK::Char('f'), LEFT_ALT | ALT), pane(), 0), Verdict::Pending);
    assert_eq!(w.take_ops(), vec![HostOp::PaneKeyDown(KC::Char('f'), Modifiers::from_bits(ALT))]);
    assert_eq!(w.resume_at(HostReply::Handled, 0), Verdict::Handled);
    assert_eq!(
        w.take_ops(),
        vec![HostOp::ScrollToBottom, HostOp::ClearCursor, HostOp::Invalidate]
    );
    assert!(w.is_idle());
}

#[test]
fn an_alt_key_sent_by_itself_draws_nothing() {
    let mut w = TermWindow::new(config(), InputMap::new());
    assert_eq!(w.key_event_at(down(WK::CapsLock, LEFT_ALT), pane(), 0), Verdict::Pending);
    assert_eq!(w.take_ops(), vec![HostOp::PaneKeyDown(KC::CapsLock, Modifiers::from_bits(ALT))]);
    assert_eq!(w.resume_at(HostReply::Handled, 0), Verdict::Handled);
    assert_eq!(w.take_ops(), vec![HostOp::ClearCursor]);
    assert_eq!(w.key_event_at(down(WK::CapsLock, 0), pane(), 0), Verdict::Pending);
    assert_eq!(w.take_ops(), vec![HostOp::PaneKeyDown(KC::CapsLock, none())]);
    assert_eq!(w.resume_at(HostReply::Handled, 0), Verdict::Unhandled);
    assert_eq!(
        w.take_ops(),
        vec![HostOp::ScrollToBottom, HostOp::ClearCursor, HostOp::Invalidate]
    );
}

#[test]
fn a_refused_bypass_is_passed_on() {
    let mut w = TermWindow::new(config(), InputMap::new());
    let mut u = args("chooser");
    u.until_unknown = true;
    w.key_table_state.activate_at(u, 0);
    assert_eq!(w.key_event_at(down(WK::Char('f'), LEFT_ALT), pane(), 0), Verdict::Pending);
    assert_eq!(w.key_table_state.len(), 1);
    assert_eq!(w.resume_at(HostReply::Failed, 0), Verdict::Pending);
    assert_eq!(w.key_table_state.len(), 0);
    assert_eq!(
        w.take_ops(),
        vec![
            HostOp::PaneKeyDown(KC::Char('f'), Modifiers::from_bits(ALT)),
            HostOp::PaneKeyDown(KC::Char('f'), Modifiers::from_bits(ALT))
        ]
    );
    assert_eq!(w.resume_at(HostReply::Failed, 0), Verdict::Unhandled);
    assert_eq!(w.take_ops(), vec![]);
}

#[test]
fn right_alt_composes_where_the_setting_says_so() {
    let mut w = TermWindow::new(config(), InputMap::new());
    assert_eq!(w.key_event_at(down(WK::Char('f'), RIGHT_ALT), pane(), 0), Verdict::Pending);
    assert_eq!(w.take_ops(), vec![HostOp::PaneKeyDown(KC::Char('f'), none())]);
    assert_eq!(w.resume_at(HostReply::Handled, 0), Verdict::Unhandled);
    let mut c = config();
    c.send_composed_key_when_right_alt_is_pressed = false;
    let mut w = TermWindow::new(c, InputMap::new());
    assert_eq!(w.key_event_at(down(WK::Char('f'), RIGHT_ALT), pane(), 0), Verdict::Pending);
    assert_eq!(w.resume_at(HostReply::Handled, 0), Verdict::Handled);
}

#[test]
fn unsided_alt_composes_unless_both_settings_are_off() {
    let mut w = TermWindow::new(config(), InputMap::new());
    assert_eq!(w.key_event_at(down(WK::Char('f'), ALT), pane(), 0), Verdict::Pending);
    assert_eq!(w.resume_at(HostReply::Handled, 0), Verdict::Unhandled);
    let mut c = config();
    c.send_composed_key_when_right_alt_is_pressed = false;
    let mut w = TermWindow::new(c, InputMap::new());
    assert_eq!(w.key_event_at(down(WK::Char('f'), ALT), pane(), 0), Verdict::Pending);
    assert_eq!(w.resume_at(HostReply::Handled, 0), Verdict::Handled);
    c.send_composed_key_when_left_alt_is_pressed = true;
    let mut w = TermWindow::new(c, InputMap::new());
    assert_eq!(w.key_event_at(down(WK::Char('f'), ALT), pane(), 0), Verdict::Pending);
    assert_eq!(w.resume_at(HostReply::Handled, 0), Verdict::Unhandled);
    assert_eq!(w.key_event_at(down(WK::Char('f'), ALT | LEFT_ALT), pane(), 0), Verdict::Pending);
    assert_eq!(w.resume_at(HostReply::Handled, 0), Verdict::Unhandled);
}

#[test]
fn a_bypass_of_composed_text_does_not_apply() {
    let mut w = TermWindow::new(config(), InputMap::new());
    let v = w.key_event_at(down(WK::Composed("ab".to_string()), LEFT_ALT), pane(), 0);
    assert_eq!(v, Verdict::Unhandled);
    assert_eq!(
        w.take_ops(),
        vec![HostOp::PaneWrite("ab".to_string()), HostOp::ScrollToBottom, HostOp::Invalidate]
    );
}

#[test]
fn a_modal_takes_key_presses_only() {
    let modal = PaneInfo { active: true, has_modal: true, win32_encoding: false };
    let mut w = TermWindow::new(config(), InputMap::new());
    assert_eq!(w.key_event_at(down(WK::Char('j'), 0), modal, 0), Verdict::Unhandled);
    assert_eq!(w.take_ops(), vec![HostOp::ModalKeyDown(KC::Char('j'), none())]);
    assert!(w.is_idle());
    assert_eq!(w.key_event_at(up(WK::Char('j'), 0), modal, 0), Verdict::Unhandled);
    assert_eq!(w.take_ops(), vec![]);
    assert_eq!(w.key_event_at(down(WK::Char('j'), LEFT_ALT), modal, 0), Verdict::Pending);
    assert_eq!(w.take_ops(), vec![HostOp::ModalKeyDown(KC::Char('j'), Modifiers::from_bits(ALT))]);
    assert_eq!(w.resume_at(HostReply::Handled, 0), Verdict::Handled);
    assert_eq!(w.take_ops(), vec![]);
    assert_eq!(w.key_event_at(down(WK::Char('j'), LEFT_ALT), modal, 0), Verdict::Pending);
    w.take_ops();
    assert_eq!(w.resume_at(HostReply::Failed, 0), Verdict::Unhandled);
    assert_eq!(w.take_ops(), vec![HostOp::ModalKeyDown(KC::Char('j'), Modifiers::from_bits(ALT))]);
    assert_eq!(w.key_event_at(up(WK::Char('j'), LEFT_ALT), modal, 0), Verdict::Unhandled);
    assert_eq!(w.take_ops(), vec![]);
}

#[test]
fn win32_input_is_written_where_pane_and_setting_agree() {
    let win32 = PaneInfo { active: true, has_modal: false, win32_encoding: true };
    let mut ev = down(WK::Char('a'), 0);
    ev.win32_input = Some("\u{1b}[65;30;97;1;0;1_".to_string());
    let mut w = TermWindow::new(config(), InputMap::new());
    assert_eq!(w.key_event_at(ev.clone(), win32, 0), Verdict::Pending);
    assert_eq!(w.take_ops(), vec![HostOp::PaneWrite("\u{1b}[65;30;97;1;0;1_".to_string())]);
    assert_eq!(w.resume_at(HostReply::Handled, 0), Verdict::Unhandled);
    assert_eq!(
        w.take_ops(),
        vec![HostOp::ScrollToBottom, HostOp::ClearCursor, HostOp::Invalidate]
    );
    assert_eq!(w.key_event_at(ev.clone(), pane(), 0), Verdict::Pending);
    assert_eq!(w.take_ops(), vec![HostOp::PaneKeyDown(KC::Char('a'), none())]);
    w.resume_at(HostReply::Handled, 0);
    let mut c = config();
    c.allow_win32_input_mode = false;
    let mut w = TermWindow::new(c, InputMap::new());
    assert_eq!(w.key_event_at(ev, win32, 0), Verdict::Pending);
    assert_eq!(w.take_ops(), vec![HostOp::PaneKeyDown(KC::Char('a'), none())]);
}

#[test]
fn the_table_name_asks_for_a_frame_at_its_deadline() {
    let mut w = TermWindow::new(config(), InputMap::new());
    let mut t = args("resize");
    t.timeout_milliseconds = Some(700);
    w.key_table_state.activate_at(args("base"), 0);
    w.key_table_state.activate_at(t, 100);
    assert_eq!(w.current_key_table_name_at(200), Some("resize".to_string()));
    assert_eq!(w.take_next_frame_time(), Some(800));
    assert_eq!(w.current_key_table_name_at(800), Some("base".to_string()));
    assert_eq!(w.take_next_frame_time(), None);
    assert_eq!(w.key_table_state.len(), 1);
}

#[test]
fn the_earliest_wake_time_is_kept() {
    let mut w = TermWindow::new(config(), leader_map());
    let mut t = args("resize");
    t.timeout_milliseconds = Some(300);
    w.key_table_state.activate_at(t, 0);
    assert_eq!(w.key_event_at(down(WK::Char('a'), CTRL), pane(), 0), Verdict::Handled);
    assert!(w.leader_is_active_mut_at(10));
    assert_eq!(w.current_key_table_name_at(10), Some("resize".to_string()));
    assert!(w.leader_is_active_mut_at(10));
    assert_eq!(w.take_next_frame_time(), Some(300));
}

#[test]
fn the_clock_drives_the_entry_points() {
    let mut w = TermWindow::new(config(), leader_map());
    assert_eq!(w.key_event_impl(down(WK::Char('a'), CTRL), pane()), Verdict::Handled);
    assert!(w.leader_is_active());
    assert!(w.leader_is_active_mut());
    assert_eq!(w.key_event_impl(down(WK::Char('x'), 0), pane()), Verdict::Pending);
    assert_eq!(w.resume(HostReply::Handled), Verdict::Handled);
    assert!(!w.leader_is_active());
    let ev = raw(WK::Char('q'), None, 24, CTRL);
    assert_eq!(w.raw_key_event_impl(ev, pane()), Verdict::Pending);
    assert_eq!(w.resume(HostReply::Ignored), Verdict::Unhandled);
    w.key_table_state.activate_at(args("t"), 0);
    assert_eq!(w.current_key_table_name(), Some("t".to_string()));
}
