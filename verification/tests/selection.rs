use reboot_to::action::ChosenAction;
use reboot_to::catalog::{BootTarget, BootTargets};
use reboot_to::selection::{interpret, move_cursor, Intent, KeyCode, KeyEvent, KeyKind, Phase, Selection};

fn catalog(count: u16) -> BootTargets {
    BootTargets {
        targets: (0..count).map(|id| BootTarget { id, name: format!("entry {}", id) }).collect(),
        current: None,
        next: None,
    }
}

fn press(code: KeyCode) -> KeyEvent {
    KeyEvent { code, kind: KeyKind::Press, control: false }
}

fn at(selected: usize) -> Selection<'static> {
    Selection { selected, phase: Phase::Running, action: ChosenAction::Nothing }
}

#[test]
fn a_session_starts_on_the_first_row() {
    let state = Selection::start();
    assert_eq!(state, at(0));
    assert!(state.is_running());
}

#[test]
fn up_from_the_first_row_wraps_to_the_last() {
    let entries = catalog(3);
    let state = Selection::start().on_key(&entries, &press(KeyCode::Up));
    assert_eq!(state, at(2));
}

#[test]
fn down_from_the_last_row_wraps_to_the_first() {
    let entries = catalog(3);
    let state = at(2).on_key(&entries, &press(KeyCode::Down));
    assert_eq!(state, at(0));
}

#[test]
fn down_and_up_move_by_one_row() {
    let entries = catalog(3);
    assert_eq!(at(0).on_key(&entries, &press(KeyCode::Down)), at(1));
    assert_eq!(at(1).on_key(&entries, &press(KeyCode::Down)), at(2));
    assert_eq!(at(2).on_key(&entries, &press(KeyCode::Up)), at(1));
    assert_eq!(at(1).on_key(&entries, &press(KeyCode::Up)), at(0));
}

#[test]
fn home_and_end_jump_to_the_ends() {
    let entries = catalog(5);
    assert_eq!(at(3).on_key(&entries, &press(KeyCode::Home)), at(0));
    assert_eq!(at(1).on_key(&entries, &press(KeyCode::End)), at(4));
    assert_eq!(at(0).on_key(&entries, &press(KeyCode::Home)), at(0));
    assert_eq!(at(4).on_key(&entries, &press(KeyCode::End)), at(4));
}

#[test]
fn moving_in_an_empty_list_stays_at_zero() {
    let entries = catalog(0);
    for code in [KeyCode::Up, KeyCode::Down, KeyCode::Home, KeyCode::End] {
        assert_eq!(Selection::start().on_key(&entries, &press(code)), at(0));
    }
}

#[test]
fn moving_in_a_list_of_one_stays_at_zero() {
    let entries = catalog(1);
    for code in [KeyCode::Up, KeyCode::Down, KeyCode::Home, KeyCode::End] {
        assert_eq!(Selection::start().on_key(&entries, &press(code)), at(0));
    }
}

#[test]
fn move_cursor_gives_the_row() {
    assert_eq!(move_cursor(0, 3, Intent::Up), 2);
    assert_eq!(move_cursor(2, 3, Intent::Down), 0);
    assert_eq!(move_cursor(1, 3, Intent::Down), 2);
    assert_eq!(move_cursor(1, 3, Intent::Up), 0);
    assert_eq!(move_cursor(1, 3, Intent::Home), 0);
    assert_eq!(move_cursor(1, 3, Intent::End), 2);
    assert_eq!(move_cursor(1, 3, Intent::Ignore), 1);
    assert_eq!(move_cursor(7, 3, Intent::Up), 2);
    assert_eq!(move_cursor(7, 3, Intent::Down), 0);
    assert_eq!(move_cursor(usize::MAX, usize::MAX, Intent::Down), 0);
    assert_eq!(move_cursor(0, usize::MAX, Intent::Up), usize::MAX - 1);
    assert_eq!(move_cursor(0, 0, Intent::Up), 0);
    assert_eq!(move_cursor(0, 0, Intent::End), 0);
}

#[test]
fn enter_restarts_into_the_selected_entry() {
    let entries = catalog(3);
    let state = at(1).on_key(&entries, &press(KeyCode::Enter));
    assert_eq!(state.phase, Phase::Acted);
    assert_eq!(state.selected, 1);
    assert_eq!(state.action, ChosenAction::RebootTo(&entries.targets[1]));
    assert!(!state.is_running());
}

#[test]
fn n_marks_the_selected_entry_for_the_next_boot() {
    let entries = catalog(3);
    let state = at(2).on_key(&entries, &press(KeyCode::Char('n')));
    assert_eq!(state.phase, Phase::Acted);
    assert_eq!(state.action, ChosenAction::SetNext(&entries.targets[2]));
}

#[test]
fn acting_on_an_empty_list_ends_without_an_action() {
    let entries = catalog(0);
    for code in [KeyCode::Enter, KeyCode::Char('n')] {
        let state = Selection::start().on_key(&entries, &press(code));
        assert_eq!(state.phase, Phase::Acted);
        assert_eq!(state.action, ChosenAction::Nothing);
    }
}

#[test]
fn acting_with_the_cursor_off_the_list_ends_without_an_action() {
    let entries = catalog(2);
    let state = at(2).on_key(&entries, &press(KeyCode::Enter));
    assert_eq!(state.phase, Phase::Acted);
    assert_eq!(state.action, ChosenAction::Nothing);
}

#[test]
fn quit_keys_end_without_an_action() {
    let entries = catalog(3);
    let control_c = KeyEvent { code: KeyCode::Char('c'), kind: KeyKind::Press, control: true };
    for key in [press(KeyCode::Char('q')), press(KeyCode::Esc), control_c] {
        let state = at(1).on_key(&entries, &key);
        assert_eq!(state.phase, Phase::Quit);
        assert_eq!(state.action, ChosenAction::Nothing);
        assert_eq!(state.selected, 1);
    }
}

#[test]
fn other_keys_change_nothing() {
    let entries = catalog(3);
    for code in [KeyCode::Char('c'), KeyCode::Char('Q'), KeyCode::Char('N'), KeyCode::Char(' '), KeyCode::Other] {
        assert_eq!(at(1).on_key(&entries, &press(code)), at(1));
    }
}

#[test]
fn releases_and_repeats_are_ignored() {
    let entries = catalog(3);
    for kind in [KeyKind::Release, KeyKind::Repeat] {
        for code in [KeyCode::Down, KeyCode::Enter, KeyCode::Esc, KeyCode::Char('q'), KeyCode::Char('n')] {
            let key = KeyEvent { code, kind, control: false };
            assert_eq!(interpret(&key), Intent::Ignore);
            assert_eq!(at(1).on_key(&entries, &key), at(1));
        }
    }
}

#[test]
fn a_finished_selection_takes_no_more_keys() {
    let entries = catalog(3);
    let quit = at(1).on_key(&entries, &press(KeyCode::Esc));
    assert_eq!(quit.on_key(&entries, &press(KeyCode::Enter)), quit);
    assert_eq!(quit.on_key(&entries, &press(KeyCode::Down)), quit);
    let acted = at(1).on_key(&entries, &press(KeyCode::Enter));
    assert_eq!(acted.on_key(&entries, &press(KeyCode::Char('n'))), acted);
    assert_eq!(acted.on_key(&entries, &press(KeyCode::Esc)), acted);
    assert_eq!(acted.on_key(&entries, &press(KeyCode::Up)), acted);
}

#[test]
fn keys_are_interpreted() {
    assert_eq!(interpret(&press(KeyCode::Char('q'))), Intent::Quit);
    assert_eq!(interpret(&press(KeyCode::Esc)), Intent::Quit);
    assert_eq!(interpret(&press(KeyCode::Down)), Intent::Down);
    assert_eq!(interpret(&press(KeyCode::Up)), Intent::Up);
    assert_eq!(interpret(&press(KeyCode::Home)), Intent::Home);
    assert_eq!(interpret(&press(KeyCode::End)), Intent::End);
    assert_eq!(interpret(&press(KeyCode::Enter)), Intent::Reboot);
    assert_eq!(interpret(&press(KeyCode::Char('n'))), Intent::SetNext);
    assert_eq!(interpret(&press(KeyCode::Char('c'))), Intent::Ignore);
    assert_eq!(interpret(&press(KeyCode::Other)), Intent::Ignore);
    let with_control = |c| KeyEvent { code: KeyCode::Char(c), kind: KeyKind::Press, control: true };
    assert_eq!(interpret(&with_control('c')), Intent::Quit);
    assert_eq!(interpret(&with_control('q')), Intent::Quit);
    assert_eq!(interpret(&with_control('n')), Intent::SetNext);
    assert_eq!(interpret(&with_control('x')), Intent::Ignore);
}

#[test]
fn a_walk_through_the_list() {
    let entries = catalog(3);
    let mut state = Selection::start();
    let keys = [KeyCode::Down, KeyCode::Down, KeyCode::Down, KeyCode::Up, KeyCode::Char('x'), KeyCode::End, KeyCode::Up];
    let rows = [1, 2, 0, 2, 2, 2, 1];
    for (code, row) in keys.into_iter().zip(rows) {
        state = state.on_key(&entries, &press(code));
        assert_eq!(state, at(row));
    }
    state = state.apply(&entries, Intent::SetNext);
    assert_eq!(state.action.target(), Some(&entries.targets[1]));
    assert!(!state.action.restarts());
}

#[test]
fn the_cursor_never_leaves_the_list() {
    let intents = [
        Intent::Quit,
        Intent::Down,
        Intent::Up,
        Intent::Home,
        Intent::End,
        Intent::Reboot,
        Intent::SetNext,
        Intent::Ignore,
    ];
    for count in 0..4u16 {
        let entries = catalog(count);
        let mut walks = vec![Selection::start()];
        for _ in 0..4 {
            let mut longer = Vec::new();
            for state in &walks {
                for intent in intents {
                    let next = state.apply(&entries, intent);
                    assert!(next.selected == 0 || next.selected < entries.targets.len());
                    match next.action {
                        ChosenAction::Nothing => {}
                        ChosenAction::RebootTo(target) | ChosenAction::SetNext(target) => {
                            assert_eq!(next.phase, Phase::Acted);
                            assert!(std::ptr::eq(target, &entries.targets[next.selected]));
                        }
                    }
                    if state.phase != Phase::Running {
                        assert_eq!(next, *state);
                    }
                    longer.push(next);
                }
            }
            walks = longer;
        }
    }
}

#[test]
fn down_and_up_cancel_each_other() {
    for count in 1..6usize {
        for row in 0..count {
            let below = move_cursor(row, count, Intent::Down);
            assert_eq!(move_cursor(below, count, Intent::Up), row);
            let above = move_cursor(row, count, Intent::Up);
            assert_eq!(move_cursor(above, count, Intent::Down), row);
        }
    }
}

#[test]
fn the_highlighted_row_is_the_one_under_the_cursor() {
    let entries = catalog(3);
    assert_eq!(at(0).highlighted(&entries), Some(0));
    assert_eq!(at(2).highlighted(&entries), Some(2));
    assert_eq!(at(3).highlighted(&entries), None);
    assert_eq!(Selection::start().highlighted(&catalog(0)), None);
}
