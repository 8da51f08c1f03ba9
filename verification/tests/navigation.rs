use navipod::rows::create_table;
use navipod::{Action, App, InputEvent, Key, KeyKind, LoopState, NavigationState, UiSection};

fn press(key: Key) -> InputEvent {
    InputEvent::Key { key, kind: KeyKind::Press }
}

fn app_of(rows: &[usize]) -> App {
    let mut sections = Vec::new();
    for (i, n) in rows.iter().enumerate() {
        sections.push(UiSection::with_rows(4, format!("section-{}", i), create_table(*n)));
    }
    App::with_sections(sections)
}

fn focused_at(app: &App, index: usize) -> App {
    let mut state = NavigationState::new();
    state.select(Some(index));
    App::from_parts(app.items().clone(), state)
}

fn inner(app: &App, i: usize) -> Option<usize> {
    app.items().get(i).unwrap().selected()
}

fn inner_cursors(app: &App) -> Vec<Option<usize>> {
    app.items().sections().iter().map(|s| s.selected()).collect()
}

#[test]
fn stock_dashboard() {
    let app = App::new();
    assert_eq!(app.state().selected(), None);
    assert_eq!(app.items().len(), 2);
    let first = app.items().get(0).unwrap();
    let second = app.items().get(1).unwrap();
    assert_eq!(first.title(), "ReplicaSets");
    assert_eq!(first.height(), 12);
    assert_eq!(first.rows(), &create_table(30));
    assert_eq!(first.selected(), None);
    assert_eq!(second.title(), "Services");
    assert_eq!(second.height(), 8);
    assert_eq!(second.rows(), &create_table(30));
    assert_eq!(second.selected(), None);
}

#[test]
fn default_dashboard_is_the_stock_one() {
    let app = App::default();
    assert_eq!(app.state().selected(), None);
    assert_eq!(app.items().len(), 2);
    assert_eq!(app.items().get(0).unwrap().title(), "ReplicaSets");
    assert_eq!(app.items().get(1).unwrap().title(), "Services");
}

#[test]
fn navigation_state_starts_without_focus() {
    assert_eq!(NavigationState::new().selected(), None);
    assert_eq!(NavigationState::default().selected(), None);
    let mut state = NavigationState::new();
    state.select(Some(3));
    assert_eq!(state.selected(), Some(3));
    state.select(None);
    assert_eq!(state.selected(), None);
}

#[test]
fn navigation_state_wraps() {
    let mut state = NavigationState::new();
    state.next(3);
    assert_eq!(state.selected(), Some(0));
    state.previous(3);
    assert_eq!(state.selected(), Some(2));
    state.next(3);
    assert_eq!(state.selected(), Some(0));
    let mut back = NavigationState::new();
    back.previous(3);
    assert_eq!(back.selected(), Some(2));
    let mut none = NavigationState::new();
    none.next(0);
    none.previous(0);
    assert_eq!(none.selected(), None);
}

#[test]
fn two_sections_scenario() {
    let mut app = app_of(&[3, 1]);
    assert_eq!(app.state().selected(), None);

    assert_eq!(app.handle_event(press(Key::Tab)), LoopState::Running);
    assert_eq!(app.state().selected(), Some(0));

    assert_eq!(app.handle_event(press(Key::Down)), LoopState::Running);
    assert_eq!(inner(&app, 0), Some(0));

    app.handle_event(press(Key::Down));
    assert_eq!(inner(&app, 0), Some(1));
    app.handle_event(press(Key::Down));
    assert_eq!(inner(&app, 0), Some(2));
    app.handle_event(press(Key::Down));
    assert_eq!(inner(&app, 0), Some(0));

    app.handle_event(press(Key::Tab));
    assert_eq!(app.state().selected(), Some(1));
    assert_eq!(inner(&app, 1), None);

    app.handle_event(press(Key::Down));
    assert_eq!(inner(&app, 1), Some(0));
    app.handle_event(press(Key::Down));
    assert_eq!(inner(&app, 1), Some(0));

    assert_eq!(inner(&app, 0), Some(0));
    assert_eq!(app.state().selected(), Some(1));
}

#[test]
fn outer_cursor_wraps_both_ways() {
    let mut app = app_of(&[1, 1, 1]);
    app.outer_next();
    assert_eq!(app.state().selected(), Some(0));
    app.outer_next();
    app.outer_next();
    assert_eq!(app.state().selected(), Some(2));
    app.outer_next();
    assert_eq!(app.state().selected(), Some(0));
    app.outer_previous();
    assert_eq!(app.state().selected(), Some(2));
    app.outer_previous();
    assert_eq!(app.state().selected(), Some(1));
}

#[test]
fn outer_previous_from_no_focus_is_last() {
    let mut app = app_of(&[1, 1, 1]);
    app.outer_previous();
    assert_eq!(app.state().selected(), Some(2));
    let mut by_key = app_of(&[2, 2]);
    by_key.handle_event(press(Key::BackTab));
    assert_eq!(by_key.state().selected(), Some(1));
}

#[test]
fn inner_previous_from_no_selection_is_last() {
    let mut app = app_of(&[4, 2]);
    app.outer_next();
    app.inner_previous();
    assert_eq!(inner(&app, 0), Some(3));
    app.inner_previous();
    assert_eq!(inner(&app, 0), Some(2));
    let mut by_key = app_of(&[4, 2]);
    by_key.handle_event(press(Key::Tab));
    by_key.handle_event(press(Key::Up));
    assert_eq!(inner(&by_key, 0), Some(3));
    by_key.handle_event(press(Key::Char('k')));
    assert_eq!(inner(&by_key, 0), Some(2));
    by_key.handle_event(press(Key::Char('j')));
    assert_eq!(inner(&by_key, 0), Some(3));
}

#[test]
fn outer_cursor_counts_net_steps() {
    for n in 1..=5usize {
        // from no focus, first move forward: counts from just before the first
        let mut app = app_of(&vec![1; n]);
        let mut net: i64 = 0;
        for step in 0..17 {
            if step % 4 == 3 {
                app.outer_previous();
                net -= 1;
            } else {
                app.outer_next();
                net += 1;
            }
            let at = app.state().selected().unwrap();
            assert!(at < n);
            assert_eq!(at, (net - 1).rem_euclid(n as i64) as usize);
        }
        // from no focus, first move backward: counts from the first
        let mut back = app_of(&vec![1; n]);
        let mut net: i64 = 0;
        for step in 0..17 {
            if step % 4 == 1 {
                back.outer_next();
                net += 1;
            } else {
                back.outer_previous();
                net -= 1;
            }
            let at = back.state().selected().unwrap();
            assert!(at < n);
            assert_eq!(at, net.rem_euclid(n as i64) as usize);
        }
        assert_eq!(inner_cursors(&app), vec![None; n]);
    }
}

#[test]
fn inner_cursor_counts_net_steps_in_any_section() {
    let rows = [3usize, 1, 5, 2];
    for focus in 0..rows.len() {
        let mut app = app_of(&rows);
        for _ in 0..=focus {
            app.outer_next();
        }
        assert_eq!(app.state().selected(), Some(focus));
        app.inner_next();
        let mut net: i64 = 0;
        for step in 0..19 {
            if step % 3 == 2 {
                app.inner_next();
                net += 1;
            } else {
                app.inner_previous();
                net -= 1;
            }
            let at = inner(&app, focus).unwrap();
            assert!(at < rows[focus]);
            assert_eq!(at, net.rem_euclid(rows[focus] as i64) as usize);
        }
        for other in 0..rows.len() {
            if other != focus {
                assert_eq!(inner(&app, other), None);
            }
        }
        assert_eq!(app.state().selected(), Some(focus));
    }
}

#[test]
fn inner_moves_in_a_section_without_rows_do_nothing() {
    let mut app = app_of(&[0, 2]);
    app.outer_next();
    assert_eq!(app.state().selected(), Some(0));
    app.inner_next();
    assert_eq!(inner(&app, 0), None);
    app.inner_previous();
    assert_eq!(inner(&app, 0), None);
    assert_eq!(app.handle_event(press(Key::Down)), LoopState::Running);
    assert_eq!(app.handle_event(press(Key::Up)), LoopState::Running);
    assert_eq!(inner_cursors(&app), vec![None, None]);
    assert_eq!(app.state().selected(), Some(0));
}

#[test]
fn inner_moves_without_focus_do_nothing() {
    let mut app = app_of(&[3, 2]);
    app.inner_next();
    app.inner_previous();
    app.handle_event(press(Key::Down));
    app.handle_event(press(Key::Char('j')));
    app.handle_event(press(Key::Up));
    assert_eq!(app.state().selected(), None);
    assert_eq!(inner_cursors(&app), vec![None, None]);
}

#[test]
fn inner_moves_with_focus_beyond_the_sections_do_nothing() {
    let mut app = focused_at(&app_of(&[3, 2]), 2);
    app.inner_next();
    app.inner_previous();
    assert_eq!(app.state().selected(), Some(2));
    assert_eq!(inner_cursors(&app), vec![None, None]);
    let mut far = focused_at(&app, usize::MAX);
    far.inner_next();
    far.inner_previous();
    assert_eq!(far.state().selected(), Some(usize::MAX));
    assert_eq!(inner_cursors(&far), vec![None, None]);
}

#[test]
fn outer_moves_bring_a_focus_beyond_the_sections_back() {
    let mut app = focused_at(&app_of(&[3, 2, 1]), 7);
    app.outer_next();
    assert_eq!(app.state().selected(), Some(2));
    let mut back = focused_at(&app_of(&[3, 2, 1]), 7);
    back.outer_previous();
    assert_eq!(back.state().selected(), Some(0));
}

#[test]
fn dashboard_from_parts_keeps_them() {
    let app = focused_at(&app_of(&[3, 2]), 1);
    assert_eq!(app.state().selected(), Some(1));
    assert_eq!(app.items().len(), 2);
    assert_eq!(app.items().get(0).unwrap().rows(), &create_table(3));
    assert_eq!(app.items().get(1).unwrap().rows(), &create_table(2));
    assert_eq!(inner_cursors(&app), vec![None, None]);
}

#[test]
fn outer_moves_without_sections_do_nothing() {
    let mut app = app_of(&[]);
    app.outer_next();
    assert_eq!(app.state().selected(), None);
    app.outer_previous();
    assert_eq!(app.state().selected(), None);
    app.inner_next();
    app.inner_previous();
    assert_eq!(app.handle_event(press(Key::Tab)), LoopState::Running);
    assert_eq!(app.state().selected(), None);
    assert_eq!(app.items().len(), 0);
}

#[test]
fn outer_moves_leave_inner_cursors_alone() {
    let mut app = app_of(&[3, 4]);
    app.outer_next();
    app.inner_next();
    app.inner_next();
    app.outer_next();
    app.inner_previous();
    assert_eq!(inner_cursors(&app), vec![Some(1), Some(3)]);
    for _ in 0..5 {
        app.outer_next();
        app.outer_previous();
        app.outer_previous();
    }
    assert_eq!(inner_cursors(&app), vec![Some(1), Some(3)]);
}

#[test]
fn navigation_never_alters_sections() {
    let mut app = app_of(&[3, 0, 2]);
    let keys = [Key::Tab, Key::Down, Key::Down, Key::Tab, Key::Up, Key::BackTab, Key::Up, Key::Tab];
    for round in 0..4 {
        for key in keys {
            app.handle_event(press(key));
        }
        assert_eq!(app.items().len(), 3, "round {}", round);
        for (i, n) in [3usize, 0, 2].iter().enumerate() {
            let section = app.items().get(i).unwrap();
            assert_eq!(section.title(), &format!("section-{}", i));
            assert_eq!(section.height(), 4);
            assert_eq!(section.rows(), &create_table(*n));
            match section.selected() {
                Some(row) => assert!(row < *n),
                None => {}
            }
        }
        assert!(app.state().selected().unwrap() < 3);
    }
}

#[test]
fn quit_stops_from_any_state() {
    let mut fresh = app_of(&[3, 1]);
    assert_eq!(fresh.handle_event(press(Key::Char('q'))), LoopState::Stopped);
    assert_eq!(fresh.state().selected(), None);

    let mut moved = app_of(&[3, 1]);
    for key in [Key::Tab, Key::Down, Key::Down, Key::Tab, Key::Up] {
        assert_eq!(moved.handle_event(press(key)), LoopState::Running);
    }
    assert_eq!(moved.handle_event(press(Key::Char('q'))), LoopState::Stopped);
    assert_eq!(moved.state().selected(), Some(1));
    assert_eq!(inner_cursors(&moved), vec![Some(1), Some(0)]);

    let mut empty = app_of(&[]);
    assert_eq!(empty.handle_event(press(Key::Char('q'))), LoopState::Stopped);
    assert_eq!(moved.apply(Action::Quit), LoopState::Stopped);
}

#[test]
fn released_quit_key_does_not_stop() {
    let mut app = app_of(&[3, 1]);
    let release = InputEvent::Key { key: Key::Char('q'), kind: KeyKind::Release };
    let repeat = InputEvent::Key { key: Key::Char('q'), kind: KeyKind::Repeat };
    assert_eq!(app.handle_event(release), LoopState::Running);
    assert_eq!(app.handle_event(repeat), LoopState::Running);
}

#[test]
fn unrecognized_keys_change_nothing() {
    let mut app = app_of(&[3, 2]);
    app.handle_event(press(Key::Tab));
    app.handle_event(press(Key::Down));
    let events = [
        press(Key::Other),
        press(Key::Char('x')),
        press(Key::Char('Q')),
        press(Key::Char(' ')),
        InputEvent::Other,
        InputEvent::Key { key: Key::Tab, kind: KeyKind::Release },
        InputEvent::Key { key: Key::Down, kind: KeyKind::Repeat },
    ];
    for event in events {
        assert_eq!(app.handle_event(event), LoopState::Running);
        assert_eq!(app.state().selected(), Some(0));
        assert_eq!(inner_cursors(&app), vec![Some(0), None]);
    }
    let mut fresh = app_of(&[3, 2]);
    for event in events {
        assert_eq!(fresh.handle_event(event), LoopState::Running);
        assert_eq!(fresh.state().selected(), None);
        assert_eq!(inner_cursors(&fresh), vec![None, None]);
    }
}

#[test]
fn apply_carries_out_each_action() {
    let mut app = app_of(&[2, 2]);
    assert_eq!(app.apply(Action::OuterNext), LoopState::Running);
    assert_eq!(app.state().selected(), Some(0));
    assert_eq!(app.apply(Action::OuterPrevious), LoopState::Running);
    assert_eq!(app.state().selected(), Some(1));
    assert_eq!(app.apply(Action::InnerNext), LoopState::Running);
    assert_eq!(inner(&app, 1), Some(0));
    assert_eq!(app.apply(Action::InnerPrevious), LoopState::Running);
    assert_eq!(inner(&app, 1), Some(1));
    assert_eq!(app.apply(Action::Nothing), LoopState::Running);
    assert_eq!(app.state().selected(), Some(1));
    assert_eq!(inner_cursors(&app), vec![None, Some(1)]);
}
