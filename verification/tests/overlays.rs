use dealve::app::App;
use dealve::cursor::Delta;
use dealve::dispatch::Action;
use dealve::key::{Key, KeyEvent, KeyEventKind};
use dealve::overlay::{menu_entry, MenuEntry, Overlay, OverlayKind, MENU_LEN};
use dealve::state::Command;

fn app() -> App<&'static str, u32> {
    let mut app: App<&'static str, u32> = App::new(
        vec![None, Some(61), Some(35)],
        vec![vec![false, true, false], vec![true], Vec::new()],
    );
    app.set_items(vec!["a", "b", "c"], 0);
    app.move_selection(Delta::Forward, 1);
    app
}

#[test]
fn menu_has_four_entries() {
    assert_eq!(MENU_LEN, 4);
    assert_eq!(menu_entry(0), Some(MenuEntry::Refresh));
    assert_eq!(menu_entry(1), Some(MenuEntry::Options));
    assert_eq!(menu_entry(2), Some(MenuEntry::Keybinds));
    assert_eq!(menu_entry(3), Some(MenuEntry::Quit));
    assert_eq!(menu_entry(4), None);
    assert_eq!(menu_entry(usize::MAX), None);
}

#[test]
fn escape_from_menu_commits_nothing() {
    let mut app = app();
    let selected = app.selected_index();
    assert_eq!(app.on_key(Key::Esc, 10), Command::Nothing);
    assert_eq!(*app.overlay(), Overlay::Menu { cursor: 0 });
    assert_eq!(app.on_key(Key::Down, 11), Command::Nothing);
    assert_eq!(app.on_key(Key::Down, 12), Command::Nothing);
    assert_eq!(*app.overlay(), Overlay::Menu { cursor: 2 });
    assert_eq!(app.on_key(Key::Esc, 13), Command::Nothing);
    assert_eq!(*app.overlay(), Overlay::Closed);
    assert_eq!(app.overlay_kind(), OverlayKind::Closed);
    assert_eq!(app.selected_index(), selected);
    assert!(!app.should_quit());
    assert_eq!(app.filter(), None);
}

#[test]
fn menu_cursor_clamps_at_both_ends() {
    let mut app = app();
    app.open_overlay(OverlayKind::Menu);
    app.move_cursor(Delta::Backward);
    assert_eq!(*app.overlay(), Overlay::Menu { cursor: 0 });
    for _ in 0..10 {
        app.move_cursor(Delta::Forward);
    }
    assert_eq!(*app.overlay(), Overlay::Menu { cursor: 3 });
    app.move_cursor(Delta::Backward);
    assert_eq!(*app.overlay(), Overlay::Menu { cursor: 2 });
}

#[test]
fn menu_keys_do_not_reach_the_list() {
    let mut app = app();
    let before = app.debounce();
    app.on_key(Key::Esc, 100);
    app.on_key(Key::Char('j'), 101);
    app.on_key(Key::Char('k'), 102);
    app.on_key(Key::Char('r'), 103);
    app.on_key(Key::Char('p'), 104);
    assert_eq!(app.selected_index(), 1);
    assert_eq!(app.debounce(), before);
    assert_eq!(app.overlay_kind(), OverlayKind::Menu);
}

#[test]
fn menu_refresh_asks_for_the_list_with_the_filter_in_force() {
    let mut app = app();
    app.on_key(Key::Char('p'), 5);
    app.on_key(Key::Down, 6);
    assert_eq!(app.on_key(Key::Enter, 7), Command::FetchList { shop_id: Some(61) });
    app.on_key(Key::Esc, 10);
    assert_eq!(app.on_key(Key::Enter, 11), Command::FetchList { shop_id: Some(61) });
    assert_eq!(*app.overlay(), Overlay::Closed);
}

#[test]
fn menu_opens_options_panel() {
    let mut app = app();
    app.on_key(Key::Esc, 10);
    app.on_key(Key::Down, 11);
    assert_eq!(app.on_key(Key::Enter, 12), Command::Nothing);
    assert_eq!(*app.overlay(), Overlay::Options { active_tab: 0, cursors: vec![0, 0, 0] });
}

#[test]
fn menu_opens_keybinds_popup() {
    let mut app = app();
    app.on_key(Key::Esc, 10);
    app.on_key(Key::Down, 11);
    app.on_key(Key::Down, 12);
    assert_eq!(app.on_key(Key::Enter, 13), Command::Nothing);
    assert_eq!(*app.overlay(), Overlay::Keybinds);
}

#[test]
fn menu_quit_sets_the_flag_for_good() {
    let mut app = app();
    app.on_key(Key::Esc, 10);
    app.on_key(Key::Up, 11);
    for now in 12..20 {
        app.on_key(Key::Down, now);
    }
    assert_eq!(app.on_key(Key::Enter, 20), Command::Nothing);
    assert!(app.should_quit());
    assert_eq!(*app.overlay(), Overlay::Closed);
    app.on_key(Key::Down, 21);
    app.on_key(Key::Esc, 22);
    app.on_key(Key::Esc, 23);
    app.set_items(vec!["z"], 24);
    assert!(app.should_quit());
}

#[test]
fn commit_menu_without_menu_does_nothing() {
    let mut app = app();
    assert_eq!(app.commit_menu(), Command::Nothing);
    assert_eq!(*app.overlay(), Overlay::Closed);
    app.open_overlay(OverlayKind::Keybinds);
    assert_eq!(app.apply(Action::CommitMenu, 0), Command::Nothing);
    assert_eq!(*app.overlay(), Overlay::Keybinds);
    assert!(!app.should_quit());
}

#[test]
fn opening_replaces_the_active_overlay() {
    let mut app = app();
    app.open_overlay(OverlayKind::Menu);
    app.move_cursor(Delta::Forward);
    app.open_overlay(OverlayKind::Dropdown);
    assert_eq!(*app.overlay(), Overlay::Dropdown { cursor: 0 });
    app.open_overlay(OverlayKind::Options);
    assert_eq!(app.overlay_kind(), OverlayKind::Options);
    app.open_overlay(OverlayKind::Keybinds);
    assert_eq!(*app.overlay(), Overlay::Keybinds);
    app.open_overlay(OverlayKind::Menu);
    assert_eq!(*app.overlay(), Overlay::Menu { cursor: 0 });
    app.open_overlay(OverlayKind::Closed);
    assert_eq!(*app.overlay(), Overlay::Closed);
}

#[test]
fn closing_leads_to_the_list_and_is_idempotent() {
    let mut app = app();
    app.open_overlay(OverlayKind::Menu);
    app.open_overlay(OverlayKind::Options);
    app.close_overlay();
    assert_eq!(*app.overlay(), Overlay::Closed);
    app.close_overlay();
    assert_eq!(*app.overlay(), Overlay::Closed);
}

#[test]
fn keybinds_popup_closes_on_escape_only() {
    let mut app = app();
    app.open_overlay(OverlayKind::Keybinds);
    let keys = [
        Key::Enter,
        Key::Tab,
        Key::BackTab,
        Key::Left,
        Key::Right,
        Key::Up,
        Key::Down,
        Key::Char('j'),
        Key::Char('p'),
        Key::Char('r'),
        Key::Char('q'),
        Key::Other,
    ];
    let timer = app.debounce();
    for key in keys {
        assert_eq!(app.on_key(key, 50), Command::Nothing);
        assert_eq!(*app.overlay(), Overlay::Keybinds);
        assert_eq!(app.selected_index(), 1);
        assert_eq!(app.debounce(), timer);
    }
    assert_eq!(app.on_key(Key::Esc, 60), Command::Nothing);
    assert_eq!(*app.overlay(), Overlay::Closed);
}

#[test]
fn dropdown_commit_adopts_filter_and_reloads() {
    let mut app = app();
    assert_eq!(app.on_key(Key::Char('p'), 10), Command::Nothing);
    assert_eq!(*app.overlay(), Overlay::Dropdown { cursor: 0 });
    app.on_key(Key::Char('j'), 11);
    app.on_key(Key::Down, 12);
    assert_eq!(*app.overlay(), Overlay::Dropdown { cursor: 2 });
    app.on_key(Key::Down, 13);
    assert_eq!(*app.overlay(), Overlay::Dropdown { cursor: 2 });
    assert_eq!(app.on_key(Key::Enter, 14), Command::FetchList { shop_id: Some(35) });
    assert_eq!(*app.overlay(), Overlay::Closed);
    assert_eq!(app.filter(), Some(35));
}

#[test]
fn dropdown_commit_of_first_entry_selects_all_shops() {
    let mut app = app();
    app.on_key(Key::Char('p'), 10);
    app.on_key(Key::Down, 11);
    app.on_key(Key::Enter, 12);
    assert_eq!(app.filter(), Some(61));
    app.on_key(Key::Char('p'), 13);
    app.on_key(Key::Up, 14);
    assert_eq!(app.on_key(Key::Enter, 15), Command::FetchList { shop_id: None });
    assert_eq!(app.filter(), None);
}

#[test]
fn dropdown_closes_without_commit() {
    let mut app = app();
    app.on_key(Key::Char('p'), 10);
    app.on_key(Key::Down, 11);
    assert_eq!(app.on_key(Key::Esc, 12), Command::Nothing);
    assert_eq!(*app.overlay(), Overlay::Closed);
    assert_eq!(app.filter(), None);
    app.on_key(Key::Char('p'), 13);
    app.on_key(Key::Down, 14);
    assert_eq!(app.on_key(Key::Char('p'), 15), Command::Nothing);
    assert_eq!(*app.overlay(), Overlay::Closed);
    assert_eq!(app.filter(), None);
}

#[test]
fn dropdown_without_filters_only_closes() {
    let mut app: App<&'static str, u32> = App::new(Vec::new(), Vec::new());
    app.open_overlay(OverlayKind::Dropdown);
    app.move_cursor(Delta::Forward);
    assert_eq!(*app.overlay(), Overlay::Dropdown { cursor: 0 });
    assert_eq!(app.commit_dropdown(), Command::Nothing);
    assert_eq!(*app.overlay(), Overlay::Closed);
    assert_eq!(app.filter(), None);
}

#[test]
fn options_tabs_wrap_round() {
    let mut app = app();
    app.open_overlay(OverlayKind::Options);
    let tab = |app: &App<&'static str, u32>| match app.overlay() {
        Overlay::Options { active_tab, .. } => *active_tab,
        other => panic!("unexpected overlay {:?}", other),
    };
    assert_eq!(tab(&app), 0);
    app.on_key(Key::Tab, 1);
    assert_eq!(tab(&app), 1);
    app.on_key(Key::Right, 2);
    assert_eq!(tab(&app), 2);
    app.on_key(Key::Tab, 3);
    assert_eq!(tab(&app), 0);
    app.on_key(Key::BackTab, 4);
    assert_eq!(tab(&app), 2);
    app.on_key(Key::Left, 5);
    assert_eq!(tab(&app), 1);
    app.switch_tab(Delta::Backward);
    assert_eq!(tab(&app), 0);
}

#[test]
fn options_cursor_is_kept_per_tab_and_clamps() {
    let mut app = app();
    app.open_overlay(OverlayKind::Options);
    app.on_key(Key::Down, 1);
    app.on_key(Key::Char('j'), 2);
    app.on_key(Key::Down, 3);
    assert_eq!(*app.overlay(), Overlay::Options { active_tab: 0, cursors: vec![2, 0, 0] });
    app.on_key(Key::Char('k'), 4);
    assert_eq!(*app.overlay(), Overlay::Options { active_tab: 0, cursors: vec![1, 0, 0] });
    app.on_key(Key::Tab, 5);
    app.on_key(Key::Down, 6);
    app.on_key(Key::Up, 7);
    assert_eq!(*app.overlay(), Overlay::Options { active_tab: 1, cursors: vec![1, 0, 0] });
    app.on_key(Key::Tab, 8);
    app.on_key(Key::Down, 9);
    assert_eq!(*app.overlay(), Overlay::Options { active_tab: 2, cursors: vec![1, 0, 0] });
    app.on_key(Key::Tab, 10);
    assert_eq!(*app.overlay(), Overlay::Options { active_tab: 0, cursors: vec![1, 0, 0] });
}

#[test]
fn toggle_flips_the_highlighted_option_only() {
    let mut app = app();
    app.open_overlay(OverlayKind::Options);
    app.on_key(Key::Down, 1);
    assert_eq!(app.on_key(Key::Enter, 2), Command::Nothing);
    assert_eq!(*app.options(), vec![vec![false, false, false], vec![true], Vec::new()]);
    assert_eq!(*app.overlay(), Overlay::Options { active_tab: 0, cursors: vec![1, 0, 0] });
    app.on_key(Key::Char(' '), 3);
    assert_eq!(*app.options(), vec![vec![false, true, false], vec![true], Vec::new()]);
    app.on_key(Key::Tab, 4);
    app.toggle_current_option();
    assert_eq!(*app.options(), vec![vec![false, true, false], vec![false], Vec::new()]);
    assert_eq!(*app.overlay(), Overlay::Options { active_tab: 1, cursors: vec![1, 0, 0] });
}

#[test]
fn toggle_in_empty_tab_changes_nothing() {
    let mut app = app();
    app.open_overlay(OverlayKind::Options);
    app.on_key(Key::BackTab, 1);
    app.on_key(Key::Enter, 2);
    assert_eq!(*app.options(), vec![vec![false, true, false], vec![true], Vec::new()]);
    assert_eq!(*app.overlay(), Overlay::Options { active_tab: 2, cursors: vec![0, 0, 0] });
}

#[test]
fn toggles_outlive_the_panel() {
    let mut app = app();
    app.open_overlay(OverlayKind::Options);
    app.on_key(Key::Enter, 1);
    app.on_key(Key::Esc, 2);
    assert_eq!(*app.overlay(), Overlay::Closed);
    assert_eq!(*app.options(), vec![vec![true, true, false], vec![true], Vec::new()]);
    app.open_overlay(OverlayKind::Options);
    assert_eq!(*app.options(), vec![vec![true, true, false], vec![true], Vec::new()]);
}

#[test]
fn toggle_outside_the_panel_changes_nothing() {
    let mut app = app();
    app.toggle_current_option();
    app.switch_tab(Delta::Forward);
    app.move_cursor(Delta::Forward);
    assert_eq!(*app.overlay(), Overlay::Closed);
    assert_eq!(*app.options(), vec![vec![false, true, false], vec![true], Vec::new()]);
}

#[test]
fn options_panel_without_tabs() {
    let mut app: App<&'static str, u32> = App::new(Vec::new(), Vec::new());
    app.open_overlay(OverlayKind::Options);
    assert_eq!(*app.overlay(), Overlay::Options { active_tab: 0, cursors: Vec::new() });
    app.on_key(Key::Tab, 1);
    app.on_key(Key::BackTab, 2);
    app.on_key(Key::Down, 3);
    app.on_key(Key::Enter, 4);
    assert_eq!(*app.overlay(), Overlay::Options { active_tab: 0, cursors: Vec::new() });
    app.on_key(Key::Esc, 5);
    assert_eq!(*app.overlay(), Overlay::Closed);
}

#[test]
fn options_panel_swallows_other_keys() {
    let mut app = app();
    app.open_overlay(OverlayKind::Options);
    let timer = app.debounce();
    for key in [Key::Char('p'), Key::Char('r'), Key::Char('x'), Key::Other] {
        assert_eq!(app.on_key(key, 70), Command::Nothing);
    }
    assert_eq!(*app.overlay(), Overlay::Options { active_tab: 0, cursors: vec![0, 0, 0] });
    assert_eq!(app.selected_index(), 1);
    assert_eq!(app.debounce(), timer);
}

#[test]
fn only_a_press_is_acted_upon() {
    let mut app = app();
    let timer = app.debounce();
    for kind in [KeyEventKind::Release, KeyEventKind::Repeat] {
        assert_eq!(app.on_event(KeyEvent { code: Key::Down, kind }, 90), Command::Nothing);
        assert_eq!(app.on_event(KeyEvent { code: Key::Esc, kind }, 91), Command::Nothing);
        assert_eq!(app.on_event(KeyEvent { code: Key::Char('r'), kind }, 92), Command::Nothing);
    }
    assert_eq!(app.selected_index(), 1);
    assert_eq!(*app.overlay(), Overlay::Closed);
    assert_eq!(app.debounce(), timer);
    let press = KeyEvent { code: Key::Down, kind: KeyEventKind::Press };
    assert_eq!(app.on_event(press, 93), Command::Nothing);
    assert_eq!(app.selected_index(), 2);
    assert_eq!(app.debounce().last_change_at, 93);
}

#[test]
fn base_mode_keys() {
    let mut app = app();
    assert_eq!(app.on_key(Key::Char('j'), 10), Command::Nothing);
    assert_eq!(app.selected_index(), 2);
    assert_eq!(app.on_key(Key::Char('k'), 11), Command::Nothing);
    assert_eq!(app.on_key(Key::Up, 12), Command::Nothing);
    assert_eq!(app.selected_index(), 0);
    assert_eq!(app.on_key(Key::Down, 13), Command::Nothing);
    assert_eq!(app.selected_index(), 1);
    assert_eq!(app.debounce().last_change_at, 13);
    assert!(app.is_pending());
    assert_eq!(app.on_key(Key::Enter, 14), Command::OpenSelected { index: 1 });
    assert_eq!(app.on_key(Key::Char('r'), 15), Command::FetchList { shop_id: None });
    assert_eq!(app.debounce().last_change_at, 13);
    assert_eq!(app.selected_index(), 1);
    assert_eq!(*app.overlay(), Overlay::Closed);
}

#[test]
fn open_selected_in_empty_list_does_nothing() {
    let mut app: App<&'static str, u32> = App::new(Vec::new(), Vec::new());
    assert_eq!(app.on_key(Key::Enter, 1), Command::Nothing);
    assert_eq!(app.apply(Action::OpenSelected, 2), Command::Nothing);
}

#[test]
fn unbound_keys_change_nothing_in_any_overlay() {
    let kinds = [
        OverlayKind::Closed,
        OverlayKind::Menu,
        OverlayKind::Dropdown,
        OverlayKind::Options,
        OverlayKind::Keybinds,
    ];
    let keys = [Key::Other, Key::Char('x'), Key::Char('q'), Key::Char('J'), Key::Char('\n')];
    for kind in kinds {
        let mut app = app();
        app.open_overlay(kind);
        app.move_cursor(Delta::Forward);
        let overlay_before = format!("{:?}", app.overlay());
        let timer = app.debounce();
        for key in keys {
            assert_eq!(app.on_key(key, 1234), Command::Nothing);
            assert_eq!(format!("{:?}", app.overlay()), overlay_before);
            assert_eq!(app.selected_index(), 1);
            assert_eq!(app.debounce(), timer);
            assert_eq!(app.filter(), None);
            assert!(!app.should_quit());
            assert_eq!(
                *app.options(),
                vec![vec![false, true, false], vec![true], Vec::new()]
            );
        }
    }
}

#[test]
fn ignore_changes_nothing() {
    let mut app = app();
    app.open_overlay(OverlayKind::Menu);
    let timer = app.debounce();
    assert_eq!(app.apply(Action::Ignore, 77), Command::Nothing);
    assert_eq!(*app.overlay(), Overlay::Menu { cursor: 0 });
    assert_eq!(app.debounce(), timer);
}
