//! The key chord vocabulary, the hotkey sequence, and the serve loop's
//! decisions.

use macropad::config::{blank_page, ButtonConfig};
use macropad::keymap::{hotkey_sequence, key_name_to_code};
use macropad::session::{
    is_target_device, page_upload_keys, page_widget_keys, request_refresh, serve_tick,
    session_start, should_upload, ReadOutcome, SessionStep,
};

#[test]
fn key_names_map_to_input_codes() {
    assert_eq!(key_name_to_code("ctrl"), Some(29));
    assert_eq!(key_name_to_code("control"), Some(29));
    assert_eq!(key_name_to_code("CTRL"), Some(29));
    assert_eq!(key_name_to_code("shift"), Some(42));
    assert_eq!(key_name_to_code("alt"), Some(56));
    assert_eq!(key_name_to_code("super"), Some(125));
    assert_eq!(key_name_to_code("f11"), Some(87));
    assert_eq!(key_name_to_code("enter"), Some(28));
    assert_eq!(key_name_to_code("a"), Some(30));
    assert_eq!(key_name_to_code("9"), Some(10));
    assert_eq!(key_name_to_code("-"), Some(12));
    assert_eq!(key_name_to_code("kpenter"), Some(96));
    assert_eq!(key_name_to_code("altgr"), Some(100));
    assert_eq!(key_name_to_code("playpause"), Some(164));
    assert_eq!(key_name_to_code("nosuchkey"), None);
    assert_eq!(key_name_to_code(""), None);
}

#[test]
fn hotkeys_press_in_order_and_release_in_reverse() {
    assert_eq!(hotkey_sequence("ctrl+c"), vec!["29:1", "46:1", "46:0", "29:0"]);
    assert_eq!(
        hotkey_sequence("ctrl+shift+a"),
        vec!["29:1", "42:1", "30:1", "30:0", "42:0", "29:0"]
    );
    // unknown names are dropped, whitespace around names is ignored
    assert_eq!(hotkey_sequence(" ctrl + bogus + v "), vec!["29:1", "47:1", "47:0", "29:0"]);
    assert_eq!(hotkey_sequence("bogus"), Vec::<String>::new());
}

#[test]
fn the_session_looks_for_one_device() {
    assert!(is_target_device(0x0200, 0x1000));
    assert!(!is_target_device(0x0200, 0x1001));
    assert!(!is_target_device(0x0000, 0x1000));
}

#[test]
fn a_pending_refresh_reloads_before_a_press_is_dispatched() {
    let mut st = session_start();
    request_refresh(&mut st);
    let steps = serve_tick(&mut st, ReadOutcome::Key(3, 1));
    assert_eq!(steps, vec![SessionStep::ReloadPage, SessionStep::Dispatch(3)]);
    assert!(!st.refresh_needed);
}

#[test]
fn quiet_ticks_do_nothing_until_the_widget_pace() {
    let mut st = session_start();
    for _ in 0..9 {
        let steps = serve_tick(&mut st, ReadOutcome::TimedOut);
        assert!(steps.is_empty());
    }
    let steps = serve_tick(&mut st, ReadOutcome::TimedOut);
    assert_eq!(steps, vec![SessionStep::UpdateWidgets]);
    let steps = serve_tick(&mut st, ReadOutcome::TimedOut);
    assert!(steps.is_empty());
}

#[test]
fn releases_are_ignored_and_failures_reconnect() {
    let mut st = session_start();
    let steps = serve_tick(&mut st, ReadOutcome::Key(5, 0));
    assert!(steps.is_empty());
    let steps = serve_tick(&mut st, ReadOutcome::Failed);
    assert_eq!(steps, vec![SessionStep::Reconnect]);
}

#[test]
fn a_reload_resets_the_widget_pace() {
    let mut st = session_start();
    for _ in 0..9 {
        serve_tick(&mut st, ReadOutcome::TimedOut);
    }
    request_refresh(&mut st);
    let steps = serve_tick(&mut st, ReadOutcome::TimedOut);
    assert_eq!(steps, vec![SessionStep::ReloadPage]);
    for _ in 0..8 {
        assert!(serve_tick(&mut st, ReadOutcome::TimedOut).is_empty());
    }
    assert_eq!(serve_tick(&mut st, ReadOutcome::TimedOut), vec![SessionStep::UpdateWidgets]);
}

#[test]
fn page_loads_send_only_buttons_with_content() {
    let mut page = blank_page(String::from("P"));
    assert_eq!(page_upload_keys(&page), Vec::<u8>::new());
    page.buttons[0].label = String::from("hi");
    page.buttons[4].command = String::from("__NEXT_PAGE__");
    page.buttons[4].color = String::from("#e94560");
    page.buttons[9].icon = String::from("cat.png");
    assert_eq!(page_upload_keys(&page), vec![1, 5, 10]);
    assert!(should_upload(&page.buttons[0]));
    assert!(!should_upload(&ButtonConfig {
        label: String::new(),
        command: String::from("echo hi"),
        color: String::from("#1a1a2e"),
        icon: String::new(),
    }));
}

#[test]
fn widget_redraw_touches_only_widget_buttons() {
    let mut page = blank_page(String::from("P"));
    assert_eq!(page_widget_keys(&page), Vec::<u8>::new());
    page.buttons[1].command = String::from("__CLOCK__");
    page.buttons[7].command = String::from("__TIMER_5__");
    page.buttons[8].command = String::from("firefox");
    assert_eq!(page_widget_keys(&page), vec![2, 8]);
}
