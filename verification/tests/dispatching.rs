//! The action dispatcher: classification, page navigation by press, timer
//! toggles, and multi-step commands.

use macropad::config::{blank_page, ButtonConfig, Config};
use macropad::dispatch::{
    change_page, classify_command, classify_gui_command, handle_button_press, parse_multi_steps,
    Action, Effect, MultiStep,
};
use macropad::widget::TimerState;

fn button(command: &str) -> ButtonConfig {
    ButtonConfig {
        label: String::from("x"),
        command: String::from(command),
        color: String::from("#1a1a2e"),
        icon: String::new(),
    }
}

fn three_page_config(current: usize, key1_command: &str) -> Config {
    let mut pages = Vec::new();
    for name in ["A", "B", "C"] {
        pages.push(blank_page(String::from(name)));
    }
    pages[current].buttons[0] = button(key1_command);
    Config { brightness: 50, current_page: current, pages }
}

#[test]
fn classification_first_match_wins() {
    assert!(matches!(classify_command(""), Action::Nothing));
    assert!(matches!(classify_command("__NEXT_PAGE__"), Action::NextPage));
    assert!(matches!(classify_command("__PREV_PAGE__"), Action::PrevPage));
    assert!(matches!(classify_command("__PAGE_2__"), Action::GotoPage(2)));
    assert!(matches!(classify_command("__PAGE_x__"), Action::Nothing));
    assert!(matches!(classify_command("__TIMER_5__"), Action::TimerToggle(5)));
    assert!(matches!(classify_command("__TIMER___"), Action::Nothing));
    assert!(matches!(classify_command("__CLOCK__"), Action::WidgetRefresh));
    assert!(matches!(classify_command("__OBS_STATUS__"), Action::WidgetRefresh));
    // anything beginning with a widget prefix is display-only
    assert!(matches!(classify_command("__CLOCK_X"), Action::WidgetRefresh));
    assert!(matches!(classify_command("__TIMER_abc"), Action::WidgetRefresh));
    assert!(matches!(classify_command("__RAM_EXTRA"), Action::WidgetRefresh));
    assert!(matches!(classify_command("__OBS_STREAM__"), Action::ObsStream));
    assert!(matches!(classify_command("__OBS_RECORD__"), Action::ObsRecord));
    assert!(matches!(classify_command("__OBS_MUTE__"), Action::ObsMute));
    assert!(matches!(classify_command("__TWITCH_CLIP__"), Action::TwitchClip));
    assert!(matches!(classify_command("__TWITCH_AD_30__"), Action::TwitchAd(30)));
    match classify_command("__OBS_SCENE_Gaming") {
        Action::ObsScene(s) => assert_eq!(s, "Gaming"),
        other => panic!("unexpected action: {other:?}"),
    }
    match classify_command("__TWITCH_CHAT_hello there") {
        Action::TwitchChat(s) => assert_eq!(s, "hello there"),
        other => panic!("unexpected action: {other:?}"),
    }
    match classify_command("__URL_https://example.org") {
        Action::OpenUrl(s) => assert_eq!(s, "https://example.org"),
        other => panic!("unexpected action: {other:?}"),
    }
    match classify_command("__KEY_ctrl+c") {
        Action::Hotkey(s) => assert_eq!(s, "ctrl+c"),
        other => panic!("unexpected action: {other:?}"),
    }
    match classify_command("__TYPE_hola") {
        Action::TypeText(s) => assert_eq!(s, "hola"),
        other => panic!("unexpected action: {other:?}"),
    }
    match classify_command("__MULTI_a;;b") {
        Action::Multi(s) => assert_eq!(s, "a;;b"),
        other => panic!("unexpected action: {other:?}"),
    }
    match classify_command("firefox") {
        Action::Shell(s) => assert_eq!(s, "firefox"),
        other => panic!("unexpected action: {other:?}"),
    }
}

#[test]
fn next_page_press_from_the_last_page_wraps_to_the_first() {
    let mut config = three_page_config(2, "__NEXT_PAGE__");
    let mut timer = TimerState { start: 0, duration: 0 };
    let effect = handle_button_press(1, &mut config, &mut timer, 0);
    assert_eq!(config.current_page, 0);
    assert!(matches!(effect, Effect::Reload));
}

#[test]
fn prev_page_press_from_the_first_page_wraps_to_the_last() {
    let mut config = three_page_config(0, "__PREV_PAGE__");
    let mut timer = TimerState { start: 0, duration: 0 };
    let effect = handle_button_press(1, &mut config, &mut timer, 0);
    assert_eq!(config.current_page, 2);
    assert!(matches!(effect, Effect::Reload));
}

#[test]
fn next_presses_visit_every_page_once_per_cycle() {
    let mut config = three_page_config(1, "__NEXT_PAGE__");
    for page in &mut config.pages {
        page.buttons[0] = button("__NEXT_PAGE__");
    }
    let mut timer = TimerState { start: 0, duration: 0 };
    let mut visited = vec![config.current_page];
    for _ in 0..3 {
        handle_button_press(1, &mut config, &mut timer, 0);
        visited.push(config.current_page);
    }
    assert_eq!(visited, vec![1, 2, 0, 1]);
}

#[test]
fn goto_page_press_checks_the_bound() {
    let mut config = three_page_config(0, "__PAGE_2__");
    let mut timer = TimerState { start: 0, duration: 0 };
    assert!(matches!(handle_button_press(1, &mut config, &mut timer, 0), Effect::Reload));
    assert_eq!(config.current_page, 2);
    let mut config = three_page_config(0, "__PAGE_9__");
    assert!(matches!(handle_button_press(1, &mut config, &mut timer, 0), Effect::Idle));
    assert_eq!(config.current_page, 0);
}

#[test]
fn timer_press_toggles_the_timer() {
    let mut config = three_page_config(0, "__TIMER_2__");
    let mut timer = TimerState { start: 0, duration: 0 };
    let effect = handle_button_press(1, &mut config, &mut timer, 12_345);
    assert!(matches!(effect, Effect::Refresh));
    assert_eq!(timer.start, 12_345);
    assert_eq!(timer.duration, 120);
    let effect = handle_button_press(1, &mut config, &mut timer, 12_400);
    assert!(matches!(effect, Effect::Refresh));
    assert_eq!(timer.start, 0);
    assert_eq!(timer.duration, 0);
}

#[test]
fn empty_commands_and_unknown_keys_do_nothing() {
    let mut config = three_page_config(0, "");
    let mut timer = TimerState { start: 0, duration: 0 };
    assert!(matches!(handle_button_press(1, &mut config, &mut timer, 0), Effect::Idle));
    assert!(matches!(handle_button_press(0, &mut config, &mut timer, 0), Effect::Idle));
    assert!(matches!(handle_button_press(16, &mut config, &mut timer, 0), Effect::Idle));
    assert_eq!(config.current_page, 0);
}

#[test]
fn widget_presses_only_ask_for_a_refresh() {
    let mut config = three_page_config(0, "__CLOCK__");
    let mut timer = TimerState { start: 0, duration: 0 };
    assert!(matches!(handle_button_press(1, &mut config, &mut timer, 0), Effect::Refresh));
    let mut config = three_page_config(0, "__CLOCK_X");
    assert!(matches!(handle_button_press(1, &mut config, &mut timer, 0), Effect::Refresh));
    assert_eq!(config.current_page, 0);
    assert_eq!((timer.start, timer.duration), (0, 0));
}

#[test]
fn shell_commands_pass_through_a_press() {
    let mut config = three_page_config(1, "notify-send hi");
    let mut timer = TimerState { start: 0, duration: 0 };
    match handle_button_press(1, &mut config, &mut timer, 0) {
        Effect::Shell(s) => assert_eq!(s, "notify-send hi"),
        other => panic!("unexpected effect: {other:?}"),
    }
    assert_eq!(config.current_page, 1);
}

#[test]
fn change_page_validates_the_index() {
    let mut config = three_page_config(0, "");
    assert!(change_page(&mut config, 2));
    assert_eq!(config.current_page, 2);
    assert!(!change_page(&mut config, 3));
    assert_eq!(config.current_page, 2);
}

#[test]
fn multi_steps_of_the_copy_paste_macro() {
    let steps = parse_multi_steps("__KEY_ctrl+c;;__DELAY_500;;__KEY_ctrl+v");
    assert_eq!(steps.len(), 3);
    match &steps[0] {
        MultiStep::Key(s) => assert_eq!(s, "ctrl+c"),
        other => panic!("unexpected step: {other:?}"),
    }
    match &steps[1] {
        MultiStep::Delay(ms) => assert_eq!(*ms, 500),
        other => panic!("unexpected step: {other:?}"),
    }
    match &steps[2] {
        MultiStep::Key(s) => assert_eq!(s, "ctrl+v"),
        other => panic!("unexpected step: {other:?}"),
    }
}

#[test]
fn multi_steps_trim_and_skip_empties() {
    let steps = parse_multi_steps(" firefox ;; ;;__URL_https://x.org;;__TYPE_hi;;__DELAY_bad");
    assert_eq!(steps.len(), 4);
    assert!(matches!(&steps[0], MultiStep::Shell(s) if s == "firefox"));
    assert!(matches!(&steps[1], MultiStep::Url(s) if s == "https://x.org"));
    assert!(matches!(&steps[2], MultiStep::Type(s) if s == "hi"));
    assert!(matches!(&steps[3], MultiStep::Delay(0)));
}

#[test]
fn gui_commands_know_only_the_four_markers() {
    assert!(matches!(classify_gui_command(""), Action::Nothing));
    assert!(matches!(classify_gui_command("__URL_https://a"), Action::OpenUrl(_)));
    assert!(matches!(classify_gui_command("__TYPE_t"), Action::TypeText(_)));
    assert!(matches!(classify_gui_command("__KEY_a"), Action::Hotkey(_)));
    assert!(matches!(classify_gui_command("__MULTI_a;;b"), Action::Multi(_)));
    // the navigation markers are not special here; they run as shell text
    assert!(matches!(classify_gui_command("__NEXT_PAGE__"), Action::Shell(_)));
}
