//! The widget engine: command recognition, the text producers, and the
//! timer life cycle.

use macropad::config::{blank_page, ButtonConfig, Config};
use macropad::dispatch::handle_button_press;
use macropad::widget::{
    get_obs_status_text, get_twitch_followers_text, get_twitch_viewers_text, get_widget_text,
    get_widget_timer, is_widget_command, percent_text, ram_percent, start_timer, stop_timer,
    temp_text, weekday_name, ClockReading, ObsView, TimerState, TwitchView, WidgetEnv,
};

fn env_at(now: u64) -> WidgetEnv {
    WidgetEnv {
        clock: ClockReading {
            hour: 9,
            minute: 5,
            second: 7,
            day: 24,
            month: 12,
            year: 2024,
            weekday: 2,
        },
        cpu_percent: 42,
        ram_used: 3,
        ram_total: 4,
        temp_millidegrees: Some(48_250),
        obs: ObsView { connected: true, streaming: true, recording: false },
        twitch: TwitchView { connected: true, is_live: true, viewers: 1234, followers: 567 },
        now,
    }
}

#[test]
fn widget_commands_are_recognized() {
    for cmd in [
        "__CLOCK__",
        "__CLOCK_S__",
        "__DATE__",
        "__DATE_FULL__",
        "__WEEKDAY__",
        "__CPU__",
        "__RAM__",
        "__TEMP__",
        "__TIMER_5__",
        "__OBS_STATUS__",
        "__TWITCH_VIEWERS__",
        "__TWITCH_FOLLOWERS__",
    ] {
        assert!(is_widget_command(cmd), "{cmd} should be a widget command");
    }
    assert!(!is_widget_command("__NEXT_PAGE__"));
    assert!(!is_widget_command("firefox"));
    assert!(!is_widget_command(""));
    assert!(!is_widget_command("__OBS_STREAM__"));
}

#[test]
fn widget_texts_from_a_snapshot() {
    let env = env_at(1_000);
    let mut t = TimerState { start: 0, duration: 0 };
    assert_eq!(get_widget_text("__CLOCK__", &env, &mut t).unwrap(), "09:05");
    assert_eq!(get_widget_text("__CLOCK_S__", &env, &mut t).unwrap(), "09:05:07");
    assert_eq!(get_widget_text("__DATE__", &env, &mut t).unwrap(), "24/12");
    assert_eq!(get_widget_text("__DATE_FULL__", &env, &mut t).unwrap(), "24/12/2024");
    assert_eq!(get_widget_text("__WEEKDAY__", &env, &mut t).unwrap(), "Mar");
    assert_eq!(get_widget_text("__CPU__", &env, &mut t).unwrap(), "42%");
    assert_eq!(get_widget_text("__RAM__", &env, &mut t).unwrap(), "75%");
    assert_eq!(get_widget_text("__TEMP__", &env, &mut t).unwrap(), "48°C");
    assert_eq!(get_widget_text("__OBS_STATUS__", &env, &mut t).unwrap(), "LIVE/---");
    assert_eq!(get_widget_text("__TWITCH_VIEWERS__", &env, &mut t).unwrap(), "1234v");
    assert_eq!(get_widget_text("__TWITCH_FOLLOWERS__", &env, &mut t).unwrap(), "567f");
    assert_eq!(get_widget_text("not a widget", &env, &mut t), None);
    // a widget-prefixed command without a text producer has no text
    assert_eq!(get_widget_text("__CLOCKX", &env, &mut t), None);
}

#[test]
fn timer_runs_down_says_done_once_then_idles() {
    let t0: u64 = 1_700_000_000;
    let mut timer = TimerState { start: 0, duration: 0 };
    assert_eq!(get_widget_timer(&mut timer, t0), "00:00");
    start_timer(&mut timer, t0, 120);
    assert_eq!(get_widget_timer(&mut timer, t0), "02:00");
    assert_eq!(get_widget_timer(&mut timer, t0 + 119), "00:01");
    assert_eq!(get_widget_timer(&mut timer, t0 + 120), "DONE!");
    assert_eq!(get_widget_timer(&mut timer, t0 + 120), "00:00");
    assert_eq!(get_widget_timer(&mut timer, t0 + 121), "00:00");
}

#[test]
fn timer_through_the_widget_text_resets_on_completion() {
    let t0: u64 = 50_000;
    let mut timer = TimerState { start: t0, duration: 120 };
    let env = env_at(t0 + 119);
    assert_eq!(get_widget_text("__TIMER_2__", &env, &mut timer).unwrap(), "00:01");
    let env = env_at(t0 + 120);
    assert_eq!(get_widget_text("__TIMER_2__", &env, &mut timer).unwrap(), "DONE!");
    assert_eq!(timer.start, 0);
    assert_eq!(timer.duration, 0);
    assert_eq!(get_widget_text("__TIMER_2__", &env, &mut timer).unwrap(), "00:00");
}

#[test]
fn a_timer_press_then_the_widget_count_down() {
    // pressing a `__TIMER_2__` button at epoch T starts a 120 s timer;
    // the widget shows 00:01 at T+119, DONE! once at T+120, then 00:00
    let t0: u64 = 1_000_000;
    let mut page = blank_page(String::from("A"));
    page.buttons[0] = ButtonConfig {
        label: String::new(),
        command: String::from("__TIMER_2__"),
        color: String::from("#1a1a2e"),
        icon: String::new(),
    };
    let mut config = Config { brightness: 50, current_page: 0, pages: vec![page] };
    let mut timer = TimerState { start: 0, duration: 0 };
    handle_button_press(1, &mut config, &mut timer, t0);
    assert_eq!((timer.start, timer.duration), (t0, 120));
    let env = env_at(t0 + 119);
    assert_eq!(get_widget_text("__TIMER_2__", &env, &mut timer).unwrap(), "00:01");
    let env = env_at(t0 + 120);
    assert_eq!(get_widget_text("__TIMER_2__", &env, &mut timer).unwrap(), "DONE!");
    assert_eq!(get_widget_text("__TIMER_2__", &env, &mut timer).unwrap(), "00:00");
}

#[test]
fn stop_timer_resets_the_state() {
    let mut timer = TimerState { start: 5, duration: 60 };
    stop_timer(&mut timer);
    assert_eq!(timer.start, 0);
    assert_eq!(timer.duration, 0);
}

#[test]
fn status_texts_cover_their_cases() {
    assert_eq!(
        get_obs_status_text(&ObsView { connected: false, streaming: true, recording: true }),
        "OBS OFF"
    );
    assert_eq!(
        get_obs_status_text(&ObsView { connected: true, streaming: false, recording: true }),
        "---/REC"
    );
    assert_eq!(
        get_obs_status_text(&ObsView { connected: true, streaming: false, recording: false }),
        "---/---"
    );
    let off = TwitchView { connected: false, is_live: false, viewers: 0, followers: 0 };
    assert_eq!(get_twitch_viewers_text(&off), "TWITCH");
    assert_eq!(get_twitch_followers_text(&off), "TWITCH");
    let idle = TwitchView { connected: true, is_live: false, viewers: 9, followers: 10 };
    assert_eq!(get_twitch_viewers_text(&idle), "OFFLINE");
    assert_eq!(get_twitch_followers_text(&idle), "10f");
}

#[test]
fn load_and_temperature_texts() {
    assert_eq!(percent_text(0), "0%");
    assert_eq!(percent_text(100), "100%");
    assert_eq!(ram_percent(1, 2), 50);
    assert_eq!(ram_percent(0, 0), 0);
    assert_eq!(ram_percent(5, 4), 100);
    assert_eq!(temp_text(None), "N/A");
    assert_eq!(temp_text(Some(48_250)), "48°C");
    assert_eq!(temp_text(Some(999)), "0°C");
    assert_eq!(temp_text(Some(-12_600)), "-12°C");
    assert_eq!(weekday_name(0), "Dom");
    assert_eq!(weekday_name(6), "Sáb");
    assert_eq!(weekday_name(3), "Mié");
}
