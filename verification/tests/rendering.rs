//! The renderer: every button image decodes as a 100 by 100 JPEG, icons
//! are resized onto the canvas, and undecodable icons fall back to the
//! button's color.

use image::GenericImageView;
use macropad::config::ButtonConfig;
use macropad::render::generate_button_image;
use macropad::widget::{ClockReading, ObsView, TimerState, TwitchView, WidgetEnv};

fn plain_env() -> WidgetEnv {
    WidgetEnv {
        clock: ClockReading {
            hour: 0,
            minute: 0,
            second: 0,
            day: 1,
            month: 1,
            year: 2024,
            weekday: 0,
        },
        cpu_percent: 0,
        ram_used: 0,
        ram_total: 1,
        temp_millidegrees: None,
        obs: ObsView { connected: false, streaming: false, recording: false },
        twitch: TwitchView { connected: false, is_live: false, viewers: 0, followers: 0 },
        now: 0,
    }
}

fn solid_button(color: &str) -> ButtonConfig {
    ButtonConfig {
        label: String::new(),
        command: String::new(),
        color: String::from(color),
        icon: String::new(),
    }
}

#[test]
fn every_button_image_is_a_100_by_100_jpeg() {
    let env = plain_env();
    let mut timer = TimerState { start: 0, duration: 0 };
    let buttons = [
        solid_button("#e94560"),
        solid_button("not a color"),
        ButtonConfig {
            label: String::from("Hi"),
            command: String::from("firefox"),
            color: String::from("#1a1a2e"),
            icon: String::new(),
        },
    ];
    for b in &buttons {
        let jpeg = generate_button_image(b, None, &env, &mut timer, None).unwrap();
        assert!(!jpeg.is_empty());
        let decoded = image::load_from_memory(&jpeg).unwrap();
        assert_eq!(decoded.dimensions(), (100, 100));
    }
}

#[test]
fn a_solid_button_encodes_its_parsed_color() {
    let env = plain_env();
    let mut timer = TimerState { start: 0, duration: 0 };
    let jpeg = generate_button_image(&solid_button("#e94560"), None, &env, &mut timer, None)
        .unwrap();
    let decoded = image::load_from_memory(&jpeg).unwrap().to_rgb8();
    // JPEG is lossy; the decoded color stays near the requested one
    let p = decoded.get_pixel(50, 50);
    assert!((p.0[0] as i32 - 233).abs() < 16, "red {}", p.0[0]);
    assert!((p.0[1] as i32 - 69).abs() < 16, "green {}", p.0[1]);
    assert!((p.0[2] as i32 - 96).abs() < 16, "blue {}", p.0[2]);
}

#[test]
fn icons_are_resized_onto_the_canvas() {
    let env = plain_env();
    let mut timer = TimerState { start: 0, duration: 0 };
    // a small all-green PNG as the icon file's bytes
    let icon = image::RgbImage::from_pixel(10, 10, image::Rgb([0, 200, 0]));
    let mut icon_bytes: Vec<u8> = Vec::new();
    image::DynamicImage::ImageRgb8(icon)
        .write_to(&mut std::io::Cursor::new(&mut icon_bytes), image::ImageFormat::Png)
        .unwrap();
    let button = ButtonConfig {
        label: String::new(),
        command: String::new(),
        color: String::from("#1a1a2e"),
        icon: String::from("green.png"),
    };
    let jpeg = generate_button_image(&button, Some(&icon_bytes), &env, &mut timer, None).unwrap();
    let decoded = image::load_from_memory(&jpeg).unwrap();
    assert_eq!(decoded.dimensions(), (100, 100));
    let rgb = decoded.to_rgb8();
    let p = rgb.get_pixel(50, 50);
    assert!(p.0[1] > 150, "expected a green canvas, got {:?}", p.0);
}

#[test]
fn rendering_always_returns_bytes() {
    let env = plain_env();
    let mut timer = TimerState { start: 0, duration: 0 };
    let button = ButtonConfig {
        label: String::from("a label long enough to shrink the glyphs"),
        command: String::from("__TIMER_5__"),
        color: String::from("zz"),
        icon: String::from("missing.png"),
    };
    let jpeg = generate_button_image(&button, None, &env, &mut timer, None).unwrap();
    assert!(!jpeg.is_empty());
}

#[test]
fn undecodable_icon_bytes_fall_back_to_the_color() {
    let env = plain_env();
    let mut timer = TimerState { start: 0, duration: 0 };
    let button = ButtonConfig {
        label: String::new(),
        command: String::new(),
        color: String::from("#000000"),
        icon: String::from("broken.png"),
    };
    let garbage = vec![1u8, 2, 3, 4];
    let jpeg = generate_button_image(&button, Some(&garbage), &env, &mut timer, None).unwrap();
    let decoded = image::load_from_memory(&jpeg).unwrap();
    assert_eq!(decoded.dimensions(), (100, 100));
    let rgb = decoded.to_rgb8();
    let p = rgb.get_pixel(50, 50);
    assert!(p.0[0] < 24 && p.0[1] < 24 && p.0[2] < 24, "expected black, got {:?}", p.0);
}
