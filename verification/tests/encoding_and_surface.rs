//! Digest and base64 results through the public functions, the icon data
//! URL, the OBS and Twitch helpers, the udev rule, and the preset catalog.

use macropad::clock::chrono_lite;
use macropad::encoding::{generate_obs_auth, icon_data_url, mime_for_filename};
use macropad::obs::{
    obs_check_identified, obs_identify_auth, obs_request_id, obs_response_outcome, obs_state_start,
};
use macropad::presets::get_preset_commands;
use macropad::surface::{filter_icon_names, icon_file_name, is_listable_icon, udev_rules_content,
    udev_rules_path};
use macropad::twitch::{
    bearer_header, twitch_apply_followers, twitch_apply_stream, twitch_credentials_ok,
    twitch_init_apply, twitch_ready, twitch_state_start, twitch_streams_url, twitch_users_url,
};

#[test]
fn the_obs_auth_string_matches_the_protocol() {
    // base64(SHA256(base64(SHA256("pw" + "salt")) + "chal"))
    let auth = generate_obs_auth("pw", "chal", "salt");
    assert_eq!(auth, "Q0/N7u40IGqt4Ynf9v3w9R2yCDZxba9npsZLdIyWi8M=");
}

#[test]
fn hello_handling_checks_the_opcode_and_computes_auth() {
    let r = obs_identify_auth(0, true, true, "pw", "chal", "salt").unwrap();
    assert_eq!(r.unwrap(), "Q0/N7u40IGqt4Ynf9v3w9R2yCDZxba9npsZLdIyWi8M=");
    let r = obs_identify_auth(0, false, true, "pw", "", "").unwrap();
    assert!(r.is_none());
    let r = obs_identify_auth(0, true, false, "", "chal", "salt").unwrap();
    assert!(r.is_none());
    let e = obs_identify_auth(3, true, true, "pw", "chal", "salt").unwrap_err();
    assert_eq!(e, "Expected Hello (op=0), got op=3");
}

#[test]
fn identified_and_response_outcomes() {
    assert!(obs_check_identified(2).is_ok());
    assert_eq!(obs_check_identified(5).unwrap_err(), "Authentication failed (op=5)");
    assert!(obs_response_outcome(7, true, true, false, String::new()).is_ok());
    assert_eq!(
        obs_response_outcome(7, true, false, true, String::from("scene missing")).unwrap_err(),
        "scene missing"
    );
    assert_eq!(
        obs_response_outcome(7, true, false, false, String::new()).unwrap_err(),
        "Unknown error"
    );
    assert_eq!(
        obs_response_outcome(7, false, true, false, String::new()).unwrap_err(),
        "Invalid response"
    );
    assert_eq!(
        obs_response_outcome(6, true, true, false, String::new()).unwrap_err(),
        "Invalid response"
    );
    assert_eq!(obs_request_id("req_", 42), "req_42");
    let s = obs_state_start();
    assert!(!s.connected);
}

#[test]
fn icon_data_urls_carry_the_mime_and_base64() {
    assert_eq!(mime_for_filename("a.png"), "image/png");
    assert_eq!(mime_for_filename("a.jpg"), "image/jpeg");
    assert_eq!(mime_for_filename("a.jpeg"), "image/jpeg");
    assert_eq!(mime_for_filename("a.gif"), "image/gif");
    assert_eq!(mime_for_filename("a.webp"), "image/webp");
    assert_eq!(mime_for_filename("a.txt"), "application/octet-stream");
    assert_eq!(icon_data_url("a.png", b"abc"), "data:image/png;base64,YWJj");
    assert_eq!(icon_data_url("a.txt", b"a"), "data:application/octet-stream;base64,YQ==");
}

#[test]
fn saved_icons_get_a_name() {
    assert_eq!(icon_file_name(String::from("fox.png"), 99), "fox.png");
    assert_eq!(icon_file_name(String::new(), 99), "custom_99.png");
}

#[test]
fn the_icon_listing_keeps_image_files() {
    assert!(is_listable_icon("a.png"));
    assert!(is_listable_icon("a.webp"));
    assert!(!is_listable_icon("a.txt"));
    assert!(!is_listable_icon("png"));
    let names = vec![
        String::from("b.txt"),
        String::from("a.png"),
        String::from("c.jpeg"),
        String::from("d"),
    ];
    assert_eq!(filter_icon_names(names), vec![String::from("a.png"), String::from("c.jpeg")]);
}

#[test]
fn the_udev_rule_is_fixed() {
    assert_eq!(
        udev_rules_content(),
        "SUBSYSTEM==\"usb\", ATTR{idVendor}==\"0200\", ATTR{idProduct}==\"1000\", MODE=\"0666\""
    );
    assert_eq!(udev_rules_path(), "/etc/udev/rules.d/99-redragon.rules");
}

#[test]
fn twitch_helpers_build_urls_and_keep_the_cache() {
    assert!(twitch_credentials_ok("id", "tok", "chan").is_ok());
    assert_eq!(
        twitch_credentials_ok("", "tok", "chan").unwrap_err(),
        "Twitch credentials not configured"
    );
    assert!(twitch_credentials_ok("id", "", "chan").is_err());
    assert!(twitch_credentials_ok("id", "tok", "").is_err());
    assert_eq!(twitch_users_url("ana"), "https://api.twitch.tv/helix/users?login=ana");
    assert_eq!(twitch_streams_url("77"), "https://api.twitch.tv/helix/streams?user_id=77");
    assert_eq!(bearer_header("tok"), "Bearer tok");
    let mut st = twitch_state_start();
    assert!(!twitch_ready(&st));
    twitch_init_apply(
        &mut st,
        String::from("ana"),
        String::from("id"),
        String::from("tok"),
        String::from("77"),
    );
    assert!(twitch_ready(&st));
    twitch_apply_stream(&mut st, 1234, true, 50);
    assert_eq!(st.viewers, 1234);
    assert!(st.is_live);
    assert_eq!(st.last_update, 50);
    twitch_apply_followers(&mut st, 999);
    assert_eq!(st.followers, 999);
}

#[test]
fn the_preset_catalog_is_complete() {
    let presets = get_preset_commands();
    assert_eq!(presets.len(), 77);
    assert_eq!(presets[0].0, "Vol +");
    assert_eq!(presets[0].1, "wpctl set-volume @DEFAULT_AUDIO_SINK@ 5%+");
    let copy_paste = presets.iter().find(|p| p.0 == "Copy+Paste").unwrap();
    assert_eq!(copy_paste.1, "__MULTI___KEY_ctrl+c;;__DELAY_500;;__KEY_ctrl+v");
    let last = presets.last().unwrap();
    assert_eq!(last.1, "__PAGE_0__");
    for (label, command, description) in &presets {
        assert!(!label.is_empty());
        assert!(!command.is_empty());
        assert!(!description.is_empty());
    }
}

#[test]
fn the_clock_ticks_forward() {
    let a = chrono_lite();
    let b = chrono_lite();
    assert!(b >= a);
    assert!(a > 1_600_000_000);
}

#[test]
fn live_clock_texts_have_their_shapes() {
    let hm = macropad::clock::get_widget_clock();
    assert_eq!(hm.len(), 5);
    assert_eq!(hm.as_bytes()[2], b':');
    let hms = macropad::clock::get_widget_clock_seconds();
    assert_eq!(hms.len(), 8);
    let dm = macropad::clock::get_widget_date();
    assert_eq!(dm.len(), 5);
    assert_eq!(dm.as_bytes()[2], b'/');
    let dmy = macropad::clock::get_widget_date_full();
    assert!(dmy.len() >= 10);
    let wd = macropad::clock::get_widget_weekday();
    assert!(["Dom", "Lun", "Mar", "Mié", "Jue", "Vie", "Sáb"].contains(&wd.as_str()));
}
