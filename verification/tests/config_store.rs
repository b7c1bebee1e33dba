//! The configuration model: the default, the mutators and their errors,
//! and acceptance of what the disk held.

use macropad::config::{
    accept_config, add_page, blank_page, clear_page_buttons, config_is_wf, delete_page,
    set_brightness_level, set_page, update_button, update_page_name, AppState, ButtonConfig,
    Config,
};

fn custom_button() -> ButtonConfig {
    ButtonConfig {
        label: String::from("Go"),
        command: String::from("firefox"),
        color: String::from("#112233"),
        icon: String::from("fox.png"),
    }
}

#[test]
fn the_default_config_has_one_page_and_a_next_button_on_key_5() {
    let c = AppState::default_config();
    assert_eq!(c.brightness, 50);
    assert_eq!(c.current_page, 0);
    assert_eq!(c.pages.len(), 1);
    assert_eq!(c.pages[0].name, "Principal");
    assert_eq!(c.pages[0].buttons.len(), 15);
    let five = &c.pages[0].buttons[4];
    assert_eq!(five.label, ">>");
    assert_eq!(five.command, "__NEXT_PAGE__");
    assert_eq!(five.color, "#e94560");
    for (i, b) in c.pages[0].buttons.iter().enumerate() {
        if i != 4 {
            assert_eq!(b.label, "");
            assert_eq!(b.command, "");
            assert_eq!(b.color, "#1a1a2e");
            assert_eq!(b.icon, "");
        }
    }
    assert!(config_is_wf(&c));
}

#[test]
fn pages_can_be_added_renamed_and_selected() {
    let mut c = AppState::default_config();
    let idx = add_page(&mut c, String::from("Stream"));
    assert_eq!(idx, 1);
    assert_eq!(c.pages.len(), 2);
    assert_eq!(c.pages[1].name, "Stream");
    assert_eq!(c.pages[1].buttons.len(), 15);
    update_page_name(&mut c, 1, String::from("Juegos"));
    assert_eq!(c.pages[1].name, "Juegos");
    update_page_name(&mut c, 9, String::from("nope"));
    assert_eq!(c.pages.len(), 2);
    set_page(&mut c, 1);
    assert_eq!(c.current_page, 1);
    set_page(&mut c, 5);
    assert_eq!(c.current_page, 1);
}

#[test]
fn the_last_page_cannot_be_deleted() {
    let mut c = AppState::default_config();
    let r = delete_page(&mut c, 0);
    assert_eq!(r.unwrap_err(), "Cannot delete the last page");
    assert_eq!(c.pages.len(), 1);
}

#[test]
fn deleting_a_page_clamps_the_current_index() {
    let mut c = AppState::default_config();
    add_page(&mut c, String::from("B"));
    add_page(&mut c, String::from("C"));
    set_page(&mut c, 2);
    delete_page(&mut c, 2).unwrap();
    assert_eq!(c.pages.len(), 2);
    assert_eq!(c.current_page, 1);
    // deleting past the end changes nothing
    delete_page(&mut c, 7).unwrap();
    assert_eq!(c.pages.len(), 2);
}

#[test]
fn buttons_update_by_their_id_text() {
    let mut c = AppState::default_config();
    update_button(&mut c, 0, "3", custom_button());
    assert_eq!(c.pages[0].buttons[2].label, "Go");
    assert_eq!(c.pages[0].buttons[2].command, "firefox");
    // ids that name no key leave the page alone
    update_button(&mut c, 0, "0", custom_button());
    update_button(&mut c, 0, "16", custom_button());
    update_button(&mut c, 0, "x", custom_button());
    update_button(&mut c, 4, "1", custom_button());
    assert_eq!(c.pages[0].buttons[0].label, "");
    assert_eq!(c.pages[0].buttons[14].label, "");
}

#[test]
fn brightness_is_bounded() {
    let mut c = AppState::default_config();
    set_brightness_level(&mut c, 75).unwrap();
    assert_eq!(c.brightness, 75);
    assert!(set_brightness_level(&mut c, 101).is_err());
    assert_eq!(c.brightness, 75);
    set_brightness_level(&mut c, 0).unwrap();
    assert_eq!(c.brightness, 0);
}

#[test]
fn clearing_a_page_restores_the_default_buttons() {
    let mut c = AppState::default_config();
    update_button(&mut c, 0, "2", custom_button());
    clear_page_buttons(&mut c, 0).unwrap();
    for b in &c.pages[0].buttons {
        assert_eq!(b.label, "");
        assert_eq!(b.command, "");
        assert_eq!(b.color, "#1a1a2e");
        assert_eq!(b.icon, "");
    }
    let r = clear_page_buttons(&mut c, 3);
    assert_eq!(r.unwrap_err(), "Invalid page index");
}

#[test]
fn broken_configs_from_disk_are_replaced_with_the_default() {
    let broken = Config { brightness: 200, current_page: 9, pages: Vec::new() };
    assert!(!config_is_wf(&broken));
    let fixed = accept_config(broken);
    assert_eq!(fixed.brightness, 50);
    assert_eq!(fixed.pages.len(), 1);
    assert_eq!(fixed.pages[0].name, "Principal");

    let mut short_page = Config {
        brightness: 10,
        current_page: 0,
        pages: vec![blank_page(String::from("P"))],
    };
    short_page.pages[0].buttons.pop();
    assert!(!config_is_wf(&short_page));
    let fixed = accept_config(short_page);
    assert_eq!(fixed.pages[0].buttons.len(), 15);

    let good = AppState::default_config();
    let kept = accept_config(good);
    assert_eq!(kept.pages[0].buttons[4].command, "__NEXT_PAGE__");
}
