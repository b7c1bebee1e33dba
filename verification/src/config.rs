//! The configuration model: per-key button settings, pages of fifteen
//! buttons, and the top-level configuration with brightness and the
//! current page. Mutations keep the well-formedness invariant; reading
//! and writing the configuration file is the caller's concern.

use vstd::prelude::*;
use crate::strutil::parse_u64;

verus! {

/// Number of keys on the pad.
pub const KEY_COUNT: usize = 15;

/// Settings of one key: label text, command text, background color as
/// `#RRGGBB` hex, and an icon file name (empty = none).
#[derive(Debug, Clone)]
pub struct ButtonConfig {
    pub label: String,
    pub command: String,
    pub color: String,
    pub icon: String,
}

/// A named page of fifteen buttons; the button at index `i` belongs to
/// logical key `i + 1`.
#[derive(Debug, Clone)]
pub struct Page {
    pub name: String,
    pub buttons: Vec<ButtonConfig>,
}

/// The whole configuration: brightness percent, the index of the page
/// shown on the device, and at least one page.
#[derive(Debug, Clone)]
pub struct Config {
    pub brightness: u8,
    pub current_page: usize,
    pub pages: Vec<Page>,
}

/// Connection state reported to the caller.
#[derive(Debug, Clone)]
pub struct StatusResponse {
    pub connected: bool,
}

/// In-memory application state: the configuration and where it lives on
/// disk. Locking and persistence belong to the embedding program.
#[derive(Debug, Clone)]
pub struct AppState {
    pub config: Config,
    pub device_connected: bool,
    pub config_path: String,
    pub icons_path: String,
}

/// A button with every field empty and the default dark color.
pub open spec fn is_default_button(b: ButtonConfig) -> bool {
    &&& b.label@ == Seq::<char>::empty()
    &&& b.command@ == Seq::<char>::empty()
    &&& b.color@ == "#1a1a2e"@
    &&& b.icon@ == Seq::<char>::empty()
}

/// A page is well formed when it has exactly fifteen buttons.
pub open spec fn page_wf(p: Page) -> bool {
    p.buttons@.len() == KEY_COUNT
}

/// The configuration invariant: brightness within 0..=100, at least one
/// page, a valid current page index, and every page well formed.
pub open spec fn config_wf(c: Config) -> bool {
    &&& c.brightness <= 100
    &&& c.pages@.len() >= 1
    &&& c.current_page < c.pages@.len()
    &&& forall|i: int| 0 <= i < c.pages@.len() ==> page_wf(#[trigger] c.pages@[i])
}

/// Builds the default button: all fields empty, dark background.
pub fn default_button() -> (r: ButtonConfig)
    ensures
        is_default_button(r),
{
    ButtonConfig {
        label: String::new(),
        command: String::new(),
        color: String::from_str("#1a1a2e"),
        icon: String::new(),
    }
}

/// Builds a page of fifteen default buttons with the given name.
pub fn blank_page(name: String) -> (r: Page)
    ensures
        page_wf(r),
        r.name == name,
        forall|i: int| 0 <= i < KEY_COUNT ==> is_default_button(#[trigger] r.buttons@[i]),
{
    let mut buttons: Vec<ButtonConfig> = Vec::new();
    let mut i: usize = 0;
    while i < 15
        invariant
            i <= 15,
            buttons@.len() == i,
            forall|k: int| 0 <= k < i ==> is_default_button(#[trigger] buttons@[k]),
        decreases 15 - i,
    {
        buttons.push(default_button());
        i += 1;
    }
    Page { name, buttons }
}

impl AppState {
    /// The seeded default configuration: brightness 50, one page named
    /// "Principal" whose buttons are blank except key 5, which turns the
    /// page.
    pub fn default_config() -> (r: Config)
        ensures
            config_wf(r),
            r.brightness == 50,
            r.current_page == 0,
            r.pages@.len() == 1,
            r.pages@[0].name@ == "Principal"@,
            forall|i: int|
                0 <= i < KEY_COUNT && i != 4 ==> is_default_button(#[trigger] r.pages@[0].buttons@[i]),
            r.pages@[0].buttons@[4].label@ == ">>"@,
            r.pages@[0].buttons@[4].command@ == "__NEXT_PAGE__"@,
            r.pages@[0].buttons@[4].color@ == "#e94560"@,
            r.pages@[0].buttons@[4].icon@ == Seq::<char>::empty(),
    {
        let mut page = blank_page(String::from_str("Principal"));
        let next_button = ButtonConfig {
            label: String::from_str(">>"),
            command: String::from_str("__NEXT_PAGE__"),
            color: String::from_str("#e94560"),
            icon: String::new(),
        };
        page.buttons.set(4, next_button);
        let mut pages: Vec<Page> = Vec::new();
        pages.push(page);
        Config { brightness: 50, current_page: 0, pages }
    }
}

/// Selects the shown page; an out-of-range index leaves the configuration
/// unchanged.
pub fn set_page(config: &mut Config, index: usize)
    requires
        config_wf(*old(config)),
    ensures
        config_wf(*final(config)),
        index < old(config).pages@.len() ==> *final(config) == (Config {
            current_page: index,
            ..*old(config)
        }),
        index >= old(config).pages@.len() ==> *final(config) == *old(config),
{
    if index < config.pages.len() {
        config.current_page = index;
    }
}

/// Appends a new page of blank buttons and returns its index.
pub fn add_page(config: &mut Config, name: String) -> (r: usize)
    requires
        config_wf(*old(config)),
        old(config).pages@.len() < usize::MAX,
    ensures
        config_wf(*final(config)),
        r == old(config).pages@.len(),
        final(config).pages@.len() == old(config).pages@.len() + 1,
        final(config).pages@.subrange(0, old(config).pages@.len() as int) == old(config).pages@,
        final(config).pages@.last().name == name,
        page_wf(final(config).pages@.last()),
        forall|i: int|
            0 <= i < KEY_COUNT ==> is_default_button(#[trigger] final(config).pages@.last().buttons@[i]),
        final(config).brightness == old(config).brightness,
        final(config).current_page == old(config).current_page,
{
    let page = blank_page(name);
    config.pages.push(page);
    let idx = config.pages.len() - 1;
    proof {
        assert(final(config).pages@.subrange(0, old(config).pages@.len() as int) =~= old(config).pages@);
    }
    idx
}

/// Deletes a page. The last remaining page cannot be deleted; an
/// out-of-range index deletes nothing. The current page index is clamped
/// to the new page count.
pub fn delete_page(config: &mut Config, index: usize) -> (r: Result<(), String>)
    requires
        config_wf(*old(config)),
    ensures
        config_wf(*final(config)),
        r is Err <==> old(config).pages@.len() <= 1,
        r matches Err(e) ==> e@ == "Cannot delete the last page"@ && *final(config) == *old(
            config,
        ),
        r is Ok && index < old(config).pages@.len() ==> {
            &&& final(config).pages@ == old(config).pages@.remove(index as int)
            &&& final(config).current_page == if old(config).current_page
                < old(config).pages@.len() - 1 {
                old(config).current_page as int
            } else {
                old(config).pages@.len() - 2
            }
            &&& final(config).brightness == old(config).brightness
        },
        r is Ok && index >= old(config).pages@.len() ==> *final(config) == *old(config),
{
    if config.pages.len() <= 1 {
        return Err(String::from_str("Cannot delete the last page"));
    }
    if index < config.pages.len() {
        config.pages.remove(index);
        if config.current_page >= config.pages.len() {
            config.current_page = config.pages.len() - 1;
        }
    }
    Ok(())
}

/// Renames a page; an out-of-range index renames nothing.
pub fn update_page_name(config: &mut Config, index: usize, name: String)
    requires
        config_wf(*old(config)),
    ensures
        config_wf(*final(config)),
        final(config).brightness == old(config).brightness,
        final(config).current_page == old(config).current_page,
        final(config).pages@.len() == old(config).pages@.len(),
        index >= old(config).pages@.len() ==> *final(config) == *old(config),
        index < old(config).pages@.len() ==> {
            &&& forall|i: int|
                0 <= i < old(config).pages@.len() && i != index
                    ==> #[trigger] final(config).pages@[i] == old(config).pages@[i]
            &&& final(config).pages@[index as int].name == name
            &&& final(config).pages@[index as int].buttons == old(config).pages@[index as int].buttons
        },
{
    if index < config.pages.len() {
        let page = &mut config.pages[index];
        page.name = name;
    }
}

/// The logical key id named by a button id string: 1..=15, or nothing.
pub open spec fn spec_button_key(id: Seq<char>) -> Option<u8> {
    match crate::strutil::spec_parse_u64(id) {
        Some(v) => if 1 <= v <= 15 {
            Some(v as u8)
        } else {
            None
        },
        None => None,
    }
}

/// Replaces the button that `button_id` names ("1".."15") on the given
/// page. An out-of-range page index or an id that names no key changes
/// nothing.
pub fn update_button(config: &mut Config, page_index: usize, button_id: &str, button: ButtonConfig)
    requires
        config_wf(*old(config)),
    ensures
        config_wf(*final(config)),
        final(config).brightness == old(config).brightness,
        final(config).current_page == old(config).current_page,
        final(config).pages@.len() == old(config).pages@.len(),
        page_index >= old(config).pages@.len() || spec_button_key(button_id@) is None ==> *final(config) == *old(config),
        page_index < old(config).pages@.len() && spec_button_key(button_id@) is Some ==> {
            let key = spec_button_key(button_id@).unwrap();
            &&& forall|i: int|
                0 <= i < old(config).pages@.len() && i != page_index
                    ==> #[trigger] final(config).pages@[i] == old(config).pages@[i]
            &&& final(config).pages@[page_index as int].name == old(config).pages@[page_index as int].name
            &&& final(config).pages@[page_index as int].buttons@ == old(config).pages@[page_index as int].buttons@.update(key - 1, button)
        },
{
    if page_index >= config.pages.len() {
        return ;
    }
    let key: usize = match parse_u64(button_id) {
        Some(v) => if 1 <= v && v <= 15 {
            v as usize
        } else {
            return ;
        },
        None => {
            return ;
        },
    };
    let page = &mut config.pages[page_index];
    page.buttons.set(key - 1, button);
}

/// Sets the brightness percent. Values above 100 are rejected, keeping
/// the configuration invariant.
pub fn set_brightness_level(config: &mut Config, brightness: u8) -> (r: Result<(), String>)
    requires
        config_wf(*old(config)),
    ensures
        config_wf(*final(config)),
        r is Ok <==> brightness <= 100,
        brightness <= 100 ==> *final(config) == (Config { brightness, ..*old(config) }),
        brightness > 100 ==> *final(config) == *old(config),
{
    if brightness > 100 {
        return Err(String::from_str("Brightness must be between 0 and 100"));
    }
    config.brightness = brightness;
    Ok(())
}

/// Resets every button of a page to the default; an out-of-range index is
/// an error.
pub fn clear_page_buttons(config: &mut Config, page_index: usize) -> (r: Result<(), String>)
    requires
        config_wf(*old(config)),
    ensures
        config_wf(*final(config)),
        r is Err <==> page_index >= old(config).pages@.len(),
        r matches Err(e) ==> e@ == "Invalid page index"@ && *final(config) == *old(config),
        r is Ok ==> {
            &&& final(config).brightness == old(config).brightness
            &&& final(config).current_page == old(config).current_page
            &&& final(config).pages@.len() == old(config).pages@.len()
            &&& forall|i: int|
                0 <= i < old(config).pages@.len() && i != page_index
                    ==> #[trigger] final(config).pages@[i] == old(config).pages@[i]
            &&& final(config).pages@[page_index as int].name == old(config).pages@[page_index as int].name
            &&& page_wf(final(config).pages@[page_index as int])
            &&& forall|i: int|
                0 <= i < KEY_COUNT
                    ==> is_default_button(#[trigger] final(config).pages@[page_index as int].buttons@[i])
        },
{
    if page_index >= config.pages.len() {
        return Err(String::from_str("Invalid page index"));
    }
    let page = &mut config.pages[page_index];
    let mut i: usize = 0;
    while i < 15
        invariant
            i <= 15,
            page.buttons@.len() == KEY_COUNT,
            page.name == old(config).pages@[page_index as int].name,
            forall|k: int| 0 <= k < i ==> is_default_button(#[trigger] page.buttons@[k]),
        decreases 15 - i,
    {
        page.buttons.set(i, default_button());
        i += 1;
    }
    Ok(())
}

/// Restores the default configuration: brightness 50, one page named
/// "Principal" of blank buttons, key 5 turning the page.
pub fn reset_config(config: &mut Config)
    ensures
        config_wf(*final(config)),
        final(config).brightness == 50,
        final(config).current_page == 0,
        final(config).pages@.len() == 1,
        final(config).pages@[0].name@ == "Principal"@,
        forall|i: int|
            0 <= i < KEY_COUNT && i != 4 ==> is_default_button(
                #[trigger] final(config).pages@[0].buttons@[i],
            ),
        final(config).pages@[0].buttons@[4].label@ == ">>"@,
        final(config).pages@[0].buttons@[4].command@ == "__NEXT_PAGE__"@,
        final(config).pages@[0].buttons@[4].color@ == "#e94560"@,
        final(config).pages@[0].buttons@[4].icon@ == Seq::<char>::empty(),
{
    *config = AppState::default_config();
}

} // verus!

verus! {

/// Checks the configuration invariant.
pub fn config_is_wf(c: &Config) -> (r: bool)
    ensures
        r == config_wf(*c),
{
    if c.brightness > 100 {
        return false;
    }
    if c.pages.len() < 1 {
        return false;
    }
    if c.current_page >= c.pages.len() {
        return false;
    }
    let mut i: usize = 0;
    while i < c.pages.len()
        invariant
            i <= c.pages@.len(),
            forall|k: int| 0 <= k < i ==> page_wf(#[trigger] c.pages@[k]),
        decreases c.pages@.len() - i,
    {
        if c.pages[i].buttons.len() != 15 {
            proof {
                assert(!page_wf(c.pages@[i as int]));
            }
            return false;
        }
        i += 1;
    }
    true
}

/// Accepts a configuration read from disk: kept as it is when well
/// formed, replaced with the default otherwise.
pub fn accept_config(c: Config) -> (r: Config)
    ensures
        config_wf(r),
        config_wf(c) ==> r == c,
        !config_wf(c) ==> {
            &&& r.brightness == 50
            &&& r.current_page == 0
            &&& r.pages@.len() == 1
            &&& r.pages@[0].name@ == "Principal"@
        },
{
    if config_is_wf(&c) {
        c
    } else {
        AppState::default_config()
    }
}

} // verus!
