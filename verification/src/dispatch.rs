//! The action dispatcher: classifying a button's command string, applying
//! page navigation and timer toggles to the state, and handing every other
//! action to the caller as a plain value to perform.

use vstd::prelude::*;
use vstd::arithmetic::div_mod::{
    lemma_fundamental_div_mod, lemma_fundamental_div_mod_converse, lemma_small_mod,
};
use crate::strutil::{
    has_prefix, starts_with, str_eq, ends_with, parse_u64, parse_u32, spec_parse_u64, spec_trim,
    trim, split_str, spec_split,
};
use crate::config::{Config, config_wf};
use crate::widget::TimerState;

verus! {

/// What a command string asks for. Texts carry the remainder of the
/// command after its marker.
#[derive(Debug, Clone)]
pub enum Action {
    NextPage,
    PrevPage,
    GotoPage(u64),
    TimerToggle(u64),
    WidgetRefresh,
    ObsStream,
    ObsRecord,
    ObsMute,
    ObsScene(String),
    TwitchChat(String),
    TwitchClip,
    TwitchAd(u32),
    OpenUrl(String),
    Hotkey(String),
    TypeText(String),
    Multi(String),
    Shell(String),
    Nothing,
}

/// The mathematical image of an `Action`: texts as character sequences.
pub enum SpecAction {
    NextPage,
    PrevPage,
    GotoPage(u64),
    TimerToggle(u64),
    WidgetRefresh,
    ObsStream,
    ObsRecord,
    ObsMute,
    ObsScene(Seq<char>),
    TwitchChat(Seq<char>),
    TwitchClip,
    TwitchAd(u32),
    OpenUrl(Seq<char>),
    Hotkey(Seq<char>),
    TypeText(Seq<char>),
    Multi(Seq<char>),
    Shell(Seq<char>),
    Nothing,
}

impl View for Action {
    type V = SpecAction;

    open spec fn view(&self) -> SpecAction {
        match self {
            Action::NextPage => SpecAction::NextPage,
            Action::PrevPage => SpecAction::PrevPage,
            Action::GotoPage(n) => SpecAction::GotoPage(*n),
            Action::TimerToggle(m) => SpecAction::TimerToggle(*m),
            Action::WidgetRefresh => SpecAction::WidgetRefresh,
            Action::ObsStream => SpecAction::ObsStream,
            Action::ObsRecord => SpecAction::ObsRecord,
            Action::ObsMute => SpecAction::ObsMute,
            Action::ObsScene(s) => SpecAction::ObsScene(s@),
            Action::TwitchChat(s) => SpecAction::TwitchChat(s@),
            Action::TwitchClip => SpecAction::TwitchClip,
            Action::TwitchAd(n) => SpecAction::TwitchAd(*n),
            Action::OpenUrl(s) => SpecAction::OpenUrl(s@),
            Action::Hotkey(s) => SpecAction::Hotkey(s@),
            Action::TypeText(s) => SpecAction::TypeText(s@),
            Action::Multi(s) => SpecAction::Multi(s@),
            Action::Shell(s) => SpecAction::Shell(s@),
            Action::Nothing => SpecAction::Nothing,
        }
    }
}

/// The text between a marker such as `__PAGE_` and the closing `__`.
pub open spec fn between(cmd: Seq<char>, prefix_len: int) -> Seq<char> {
    cmd.subrange(prefix_len, cmd.len() - 2)
}

/// The text after a marker such as `__URL_`.
pub open spec fn after(cmd: Seq<char>, prefix_len: int) -> Seq<char> {
    cmd.subrange(prefix_len, cmd.len() as int)
}

/// How a command string is classified, first match winning: the navigation
/// markers, the timer, the display-only widget commands, OBS and Twitch
/// controls, URL, keystroke, text and multi markers, and finally a shell
/// command.
pub open spec fn spec_classify(cmd: Seq<char>) -> SpecAction {
    if cmd.len() == 0 {
        SpecAction::Nothing
    } else if cmd == "__NEXT_PAGE__"@ {
        SpecAction::NextPage
    } else if cmd == "__PREV_PAGE__"@ {
        SpecAction::PrevPage
    } else if has_prefix(cmd, "__PAGE_"@) && has_suffix2(cmd) {
        if cmd.len() >= 9 {
            match spec_parse_u64(between(cmd, 7)) {
                Some(n) => SpecAction::GotoPage(n),
                None => SpecAction::Nothing,
            }
        } else {
            SpecAction::Nothing
        }
    } else if has_prefix(cmd, "__TIMER_"@) && has_suffix2(cmd) {
        if cmd.len() >= 10 {
            match spec_parse_u64(between(cmd, 8)) {
                Some(m) => SpecAction::TimerToggle(m),
                None => SpecAction::Nothing,
            }
        } else {
            SpecAction::Nothing
        }
    } else if crate::widget::spec_is_widget_command(cmd) {
        SpecAction::WidgetRefresh
    } else if cmd == "__OBS_STREAM__"@ {
        SpecAction::ObsStream
    } else if cmd == "__OBS_RECORD__"@ {
        SpecAction::ObsRecord
    } else if cmd == "__OBS_MUTE__"@ {
        SpecAction::ObsMute
    } else if has_prefix(cmd, "__OBS_SCENE_"@) {
        SpecAction::ObsScene(after(cmd, 12))
    } else if has_prefix(cmd, "__TWITCH_CHAT_"@) {
        SpecAction::TwitchChat(after(cmd, 14))
    } else if cmd == "__TWITCH_CLIP__"@ {
        SpecAction::TwitchClip
    } else if has_prefix(cmd, "__TWITCH_AD_"@) && has_suffix2(cmd) {
        if cmd.len() >= 14 {
            match spec_parse_u64(between(cmd, 12)) {
                Some(n) => if n <= u32::MAX as u64 {
                    SpecAction::TwitchAd(n as u32)
                } else {
                    SpecAction::Nothing
                },
                None => SpecAction::Nothing,
            }
        } else {
            SpecAction::Nothing
        }
    } else if has_prefix(cmd, "__URL_"@) {
        SpecAction::OpenUrl(after(cmd, 6))
    } else if has_prefix(cmd, "__TYPE_"@) {
        SpecAction::TypeText(after(cmd, 7))
    } else if has_prefix(cmd, "__KEY_"@) {
        SpecAction::Hotkey(after(cmd, 6))
    } else if has_prefix(cmd, "__MULTI_"@) {
        SpecAction::Multi(after(cmd, 8))
    } else {
        SpecAction::Shell(cmd)
    }
}

/// The command ends with `__`.
pub open spec fn has_suffix2(cmd: Seq<char>) -> bool {
    crate::strutil::has_suffix(cmd, "__"@)
}

/// Classifies a command string into the action it asks for.
pub fn classify_command(cmd: &str) -> (r: Action)
    ensures
        r@ == spec_classify(cmd@),
{
    proof {
        reveal_strlit("__PAGE_");
        reveal_strlit("__TIMER_");
        reveal_strlit("__OBS_SCENE_");
        reveal_strlit("__TWITCH_CHAT_");
        reveal_strlit("__TWITCH_AD_");
        reveal_strlit("__URL_");
        reveal_strlit("__TYPE_");
        reveal_strlit("__KEY_");
        reveal_strlit("__MULTI_");
        reveal_strlit("__");
    }
    let len = cmd.unicode_len();
    if len == 0 {
        return Action::Nothing;
    }
    if str_eq(cmd, "__NEXT_PAGE__") {
        return Action::NextPage;
    }
    if str_eq(cmd, "__PREV_PAGE__") {
        return Action::PrevPage;
    }
    if starts_with(cmd, "__PAGE_") && ends_with(cmd, "__") {
        if len < 9 {
            return Action::Nothing;
        }
        let body = cmd.substring_char(7, len - 2);
        return match parse_u64(body) {
            Some(n) => Action::GotoPage(n),
            None => Action::Nothing,
        };
    }
    if starts_with(cmd, "__TIMER_") && ends_with(cmd, "__") {
        if len < 10 {
            return Action::Nothing;
        }
        let body = cmd.substring_char(8, len - 2);
        return match parse_u64(body) {
            Some(m) => Action::TimerToggle(m),
            None => Action::Nothing,
        };
    }
    if crate::widget::is_widget_command(cmd) {
        return Action::WidgetRefresh;
    }
    if str_eq(cmd, "__OBS_STREAM__") {
        return Action::ObsStream;
    }
    if str_eq(cmd, "__OBS_RECORD__") {
        return Action::ObsRecord;
    }
    if str_eq(cmd, "__OBS_MUTE__") {
        return Action::ObsMute;
    }
    if starts_with(cmd, "__OBS_SCENE_") {
        return Action::ObsScene(cmd.substring_char(12, len).to_owned());
    }
    if starts_with(cmd, "__TWITCH_CHAT_") {
        return Action::TwitchChat(cmd.substring_char(14, len).to_owned());
    }
    if str_eq(cmd, "__TWITCH_CLIP__") {
        return Action::TwitchClip;
    }
    if starts_with(cmd, "__TWITCH_AD_") && ends_with(cmd, "__") {
        if len < 14 {
            return Action::Nothing;
        }
        let body = cmd.substring_char(12, len - 2);
        return match parse_u32(body) {
            Some(n) => Action::TwitchAd(n),
            None => Action::Nothing,
        };
    }
    if starts_with(cmd, "__URL_") {
        return Action::OpenUrl(cmd.substring_char(6, len).to_owned());
    }
    if starts_with(cmd, "__TYPE_") {
        return Action::TypeText(cmd.substring_char(7, len).to_owned());
    }
    if starts_with(cmd, "__KEY_") {
        return Action::Hotkey(cmd.substring_char(6, len).to_owned());
    }
    if starts_with(cmd, "__MULTI_") {
        return Action::Multi(cmd.substring_char(8, len).to_owned());
    }
    Action::Shell(cmd.to_owned())
}

} // verus!

verus! {

/// What the caller must perform after a press: nothing, a page reload, a
/// refresh signal, or an outward action carried as plain values.
#[derive(Debug, Clone)]
pub enum Effect {
    Idle,
    Reload,
    Refresh,
    ObsStream,
    ObsRecord,
    ObsMute,
    ObsScene(String),
    TwitchChat(String),
    TwitchClip,
    TwitchAd(u32),
    OpenUrl(String),
    Hotkey(String),
    TypeText(String),
    Multi(String),
    Shell(String),
}

/// The mathematical image of an `Effect`.
pub enum SpecEffect {
    Idle,
    Reload,
    Refresh,
    ObsStream,
    ObsRecord,
    ObsMute,
    ObsScene(Seq<char>),
    TwitchChat(Seq<char>),
    TwitchClip,
    TwitchAd(u32),
    OpenUrl(Seq<char>),
    Hotkey(Seq<char>),
    TypeText(Seq<char>),
    Multi(Seq<char>),
    Shell(Seq<char>),
}

impl View for Effect {
    type V = SpecEffect;

    open spec fn view(&self) -> SpecEffect {
        match self {
            Effect::Idle => SpecEffect::Idle,
            Effect::Reload => SpecEffect::Reload,
            Effect::Refresh => SpecEffect::Refresh,
            Effect::ObsStream => SpecEffect::ObsStream,
            Effect::ObsRecord => SpecEffect::ObsRecord,
            Effect::ObsMute => SpecEffect::ObsMute,
            Effect::ObsScene(s) => SpecEffect::ObsScene(s@),
            Effect::TwitchChat(s) => SpecEffect::TwitchChat(s@),
            Effect::TwitchClip => SpecEffect::TwitchClip,
            Effect::TwitchAd(n) => SpecEffect::TwitchAd(*n),
            Effect::OpenUrl(s) => SpecEffect::OpenUrl(s@),
            Effect::Hotkey(s) => SpecEffect::Hotkey(s@),
            Effect::TypeText(s) => SpecEffect::TypeText(s@),
            Effect::Multi(s) => SpecEffect::Multi(s@),
            Effect::Shell(s) => SpecEffect::Shell(s@),
        }
    }
}

/// The page index after one `__NEXT_PAGE__` press.
pub open spec fn spec_next_page(cur: int, len: int) -> int {
    (cur + 1) % len
}

/// The page index after one `__PREV_PAGE__` press.
pub open spec fn spec_prev_page(cur: int, len: int) -> int {
    if cur == 0 {
        len - 1
    } else {
        cur - 1
    }
}

/// The command on the current page under a logical key, for a well-formed
/// configuration and a key in 1..=15.
pub open spec fn spec_pressed_command(c: Config, key_id: u8) -> Seq<char> {
    c.pages@[c.current_page as int].buttons@[key_id - 1].command@
}

/// The configuration after a press: only the navigation commands move the
/// current page; everything else leaves the configuration alone.
pub open spec fn spec_config_after_press(c: Config, key_id: u8) -> Config {
    if !(1 <= key_id <= 15) {
        c
    } else {
        let len = c.pages@.len() as int;
        match spec_classify(spec_pressed_command(c, key_id)) {
            SpecAction::NextPage => (Config {
                current_page: spec_next_page(c.current_page as int, len) as usize,
                ..c
            }),
            SpecAction::PrevPage => (Config {
                current_page: spec_prev_page(c.current_page as int, len) as usize,
                ..c
            }),
            SpecAction::GotoPage(n) => if n < len {
                (Config { current_page: n as usize, ..c })
            } else {
                c
            },
            _ => c,
        }
    }
}

/// The timer duration a `__TIMER_N__` press asks for: N minutes in
/// seconds, saturating.
pub open spec fn spec_timer_secs(minutes: u64) -> u64 {
    if minutes <= u64::MAX as int / 60 {
        (minutes * 60) as u64
    } else {
        u64::MAX
    }
}

/// The timer state after a press: a timer command toggles it — starting
/// it at `now` when idle, resetting it when running; everything else
/// leaves it alone.
pub open spec fn spec_timer_after_press(c: Config, key_id: u8, t: TimerState, now: u64) -> TimerState {
    if !(1 <= key_id <= 15) {
        t
    } else {
        match spec_classify(spec_pressed_command(c, key_id)) {
            SpecAction::TimerToggle(m) => if t.start > 0 {
                (TimerState { start: 0, duration: 0 })
            } else {
                (TimerState { start: now, duration: spec_timer_secs(m) })
            },
            _ => t,
        }
    }
}

/// The effect a press hands back to the caller.
pub open spec fn spec_press_effect(c: Config, key_id: u8) -> SpecEffect {
    if !(1 <= key_id <= 15) {
        SpecEffect::Idle
    } else {
        let len = c.pages@.len() as int;
        match spec_classify(spec_pressed_command(c, key_id)) {
            SpecAction::Nothing => SpecEffect::Idle,
            SpecAction::NextPage => SpecEffect::Reload,
            SpecAction::PrevPage => SpecEffect::Reload,
            SpecAction::GotoPage(n) => if n < len {
                SpecEffect::Reload
            } else {
                SpecEffect::Idle
            },
            SpecAction::TimerToggle(m) => SpecEffect::Refresh,
            SpecAction::WidgetRefresh => SpecEffect::Refresh,
            SpecAction::ObsStream => SpecEffect::ObsStream,
            SpecAction::ObsRecord => SpecEffect::ObsRecord,
            SpecAction::ObsMute => SpecEffect::ObsMute,
            SpecAction::ObsScene(s) => SpecEffect::ObsScene(s),
            SpecAction::TwitchChat(s) => SpecEffect::TwitchChat(s),
            SpecAction::TwitchClip => SpecEffect::TwitchClip,
            SpecAction::TwitchAd(n) => SpecEffect::TwitchAd(n),
            SpecAction::OpenUrl(s) => SpecEffect::OpenUrl(s),
            SpecAction::Hotkey(s) => SpecEffect::Hotkey(s),
            SpecAction::TypeText(s) => SpecEffect::TypeText(s),
            SpecAction::Multi(s) => SpecEffect::Multi(s),
            SpecAction::Shell(s) => SpecEffect::Shell(s),
        }
    }
}

/// Moves to the given page when it exists; says whether it moved.
pub fn change_page(config: &mut Config, page_index: usize) -> (r: bool)
    requires
        config_wf(*old(config)),
    ensures
        config_wf(*final(config)),
        r == (page_index < old(config).pages@.len()),
        r ==> *final(config) == (Config { current_page: page_index, ..*old(config) }),
        !r ==> *final(config) == *old(config),
{
    if page_index < config.pages.len() {
        config.current_page = page_index;
        true
    } else {
        false
    }
}

/// Handles one keypress: looks up the pressed button's command on the
/// current page, applies page navigation to the configuration and timer
/// toggles to the timer state, and returns what else the caller must
/// perform. A key outside 1..=15 or an empty command does nothing.
pub fn handle_button_press(key_id: u8, config: &mut Config, timer: &mut TimerState, now: u64) -> (r:
    Effect)
    requires
        config_wf(*old(config)),
    ensures
        config_wf(*final(config)),
        *final(config) == spec_config_after_press(*old(config), key_id),
        *final(timer) == spec_timer_after_press(*old(config), key_id, *old(timer), now),
        r@ == spec_press_effect(*old(config), key_id),
{
    if !(1 <= key_id && key_id <= 15) {
        return Effect::Idle;
    }
    let cur = config.current_page;
    let cmd = config.pages[cur].buttons[(key_id - 1) as usize].command.clone();
    proof {
        assert(cmd@ == spec_pressed_command(*old(config), key_id));
    }
    match classify_command(cmd.as_str()) {
        Action::Nothing => Effect::Idle,
        Action::NextPage => {
            let len = config.pages.len();
            let target = (cur + 1) % len;
            change_page(config, target);
            Effect::Reload
        },
        Action::PrevPage => {
            let len = config.pages.len();
            let target = if cur == 0 {
                len - 1
            } else {
                cur - 1
            };
            change_page(config, target);
            Effect::Reload
        },
        Action::GotoPage(n) => {
            if n < config.pages.len() as u64 {
                change_page(config, n as usize);
                Effect::Reload
            } else {
                Effect::Idle
            }
        },
        Action::TimerToggle(m) => {
            if timer.start > 0 {
                crate::widget::stop_timer(timer);
            } else {
                let secs: u64 = if m <= u64::MAX / 60 {
                    m * 60
                } else {
                    u64::MAX
                };
                crate::widget::start_timer(timer, now, secs);
            }
            Effect::Refresh
        },
        Action::WidgetRefresh => Effect::Refresh,
        Action::ObsStream => Effect::ObsStream,
        Action::ObsRecord => Effect::ObsRecord,
        Action::ObsMute => Effect::ObsMute,
        Action::ObsScene(s) => Effect::ObsScene(s),
        Action::TwitchChat(s) => Effect::TwitchChat(s),
        Action::TwitchClip => Effect::TwitchClip,
        Action::TwitchAd(n) => Effect::TwitchAd(n),
        Action::OpenUrl(s) => Effect::OpenUrl(s),
        Action::Hotkey(s) => Effect::Hotkey(s),
        Action::TypeText(s) => Effect::TypeText(s),
        Action::Multi(s) => Effect::Multi(s),
        Action::Shell(s) => Effect::Shell(s),
    }
}

} // verus!

verus! {

/// One step of a `__MULTI_` command.
#[derive(Debug, Clone)]
pub enum MultiStep {
    Url(String),
    Type(String),
    Key(String),
    Delay(u64),
    Shell(String),
}

/// The mathematical image of a `MultiStep`.
pub enum SpecMultiStep {
    Url(Seq<char>),
    Type(Seq<char>),
    Key(Seq<char>),
    Delay(u64),
    Shell(Seq<char>),
}

impl View for MultiStep {
    type V = SpecMultiStep;

    open spec fn view(&self) -> SpecMultiStep {
        match self {
            MultiStep::Url(s) => SpecMultiStep::Url(s@),
            MultiStep::Type(s) => SpecMultiStep::Type(s@),
            MultiStep::Key(s) => SpecMultiStep::Key(s@),
            MultiStep::Delay(ms) => SpecMultiStep::Delay(*ms),
            MultiStep::Shell(s) => SpecMultiStep::Shell(s@),
        }
    }
}

/// How one trimmed, non-empty step is read: a URL, typed text, a key
/// chord, a pause (an unreadable pause length pauses not at all), or a
/// shell command.
pub open spec fn spec_multi_step(t: Seq<char>) -> SpecMultiStep {
    if has_prefix(t, "__URL_"@) {
        SpecMultiStep::Url(after(t, 6))
    } else if has_prefix(t, "__TYPE_"@) {
        SpecMultiStep::Type(after(t, 7))
    } else if has_prefix(t, "__KEY_"@) {
        SpecMultiStep::Key(after(t, 6))
    } else if has_prefix(t, "__DELAY_"@) {
        match spec_parse_u64(after(t, 8)) {
            Some(ms) => SpecMultiStep::Delay(ms),
            None => SpecMultiStep::Delay(0),
        }
    } else {
        SpecMultiStep::Shell(t)
    }
}

/// The steps of a split `__MULTI_` body: each part trimmed, empty parts
/// skipped, the rest read as steps.
pub open spec fn spec_multi_steps_of(parts: Seq<Seq<char>>) -> Seq<SpecMultiStep>
    decreases parts.len(),
{
    if parts.len() == 0 {
        Seq::empty()
    } else {
        let rest = spec_multi_steps_of(parts.drop_last());
        let t = spec_trim(parts.last());
        if t.len() == 0 {
            rest
        } else {
            rest + seq![spec_multi_step(t)]
        }
    }
}

/// The steps of a `__MULTI_` command body: the body split on `;;`, each
/// part trimmed, empty parts skipped.
pub open spec fn spec_multi_steps(body: Seq<char>) -> Seq<SpecMultiStep> {
    spec_multi_steps_of(spec_split(body, ";;"@))
}

/// Reads one trimmed, non-empty step.
fn parse_multi_step(t: &str) -> (r: MultiStep)
    ensures
        r@ == spec_multi_step(t@),
{
    proof {
        reveal_strlit("__URL_");
        reveal_strlit("__TYPE_");
        reveal_strlit("__KEY_");
        reveal_strlit("__DELAY_");
    }
    let len = t.unicode_len();
    if starts_with(t, "__URL_") {
        MultiStep::Url(t.substring_char(6, len).to_owned())
    } else if starts_with(t, "__TYPE_") {
        MultiStep::Type(t.substring_char(7, len).to_owned())
    } else if starts_with(t, "__KEY_") {
        MultiStep::Key(t.substring_char(6, len).to_owned())
    } else if starts_with(t, "__DELAY_") {
        match parse_u64(t.substring_char(8, len)) {
            Some(ms) => MultiStep::Delay(ms),
            None => MultiStep::Delay(0),
        }
    } else {
        MultiStep::Shell(t.to_owned())
    }
}

/// Splits a `__MULTI_` command body on `;;` into its steps, trimming each
/// and skipping empty ones. The caller performs the steps in order, with
/// its pause between them.
pub fn parse_multi_steps(body: &str) -> (r: Vec<MultiStep>)
    ensures
        r@.map_values(|m: MultiStep| m@) == spec_multi_steps(body@),
{
    proof {
        reveal_strlit(";;");
    }
    let parts = split_str(body, ";;");
    let mut r: Vec<MultiStep> = Vec::new();
    let mut i: usize = 0;
    proof {
        assert(parts@.map_values(|t: String| t@).subrange(0, 0) =~= Seq::<Seq<char>>::empty());
        assert(spec_multi_steps_of(Seq::<Seq<char>>::empty()) =~= Seq::<SpecMultiStep>::empty());
        assert(r@.map_values(|m: MultiStep| m@) =~= Seq::<SpecMultiStep>::empty());
    }
    while i < parts.len()
        invariant
            i <= parts@.len(),
            r@.map_values(|m: MultiStep| m@) == spec_multi_steps_of(
                parts@.map_values(|t: String| t@).subrange(0, i as int),
            ),
        decreases parts@.len() - i,
    {
        let trimmed = trim(parts[i].as_str());
        let ghost prefix_before = parts@.map_values(|t: String| t@).subrange(0, i as int);
        let ghost prefix_after = parts@.map_values(|t: String| t@).subrange(0, i + 1);
        proof {
            assert(prefix_after.drop_last() =~= prefix_before);
            assert(prefix_after.last() == parts@[i as int]@);
        }
        if trimmed.unicode_len() > 0 {
            let step = parse_multi_step(trimmed.as_str());
            r.push(step);
            proof {
                assert(r@.map_values(|m: MultiStep| m@) =~= spec_multi_steps_of(prefix_after));
            }
        } else {
            proof {
                assert(r@.map_values(|m: MultiStep| m@) =~= spec_multi_steps_of(prefix_after));
            }
        }
        i += 1;
    }
    proof {
        assert(parts@.map_values(|t: String| t@).subrange(
            0,
            parts@.len() as int,
        ) =~= parts@.map_values(|t: String| t@));
    }
    r
}

/// What a command sent from the configuration surface runs: only the URL,
/// text, key-chord and multi markers are special there; anything else,
/// empty aside, is a shell command.
pub open spec fn spec_classify_gui(cmd: Seq<char>) -> SpecAction {
    if cmd.len() == 0 {
        SpecAction::Nothing
    } else if has_prefix(cmd, "__URL_"@) {
        SpecAction::OpenUrl(after(cmd, 6))
    } else if has_prefix(cmd, "__TYPE_"@) {
        SpecAction::TypeText(after(cmd, 7))
    } else if has_prefix(cmd, "__KEY_"@) {
        SpecAction::Hotkey(after(cmd, 6))
    } else if has_prefix(cmd, "__MULTI_"@) {
        SpecAction::Multi(after(cmd, 8))
    } else {
        SpecAction::Shell(cmd)
    }
}

/// Classifies a command run directly from the configuration surface.
pub fn classify_gui_command(cmd: &str) -> (r: Action)
    ensures
        r@ == spec_classify_gui(cmd@),
{
    proof {
        reveal_strlit("__URL_");
        reveal_strlit("__TYPE_");
        reveal_strlit("__KEY_");
        reveal_strlit("__MULTI_");
    }
    let len = cmd.unicode_len();
    if len == 0 {
        Action::Nothing
    } else if starts_with(cmd, "__URL_") {
        Action::OpenUrl(cmd.substring_char(6, len).to_owned())
    } else if starts_with(cmd, "__TYPE_") {
        Action::TypeText(cmd.substring_char(7, len).to_owned())
    } else if starts_with(cmd, "__KEY_") {
        Action::Hotkey(cmd.substring_char(6, len).to_owned())
    } else if starts_with(cmd, "__MULTI_") {
        Action::Multi(cmd.substring_char(8, len).to_owned())
    } else {
        Action::Shell(cmd.to_owned())
    }
}

/// The page shown after pressing `__NEXT_PAGE__` `k` times.
pub open spec fn nth_next_page(start: int, len: int, k: nat) -> int
    decreases k,
{
    if k == 0 {
        start
    } else {
        spec_next_page(nth_next_page(start, len, (k - 1) as nat), len)
    }
}

/// The page shown after pressing `__PREV_PAGE__` `k` times.
pub open spec fn nth_prev_page(start: int, len: int, k: nat) -> int
    decreases k,
{
    if k == 0 {
        start
    } else {
        spec_prev_page(nth_prev_page(start, len, (k - 1) as nat), len)
    }
}

/// How many `__NEXT_PAGE__` presses reach page `p` from `start`.
pub open spec fn next_presses_to(start: int, len: int, p: int) -> nat {
    if p >= start {
        (p - start) as nat
    } else {
        (p + len - start) as nat
    }
}

/// How many `__PREV_PAGE__` presses reach page `p` from `start`.
pub open spec fn prev_presses_to(start: int, len: int, p: int) -> nat {
    if p <= start {
        (start - p) as nat
    } else {
        (start + len - p) as nat
    }
}

proof fn lemma_nth_next_formula(start: int, len: int, k: nat)
    requires
        0 <= start < len,
    ensures
        nth_next_page(start, len, k) == (start + k) % len,
        0 <= nth_next_page(start, len, k) < len,
    decreases k,
{
    if k == 0 {
        lemma_small_mod(start as nat, len as nat);
    } else {
        lemma_nth_next_formula(start, len, (k - 1) as nat);
        let p = nth_next_page(start, len, (k - 1) as nat);
        let q = (start + k - 1) / len;
        lemma_fundamental_div_mod(start + k - 1, len);
        assert(len * q == q * len) by (nonlinear_arith);
        if p + 1 < len {
            lemma_fundamental_div_mod_converse(p + 1, len, 0, p + 1);
            lemma_fundamental_div_mod_converse(start + k, len, q, p + 1);
        } else {
            lemma_fundamental_div_mod_converse(p + 1, len, 1, 0);
            assert((q + 1) * len == q * len + len) by (nonlinear_arith);
            lemma_fundamental_div_mod_converse(start + k, len, q + 1, 0);
        }
    }
}

proof fn lemma_nth_prev_formula(start: int, len: int, k: nat)
    requires
        0 <= start < len,
    ensures
        nth_prev_page(start, len, k) == (start - k) % len,
        0 <= nth_prev_page(start, len, k) < len,
    decreases k,
{
    if k == 0 {
        lemma_small_mod(start as nat, len as nat);
    } else {
        lemma_nth_prev_formula(start, len, (k - 1) as nat);
        let p = nth_prev_page(start, len, (k - 1) as nat);
        let q = (start - (k - 1)) / len;
        lemma_fundamental_div_mod(start - (k - 1), len);
        assert(len * q == q * len) by (nonlinear_arith);
        if p == 0 {
            assert((q - 1) * len == q * len - len) by (nonlinear_arith);
            lemma_fundamental_div_mod_converse(start - k, len, q - 1, len - 1);
        } else {
            lemma_fundamental_div_mod_converse(start - k, len, q, p - 1);
        }
    }
}

/// Law: from any page of a configuration with `len` pages, pressing
/// `__NEXT_PAGE__` `len` times returns to the start and visits every page
/// exactly once on the way — no page twice, each page reached; and the
/// same for `__PREV_PAGE__`. One press of each undoes the other.
pub proof fn lemma_page_cycle(start: int, len: int)
    requires
        0 <= start < len,
    ensures
        nth_next_page(start, len, len as nat) == start,
        nth_prev_page(start, len, len as nat) == start,
        forall|i: nat, j: nat|
            i < j < len ==> #[trigger] nth_next_page(start, len, i) != #[trigger] nth_next_page(
                start,
                len,
                j,
            ),
        forall|i: nat, j: nat|
            i < j < len ==> #[trigger] nth_prev_page(start, len, i) != #[trigger] nth_prev_page(
                start,
                len,
                j,
            ),
        forall|p: int|
            0 <= p < len ==> #[trigger] next_presses_to(start, len, p) < len && nth_next_page(
                start,
                len,
                next_presses_to(start, len, p),
            ) == p,
        forall|p: int|
            0 <= p < len ==> #[trigger] prev_presses_to(start, len, p) < len && nth_prev_page(
                start,
                len,
                prev_presses_to(start, len, p),
            ) == p,
        spec_prev_page(spec_next_page(start, len), len) == start,
        spec_next_page(spec_prev_page(start, len), len) == start,
{
    lemma_nth_next_formula(start, len, len as nat);
    lemma_fundamental_div_mod_converse(start + len, len, 1, start);
    lemma_nth_prev_formula(start, len, len as nat);
    lemma_fundamental_div_mod_converse(start - len, len, -1, start);
    assert forall|i: nat, j: nat| i < j < len implies #[trigger] nth_next_page(start, len, i)
        != #[trigger] nth_next_page(start, len, j) by {
        lemma_nth_next_formula(start, len, i);
        lemma_nth_next_formula(start, len, j);
        if start + i < len {
            lemma_fundamental_div_mod_converse(start + i, len, 0, start + i);
        } else {
            lemma_fundamental_div_mod_converse(start + i, len, 1, start + i - len);
        }
        if start + j < len {
            lemma_fundamental_div_mod_converse(start + j, len, 0, start + j);
        } else {
            lemma_fundamental_div_mod_converse(start + j, len, 1, start + j - len);
        }
    }
    assert forall|i: nat, j: nat| i < j < len implies #[trigger] nth_prev_page(start, len, i)
        != #[trigger] nth_prev_page(start, len, j) by {
        lemma_nth_prev_formula(start, len, i);
        lemma_nth_prev_formula(start, len, j);
        if start - i >= 0 {
            lemma_fundamental_div_mod_converse(start - i, len, 0, start - i);
        } else {
            lemma_fundamental_div_mod_converse(start - i, len, -1, start - i + len);
        }
        if start - j >= 0 {
            lemma_fundamental_div_mod_converse(start - j, len, 0, start - j);
        } else {
            lemma_fundamental_div_mod_converse(start - j, len, -1, start - j + len);
        }
    }
    assert forall|p: int| 0 <= p < len implies #[trigger] next_presses_to(start, len, p) < len
        && nth_next_page(start, len, next_presses_to(start, len, p)) == p by {
        let k = next_presses_to(start, len, p);
        lemma_nth_next_formula(start, len, k);
        if p >= start {
            lemma_fundamental_div_mod_converse(start + k, len, 0, p);
        } else {
            lemma_fundamental_div_mod_converse(start + k, len, 1, p);
        }
    }
    assert forall|p: int| 0 <= p < len implies #[trigger] prev_presses_to(start, len, p) < len
        && nth_prev_page(start, len, prev_presses_to(start, len, p)) == p by {
        let k = prev_presses_to(start, len, p);
        lemma_nth_prev_formula(start, len, k);
        if p <= start {
            lemma_fundamental_div_mod_converse(start - k, len, 0, p);
        } else {
            lemma_fundamental_div_mod_converse(start - k, len, -1, p);
        }
    }
    if start + 1 < len {
        lemma_fundamental_div_mod_converse(start + 1, len, 0, start + 1);
    } else {
        lemma_fundamental_div_mod_converse(start + 1, len, 1, 0);
    }
    let nxt = spec_next_page(start, len);
    assert(spec_prev_page(nxt, len) == start);
    let prv = spec_prev_page(start, len);
    if start > 0 {
        lemma_small_mod(start as nat, len as nat);
        assert(spec_next_page(prv, len) == start % len);
    } else {
        lemma_fundamental_div_mod_converse(len, len, 1, 0);
        assert(spec_next_page(prv, len) == len % len);
    }
}

} // verus!
