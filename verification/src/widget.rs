//! The widget engine: recognizing widget commands and producing their
//! display text from a snapshot of plain readings (clock fields, system
//! load, the OBS and Twitch caches) plus the mutable timer state.

use vstd::prelude::*;
use crate::strutil::{
    spec_two_digits, spec_dec_str, two_digits, u64_to_string, has_prefix, starts_with, str_eq,
};

verus! {

/// The countdown timer: the epoch second it started and its length.
/// Both zero means idle.
#[derive(Debug, Clone)]
pub struct TimerState {
    pub start: u64,
    pub duration: u64,
}

/// A local calendar and clock reading, by field.
#[derive(Debug, Clone, Copy)]
pub struct ClockReading {
    /// Hour, 0..=23.
    pub hour: u32,
    /// Minute, 0..=59.
    pub minute: u32,
    /// Second, 0..=59.
    pub second: u32,
    /// Day of month, 1..=31.
    pub day: u32,
    /// Month, 1..=12.
    pub month: u32,
    /// Calendar year.
    pub year: i32,
    /// Day of week, Sunday = 0 .. Saturday = 6.
    pub weekday: u8,
}

/// The cached OBS connection state.
#[derive(Debug, Clone, Copy)]
pub struct ObsView {
    pub connected: bool,
    pub streaming: bool,
    pub recording: bool,
}

/// The cached Twitch channel state.
#[derive(Debug, Clone, Copy)]
pub struct TwitchView {
    pub connected: bool,
    pub is_live: bool,
    pub viewers: u32,
    pub followers: u32,
}

/// A snapshot of everything the widget texts read, gathered by the caller:
/// the clock, system load, the two caches, and the current epoch second.
#[derive(Debug, Clone, Copy)]
pub struct WidgetEnv {
    pub clock: ClockReading,
    /// CPU load percent, already rounded to an integer.
    pub cpu_percent: u64,
    /// Used and total memory, in any common unit.
    pub ram_used: u64,
    pub ram_total: u64,
    /// CPU temperature in millidegrees Celsius, if a sensor was found.
    pub temp_millidegrees: Option<i64>,
    pub obs: ObsView,
    pub twitch: TwitchView,
    /// Epoch seconds now.
    pub now: u64,
}

/// Starts the timer at `now` for the given number of seconds.
pub fn start_timer(t: &mut TimerState, now: u64, duration_secs: u64)
    ensures
        final(t).start == now,
        final(t).duration == duration_secs,
{
    t.start = now;
    t.duration = duration_secs;
}

/// Stops and resets the timer.
pub fn stop_timer(t: &mut TimerState)
    ensures
        final(t).start == 0,
        final(t).duration == 0,
{
    t.start = 0;
    t.duration = 0;
}

/// Seconds still to run: the duration less the time elapsed since the
/// start, neither going below zero.
pub open spec fn spec_timer_remaining(start: u64, duration: u64, now: u64) -> nat {
    let elapsed: nat = if now >= start {
        (now - start) as nat
    } else {
        0
    };
    if duration >= elapsed {
        (duration - elapsed) as nat
    } else {
        0
    }
}

/// The timer display: `00:00` when idle, `DONE!` at the moment it runs
/// out, otherwise the remaining `MM:SS`.
pub open spec fn spec_timer_display(start: u64, duration: u64, now: u64) -> Seq<char> {
    if start == 0 || duration == 0 {
        "00:00"@
    } else {
        let remaining = spec_timer_remaining(start, duration, now);
        if remaining == 0 {
            "DONE!"@
        } else {
            spec_two_digits(remaining / 60) + seq![':'] + spec_two_digits(remaining % 60)
        }
    }
}

/// The remaining time of the timer as `MM:SS`, `00:00` when idle, and
/// `DONE!` exactly once on completion, which also resets the timer.
pub fn get_widget_timer(t: &mut TimerState, now: u64) -> (r: String)
    ensures
        r@ == spec_timer_display(old(t).start, old(t).duration, now),
        if old(t).start != 0 && old(t).duration != 0 && spec_timer_remaining(
            old(t).start,
            old(t).duration,
            now,
        ) == 0 {
            final(t).start == 0 && final(t).duration == 0
        } else {
            *final(t) == *old(t)
        },
{
    if t.start == 0 || t.duration == 0 {
        let r = String::from_str("00:00");
        proof {
            reveal_strlit("00:00");
        }
        return r;
    }
    let elapsed: u64 = if now >= t.start {
        now - t.start
    } else {
        0
    };
    let remaining: u64 = if t.duration >= elapsed {
        t.duration - elapsed
    } else {
        0
    };
    if remaining == 0 {
        t.start = 0;
        t.duration = 0;
        return String::from_str("DONE!");
    }
    let mut s = two_digits(remaining / 60);
    s.append(":");
    s.append(two_digits(remaining % 60).as_str());
    proof {
        reveal_strlit(":");
        assert(s@ =~= spec_two_digits((remaining / 60) as nat) + seq![':'] + spec_two_digits(
            (remaining % 60) as nat,
        ));
    }
    s
}

/// A command is a widget command when it begins with one of the widget
/// prefixes or names one of the status widgets.
pub open spec fn spec_is_widget_command(cmd: Seq<char>) -> bool {
    ||| has_prefix(cmd, "__CLOCK"@)
    ||| has_prefix(cmd, "__DATE"@)
    ||| has_prefix(cmd, "__WEEKDAY"@)
    ||| has_prefix(cmd, "__CPU"@)
    ||| has_prefix(cmd, "__RAM"@)
    ||| has_prefix(cmd, "__TEMP"@)
    ||| has_prefix(cmd, "__TIMER"@)
    ||| cmd == "__OBS_STATUS__"@
    ||| cmd == "__TWITCH_VIEWERS__"@
    ||| cmd == "__TWITCH_FOLLOWERS__"@
}

/// Decides whether a command is a widget command, needing periodic redraw.
pub fn is_widget_command(cmd: &str) -> (r: bool)
    ensures
        r == spec_is_widget_command(cmd@),
{
    starts_with(cmd, "__CLOCK") || starts_with(cmd, "__DATE") || starts_with(cmd, "__WEEKDAY")
        || starts_with(cmd, "__CPU") || starts_with(cmd, "__RAM") || starts_with(cmd, "__TEMP")
        || starts_with(cmd, "__TIMER") || str_eq(cmd, "__OBS_STATUS__") || str_eq(
        cmd,
        "__TWITCH_VIEWERS__",
    ) || str_eq(cmd, "__TWITCH_FOLLOWERS__")
}

/// `HH:MM`.
pub open spec fn spec_clock_hm(c: ClockReading) -> Seq<char> {
    spec_two_digits(c.hour as nat) + seq![':'] + spec_two_digits(c.minute as nat)
}

/// `HH:MM:SS`.
pub open spec fn spec_clock_hms(c: ClockReading) -> Seq<char> {
    spec_clock_hm(c) + seq![':'] + spec_two_digits(c.second as nat)
}

/// `DD/MM`.
pub open spec fn spec_date_dm(c: ClockReading) -> Seq<char> {
    spec_two_digits(c.day as nat) + seq!['/'] + spec_two_digits(c.month as nat)
}

/// The year, zero-padded to four digits, with a sign when negative.
pub open spec fn spec_year_str(y: int) -> Seq<char> {
    if y < 0 {
        seq!['-'] + spec_four_digits((-y) as nat)
    } else {
        spec_four_digits(y as nat)
    }
}

/// The decimal text of a number, zero-padded to at least four digits.
pub open spec fn spec_four_digits(n: nat) -> Seq<char> {
    if n < 10 {
        "000"@ + spec_dec_str(n)
    } else if n < 100 {
        "00"@ + spec_dec_str(n)
    } else if n < 1000 {
        "0"@ + spec_dec_str(n)
    } else {
        spec_dec_str(n)
    }
}

/// `DD/MM/YYYY`.
pub open spec fn spec_date_dmy(c: ClockReading) -> Seq<char> {
    spec_date_dm(c) + seq!['/'] + spec_year_str(c.year as int)
}

/// The decimal text of a number, zero-padded to at least four digits.
pub fn four_digits(n: u64) -> (r: String)
    ensures
        r@ == spec_four_digits(n as nat),
{
    proof {
        reveal_strlit("000");
        reveal_strlit("00");
        reveal_strlit("0");
    }
    if n < 10 {
        let mut s = String::from_str("000");
        s.append(u64_to_string(n).as_str());
        s
    } else if n < 100 {
        let mut s = String::from_str("00");
        s.append(u64_to_string(n).as_str());
        s
    } else if n < 1000 {
        let mut s = String::from_str("0");
        s.append(u64_to_string(n).as_str());
        s
    } else {
        u64_to_string(n)
    }
}

/// `HH:MM` of a clock reading.
pub fn clock_hm_text(c: &ClockReading) -> (r: String)
    ensures
        r@ == spec_clock_hm(*c),
{
    let mut s = two_digits(c.hour as u64);
    s.append(":");
    s.append(two_digits(c.minute as u64).as_str());
    proof {
        reveal_strlit(":");
        assert(s@ =~= spec_clock_hm(*c));
    }
    s
}

/// `HH:MM:SS` of a clock reading.
pub fn clock_hms_text(c: &ClockReading) -> (r: String)
    ensures
        r@ == spec_clock_hms(*c),
{
    let mut s = clock_hm_text(c);
    s.append(":");
    s.append(two_digits(c.second as u64).as_str());
    proof {
        reveal_strlit(":");
        assert(s@ =~= spec_clock_hms(*c));
    }
    s
}

/// `DD/MM` of a clock reading.
pub fn date_dm_text(c: &ClockReading) -> (r: String)
    ensures
        r@ == spec_date_dm(*c),
{
    let mut s = two_digits(c.day as u64);
    s.append("/");
    s.append(two_digits(c.month as u64).as_str());
    proof {
        reveal_strlit("/");
        assert(s@ =~= spec_date_dm(*c));
    }
    s
}

/// `DD/MM/YYYY` of a clock reading.
pub fn date_dmy_text(c: &ClockReading) -> (r: String)
    ensures
        r@ == spec_date_dmy(*c),
{
    let mut s = date_dm_text(c);
    s.append("/");
    if c.year >= 0 {
        s.append(four_digits(c.year as u64).as_str());
    } else {
        let mag: u64 = if c.year == i32::MIN {
            0x80000000
        } else {
            (-c.year) as u64
        };
        s.append("-");
        s.append(four_digits(mag).as_str());
        proof {
            reveal_strlit("-");
        }
    }
    proof {
        reveal_strlit("/");
        assert(s@ =~= spec_date_dmy(*c));
    }
    s
}

/// The Spanish weekday names, Sunday first.
pub open spec fn spec_weekday_name(w: u8) -> Seq<char> {
    if w == 0 {
        "Dom"@
    } else if w == 1 {
        "Lun"@
    } else if w == 2 {
        "Mar"@
    } else if w == 3 {
        "Mié"@
    } else if w == 4 {
        "Jue"@
    } else if w == 5 {
        "Vie"@
    } else {
        "Sáb"@
    }
}

/// The weekday name of a reading, Sunday = 0 through Saturday = 6.
pub fn weekday_name(w: u8) -> (r: String)
    ensures
        r@ == spec_weekday_name(w),
{
    if w == 0 {
        String::from_str("Dom")
    } else if w == 1 {
        String::from_str("Lun")
    } else if w == 2 {
        String::from_str("Mar")
    } else if w == 3 {
        String::from_str("Mié")
    } else if w == 4 {
        String::from_str("Jue")
    } else if w == 5 {
        String::from_str("Vie")
    } else {
        String::from_str("Sáb")
    }
}

/// The integer percent of memory in use, rounded to the nearest unit;
/// zero when the total is unknown, full when the used figure somehow
/// exceeds the total.
pub open spec fn spec_ram_percent(used: u64, total: u64) -> nat {
    if total == 0 {
        0
    } else if used > total {
        100
    } else {
        ((used * 100 + total as int / 2) / total as int) as nat
    }
}

/// Memory in use as a rounded percentage of the total.
pub fn ram_percent(used: u64, total: u64) -> (r: u64)
    ensures
        r == spec_ram_percent(used, total),
        r <= 100,
{
    if total == 0 {
        return 0;
    }
    if used > total {
        return 100;
    }
    let wide: u128 = (used as u128) * 100 + (total as u128) / 2;
    let r = (wide / (total as u128)) as u64;
    proof {
        let u = used as int;
        let t = total as int;
        assert((u * 100 + t / 2) / t <= 100) by (nonlinear_arith)
            requires
                0 < t,
                0 <= u <= t,
        ;
    }
    r
}

/// `{n}%`.
pub open spec fn spec_percent_text(n: nat) -> Seq<char> {
    spec_dec_str(n) + seq!['%']
}

/// The percent text of a load value.
pub fn percent_text(n: u64) -> (r: String)
    ensures
        r@ == spec_percent_text(n as nat),
{
    let mut s = u64_to_string(n);
    s.append("%");
    proof {
        reveal_strlit("%");
        assert(s@ =~= spec_percent_text(n as nat));
    }
    s
}

/// Whole degrees of a millidegree reading, truncated toward zero as
/// integer division does.
pub open spec fn spec_degrees(m: int) -> int {
    if m >= 0 {
        m / 1000
    } else {
        -((-m) / 1000)
    }
}

/// The temperature text: whole degrees and `°C`, or `N/A` without a
/// sensor reading.
pub open spec fn spec_temp_text(m: Option<i64>) -> Seq<char> {
    match m {
        Some(v) => {
            let d = spec_degrees(v as int);
            if d < 0 {
                seq!['-'] + spec_dec_str((-d) as nat) + "°C"@
            } else {
                spec_dec_str(d as nat) + "°C"@
            }
        },
        None => "N/A"@,
    }
}

/// Formats a temperature reading.
pub fn temp_text(m: Option<i64>) -> (r: String)
    ensures
        r@ == spec_temp_text(m),
{
    match m {
        None => String::from_str("N/A"),
        Some(v) => {
            let neg = v < 0;
            let mag: u64 = if v == i64::MIN {
                0x8000_0000_0000_0000
            } else if neg {
                (-v) as u64
            } else {
                v as u64
            };
            let deg = mag / 1000;
            if neg && deg > 0 {
                let mut s = String::from_str("-");
                s.append(u64_to_string(deg).as_str());
                s.append("°C");
                proof {
                    reveal_strlit("-");
                    assert(s@ =~= seq!['-'] + spec_dec_str(deg as nat) + "°C"@);
                }
                s
            } else {
                let mut s = u64_to_string(deg);
                s.append("°C");
                proof {
                    assert(s@ =~= spec_dec_str(deg as nat) + "°C"@);
                }
                s
            }
        },
    }
}

/// The OBS status text: `OBS OFF` when unreachable, else live and
/// recording flags as `LIVE|---` over `REC|---`.
pub open spec fn spec_obs_status_text(o: ObsView) -> Seq<char> {
    if !o.connected {
        "OBS OFF"@
    } else {
        (if o.streaming {
            "LIVE"@
        } else {
            "---"@
        }) + seq!['/'] + (if o.recording {
            "REC"@
        } else {
            "---"@
        })
    }
}

/// Formats the OBS cache for display.
pub fn get_obs_status_text(o: &ObsView) -> (r: String)
    ensures
        r@ == spec_obs_status_text(*o),
{
    if !o.connected {
        return String::from_str("OBS OFF");
    }
    let mut s = if o.streaming {
        String::from_str("LIVE")
    } else {
        String::from_str("---")
    };
    s.append("/");
    if o.recording {
        s.append("REC");
    } else {
        s.append("---");
    }
    proof {
        reveal_strlit("/");
        assert(s@ =~= spec_obs_status_text(*o));
    }
    s
}

/// The viewers widget: `TWITCH` when unconfigured, `OFFLINE` when the
/// channel is not live, else the viewer count and `v`.
pub open spec fn spec_twitch_viewers_text(t: TwitchView) -> Seq<char> {
    if !t.connected {
        "TWITCH"@
    } else if t.is_live {
        spec_dec_str(t.viewers as nat) + seq!['v']
    } else {
        "OFFLINE"@
    }
}

/// Formats the Twitch viewers cache for display.
pub fn get_twitch_viewers_text(t: &TwitchView) -> (r: String)
    ensures
        r@ == spec_twitch_viewers_text(*t),
{
    if !t.connected {
        String::from_str("TWITCH")
    } else if t.is_live {
        let mut s = u64_to_string(t.viewers as u64);
        s.append("v");
        proof {
            reveal_strlit("v");
            assert(s@ =~= spec_dec_str(t.viewers as nat) + seq!['v']);
        }
        s
    } else {
        String::from_str("OFFLINE")
    }
}

/// The followers widget: `TWITCH` when unconfigured, else the follower
/// count and `f`.
pub open spec fn spec_twitch_followers_text(t: TwitchView) -> Seq<char> {
    if !t.connected {
        "TWITCH"@
    } else {
        spec_dec_str(t.followers as nat) + seq!['f']
    }
}

/// Formats the Twitch followers cache for display.
pub fn get_twitch_followers_text(t: &TwitchView) -> (r: String)
    ensures
        r@ == spec_twitch_followers_text(*t),
{
    if !t.connected {
        String::from_str("TWITCH")
    } else {
        let mut s = u64_to_string(t.followers as u64);
        s.append("f");
        proof {
            reveal_strlit("f");
            assert(s@ =~= spec_dec_str(t.followers as nat) + seq!['f']);
        }
        s
    }
}

/// The viewers cache is due for a refresh: unconfigured, or older than
/// thirty seconds.
pub fn should_refresh_viewers(connected: bool, now: u64, last_update: u64) -> (r: bool)
    ensures
        r == (!connected || (if now >= last_update {
            now - last_update
        } else {
            0
        }) > 30),
{
    !connected || (if now >= last_update {
        now - last_update
    } else {
        0
    }) > 30
}

/// The followers cache is due for a refresh: unconfigured, or older than
/// sixty seconds.
pub fn should_refresh_followers(connected: bool, now: u64, last_update: u64) -> (r: bool)
    ensures
        r == (!connected || (if now >= last_update {
            now - last_update
        } else {
            0
        }) > 60),
{
    !connected || (if now >= last_update {
        now - last_update
    } else {
        0
    }) > 60
}

/// What the widget text of a command is, given the snapshot and the timer
/// state: exactly the widget commands produce text.
pub open spec fn spec_widget_text(
    cmd: Seq<char>,
    env: WidgetEnv,
    timer: TimerState,
) -> Option<Seq<char>> {
    if cmd == "__CLOCK__"@ {
        Some(spec_clock_hm(env.clock))
    } else if cmd == "__CLOCK_S__"@ {
        Some(spec_clock_hms(env.clock))
    } else if cmd == "__DATE__"@ {
        Some(spec_date_dm(env.clock))
    } else if cmd == "__DATE_FULL__"@ {
        Some(spec_date_dmy(env.clock))
    } else if cmd == "__WEEKDAY__"@ {
        Some(spec_weekday_name(if env.clock.weekday < 7 {
            env.clock.weekday
        } else {
            6
        }))
    } else if cmd == "__CPU__"@ {
        Some(spec_percent_text(env.cpu_percent as nat))
    } else if cmd == "__RAM__"@ {
        Some(spec_percent_text(spec_ram_percent(env.ram_used, env.ram_total)))
    } else if cmd == "__TEMP__"@ {
        Some(spec_temp_text(env.temp_millidegrees))
    } else if has_prefix(cmd, "__TIMER_"@) && has_suffix_underscores(cmd) {
        Some(spec_timer_display(timer.start, timer.duration, env.now))
    } else if cmd == "__OBS_STATUS__"@ {
        Some(spec_obs_status_text(env.obs))
    } else if cmd == "__TWITCH_VIEWERS__"@ {
        Some(spec_twitch_viewers_text(env.twitch))
    } else if cmd == "__TWITCH_FOLLOWERS__"@ {
        Some(spec_twitch_followers_text(env.twitch))
    } else {
        None
    }
}

/// The command ends with two underscores.
pub open spec fn has_suffix_underscores(cmd: Seq<char>) -> bool {
    crate::strutil::has_suffix(cmd, "__"@)
}

/// The timer state after one widget-text computation: reading a timer
/// widget that has just run out resets it; nothing else changes it. The
/// branches mirror those of `spec_widget_text`.
pub open spec fn spec_timer_after(cmd: Seq<char>, t: TimerState, now: u64) -> TimerState {
    if cmd == "__CLOCK__"@ || cmd == "__CLOCK_S__"@ || cmd == "__DATE__"@ || cmd == "__DATE_FULL__"@
        || cmd == "__WEEKDAY__"@ || cmd == "__CPU__"@ || cmd == "__RAM__"@ || cmd == "__TEMP__"@ {
        t
    } else if has_prefix(cmd, "__TIMER_"@) && has_suffix_underscores(cmd) {
        if t.start != 0 && t.duration != 0 && spec_timer_remaining(t.start, t.duration, now) == 0 {
            (TimerState { start: 0, duration: 0 })
        } else {
            t
        }
    } else {
        t
    }
}

/// Produces the display text of a widget command from the snapshot, or
/// nothing for a command that is no widget. A timer widget that has just
/// run out answers `DONE!` and resets the timer state.
pub fn get_widget_text(cmd: &str, env: &WidgetEnv, timer: &mut TimerState) -> (r: Option<String>)
    ensures
        match r {
            Some(s) => spec_widget_text(cmd@, *env, *old(timer)) == Some(s@),
            None => spec_widget_text(cmd@, *env, *old(timer)) is None,
        },
        *final(timer) == spec_timer_after(cmd@, *old(timer), env.now),
{
    if str_eq(cmd, "__CLOCK__") {
        Some(clock_hm_text(&env.clock))
    } else if str_eq(cmd, "__CLOCK_S__") {
        Some(clock_hms_text(&env.clock))
    } else if str_eq(cmd, "__DATE__") {
        Some(date_dm_text(&env.clock))
    } else if str_eq(cmd, "__DATE_FULL__") {
        Some(date_dmy_text(&env.clock))
    } else if str_eq(cmd, "__WEEKDAY__") {
        let w = if env.clock.weekday < 7 {
            env.clock.weekday
        } else {
            6
        };
        Some(weekday_name(w))
    } else if str_eq(cmd, "__CPU__") {
        Some(percent_text(env.cpu_percent))
    } else if str_eq(cmd, "__RAM__") {
        Some(percent_text(ram_percent(env.ram_used, env.ram_total)))
    } else if str_eq(cmd, "__TEMP__") {
        Some(temp_text(env.temp_millidegrees))
    } else if starts_with(cmd, "__TIMER_") && ends_with_underscores(cmd) {
        Some(get_widget_timer(timer, env.now))
    } else if str_eq(cmd, "__OBS_STATUS__") {
        Some(get_obs_status_text(&env.obs))
    } else if str_eq(cmd, "__TWITCH_VIEWERS__") {
        Some(get_twitch_viewers_text(&env.twitch))
    } else if str_eq(cmd, "__TWITCH_FOLLOWERS__") {
        Some(get_twitch_followers_text(&env.twitch))
    } else {
        None
    }
}

/// Exec test for the two-underscore suffix.
fn ends_with_underscores(cmd: &str) -> (r: bool)
    ensures
        r == has_suffix_underscores(cmd@),
{
    crate::strutil::ends_with(cmd, "__")
}

} // verus!
