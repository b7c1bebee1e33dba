//! The device session's decisions: what one iteration of the serve loop
//! does, which buttons a page upload sends, and which buttons the periodic
//! widget redraw touches. The caller owns the USB handle and performs the
//! returned steps in order.

use vstd::prelude::*;
use crate::config::{Page, page_wf, KEY_COUNT};
use crate::widget::spec_is_widget_command;

verus! {

/// How many serve iterations pass between widget redraws.
pub const WIDGET_TICKS: u32 = 10;

/// The serve loop's own state: the pending refresh signal and the tick
/// counter that paces widget redraws.
#[derive(Debug, Clone, Copy)]
pub struct SessionState {
    pub refresh_needed: bool,
    pub widget_counter: u32,
}

/// The session state invariant: the counter never passes the redraw pace.
pub open spec fn session_wf(st: SessionState) -> bool {
    st.widget_counter < WIDGET_TICKS
}

/// What one read with a short timeout produced.
#[derive(Debug, Clone, Copy)]
pub enum ReadOutcome {
    /// A report arrived: the logical key and its state (1 = press).
    Key(u8, u8),
    /// The timeout passed without a report: a normal, quiet iteration.
    TimedOut,
    /// The read failed some other way: the device is gone.
    Failed,
}

/// One step the caller must perform, in order.
#[derive(Debug, Clone, Copy, PartialEq, Eq, Structural)]
pub enum SessionStep {
    /// Reload the whole current page onto the device.
    ReloadPage,
    /// Re-render and re-upload the widget buttons of the current page.
    UpdateWidgets,
    /// Dispatch a press of this logical key.
    Dispatch(u8),
    /// Drop the handle, wait, and search for the device again.
    Reconnect,
}

/// The tick counter after one iteration: a reload resets the pace, and
/// reaching the redraw pace starts it over.
pub open spec fn spec_counter_after(st: SessionState) -> u32 {
    let base: u32 = if st.refresh_needed {
        0
    } else {
        st.widget_counter
    };
    if base + 1 >= WIDGET_TICKS {
        0
    } else {
        (base + 1) as u32
    }
}

/// Whether this iteration redraws the widgets.
pub open spec fn spec_ticks_widgets(st: SessionState) -> bool {
    (if st.refresh_needed {
        1int
    } else {
        st.widget_counter + 1
    }) >= WIDGET_TICKS
}

/// The steps of one serve iteration: a pending refresh reloads the page
/// first; the pace counter may ask for a widget redraw; then a pressed key
/// is dispatched, a quiet timeout does nothing, and a failed read asks for
/// a reconnect.
pub open spec fn spec_serve_steps(st: SessionState, outcome: ReadOutcome) -> Seq<SessionStep> {
    let reload: Seq<SessionStep> = if st.refresh_needed {
        seq![SessionStep::ReloadPage]
    } else {
        Seq::empty()
    };
    let widgets: Seq<SessionStep> = if spec_ticks_widgets(st) {
        seq![SessionStep::UpdateWidgets]
    } else {
        Seq::empty()
    };
    let read: Seq<SessionStep> = match outcome {
        ReadOutcome::Key(k, state) => if state == 1 {
            seq![SessionStep::Dispatch(k)]
        } else {
            Seq::empty()
        },
        ReadOutcome::TimedOut => Seq::empty(),
        ReadOutcome::Failed => seq![SessionStep::Reconnect],
    };
    reload + widgets + read
}

/// Runs the decisions of one serve iteration: consumes the refresh signal,
/// advances the widget pace, and turns the read outcome into steps for the
/// caller, ordered so that a pending reload comes before any dispatch.
pub fn serve_tick(st: &mut SessionState, outcome: ReadOutcome) -> (r: Vec<SessionStep>)
    requires
        session_wf(*old(st)),
    ensures
        session_wf(*final(st)),
        !final(st).refresh_needed,
        final(st).widget_counter == spec_counter_after(*old(st)),
        r@ == spec_serve_steps(*old(st), outcome),
{
    let mut r: Vec<SessionStep> = Vec::new();
    let refreshing = st.refresh_needed;
    if refreshing {
        st.refresh_needed = false;
        st.widget_counter = 0;
        r.push(SessionStep::ReloadPage);
    }
    st.widget_counter = st.widget_counter + 1;
    if st.widget_counter >= WIDGET_TICKS {
        st.widget_counter = 0;
        r.push(SessionStep::UpdateWidgets);
    }
    match outcome {
        ReadOutcome::Key(k, state) => {
            if state == 1 {
                r.push(SessionStep::Dispatch(k));
            }
        },
        ReadOutcome::TimedOut => {},
        ReadOutcome::Failed => {
            r.push(SessionStep::Reconnect);
        },
    }
    proof {
        assert(r@ =~= spec_serve_steps(*old(st), outcome));
    }
    r
}

/// Raises the refresh signal: the next serve iteration reloads the page.
pub fn request_refresh(st: &mut SessionState)
    ensures
        final(st).refresh_needed,
        final(st).widget_counter == old(st).widget_counter,
{
    st.refresh_needed = true;
}

/// A freshly connected session: no pending refresh, pace starting over.
pub fn session_start() -> (r: SessionState)
    ensures
        session_wf(r),
        !r.refresh_needed,
        r.widget_counter == 0,
{
    SessionState { refresh_needed: false, widget_counter: 0 }
}

/// The device the session looks for.
pub fn is_target_device(vendor_id: u16, product_id: u16) -> (r: bool)
    ensures
        r == (vendor_id == 0x0200 && product_id == 0x1000),
{
    vendor_id == 0x0200 && product_id == 0x1000
}

/// A button whose content a page load must send: anything with a label,
/// an icon, or a color other than the default.
pub open spec fn spec_should_upload(b: crate::config::ButtonConfig) -> bool {
    b.label@.len() > 0 || b.icon@.len() > 0 || b.color@ != "#1a1a2e"@
}

/// Decides whether a page load sends this button's image.
pub fn should_upload(b: &crate::config::ButtonConfig) -> (r: bool)
    ensures
        r == spec_should_upload(*b),
{
    b.label.unicode_len() > 0 || b.icon.unicode_len() > 0 || !crate::strutil::str_eq(
        b.color.as_str(),
        "#1a1a2e",
    )
}

/// The logical keys below `n` whose buttons a page load sends.
pub open spec fn spec_upload_keys_upto(p: Page, n: int) -> Seq<u8>
    decreases n,
{
    if n <= 0 {
        Seq::empty()
    } else {
        spec_upload_keys_upto(p, n - 1) + (if spec_should_upload(p.buttons@[n - 1]) {
            seq![n as u8]
        } else {
            Seq::empty()
        })
    }
}

/// The logical keys whose buttons a page load sends, in order.
pub open spec fn spec_upload_keys(p: Page) -> Seq<u8> {
    spec_upload_keys_upto(p, KEY_COUNT as int)
}

/// Lists the logical keys whose buttons a page load must render and send:
/// those with any content beyond the default.
pub fn page_upload_keys(p: &Page) -> (r: Vec<u8>)
    requires
        page_wf(*p),
    ensures
        r@ == spec_upload_keys(*p),
{
    let mut r: Vec<u8> = Vec::new();
    let mut i: usize = 0;
    while i < 15
        invariant
            page_wf(*p),
            i <= 15,
            r@ == spec_upload_keys_upto(*p, i as int),
        decreases 15 - i,
    {
        if should_upload(&p.buttons[i]) {
            r.push((i + 1) as u8);
        }
        i += 1;
    }
    r
}

/// The logical keys below `n` whose buttons carry widget commands.
pub open spec fn spec_widget_keys_upto(p: Page, n: int) -> Seq<u8>
    decreases n,
{
    if n <= 0 {
        Seq::empty()
    } else {
        spec_widget_keys_upto(p, n - 1) + (if spec_is_widget_command(p.buttons@[n - 1].command@) {
            seq![n as u8]
        } else {
            Seq::empty()
        })
    }
}

/// The logical keys whose buttons carry widget commands, in order.
pub open spec fn spec_widget_keys(p: Page) -> Seq<u8> {
    spec_widget_keys_upto(p, KEY_COUNT as int)
}

/// Lists the logical keys the periodic widget redraw re-renders: those
/// whose command is a widget command.
pub fn page_widget_keys(p: &Page) -> (r: Vec<u8>)
    requires
        page_wf(*p),
    ensures
        r@ == spec_widget_keys(*p),
{
    let mut r: Vec<u8> = Vec::new();
    let mut i: usize = 0;
    while i < 15
        invariant
            page_wf(*p),
            i <= 15,
            r@ == spec_widget_keys_upto(*p, i as int),
        decreases 15 - i,
    {
        if crate::widget::is_widget_command(p.buttons[i].command.as_str()) {
            r.push((i + 1) as u8);
        }
        i += 1;
    }
    r
}

proof fn lemma_widget_keys_empty(p: Page, n: int)
    requires
        page_wf(p),
        0 <= n <= KEY_COUNT,
        forall|i: int|
            0 <= i < KEY_COUNT ==> !spec_is_widget_command(#[trigger] p.buttons@[i].command@),
    ensures
        spec_widget_keys_upto(p, n) == Seq::<u8>::empty(),
    decreases n,
{
    if n > 0 {
        lemma_widget_keys_empty(p, n - 1);
        assert(spec_widget_keys_upto(p, n) =~= Seq::<u8>::empty());
    }
}

/// Law: on a page with no widget buttons and with no refresh signal
/// pending, a quiet serve iteration sends nothing to the device: the only
/// step it can emit is a widget redraw, and that redraw touches no key.
pub proof fn lemma_quiet_serve_sends_nothing(st: SessionState, p: Page)
    requires
        session_wf(st),
        !st.refresh_needed,
        page_wf(p),
        forall|i: int|
            0 <= i < KEY_COUNT ==> !spec_is_widget_command(#[trigger] p.buttons@[i].command@),
    ensures
        forall|k: int|
            0 <= k < spec_serve_steps(st, ReadOutcome::TimedOut).len() ==> #[trigger] spec_serve_steps(
                st,
                ReadOutcome::TimedOut,
            )[k] == SessionStep::UpdateWidgets,
        spec_widget_keys(p) == Seq::<u8>::empty(),
{
    lemma_widget_keys_empty(p, KEY_COUNT as int);
    let steps = spec_serve_steps(st, ReadOutcome::TimedOut);
    assert forall|k: int| 0 <= k < steps.len() implies #[trigger] steps[k]
        == SessionStep::UpdateWidgets by {
        assert(steps.len() <= 1);
    }
}

} // verus!
