//! The per-frame decision logic: how one user interaction changes the state
//! and what the frame asks of the host.
//!
//! The host repaints in a loop; each repaint reports at most one interaction
//! with the widgets declared in [`crate::layout`]. Everything the application
//! decides in response — the state transition and whether to ask the host to
//! close the window — is a pure step over plain values, taken here.

use vstd::prelude::*;

use crate::state::TourApp;

verus! {

/// Lower end of the slider's range, in tenths (0.0 units).
pub const SLIDER_MIN: u32 = 0;

/// Upper end of the slider's range, in tenths (10.0 units).
pub const SLIDER_MAX: u32 = 100;

/// What the increment button adds to `value` per click, in tenths (1.0 unit).
pub const INCREMENT_STEP: u32 = 10;

/// Whether the application runs inside a web embedding. Checked at render
/// time: a web page has no window of its own to close, so the quit entry is
/// suppressed there.
#[derive(Clone, Copy, Debug, PartialEq, Eq, Structural)]
pub struct UiConfig {
    pub is_web: bool,
}

/// The one interaction a repaint reports. A slider drag carries the position
/// the user asked for, in tenths; it may lie outside the slider's range (the
/// widget also accepts typed-in numbers) and is clamped by the step.
pub enum UiEvent {
    /// Nothing was touched this repaint.
    Idle,
    /// The text field was edited to this content.
    LabelEdited(String),
    /// The slider was dragged to this position, in tenths.
    SliderDragged(i64),
    /// The increment button was clicked.
    IncrementClicked,
    /// The quit entry of the menu was clicked.
    QuitClicked,
}

/// What the frame asks of the host after the step.
#[derive(Clone, Copy, Debug, PartialEq, Eq, Structural)]
pub enum FrameAction {
    /// Keep running and repaint as usual.
    Continue,
    /// Close the window and shut down.
    RequestClose,
}

/// Where the slider puts `value` when asked for `raw`: the position itself
/// inside the range, the nearer end outside it.
pub open spec fn spec_slider_clamp(raw: i64) -> u32 {
    if raw < SLIDER_MIN {
        SLIDER_MIN
    } else if raw > SLIDER_MAX {
        SLIDER_MAX
    } else {
        raw as u32
    }
}

/// The state after one interaction.
pub open spec fn step_state(s: TourApp, cfg: UiConfig, e: UiEvent) -> TourApp {
    match e {
        UiEvent::Idle => s,
        UiEvent::LabelEdited(t) => TourApp { label: t, ..s },
        UiEvent::SliderDragged(raw) => TourApp { value: spec_slider_clamp(raw), ..s },
        UiEvent::IncrementClicked => TourApp { value: (s.value + INCREMENT_STEP) as u32, ..s },
        UiEvent::QuitClicked => s,
    }
}

/// What the frame asks of the host after one interaction: only a quit click,
/// and only outside a web embedding, requests a close.
pub open spec fn step_action(cfg: UiConfig, e: UiEvent) -> FrameAction {
    match e {
        UiEvent::QuitClicked => if cfg.is_web {
            FrameAction::Continue
        } else {
            FrameAction::RequestClose
        },
        _ => FrameAction::Continue,
    }
}

/// Clamp a requested slider position to the slider's range.
pub fn slider_clamp(raw: i64) -> (v: u32)
    ensures
        v == spec_slider_clamp(raw),
        SLIDER_MIN <= v <= SLIDER_MAX,
{
    if raw < SLIDER_MIN as i64 {
        SLIDER_MIN
    } else if raw > SLIDER_MAX as i64 {
        SLIDER_MAX
    } else {
        raw as u32
    }
}

/// Apply one repaint's interaction to the state and say what the host should
/// do next. The increment button adds a whole unit unconditionally — no upper
/// bound of its own — so the machine's word size is the only limit on it.
pub fn frame_step(app: &mut TourApp, cfg: &UiConfig, event: UiEvent) -> (action: FrameAction)
    requires
        event is IncrementClicked ==> old(app).value + INCREMENT_STEP <= u32::MAX,
    ensures
        *final(app) == step_state(*old(app), *cfg, event),
        action == step_action(*cfg, event),
{
    match event {
        UiEvent::Idle => FrameAction::Continue,
        UiEvent::LabelEdited(t) => {
            app.label = t;
            FrameAction::Continue
        },
        UiEvent::SliderDragged(raw) => {
            app.value = slider_clamp(raw);
            FrameAction::Continue
        },
        UiEvent::IncrementClicked => {
            app.value = app.value + INCREMENT_STEP;
            FrameAction::Continue
        },
        UiEvent::QuitClicked => {
            if cfg.is_web {
                FrameAction::Continue
            } else {
                FrameAction::RequestClose
            }
        },
    }
}

/// The state after `n` clicks of the increment button, nothing else touched.
pub open spec fn after_clicks(s: TourApp, cfg: UiConfig, n: nat) -> TourApp
    decreases n,
{
    if n == 0 {
        s
    } else {
        step_state(after_clicks(s, cfg, (n - 1) as nat), cfg, UiEvent::IncrementClicked)
    }
}

/// Clicking the increment button exactly `n` times raises `value` by exactly
/// `n` whole units and touches nothing else; the button itself imposes no
/// upper bound, so the result may lie beyond the slider's range.
pub proof fn lemma_increment_clicks(s: TourApp, cfg: UiConfig, n: nat)
    requires
        s.value + n * INCREMENT_STEP <= u32::MAX,
    ensures
        after_clicks(s, cfg, n).value == s.value + n * INCREMENT_STEP,
        after_clicks(s, cfg, n).label == s.label,
        after_clicks(s, cfg, n).font_size == s.font_size,
    decreases n,
{
    if n > 0 {
        assert((n - 1) * INCREMENT_STEP == n * INCREMENT_STEP - INCREMENT_STEP) by (nonlinear_arith);
        lemma_increment_clicks(s, cfg, (n - 1) as nat);
    }
}

/// The slider never reports a position outside its range, whatever was asked
/// of it.
pub proof fn lemma_slider_in_range(raw: i64)
    ensures
        SLIDER_MIN <= spec_slider_clamp(raw) <= SLIDER_MAX,
{
}

} // verus!
