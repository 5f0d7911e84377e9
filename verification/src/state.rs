//! The application state record and its compiled-in defaults.

use vstd::prelude::*;

verus! {

/// Default text of the editable label.
pub open spec fn default_label() -> Seq<char> {
    "Hello World!"@
}

/// Default of the ephemeral counter, in tenths (2.7 units).
pub const DEFAULT_VALUE: u32 = 27;

/// Default font size, in tenths (32.0 units).
pub const DEFAULT_FONT_SIZE: u32 = 320;

/// The state behind the UI: an editable label, a numeric counter driven by
/// the slider and the increment button, and a font size. `value` and
/// `font_size` are in tenths of the host's fractional unit.
pub struct TourApp {
    pub label: String,
    pub value: u32,
    pub font_size: u32,
}

impl TourApp {
    /// The record holds exactly the compiled-in defaults.
    pub open spec fn is_default(self) -> bool {
        &&& self.label@ == default_label()
        &&& self.value == DEFAULT_VALUE
        &&& self.font_size == DEFAULT_FONT_SIZE
    }
}

impl Default for TourApp {
    fn default() -> (s: Self)
        ensures
            s.is_default(),
    {
        TourApp {
            label: String::from_str("Hello World!"),
            value: DEFAULT_VALUE,
            font_size: DEFAULT_FONT_SIZE,
        }
    }
}

} // verus!
