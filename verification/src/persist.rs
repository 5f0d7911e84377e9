//! The snapshot written at shutdown and restored at startup.
//!
//! The host keeps the snapshot under a well-known key in its own storage; the
//! encoding there is the host's business. What this module fixes is the
//! content: which fields are written, and what each field falls back to when
//! it is absent or when the whole snapshot is missing or undecodable.

use vstd::prelude::*;

use crate::state::{default_label, TourApp, DEFAULT_FONT_SIZE, DEFAULT_VALUE};

verus! {

/// The persisted snapshot of the state. `value` is deliberately absent: the
/// counter is ephemeral and starts from its default on every run. Each field
/// is optional so that an older snapshot that lacks it still restores, the
/// missing field falling back to its default.
pub struct PersistedRecord {
    pub label: Option<String>,
    pub font_size: Option<u32>,
}

/// What `TourApp::save` writes: both persisted fields, taken verbatim.
pub open spec fn save_ok(app: TourApp, rec: PersistedRecord) -> bool {
    &&& rec.label == Some(app.label)
    &&& rec.font_size == Some(app.font_size)
}

/// What startup yields from a snapshot. A missing or undecodable snapshot
/// arrives as `None` and yields the full default state; a present snapshot
/// restores each field it carries and defaults each field it lacks. The
/// counter always starts from its default.
pub open spec fn restore_ok(restored: Option<PersistedRecord>, app: TourApp) -> bool {
    match restored {
        None => app.is_default(),
        Some(rec) => {
            &&& match rec.label {
                Some(l) => app.label == l,
                None => app.label@ == default_label(),
            }
            &&& match rec.font_size {
                Some(f) => app.font_size == f,
                None => app.font_size == DEFAULT_FONT_SIZE,
            }
            &&& app.value == DEFAULT_VALUE
        },
    }
}

impl TourApp {
    /// Build the state for a fresh run: restore what the snapshot carries,
    /// default everything else. Run once before the first frame.
    pub fn new(restored: Option<PersistedRecord>) -> (app: TourApp)
        ensures
            restore_ok(restored, app),
    {
        match restored {
            None => TourApp::default(),
            Some(rec) => {
                let label = match rec.label {
                    Some(l) => l,
                    None => String::from_str("Hello World!"),
                };
                let font_size = match rec.font_size {
                    Some(f) => f,
                    None => DEFAULT_FONT_SIZE,
                };
                TourApp { label, value: DEFAULT_VALUE, font_size }
            },
        }
    }

    /// The snapshot to hand to the host's storage before shutdown.
    pub fn save(&self) -> (rec: PersistedRecord)
        ensures
            save_ok(*self, rec),
    {
        PersistedRecord { label: Some(self.label.clone()), font_size: Some(self.font_size) }
    }
}

/// A missing or undecodable snapshot starts the application in exactly the
/// default state; the failure is absorbed, never surfaced.
pub proof fn lemma_missing_snapshot_yields_default(app: TourApp)
    requires
        restore_ok(None, app),
    ensures
        app.is_default(),
{
}

/// Saving and then restoring round-trips `label` and `font_size` exactly,
/// while `value` is never round-tripped: it comes back as its compiled-in
/// default whatever it was when the snapshot was written.
pub proof fn lemma_persist_round_trip(app: TourApp, rec: PersistedRecord, again: TourApp)
    requires
        save_ok(app, rec),
        restore_ok(Some(rec), again),
    ensures
        again.label == app.label,
        again.font_size == app.font_size,
        again.value == DEFAULT_VALUE,
{
}

} // verus!
