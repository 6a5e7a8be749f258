//! The report of what the host can do on this desktop.

use vstd::prelude::*;

verus! {

/// Note attached to every permission report.
pub const PROBE_NOTE: &'static str = "Permission probe complete.";

/// Whether a global shortcut could be registered and the clipboard opened.
pub struct PermissionStatus {
    pub global_shortcut_ready: bool,
    pub clipboard_ready: bool,
    pub note: String,
}

impl PermissionStatus {
    /// The report for the outcome of the two probes.
    pub fn from_probes(global_shortcut_ready: bool, clipboard_ready: bool) -> (r: PermissionStatus)
        ensures
            r.global_shortcut_ready == global_shortcut_ready,
            r.clipboard_ready == clipboard_ready,
            r.note@ == PROBE_NOTE@,
    {
        PermissionStatus { global_shortcut_ready, clipboard_ready, note: PROBE_NOTE.to_owned() }
    }
}

} // verus!
