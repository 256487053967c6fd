//! The application bootstrap's one failure: the host framework's event loop
//! cannot be started (no windowing environment, invalid configuration).
//! That condition is fatal and unrecoverable — the surrounding application
//! terminates the process with the fixed diagnostic below, with no retry.
//! Registration of the command handler and the blocking event loop itself
//! belong to the host framework and live in the surrounding application.

use vstd::prelude::*;

verus! {

/// The fixed diagnostic that accompanies a fatal startup failure.
pub fn startup_failure_message() -> (r: &'static str)
    ensures
        r@ == "Tauri uygulamas\u{131} \u{e7}al\u{131}\u{15f}t\u{131}r\u{131}lamad\u{131}"@,
{
    "Tauri uygulamas\u{131} \u{e7}al\u{131}\u{15f}t\u{131}r\u{131}lamad\u{131}"
}

} // verus!
