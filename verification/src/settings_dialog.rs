//! The settings dialog: a task dialog whose verification checkbox is the
//! "launch at Windows startup" setting. This module decides what the
//! dialog's answer changes; showing it is the caller's.

use vstd::prelude::*;

verus! {

/// The dialog result of the OK button.
pub const IDOK: i32 = 1;

/// The startup setting to write after the settings dialog: `dialog` is the
/// pressed button and the checkbox state, or `None` where the dialog could
/// not be shown. A change is written only on OK, and only when the checkbox
/// differs from the setting the dialog started from.
pub fn startup_change(initial: bool, dialog: Option<(i32, bool)>) -> (change: Option<bool>)
    ensures
        change == (match dialog {
            Some((button, checked)) => if button == IDOK && checked != initial {
                Some(checked)
            } else {
                None::<bool>
            },
            None => None,
        }),
{
    match dialog {
        Some((button, checked)) => {
            if button == IDOK && checked != initial {
                Some(checked)
            } else {
                None
            }
        },
        None => None,
    }
}

} // verus!
