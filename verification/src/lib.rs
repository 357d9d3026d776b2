//! A minimal desktop browser shell, reduced to its decisions.
//!
//! The shell itself — one native window, one embedded renderer, one event
//! loop — is glue around a platform webview. What this crate holds is the
//! behaviour of that glue, verified: the navigation overlay injected into
//! every page (search classification, theme toggling, address display,
//! the restore-home shortcut), the custom-scheme handler that re-serves
//! the homepage, the assembly of the injected script, and the shutdown
//! step machine.

pub mod text;
pub mod search;
pub mod overlay;
pub mod events;
pub mod shell;
pub mod homepage;
pub mod protocol;
pub mod script;

use vstd::prelude::*;

verus! {

/// The keyboard chord that asks the shell to restore the homepage:
/// Ctrl+H or Cmd+H, with the letter accepted in either case.
pub open spec fn is_home_chord(ctrl: bool, meta: bool, key: char) -> bool {
    (ctrl || meta) && (key == 'h' || key == 'H')
}

/// Decides whether a keydown event is the restore-home shortcut.
pub fn home_chord(ctrl: bool, meta: bool, key: char) -> (r: bool)
    ensures
        r == is_home_chord(ctrl, meta, key),
{
    (ctrl || meta) && (key == 'h' || key == 'H')
}

} // verus!
