//! The keyboard path of the restore-home shortcut.
//!
//! The shortcut listener is registered at the document, in the capture
//! phase, precisely so that a page which stops propagation of keydown
//! events cannot suppress it. This module models the dispatch order the
//! document object model guarantees — capture listeners at the document
//! run before the page's own handlers see the event — and proves that
//! the guarantee holds whatever the page's handlers do.

use vstd::prelude::*;
use crate::is_home_chord;
use crate::home_chord;

verus! {

/// What a keydown handler does when it runs.
#[derive(Clone, Copy, Debug, PartialEq, Eq, Structural)]
pub enum HandlerAction {
    /// The overlay's handler: navigate back to the home scheme.
    RestoreHome,
    /// Anything a host page's handler might do.
    HostEffect,
}

/// A keydown listener, with where and how it was registered.
#[derive(Clone, Copy, Debug, PartialEq, Eq, Structural)]
pub struct KeyListener {
    /// Registered on the document rather than on an element of the page.
    pub at_document: bool,
    /// Registered for the capture phase.
    pub capture: bool,
    /// Calls `stopPropagation` when it runs.
    pub stops_propagation: bool,
    pub action: HandlerAction,
}

/// Whether listener `i` runs when a keydown is dispatched.
///
/// Dispatch travels document-down to the target and back: capture
/// listeners at the document run first, unconditionally; the target's
/// own listeners run next, in order, until one of them stops
/// propagation; listeners registered at the document for the bubbling
/// phase run last, and only when no target listener stopped the event.
pub open spec fn listener_runs(ls: Seq<KeyListener>, i: int) -> bool {
    &&& 0 <= i < ls.len()
    &&& if ls[i].at_document && ls[i].capture {
        true
    } else if !ls[i].at_document {
        forall|j: int| 0 <= j < i && !ls[j].at_document ==> !ls[j].stops_propagation
    } else {
        forall|j: int| 0 <= j < ls.len() && !ls[j].at_document ==> !ls[j].stops_propagation
    }
}

/// A home-chord keydown reaches some handler that restores home.
pub open spec fn restore_reached(ls: Seq<KeyListener>, ctrl: bool, meta: bool, key: char) -> bool {
    is_home_chord(ctrl, meta, key) && exists|i: int|
        listener_runs(ls, i) && ls[i].action is RestoreHome
}

/// Dispatches a keydown for the restore-home chord: reports whether a
/// handler that restores home ran.
pub fn dispatch_restores_home(ls: &Vec<KeyListener>, ctrl: bool, meta: bool, key: char) -> (r:
    bool)
    ensures
        r == restore_reached(ls@, ctrl, meta, key),
{
    if !home_chord(ctrl, meta, key) {
        return false;
    }
    let mut stopped = false;
    let mut i: usize = 0;
    while i < ls.len()
        invariant
            i <= ls@.len(),
            stopped == exists|j: int|
                0 <= j < i && !ls@[j].at_document && ls@[j].stops_propagation,
        decreases ls@.len() - i,
    {
        let l = ls[i];
        if !l.at_document && l.stops_propagation {
            stopped = true;
            assert(!ls@[i as int].at_document && ls@[i as int].stops_propagation);
        }
        i = i + 1;
    }
    let any_stop = stopped;
    let mut i: usize = 0;
    let mut stopped_before = false;
    while i < ls.len()
        invariant
            is_home_chord(ctrl, meta, key),
            i <= ls@.len(),
            any_stop == exists|j: int|
                0 <= j < ls@.len() && !ls@[j].at_document && ls@[j].stops_propagation,
            stopped_before == exists|j: int|
                0 <= j < i && !ls@[j].at_document && ls@[j].stops_propagation,
            forall|k: int|
                0 <= k < i ==> !(listener_runs(ls@, k) && ls@[k].action is RestoreHome),
        decreases ls@.len() - i,
    {
        let l = ls[i];
        let runs = if l.at_document && l.capture {
            true
        } else if !l.at_document {
            !stopped_before
        } else {
            !any_stop
        };
        assert(runs == listener_runs(ls@, i as int));
        let is_restore = match l.action {
            HandlerAction::RestoreHome => true,
            HandlerAction::HostEffect => false,
        };
        if runs && is_restore {
            assert(listener_runs(ls@, i as int) && ls@[i as int].action is RestoreHome);
            return true;
        }
        if !l.at_document && l.stops_propagation {
            stopped_before = true;
            assert(!ls@[i as int].at_document && ls@[i as int].stops_propagation);
        }
        i = i + 1;
    }
    assert(!restore_reached(ls@, ctrl, meta, key));
    false
}

/// A restore-home listener registered at the document for the capture
/// phase runs on every home-chord keydown, whichever listeners the host
/// page registered and whatever propagation they stop.
pub proof fn lemma_capture_unstoppable(
    ls: Seq<KeyListener>,
    i: int,
    ctrl: bool,
    meta: bool,
    key: char,
)
    requires
        0 <= i < ls.len(),
        ls[i].at_document,
        ls[i].capture,
        ls[i].action is RestoreHome,
        is_home_chord(ctrl, meta, key),
    ensures
        listener_runs(ls, i),
        restore_reached(ls, ctrl, meta, key),
{
    assert(listener_runs(ls, i) && ls[i].action is RestoreHome);
}

} // verus!
