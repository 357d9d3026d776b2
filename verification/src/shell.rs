//! The native shell's terminal behaviour.
//!
//! The event loop itself belongs to the windowing toolkit; what the
//! shell decides is small: wait on every event, and on the first
//! close request run the data-clearing hook once and exit. That
//! decision is a step machine here, with the loop around it left to
//! the unverified binary.

use vstd::prelude::*;

verus! {

/// An event as the shell classifies it.
#[derive(Clone, Copy, Debug, PartialEq, Eq, Structural)]
pub enum ShellEvent {
    /// The window's close button was pressed.
    CloseRequested,
    /// Any other window or input event.
    Other,
}

/// What the loop should do after a step.
#[derive(Clone, Copy, Debug, PartialEq, Eq, Structural)]
pub enum ShellFlow {
    /// Block until the next event.
    Wait,
    /// Leave the loop; the process exits.
    Exit,
}

/// Mathematical model of the shell's lifecycle.
pub struct ShellModel {
    /// How often the data-clearing hook has run.
    pub cleanups: nat,
    /// Whether the loop has been told to exit.
    pub exited: bool,
}

/// The shell's lifecycle state.
pub struct ShellState {
    pub cleanups: u32,
    pub exited: bool,
}

impl View for ShellState {
    type V = ShellModel;

    open spec fn view(&self) -> ShellModel {
        ShellModel { cleanups: self.cleanups as nat, exited: self.exited }
    }
}

/// The shell before any event: the hook has not run, the loop is live.
pub open spec fn shell_start() -> ShellModel {
    ShellModel { cleanups: 0, exited: false }
}

/// One step: a close request runs the hook and exits; every other
/// event leaves the shell waiting; after exit nothing is dispatched,
/// so a late event changes nothing.
pub open spec fn step_spec(m: ShellModel, ev: ShellEvent) -> ShellModel {
    if m.exited {
        m
    } else {
        match ev {
            ShellEvent::CloseRequested => ShellModel { cleanups: m.cleanups + 1, exited: true },
            ShellEvent::Other => m,
        }
    }
}

/// The shell after a stream of events, stepped in order.
pub open spec fn run_spec(m: ShellModel, evs: Seq<ShellEvent>) -> ShellModel
    decreases evs.len(),
{
    if evs.len() == 0 {
        m
    } else {
        run_spec(step_spec(m, evs[0]), evs.drop_first())
    }
}

/// The data-clearing hook the shell runs on close. The shell itself
/// persists no browsing data — no history, no cache of its own — so
/// there is nothing to remove and the hook is deliberately empty; it
/// stands so that closing has a single, named cleanup point.
pub fn clear_user_data() {
}

/// Builds the shell's starting state.
pub fn shell_init() -> (st: ShellState)
    ensures
        st@ == shell_start(),
{
    ShellState { cleanups: 0, exited: false }
}

/// Steps the shell on one event, running the cleanup hook when the
/// close request arrives, and tells the loop whether to wait or exit.
pub fn shell_step(st: &mut ShellState, ev: ShellEvent) -> (flow: ShellFlow)
    requires
        old(st)@.cleanups < u32::MAX,
    ensures
        final(st)@ == step_spec(old(st)@, ev),
        flow is Exit <==> final(st)@.exited,
{
    if st.exited {
        return ShellFlow::Exit;
    }
    match ev {
        ShellEvent::CloseRequested => {
            clear_user_data();
            st.cleanups = st.cleanups + 1;
            st.exited = true;
            ShellFlow::Exit
        },
        ShellEvent::Other => ShellFlow::Wait,
    }
}

/// Once the loop has exited, no stream of late events changes the
/// shell: nothing further is dispatched.
pub proof fn lemma_no_events_after_exit(m: ShellModel, evs: Seq<ShellEvent>)
    requires
        m.exited,
    ensures
        run_spec(m, evs) == m,
    decreases evs.len(),
{
    if evs.len() > 0 {
        lemma_no_events_after_exit(m, evs.drop_first());
    }
}

/// Closing the window runs the cleanup hook exactly once: over any
/// event stream from the start state, the hook has run once and the
/// loop has exited as soon as a close request appears, and never
/// otherwise.
pub proof fn lemma_close_cleans_once(m: ShellModel, evs: Seq<ShellEvent>)
    requires
        !m.exited,
        m.cleanups == 0,
    ensures
        evs.contains(ShellEvent::CloseRequested) ==> run_spec(m, evs).cleanups == 1 && run_spec(
            m,
            evs,
        ).exited,
        !evs.contains(ShellEvent::CloseRequested) ==> run_spec(m, evs) == m,
    decreases evs.len(),
{
    if evs.len() == 0 {
        assert(!evs.contains(ShellEvent::CloseRequested));
    } else {
        let rest = evs.drop_first();
        match evs[0] {
            ShellEvent::CloseRequested => {
                let m1 = step_spec(m, evs[0]);
                assert(m1.cleanups == 1 && m1.exited);
                lemma_no_events_after_exit(m1, rest);
                assert(evs.contains(ShellEvent::CloseRequested));
            },
            ShellEvent::Other => {
                assert(step_spec(m, evs[0]) == m);
                lemma_close_cleans_once(m, rest);
                assert(evs.contains(ShellEvent::CloseRequested) <==> rest.contains(
                    ShellEvent::CloseRequested,
                )) by {
                    if evs.contains(ShellEvent::CloseRequested) {
                        let k = choose|k: int|
                            0 <= k < evs.len() && evs[k] == ShellEvent::CloseRequested;
                        assert(k != 0);
                        assert(rest[k - 1] == ShellEvent::CloseRequested);
                    }
                    if rest.contains(ShellEvent::CloseRequested) {
                        let k = choose|k: int|
                            0 <= k < rest.len() && rest[k] == ShellEvent::CloseRequested;
                        assert(evs[k + 1] == ShellEvent::CloseRequested);
                    }
                }
            },
        }
    }
}

/// The window the shell opens: fixed title, fixed logical size.
pub struct WindowConfig {
    pub title: &'static str,
    pub width: u32,
    pub height: u32,
}

/// The one window configuration the shell uses.
pub fn window_config() -> (c: WindowConfig)
    ensures
        c.title@ == "Minimal Browser"@,
        c.width == 900,
        c.height == 700,
{
    WindowConfig { title: "Minimal Browser", width: 900, height: 700 }
}

} // verus!
