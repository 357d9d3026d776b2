use minimal_browser::shell::{shell_init, shell_step, window_config, ShellEvent, ShellFlow};

#[test]
fn close_runs_cleanup_exactly_once() {
    let mut st = shell_init();
    assert_eq!(st.cleanups, 0);
    assert!(!st.exited);

    assert_eq!(shell_step(&mut st, ShellEvent::Other), ShellFlow::Wait);
    assert_eq!(st.cleanups, 0);

    assert_eq!(shell_step(&mut st, ShellEvent::CloseRequested), ShellFlow::Exit);
    assert_eq!(st.cleanups, 1);
    assert!(st.exited);

    assert_eq!(shell_step(&mut st, ShellEvent::Other), ShellFlow::Exit);
    assert_eq!(shell_step(&mut st, ShellEvent::CloseRequested), ShellFlow::Exit);
    assert_eq!(st.cleanups, 1);
}

#[test]
fn window_is_fixed_size_and_title() {
    let c = window_config();
    assert_eq!(c.title, "Minimal Browser");
    assert_eq!(c.width, 900);
    assert_eq!(c.height, 700);
}
