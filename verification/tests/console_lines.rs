use rustkrazy_init::messages::{
    line_banner, line_closed_stream, line_exited, line_final_sigkill, line_final_sigterm,
    line_invalid_unicode, line_mount_error, line_pid1_error, line_reboot_error, line_scan_error,
    line_sigterm_all, line_signal_install_error, line_spawn_error, line_starting,
    line_supervise_error, line_wait_error, Color,
};

#[test]
fn banner_line() {
    let l = line_banner();
    assert_eq!(l.color, Color::Yellow);
    assert_eq!(l.text, "Starting rustkrazy");
}

#[test]
fn starting_line() {
    let l = line_starting("hello");
    assert_eq!(l.color, Color::Green);
    assert_eq!(l.text, "[  OK   ] starting hello");
}

#[test]
fn exited_line() {
    let l = line_exited("hello", "exit status: 0");
    assert_eq!(l.color, Color::Yellow);
    assert_eq!(l.text, "[ INFO  ] hello exited with exit status: 0");
}

#[test]
fn closed_stream_lines() {
    let l = line_closed_stream("hello", "stdout");
    assert_eq!(l.color, Color::Yellow);
    assert_eq!(l.text, "[ INFO  ] hello closed stdout");
    let l = line_closed_stream("hello", "stderr");
    assert_eq!(l.text, "[ INFO  ] hello closed stderr");
}

#[test]
fn spawn_error_line() {
    let l = line_spawn_error("broken", "Permission denied (os error 13)");
    assert_eq!(l.color, Color::Red);
    assert_eq!(l.text, "[ ERROR ] starting broken: Permission denied (os error 13)");
}

#[test]
fn wait_error_line() {
    let l = line_wait_error("hello", "No child processes (os error 10)");
    assert_eq!(l.color, Color::Red);
    assert_eq!(
        l.text,
        "[ ERROR ] can't wait for hello to exit: No child processes (os error 10)"
    );
}

#[test]
fn mount_error_line() {
    let l = line_mount_error("/boot", "No such file or directory (os error 2)");
    assert_eq!(l.color, Color::Red);
    assert_eq!(
        l.text,
        "[ ERROR ] can't mount /boot: No such file or directory (os error 2)"
    );
}

#[test]
fn pid1_error_line() {
    let l = line_pid1_error();
    assert_eq!(l.color, Color::Red);
    assert_eq!(l.text, "[ ERROR ] must be run as PID 1");
}

#[test]
fn invalid_unicode_line() {
    let l = line_invalid_unicode();
    assert_eq!(l.color, Color::Red);
    assert_eq!(l.text, "[ ERROR ] invalid unicode in file name");
}

#[test]
fn shutdown_notice_lines() {
    assert_eq!(line_sigterm_all().text, "[ INFO  ] send SIGTERM to all processes");
    assert_eq!(line_sigterm_all().color, Color::Yellow);
    assert_eq!(line_final_sigterm().text, "[ INFO  ] send final SIGTERM");
    assert_eq!(line_final_sigkill().text, "[ INFO  ] send final SIGKILL");
}

#[test]
fn reboot_error_line() {
    let l = line_reboot_error("RB_AUTOBOOT", "EPERM: Operation not permitted");
    assert_eq!(l.color, Color::Red);
    assert_eq!(
        l.text,
        "[ ERROR ] can't reboot (mode: RB_AUTOBOOT): EPERM: Operation not permitted"
    );
}

#[test]
fn supervise_error_line() {
    let l = line_supervise_error("hello", "some error");
    assert_eq!(l.color, Color::Red);
    assert_eq!(l.text, "can't supervise hello: some error");
}

#[test]
fn signal_install_error_line() {
    let l = line_signal_install_error("SIGUSR1", "EINVAL: Invalid argument");
    assert_eq!(l.color, Color::Red);
    assert_eq!(
        l.text,
        "[ ERROR ] can't subscribe to SIGUSR1: EINVAL: Invalid argument"
    );
}

#[test]
fn scan_error_line() {
    let l = line_scan_error("No such file or directory (os error 2)");
    assert_eq!(l.color, Color::Red);
    assert_eq!(l.text, "[ ERROR ] No such file or directory (os error 2)");
}
