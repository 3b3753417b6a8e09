//! Console line model: every line the init process emits on the kernel
//! console, with its foreground colour and its exact text.
use vstd::prelude::*;

verus! {

/// Foreground colour of a console line.
#[derive(Clone, Copy, PartialEq, Eq, Structural, Debug)]
pub enum Color {
    Yellow,
    Green,
    Red,
    White,
}

/// One line destined for the console sink.
pub struct ConsoleLine {
    pub color: Color,
    pub text: String,
}

impl View for ConsoleLine {
    type V = (Color, Seq<char>);

    open spec fn view(&self) -> (Color, Seq<char>) {
        (self.color, self.text@)
    }
}

/// Text of the banner printed at boot.
pub open spec fn banner_text() -> Seq<char> {
    "Starting rustkrazy"@
}

/// Text announcing a successful service spawn.
pub open spec fn starting_text(name: Seq<char>) -> Seq<char> {
    "[  OK   ] starting "@ + name
}

/// Text announcing a service exit with its wait status.
pub open spec fn exited_text(name: Seq<char>, status: Seq<char>) -> Seq<char> {
    "[ INFO  ] "@ + name + " exited with "@ + status
}

/// Text announcing that one of a service's output streams reached EOF.
pub open spec fn closed_stream_text(name: Seq<char>, stream: Seq<char>) -> Seq<char> {
    "[ INFO  ] "@ + name + " closed "@ + stream
}

/// Text reporting a failed spawn attempt.
pub open spec fn spawn_error_text(name: Seq<char>, err: Seq<char>) -> Seq<char> {
    "[ ERROR ] starting "@ + name + ": "@ + err
}

/// Text reporting a failed wait on a child.
pub open spec fn wait_error_text(name: Seq<char>, err: Seq<char>) -> Seq<char> {
    "[ ERROR ] can't wait for "@ + name + " to exit: "@ + err
}

/// Text reporting that no device could be mounted at a mount point.
pub open spec fn mount_error_text(point: Seq<char>, err: Seq<char>) -> Seq<char> {
    "[ ERROR ] can't mount "@ + point + ": "@ + err
}

/// Text reporting that the process is not PID 1.
pub open spec fn pid1_error_text() -> Seq<char> {
    "[ ERROR ] must be run as PID 1"@
}

/// Text reporting a directory entry whose file name is not valid UTF-8.
pub open spec fn invalid_unicode_text() -> Seq<char> {
    "[ ERROR ] invalid unicode in file name"@
}

/// Text announcing the graceful-termination broadcast during shutdown.
pub open spec fn sigterm_all_text() -> Seq<char> {
    "[ INFO  ] send SIGTERM to all processes"@
}

/// Text announcing the last graceful-termination broadcast before the kill.
pub open spec fn final_sigterm_text() -> Seq<char> {
    "[ INFO  ] send final SIGTERM"@
}

/// Text announcing the forced-kill broadcast.
pub open spec fn final_sigkill_text() -> Seq<char> {
    "[ INFO  ] send final SIGKILL"@
}

/// Text reporting that the kernel reboot call returned.
pub open spec fn reboot_error_text(mode: Seq<char>, err: Seq<char>) -> Seq<char> {
    "[ ERROR ] can't reboot (mode: "@ + mode + "): "@ + err
}

/// Text reporting a supervisor that stopped with an error.
pub open spec fn supervise_error_text(name: Seq<char>, err: Seq<char>) -> Seq<char> {
    "can't supervise "@ + name + ": "@ + err
}

/// Text reporting that a signal handler could not be installed.
pub open spec fn signal_install_error_text(signal: Seq<char>, err: Seq<char>) -> Seq<char> {
    "[ ERROR ] can't subscribe to "@ + signal + ": "@ + err
}

/// Text reporting a failure of the service directory scan.
pub open spec fn scan_error_text(err: Seq<char>) -> Seq<char> {
    "[ ERROR ] "@ + err
}

pub fn line_banner() -> (r: ConsoleLine)
    ensures
        r@ == (Color::Yellow, banner_text()),
{
    ConsoleLine { color: Color::Yellow, text: String::from_str("Starting rustkrazy") }
}

pub fn line_starting(name: &str) -> (r: ConsoleLine)
    ensures
        r@ == (Color::Green, starting_text(name@)),
{
    ConsoleLine {
        color: Color::Green,
        text: String::from_str("[  OK   ] starting ").concat(name),
    }
}

pub fn line_exited(name: &str, status: &str) -> (r: ConsoleLine)
    ensures
        r@ == (Color::Yellow, exited_text(name@, status@)),
{
    ConsoleLine {
        color: Color::Yellow,
        text: String::from_str("[ INFO  ] ").concat(name).concat(" exited with ").concat(
            status,
        ),
    }
}

pub fn line_closed_stream(name: &str, stream: &str) -> (r: ConsoleLine)
    ensures
        r@ == (Color::Yellow, closed_stream_text(name@, stream@)),
{
    ConsoleLine {
        color: Color::Yellow,
        text: String::from_str("[ INFO  ] ").concat(name).concat(" closed ").concat(stream),
    }
}

pub fn line_spawn_error(name: &str, err: &str) -> (r: ConsoleLine)
    ensures
        r@ == (Color::Red, spawn_error_text(name@, err@)),
{
    ConsoleLine {
        color: Color::Red,
        text: String::from_str("[ ERROR ] starting ").concat(name).concat(": ").concat(err),
    }
}

pub fn line_wait_error(name: &str, err: &str) -> (r: ConsoleLine)
    ensures
        r@ == (Color::Red, wait_error_text(name@, err@)),
{
    ConsoleLine {
        color: Color::Red,
        text: String::from_str("[ ERROR ] can't wait for ").concat(name).concat(
            " to exit: ",
        ).concat(err),
    }
}

pub fn line_mount_error(point: &str, err: &str) -> (r: ConsoleLine)
    ensures
        r@ == (Color::Red, mount_error_text(point@, err@)),
{
    ConsoleLine {
        color: Color::Red,
        text: String::from_str("[ ERROR ] can't mount ").concat(point).concat(": ").concat(
            err,
        ),
    }
}

pub fn line_pid1_error() -> (r: ConsoleLine)
    ensures
        r@ == (Color::Red, pid1_error_text()),
{
    ConsoleLine { color: Color::Red, text: String::from_str("[ ERROR ] must be run as PID 1") }
}

pub fn line_invalid_unicode() -> (r: ConsoleLine)
    ensures
        r@ == (Color::Red, invalid_unicode_text()),
{
    ConsoleLine {
        color: Color::Red,
        text: String::from_str("[ ERROR ] invalid unicode in file name"),
    }
}

pub fn line_sigterm_all() -> (r: ConsoleLine)
    ensures
        r@ == (Color::Yellow, sigterm_all_text()),
{
    ConsoleLine {
        color: Color::Yellow,
        text: String::from_str("[ INFO  ] send SIGTERM to all processes"),
    }
}

pub fn line_final_sigterm() -> (r: ConsoleLine)
    ensures
        r@ == (Color::Yellow, final_sigterm_text()),
{
    ConsoleLine { color: Color::Yellow, text: String::from_str("[ INFO  ] send final SIGTERM") }
}

pub fn line_final_sigkill() -> (r: ConsoleLine)
    ensures
        r@ == (Color::Yellow, final_sigkill_text()),
{
    ConsoleLine { color: Color::Yellow, text: String::from_str("[ INFO  ] send final SIGKILL") }
}

pub fn line_reboot_error(mode: &str, err: &str) -> (r: ConsoleLine)
    ensures
        r@ == (Color::Red, reboot_error_text(mode@, err@)),
{
    ConsoleLine {
        color: Color::Red,
        text: String::from_str("[ ERROR ] can't reboot (mode: ").concat(mode).concat(
            "): ",
        ).concat(err),
    }
}

pub fn line_supervise_error(name: &str, err: &str) -> (r: ConsoleLine)
    ensures
        r@ == (Color::Red, supervise_error_text(name@, err@)),
{
    ConsoleLine {
        color: Color::Red,
        text: String::from_str("can't supervise ").concat(name).concat(": ").concat(err),
    }
}

pub fn line_signal_install_error(signal: &str, err: &str) -> (r: ConsoleLine)
    ensures
        r@ == (Color::Red, signal_install_error_text(signal@, err@)),
{
    ConsoleLine {
        color: Color::Red,
        text: String::from_str("[ ERROR ] can't subscribe to ").concat(signal).concat(
            ": ",
        ).concat(err),
    }
}

pub fn line_scan_error(err: &str) -> (r: ConsoleLine)
    ensures
        r@ == (Color::Red, scan_error_text(err@)),
{
    ConsoleLine { color: Color::Red, text: String::from_str("[ ERROR ] ").concat(err) }
}

} // verus!
