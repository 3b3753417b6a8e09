//! The administrative shutdown path: what happens, in order, once a reboot
//! or power-off signal arrives.
//!
//! Broadcasting signals, sleeping, syncing and the kernel reboot call are
//! outside work; here stands the exact ordered sequence of those steps.
use vstd::prelude::*;

use crate::messages::Color;
use crate::messages::ConsoleLine;
use crate::messages::final_sigkill_text;
use crate::messages::final_sigterm_text;
use crate::messages::line_final_sigkill;
use crate::messages::line_final_sigterm;
use crate::messages::line_sigterm_all;
use crate::messages::sigterm_all_text;

verus! {

/// Seconds granted between a termination broadcast and the next step.
pub const SHUTDOWN_GRACE_SECS: u64 = 3;

/// What the kernel is asked to do at the end of the shutdown sequence.
#[derive(Clone, Copy, PartialEq, Eq, Structural, Debug)]
pub enum RebootKind {
    /// Restart the machine.
    Restart,
    /// Power the machine off.
    PowerOff,
}

/// One step of the shutdown sequence.
pub enum ShutdownAction {
    /// Emit this line on the console sink.
    Report(ConsoleLine),
    /// Send the graceful-termination signal to every process.
    BroadcastTerm,
    /// Send the forced-kill signal to every process.
    BroadcastKill,
    /// Sleep this many seconds.
    SleepSecs(u64),
    /// Sync all filesystems.
    SyncDisks,
    /// Invoke the kernel reboot primitive with this mode.
    KernelReboot(RebootKind),
}

/// The step with its line as colour and character sequence.
pub enum ShutdownActionView {
    Report(Color, Seq<char>),
    BroadcastTerm,
    BroadcastKill,
    SleepSecs(u64),
    SyncDisks,
    KernelReboot(RebootKind),
}

impl View for ShutdownAction {
    type V = ShutdownActionView;

    open spec fn view(&self) -> ShutdownActionView {
        match self {
            ShutdownAction::Report(l) => ShutdownActionView::Report(l.color, l.text@),
            ShutdownAction::BroadcastTerm => ShutdownActionView::BroadcastTerm,
            ShutdownAction::BroadcastKill => ShutdownActionView::BroadcastKill,
            ShutdownAction::SleepSecs(s) => ShutdownActionView::SleepSecs(*s),
            ShutdownAction::SyncDisks => ShutdownActionView::SyncDisks,
            ShutdownAction::KernelReboot(k) => ShutdownActionView::KernelReboot(*k),
        }
    }
}

/// The full shutdown sequence: announce and broadcast graceful termination,
/// grant the grace period, sync, announce and broadcast termination once
/// more, grant the grace period again, announce and broadcast the forced
/// kill, then ask the kernel to reboot or power off.
pub open spec fn shutdown_sequence_spec(kind: RebootKind) -> Seq<ShutdownActionView> {
    seq![
        ShutdownActionView::Report(Color::Yellow, sigterm_all_text()),
        ShutdownActionView::BroadcastTerm,
        ShutdownActionView::SleepSecs(SHUTDOWN_GRACE_SECS),
        ShutdownActionView::SyncDisks,
        ShutdownActionView::Report(Color::Yellow, final_sigterm_text()),
        ShutdownActionView::BroadcastTerm,
        ShutdownActionView::SleepSecs(SHUTDOWN_GRACE_SECS),
        ShutdownActionView::Report(Color::Yellow, final_sigkill_text()),
        ShutdownActionView::BroadcastKill,
        ShutdownActionView::KernelReboot(kind),
    ]
}

/// Build the shutdown sequence for the given reboot mode.
pub fn shutdown_sequence(kind: RebootKind) -> (v: Vec<ShutdownAction>)
    ensures
        v@.map_values(|a: ShutdownAction| a@) == shutdown_sequence_spec(kind),
{
    let mut v: Vec<ShutdownAction> = Vec::new();
    v.push(ShutdownAction::Report(line_sigterm_all()));
    v.push(ShutdownAction::BroadcastTerm);
    v.push(ShutdownAction::SleepSecs(SHUTDOWN_GRACE_SECS));
    v.push(ShutdownAction::SyncDisks);
    v.push(ShutdownAction::Report(line_final_sigterm()));
    v.push(ShutdownAction::BroadcastTerm);
    v.push(ShutdownAction::SleepSecs(SHUTDOWN_GRACE_SECS));
    v.push(ShutdownAction::Report(line_final_sigkill()));
    v.push(ShutdownAction::BroadcastKill);
    v.push(ShutdownAction::KernelReboot(kind));
    proof {
        assert(v@.map_values(|a: ShutdownAction| a@) =~= shutdown_sequence_spec(kind));
    }
    v
}

/// Law: the shutdown sequence announces the termination broadcast in
/// yellow, broadcasts it, and grants at least the grace period before the
/// kernel reboot call; the forced kill is announced and broadcast before
/// the reboot call too; the reboot call is the last step, carries the
/// requested mode, and occurs exactly once.
pub proof fn lemma_shutdown_order(kind: RebootKind)
    ensures
        ({
            let s = shutdown_sequence_spec(kind);
            &&& s[0] == ShutdownActionView::Report(Color::Yellow, sigterm_all_text())
            &&& s[1] == ShutdownActionView::BroadcastTerm
            &&& s[2] == ShutdownActionView::SleepSecs(SHUTDOWN_GRACE_SECS)
            &&& s[7] == ShutdownActionView::Report(Color::Yellow, final_sigkill_text())
            &&& s[8] == ShutdownActionView::BroadcastKill
            &&& s.last() == ShutdownActionView::KernelReboot(kind)
            &&& forall|i: int|
                0 <= i < s.len() - 1 ==> !((#[trigger] s[i]) is KernelReboot)
            &&& SHUTDOWN_GRACE_SECS >= 3
        }),
{
}

} // verus!
