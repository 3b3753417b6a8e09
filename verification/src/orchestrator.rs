//! The boot path: what the main thread does, in order, from the PID check
//! to parking forever.
use vstd::prelude::*;

use crate::messages::Color;
use crate::messages::ConsoleLine;
use crate::messages::banner_text;
use crate::messages::line_banner;
use crate::messages::line_pid1_error;
use crate::messages::pid1_error_text;

verus! {

/// One step of the boot plan.
pub enum BootAction {
    /// Emit this line on the console sink.
    Report(ConsoleLine),
    /// Park the current thread forever without exiting the process.
    HaltForever,
    /// Mount this partition of a block device at this point, walking the
    /// device fallback list.
    MountPartition { point: String, fstype: String, part_index: u8 },
    /// Mount this pseudo filesystem from its literal source name; a
    /// failure here aborts boot.
    MountPseudo { point: String, fstype: String, source: String },
    /// Scan the service directory once and start the supervisors.
    ScanServices,
    /// Install the reboot and power-off signal handlers.
    InstallHandlers,
    /// Park the main thread forever.
    ParkForever,
}

/// The step with its texts as character sequences.
pub enum BootActionView {
    Report(Color, Seq<char>),
    HaltForever,
    MountPartition(Seq<char>, Seq<char>, u8),
    MountPseudo(Seq<char>, Seq<char>, Seq<char>),
    ScanServices,
    InstallHandlers,
    ParkForever,
}

impl View for BootAction {
    type V = BootActionView;

    open spec fn view(&self) -> BootActionView {
        match self {
            BootAction::Report(l) => BootActionView::Report(l.color, l.text@),
            BootAction::HaltForever => BootActionView::HaltForever,
            BootAction::MountPartition { point, fstype, part_index } => (
            BootActionView::MountPartition(point@, fstype@, *part_index)),
            BootAction::MountPseudo { point, fstype, source } => (BootActionView::MountPseudo(
                point@,
                fstype@,
                source@,
            )),
            BootAction::ScanServices => BootActionView::ScanServices,
            BootAction::InstallHandlers => BootActionView::InstallHandlers,
            BootAction::ParkForever => BootActionView::ParkForever,
        }
    }
}

/// The boot plan for a process started with the given PID. Any PID other
/// than 1 is refused outright; PID 1 mounts the five filesystems in their
/// fixed order, scans the service directory, installs the signal handlers,
/// and parks.
pub open spec fn boot_plan_spec(pid: int) -> Seq<BootActionView> {
    if pid != 1 {
        seq![
            BootActionView::Report(Color::Red, pid1_error_text()),
            BootActionView::HaltForever,
        ]
    } else {
        seq![
            BootActionView::MountPartition("/boot"@, "vfat"@, 1u8),
            BootActionView::MountPartition("/data"@, "ext4"@, 4u8),
            BootActionView::MountPseudo("/proc"@, "proc"@, "proc"@),
            BootActionView::MountPseudo("/tmp"@, "tmpfs"@, "tmpfs"@),
            BootActionView::MountPseudo("/run"@, "tmpfs"@, "tmpfs"@),
            BootActionView::Report(Color::Yellow, banner_text()),
            BootActionView::ScanServices,
            BootActionView::InstallHandlers,
            BootActionView::ParkForever,
        ]
    }
}

/// Build the boot plan for the PID the process was started with.
pub fn boot_plan(pid: u32) -> (v: Vec<BootAction>)
    ensures
        v@.map_values(|a: BootAction| a@) == boot_plan_spec(pid as int),
{
    let mut v: Vec<BootAction> = Vec::new();
    if pid != 1 {
        v.push(BootAction::Report(line_pid1_error()));
        v.push(BootAction::HaltForever);
    } else {
        v.push(
            BootAction::MountPartition {
                point: String::from_str("/boot"),
                fstype: String::from_str("vfat"),
                part_index: 1,
            },
        );
        v.push(
            BootAction::MountPartition {
                point: String::from_str("/data"),
                fstype: String::from_str("ext4"),
                part_index: 4,
            },
        );
        v.push(
            BootAction::MountPseudo {
                point: String::from_str("/proc"),
                fstype: String::from_str("proc"),
                source: String::from_str("proc"),
            },
        );
        v.push(
            BootAction::MountPseudo {
                point: String::from_str("/tmp"),
                fstype: String::from_str("tmpfs"),
                source: String::from_str("tmpfs"),
            },
        );
        v.push(
            BootAction::MountPseudo {
                point: String::from_str("/run"),
                fstype: String::from_str("tmpfs"),
                source: String::from_str("tmpfs"),
            },
        );
        v.push(BootAction::Report(line_banner()));
        v.push(BootAction::ScanServices);
        v.push(BootAction::InstallHandlers);
        v.push(BootAction::ParkForever);
    }
    proof {
        assert(v@.map_values(|a: BootAction| a@) =~= boot_plan_spec(pid as int));
    }
    v
}

/// Law: a process whose PID is not 1 reports the PID-1 error in red and
/// halts, and its plan holds no mount step at all — the mount phase is
/// never reached.
pub proof fn lemma_pid_gate(pid: int)
    requires
        pid != 1,
    ensures
        ({
            let p = boot_plan_spec(pid);
            &&& p.len() == 2
            &&& p[0] == BootActionView::Report(Color::Red, pid1_error_text())
            &&& p[1] == BootActionView::HaltForever
            &&& forall|i: int|
                0 <= i < p.len() ==> !((#[trigger] p[i]) is MountPartition) && !(p[i] is MountPseudo)
        }),
{
}

} // verus!
