use rustkrazy_init::messages::Color;
use rustkrazy_init::mount::{
    device_candidates, mount_trial_absorb, mount_trial_begin, mount_trial_decide, u8_to_decimal,
    MountCommand,
};
use rustkrazy_init::orchestrator::{boot_plan, BootAction};
use rustkrazy_init::shutdown::{
    shutdown_sequence, RebootKind, ShutdownAction, SHUTDOWN_GRACE_SECS,
};

#[test]
fn decimal_rendering() {
    assert_eq!(u8_to_decimal(0), "0");
    assert_eq!(u8_to_decimal(1), "1");
    assert_eq!(u8_to_decimal(4), "4");
    assert_eq!(u8_to_decimal(10), "10");
    assert_eq!(u8_to_decimal(42), "42");
    assert_eq!(u8_to_decimal(100), "100");
    assert_eq!(u8_to_decimal(255), "255");
}

#[test]
fn device_fallback_order() {
    assert_eq!(
        device_candidates(1),
        vec!["/dev/mmcblk0p1", "/dev/sda1", "/dev/vda1"]
    );
    assert_eq!(
        device_candidates(4),
        vec!["/dev/mmcblk0p4", "/dev/sda4", "/dev/vda4"]
    );
}

// All mount devices missing: after every candidate fails, the trial gives
// up with the last attempted device's error.
#[test]
fn exhausted_trial_reports_last_error() {
    let candidates = device_candidates(1);
    let mut trial = mount_trial_begin();
    let errors = [
        "No such file or directory (os error 2)",
        "No such device (os error 19)",
        "Invalid argument (os error 22)",
    ];
    for (i, err) in errors.iter().enumerate() {
        match mount_trial_decide(&trial, candidates.len(), "/boot") {
            MountCommand::Attempt(idx) => assert_eq!(idx, i),
            MountCommand::GiveUp(_) => panic!("gave up too early"),
        }
        trial = mount_trial_absorb(trial, String::from(*err));
    }
    match mount_trial_decide(&trial, candidates.len(), "/boot") {
        MountCommand::GiveUp(l) => {
            assert_eq!(l.color, Color::Red);
            assert_eq!(l.text, "[ ERROR ] can't mount /boot: Invalid argument (os error 22)");
        },
        MountCommand::Attempt(_) => panic!("expected the trial to give up"),
    }
}

#[test]
fn trial_stops_at_first_success() {
    // The first candidate fails, the second succeeds: the trial never asks
    // for the third.
    let mut trial = mount_trial_begin();
    match mount_trial_decide(&trial, 3, "/data") {
        MountCommand::Attempt(idx) => assert_eq!(idx, 0),
        MountCommand::GiveUp(_) => panic!("gave up too early"),
    }
    trial = mount_trial_absorb(trial, String::from("No such device (os error 19)"));
    match mount_trial_decide(&trial, 3, "/data") {
        MountCommand::Attempt(idx) => assert_eq!(idx, 1),
        MountCommand::GiveUp(_) => panic!("gave up too early"),
    }
}

// A process that is not PID 1 reports the error and halts without ever
// reaching a mount step.
#[test]
fn pid_gate_refuses_other_pids() {
    let plan = boot_plan(4321);
    assert_eq!(plan.len(), 2);
    match &plan[0] {
        BootAction::Report(l) => {
            assert_eq!(l.color, Color::Red);
            assert_eq!(l.text, "[ ERROR ] must be run as PID 1");
        },
        _ => panic!("expected the PID-1 error report"),
    }
    assert!(matches!(plan[1], BootAction::HaltForever));
    assert!(!plan.iter().any(|a| matches!(
        a,
        BootAction::MountPartition { .. } | BootAction::MountPseudo { .. }
    )));
}

#[test]
fn boot_plan_mounts_in_order() {
    let plan = boot_plan(1);
    assert_eq!(plan.len(), 9);
    match &plan[0] {
        BootAction::MountPartition { point, fstype, part_index } => {
            assert_eq!(point.as_str(), "/boot");
            assert_eq!(fstype.as_str(), "vfat");
            assert_eq!(*part_index, 1);
        },
        _ => panic!("expected /boot first"),
    }
    match &plan[1] {
        BootAction::MountPartition { point, fstype, part_index } => {
            assert_eq!(point.as_str(), "/data");
            assert_eq!(fstype.as_str(), "ext4");
            assert_eq!(*part_index, 4);
        },
        _ => panic!("expected /data second"),
    }
    let pseudo: Vec<(String, String)> = plan[2..5]
        .iter()
        .map(|a| match a {
            BootAction::MountPseudo { point, fstype, .. } => (point.clone(), fstype.clone()),
            _ => panic!("expected a pseudo mount"),
        })
        .collect();
    assert_eq!(
        pseudo,
        vec![
            (String::from("/proc"), String::from("proc")),
            (String::from("/tmp"), String::from("tmpfs")),
            (String::from("/run"), String::from("tmpfs")),
        ]
    );
    match &plan[5] {
        BootAction::Report(l) => assert_eq!(l.text, "Starting rustkrazy"),
        _ => panic!("expected the banner"),
    }
    assert!(matches!(plan[6], BootAction::ScanServices));
    assert!(matches!(plan[7], BootAction::InstallHandlers));
    assert!(matches!(plan[8], BootAction::ParkForever));
}

// Reboot signal: SIGTERM broadcast is announced, at least the grace period
// elapses, the final SIGKILL is announced, and only then comes the kernel
// reboot call, as the last step.
#[test]
fn shutdown_order_for_reboot() {
    let seq = shutdown_sequence(RebootKind::Restart);
    assert_eq!(seq.len(), 10);
    match &seq[0] {
        ShutdownAction::Report(l) => {
            assert_eq!(l.color, Color::Yellow);
            assert_eq!(l.text, "[ INFO  ] send SIGTERM to all processes");
        },
        _ => panic!("expected the SIGTERM announcement first"),
    }
    assert!(matches!(seq[1], ShutdownAction::BroadcastTerm));
    assert!(matches!(seq[2], ShutdownAction::SleepSecs(SHUTDOWN_GRACE_SECS)));
    assert!(matches!(seq[3], ShutdownAction::SyncDisks));
    match &seq[4] {
        ShutdownAction::Report(l) => assert_eq!(l.text, "[ INFO  ] send final SIGTERM"),
        _ => panic!("expected the final SIGTERM announcement"),
    }
    assert!(matches!(seq[5], ShutdownAction::BroadcastTerm));
    assert!(matches!(seq[6], ShutdownAction::SleepSecs(SHUTDOWN_GRACE_SECS)));
    match &seq[7] {
        ShutdownAction::Report(l) => {
            assert_eq!(l.color, Color::Yellow);
            assert_eq!(l.text, "[ INFO  ] send final SIGKILL");
        },
        _ => panic!("expected the final SIGKILL announcement"),
    }
    assert!(matches!(seq[8], ShutdownAction::BroadcastKill));
    assert!(matches!(seq[9], ShutdownAction::KernelReboot(RebootKind::Restart)));
    assert_eq!(
        seq.iter()
            .filter(|a| matches!(a, ShutdownAction::KernelReboot(_)))
            .count(),
        1
    );
    assert!(SHUTDOWN_GRACE_SECS >= 3);
}

#[test]
fn shutdown_order_for_poweroff() {
    let seq = shutdown_sequence(RebootKind::PowerOff);
    assert!(matches!(
        seq.last(),
        Some(ShutdownAction::KernelReboot(RebootKind::PowerOff))
    ));
}
