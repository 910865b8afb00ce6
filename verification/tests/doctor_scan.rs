use archivefs_cli::doctor::{
    format_doctor_scan, AffectedView, CoverageView, DoctorCategoryView, DoctorFindingView, DoctorRepairView,
    DoctorScanView, SkippedCheckView,
};

fn coverage(category: &str, subsystem: &str, reason: &str) -> CoverageView {
    CoverageView {
        category_label: category.to_string(),
        subsystem_label: subsystem.to_string(),
        reason: reason.to_string(),
    }
}

fn deferred(name: &str, reason: &str) -> SkippedCheckView {
    SkippedCheckView { name: name.to_string(), reason: reason.to_string(), next_step: String::new() }
}

fn healthy_scan() -> DoctorScanView {
    DoctorScanView {
        healthy: true,
        severity_counts: Vec::new(),
        categories: Vec::new(),
        merged_duplicate_count: 0,
        checked: vec![coverage("Storage", "Filesystem", "")],
        unavailable: Vec::new(),
        not_checked: Vec::new(),
        deferred: vec![deferred("Per-directory disk quotas", "not implemented")],
    }
}

fn low_space_finding() -> DoctorFindingView {
    DoctorFindingView {
        severity_label: "Critical".to_string(),
        id: "filesystem.critically_low_space".to_string(),
        title: "Critically low disk space".to_string(),
        explanation: "The database volume has 100.0 MiB free.".to_string(),
        affected: Some(AffectedView { display: "/var/lib/archivefs".to_string(), lossy: false }),
        why_it_matters: Some("Writes may fail.".to_string()),
        next_step: None,
        evidence: vec!["statvfs reports 100.0 MiB free".to_string()],
        measurements: vec![
            ("available_bytes".to_string(), "104857600".to_string()),
            ("filesystem_read_only".to_string(), "false".to_string()),
        ],
        repair: None,
        recovery_notice: None,
        subsystem_label: "Filesystem".to_string(),
    }
}

#[test]
fn healthy_doctor_scan_exact_text() {
    assert_eq!(
        format_doctor_scan(&healthy_scan()),
        [
            "EmuWiz Doctor - read-only diagnostic scan\n",
            "Nothing was changed, created, mounted, repaired or written.\n",
            "\n",
            "No problems detected by the available read-only checks.\n",
            "\n",
            "Checked:\n",
            "  Storage (Filesystem)\n",
            "\n",
            "Not implemented yet, so not covered by any result above:\n",
            "  Per-directory disk quotas - not implemented\n",
        ]
        .concat()
    );
}

#[test]
fn doctor_scan_groups_findings_with_their_measurements() {
    let mut scan = healthy_scan();
    scan.healthy = false;
    scan.severity_counts = vec![("Critical".to_string(), 1), ("Warning".to_string(), 0)];
    scan.categories = vec![DoctorCategoryView { label: "Storage".to_string(), findings: vec![low_space_finding()] }];
    scan.merged_duplicate_count = 2;
    let text = format_doctor_scan(&scan);
    assert_eq!(
        text,
        [
            "EmuWiz Doctor - read-only diagnostic scan\n",
            "Nothing was changed, created, mounted, repaired or written.\n",
            "\n",
            "Critical: 1  Warning: 0\n",
            "\n",
            "Storage (1)\n",
            "  [critical] filesystem.critically_low_space - Critically low disk space\n",
            "      The database volume has 100.0 MiB free.\n",
            "      Resource: /var/lib/archivefs\n",
            "      Why it matters: Writes may fail.\n",
            "      Evidence: statvfs reports 100.0 MiB free\n",
            "      Measured: available_bytes = 104857600\n",
            "      Measured: filesystem_read_only = false\n",
            "      Reported by: Filesystem\n",
            "\n",
            "2 duplicate finding(s) were merged.\n",
            "\n",
            "Checked:\n",
            "  Storage (Filesystem)\n",
            "\n",
            "Not implemented yet, so not covered by any result above:\n",
            "  Per-directory disk quotas - not implemented\n",
        ]
        .concat()
    );
    assert!(!text.contains("Repair available"));
    assert!(!text.contains("--repair"));
}

#[test]
fn doctor_scan_shows_an_offered_repair_or_else_the_recovery_notice() {
    let mut with_repair = low_space_finding();
    with_repair.affected = Some(AffectedView { display: "/roms/\u{fffd}.zip".to_string(), lossy: true });
    with_repair.next_step = Some("Free some space.".to_string());
    with_repair.repair = Some(DoctorRepairView {
        id: "rebuild-catalogue".to_string(),
        title: "Rebuild the catalogue".to_string(),
        invokes: "scan_and_persist".to_string(),
        expected_mutation: "the catalogue database".to_string(),
        never_touches: "archive files".to_string(),
        performs_library_scan: true,
        undo_label: "Not needed".to_string(),
    });
    with_repair.recovery_notice = Some("ignored when a repair is offered".to_string());
    let mut with_notice = low_space_finding();
    with_notice.evidence.clear();
    with_notice.measurements.clear();
    with_notice.affected = None;
    with_notice.why_it_matters = None;
    with_notice.recovery_notice = Some("Remount the volume read-write.".to_string());
    let mut scan = healthy_scan();
    scan.healthy = false;
    scan.categories = vec![DoctorCategoryView {
        label: "Filesystems".to_string(),
        findings: vec![with_repair, with_notice],
    }];
    scan.unavailable = vec![coverage("Mounts", "FUSE", "mount table unreadable")];
    scan.not_checked = vec![SkippedCheckView {
        name: "Database integrity".to_string(),
        reason: "no database".to_string(),
        next_step: "run library-scan".to_string(),
    }];
    let text = format_doctor_scan(&scan);
    assert!(text.contains("\n\nFilesystems (2)\n"));
    assert!(text.contains("      Resource: /roms/\u{fffd}.zip (path shown lossily; it contains non-UTF-8 bytes)\n"));
    assert!(text.contains(
        &[
            "      Next step: Free some space.\n",
            "      Evidence: statvfs reports 100.0 MiB free\n",
            "      Measured: available_bytes = 104857600\n",
            "      Measured: filesystem_read_only = false\n",
            "      Repair available: Rebuild the catalogue (--repair rebuild-catalogue)\n",
            "      Repair calls: scan_and_persist\n",
            "      Will change: the catalogue database\n",
            "      Will not touch: archive files\n",
            "      Note: this repair rescans every configured source folder.\n",
            "      Undo: Not needed\n",
            "      Requires --confirm; add --dry-run to validate without changing anything.\n",
            "      Reported by: Filesystem\n",
        ]
        .concat()
    ));
    assert!(!text.contains("ignored when a repair is offered"));
    assert!(text.contains("      The database volume has 100.0 MiB free.\n      Remount the volume read-write.\n      Reported by: Filesystem\n\n"));
    assert!(text.contains("\nNot checked in this run:\n  Mounts (FUSE) - mount table unreadable\n"));
    assert!(text.contains("\nChecks that did not run:\n  Database integrity - no database\n      Next step: run library-scan\n"));
}
