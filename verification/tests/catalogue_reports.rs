use archivefs_cli::catalogue_reports::{
    format_archive_info, format_archive_stats, format_doctor_repair, format_doctor_report, format_duplicate_report,
    format_health_report, ArchiveInfoView, ArchiveSizeView, ArchiveStatsView, DoctorCheckView, DoctorRepairStatus,
    DoctorRepairView, DoctorReportView, DuplicateEntryView, HealthIssueView,
};

#[test]
fn format_doctor_report_preserves_human_output_shape() {
    let report = DoctorReportView {
        config_path: "/home/user/.config/archivefs/config.toml".to_string(),
        checks: vec![DoctorCheckView {
            name: "config".to_string(),
            status: "PASS".to_string(),
            detail: "configuration loaded".to_string(),
        }],
        archives_found: 3,
        archives_with_platform: 2,
        archives_unknown_platform: 1,
        pending_archives: 2,
        mounted_archives: 1,
        ready: true,
        platform_counts: vec![("Xbox360".to_string(), 2)],
        unknown_platform_examples: vec!["/roms/Unknown.zip".to_string()],
    };

    let output = format_doctor_report(&report);

    assert!(output.contains("EmuWiz Doctor"));
    assert!(output.contains("Config: /home/user/.config/archivefs/config.toml"));
    assert!(output.contains("Checks:"));
    assert!(output.contains("[PASS] config"));
    assert!(output.contains("Summary:"));
    assert!(output.contains("Archives found: 3"));
    assert!(output.contains("Ready: yes"));
    assert!(output.contains("Platforms:"));
    assert!(output.contains("Xbox360: 2"));
    assert!(output.contains("Unknown platform examples:"));
    assert!(output.contains("/roms/Unknown.zip"));
    assert_eq!(
        output,
        [
            "EmuWiz Doctor\n",
            "Config: /home/user/.config/archivefs/config.toml\n",
            "\nChecks:\n",
            "  [PASS] config           configuration loaded\n",
            "\nSummary:\n",
            "  Archives found: 3\n",
            "  Archives with detected platform: 2\n",
            "  Archives with unknown platform: 1\n",
            "  Pending archives: 2\n",
            "  Mounted archives: 1\n",
            "  Ready: yes\n",
            "\nPlatforms:\n",
            "  Xbox360: 2\n",
            "\nUnknown platform examples:\n",
            "  /roms/Unknown.zip\n",
        ]
        .concat()
    );
}

#[test]
fn doctor_report_with_nothing_found_says_none() {
    let report = DoctorReportView {
        config_path: "/c".to_string(),
        checks: vec![DoctorCheckView {
            name: "a-very-long-check-name".to_string(),
            status: "WARN".to_string(),
            detail: "d".to_string(),
        }],
        archives_found: 0,
        archives_with_platform: 0,
        archives_unknown_platform: 0,
        pending_archives: 0,
        mounted_archives: 0,
        ready: false,
        platform_counts: Vec::new(),
        unknown_platform_examples: Vec::new(),
    };
    let output = format_doctor_report(&report);
    assert!(output.contains("  [WARN] a-very-long-check-name d\n"));
    assert!(output.contains("  Ready: no\n"));
    assert!(output.ends_with("\nPlatforms:\n  none\n\nUnknown platform examples:\n  none\n"));
}

#[test]
fn format_duplicate_report_shows_friendly_empty_message() {
    let output = format_duplicate_report(2, &Vec::new());

    assert!(output.contains("EmuWiz Duplicates"));
    assert!(output.contains("Records checked: 2"));
    assert!(output.contains("Duplicate groups found: 0"));
    assert!(output.contains("No duplicate candidates found."));
}

fn legends() -> Vec<DuplicateEntryView> {
    vec![DuplicateEntryView {
        platform: "Xbox360".to_string(),
        severity: "Warning".to_string(),
        reason: "same normalized archive name '007_legends' on platform 'Xbox360'".to_string(),
        archive_paths: vec!["/roms/xbox360/007 Legends.zip".to_string(), "/roms/imports/007 Legends.7z".to_string()],
    }]
}

#[test]
fn format_duplicate_report_shows_group_details() {
    let output = format_duplicate_report(2, &legends());

    assert!(output.contains("Records checked: 2"));
    assert!(output.contains("Duplicate groups found: 1"));
    assert!(output.contains("Group 1:"));
    assert!(output.contains("Platform: Xbox360"));
    assert!(output.contains("Severity: Warning"));
    assert!(output.contains("007_legends"));
    assert!(output.contains("/roms/xbox360/007 Legends.zip"));
    assert!(output.contains("/roms/imports/007 Legends.7z"));
}

#[test]
fn duplicate_human_output_remains_exactly_compatible() {
    assert_eq!(
        format_duplicate_report(2, &legends()),
        [
            "EmuWiz Duplicates\n\n",
            "Summary:\n",
            "  Records checked: 2\n",
            "  Duplicate groups found: 1\n",
            "\nDuplicate groups:\n",
            "  Group 1:\n",
            "    Platform: Xbox360\n",
            "    Severity: Warning\n",
            "    Reason: same normalized archive name '007_legends' on platform 'Xbox360'\n",
            "    Archives:\n",
            "      /roms/xbox360/007 Legends.zip\n",
            "      /roms/imports/007 Legends.7z\n",
        ]
        .concat()
    );
    let mut two = legends();
    two.push(DuplicateEntryView {
        platform: "N64".to_string(),
        severity: "Info".to_string(),
        reason: "r".to_string(),
        archive_paths: Vec::new(),
    });
    assert!(format_duplicate_report(3, &two).ends_with("  Group 2:\n    Platform: N64\n    Severity: Info\n    Reason: r\n    Archives:\n"));
}

#[test]
fn format_archive_info_includes_all_display_fields() {
    let info = ArchiveInfoView {
        title: "Halo".to_string(),
        platform: Some("Xbox".to_string()),
        archive_path: "/roms/xbox/Halo.zip".to_string(),
        mount_path: "/mnt/archivefs/Xbox/Halo".to_string(),
        extension: "zip".to_string(),
        size_bytes: Some(2048),
        modified_time: Some(Ok(86_400)),
        health: "Pending".to_string(),
        mount_state: "Mounted".to_string(),
        metadata_provider: "FilenameMetadataProvider".to_string(),
        health_provider: "FilesystemHealthProvider".to_string(),
    };

    let output = format_archive_info(&info);

    assert!(output.contains("Title: Halo"));
    assert!(output.contains("Platform: Xbox"));
    assert!(output.contains("Archive path: /roms/xbox/Halo.zip"));
    assert!(output.contains("Mount path: /mnt/archivefs/Xbox/Halo"));
    assert!(output.contains("Extension: zip"));
    assert!(output.contains("Archive size: 2.0 KiB"));
    assert!(output.contains("Last modified: 1970-01-02 00:00:00 UTC"));
    assert!(output.contains("Health: Pending"));
    assert!(output.contains("Mount state: Mounted"));
    assert!(output.contains("Metadata provider: FilenameMetadataProvider"));
    assert!(output.contains("Health provider: FilesystemHealthProvider"));

    let unknown = ArchiveInfoView { platform: None, size_bytes: None, modified_time: Some(Err(5)), ..info.clone() };
    let output = format_archive_info(&unknown);
    assert!(output.contains("  Platform: Unknown\n"));
    assert!(output.contains("  Archive size: unknown\n  Last modified: before UNIX epoch by 5s\n"));
    let undated = ArchiveInfoView { modified_time: None, ..info };
    assert!(format_archive_info(&undated).contains("  Last modified: unknown\n"));
}

#[test]
fn format_archive_stats_includes_counts_and_sizes() {
    let stats = ArchiveStatsView {
        total_archives: 2,
        mounted_count: 1,
        pending_count: 1,
        total_size_bytes: 2560,
        platform_counts: vec![("Unknown".to_string(), 1), ("Xbox360".to_string(), 1)],
        extension_counts: vec![("7z".to_string(), 1), ("zip".to_string(), 1)],
        largest_archive: Some(ArchiveSizeView { archive_path: "/roms/Halo.zip".to_string(), size_bytes: 2048 }),
        smallest_archive: Some(ArchiveSizeView { archive_path: "/roms/Mystery.7z".to_string(), size_bytes: 512 }),
    };

    let output = format_archive_stats(&stats);

    assert!(output.contains("Total archives: 2"));
    assert!(output.contains("Mounted: 1"));
    assert!(output.contains("Pending: 1"));
    assert!(output.contains("Total archive size: 2.5 KiB"));
    assert!(output.contains("  Xbox360: 1"));
    assert!(output.contains("  zip: 1"));
    assert!(output.contains("/roms/Halo.zip (2.0 KiB)"));
    assert!(output.contains("/roms/Mystery.7z (512 B)"));

    let empty = ArchiveStatsView {
        total_archives: 0,
        mounted_count: 0,
        pending_count: 0,
        total_size_bytes: 0,
        platform_counts: Vec::new(),
        extension_counts: Vec::new(),
        largest_archive: None,
        smallest_archive: None,
    };
    assert_eq!(
        format_archive_stats(&empty),
        "EmuWiz Stats\n\nSummary:\n  Total archives: 0\n  Mounted: 0\n  Pending: 0\n  Total archive size: 0 B\n\nPlatforms:\n  none\n\nArchive extensions:\n  none\n\nLargest archive:\n  none\n\nSmallest archive:\n  none\n"
    );
}

#[test]
fn health_report_lists_issues_or_says_there_are_none() {
    assert_eq!(
        format_health_report(3, 0, 0, &Vec::new()),
        "EmuWiz Health Report\n\nArchives checked: 3\nMissing: 0\nUnknown platform: 0\n\nNo archive health issues were found.\n"
    );
    let issues = vec![
        HealthIssueView {
            category: "Missing".to_string(),
            path: "/roms/gone.zip".to_string(),
            platform: Some("SNES".to_string()),
            reason: "file is missing".to_string(),
        },
        HealthIssueView {
            category: "Unknown platform".to_string(),
            path: "/roms/odd.bin".to_string(),
            platform: None,
            reason: "no platform".to_string(),
        },
    ];
    assert!(format_health_report(3, 1, 1, &issues).ends_with(
        "\nIssues:\n  [Missing] /roms/gone.zip (SNES) - file is missing\n  [Unknown platform] /roms/odd.bin (Unknown) - no platform\n"
    ));
}

#[test]
fn doctor_repair_record_text() {
    let repair = DoctorRepairView {
        title: "Rebuild the catalogue".to_string(),
        id: "rebuild-catalogue".to_string(),
        invokes: "scan_and_persist".to_string(),
        finding_id: "catalogue.stale".to_string(),
        affected: Some("/data/library.sqlite3".to_string()),
        confirmed: true,
        dry_run: false,
        status: DoctorRepairStatus::Succeeded,
        verification: "Verified".to_string(),
        undo: "Not needed".to_string(),
        changed_paths: vec!["/data/library.sqlite3".to_string()],
        error: None,
        summary: "The catalogue was rebuilt.".to_string(),
    };
    assert_eq!(
        format_doctor_repair(&repair),
        [
            "Repair: Rebuild the catalogue (rebuild-catalogue)\n",
            "Calls: scan_and_persist\n",
            "Finding: catalogue.stale\n",
            "Resource: /data/library.sqlite3\n",
            "Confirmed: true\n",
            "Dry run: false\n",
            "Result: completed\n",
            "Verification: Verified\n",
            "Undo: Not needed\n",
            "Changed:\n",
            "  /data/library.sqlite3\n",
            "The catalogue was rebuilt.\n",
        ]
        .concat()
    );
    let dry = DoctorRepairView {
        affected: None,
        confirmed: false,
        dry_run: true,
        status: DoctorRepairStatus::DryRun,
        changed_paths: Vec::new(),
        error: Some("nothing to do".to_string()),
        ..repair
    };
    let text = format_doctor_repair(&dry);
    assert!(text.contains("Finding: catalogue.stale\nConfirmed: false\nDry run: true\nResult: dry run - validated, nothing changed\n"));
    assert!(text.ends_with("Undo: Not needed\nError: nothing to do\nThe catalogue was rebuilt.\n"));
}
