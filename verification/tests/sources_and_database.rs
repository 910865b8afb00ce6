use archivefs_cli::database_check::{
    format_database_health_report, octal, permissions_text, DatabaseDiagnosticView, DatabaseFileView,
    DatabaseHealthReportView, SidecarView,
};
use archivefs_cli::sources::{format_source_availability, format_source_folder_views, SourceAvailability, SourceFolderView};

#[test]
fn format_source_folder_views_reports_an_empty_configuration_truthfully() {
    let output = format_source_folder_views(&Vec::new());
    assert!(output.contains("No source folders are configured."));
    assert!(output.contains("emuwiz-cli source add"));
    assert_eq!(
        output,
        "EmuWiz Sources\n\nNo source folders are configured.\nAdd one with: emuwiz-cli source add <path>\n"
    );
}

#[test]
fn source_folder_views_list_each_folder_with_its_last_scan() {
    let views = vec![
        SourceFolderView {
            path: "/roms".to_string(),
            id: Some(1),
            enabled: true,
            availability: SourceAvailability::Available,
            last_archive_count: Some(42),
            last_scan_at: Some("2025-01-01 00:00:00 UTC".to_string()),
            last_scan_error: None,
        },
        SourceFolderView {
            path: "/mnt/nas/roms".to_string(),
            id: None,
            enabled: false,
            availability: SourceAvailability::PermissionDenied,
            last_archive_count: None,
            last_scan_at: None,
            last_scan_error: Some("permission denied".to_string()),
        },
    ];
    assert_eq!(
        format_source_folder_views(&views),
        [
            "EmuWiz Sources\n\n",
            "/roms\n",
            "  Id:               1\n",
            "  Enabled:          yes\n",
            "  Availability:     Available\n",
            "  Last archive count: 42\n",
            "  Last scan:        2025-01-01 00:00:00 UTC\n",
            "\n",
            "/mnt/nas/roms\n",
            "  Id:               unknown\n",
            "  Enabled:          no\n",
            "  Availability:     Permission denied\n",
            "  Last archive count: never scanned\n",
            "  Last scan:        never\n",
            "  Last scan error:  permission denied\n",
            "\n",
        ]
        .concat()
    );
    assert_eq!(format_source_availability(SourceAvailability::ScanFailed), "Scan failed");
    assert_eq!(format_source_availability(SourceAvailability::Disabled), "Disabled");
    assert_eq!(format_source_availability(SourceAvailability::Unavailable), "Unavailable");
}

#[test]
fn permissions_are_written_as_four_octal_digits() {
    assert_eq!(octal(0), "0");
    assert_eq!(octal(8), "10");
    assert_eq!(octal(0o755), "755");
    assert_eq!(permissions_text(0o644), "0644");
    assert_eq!(permissions_text(0o7), "0007");
    assert_eq!(permissions_text(0o100644), "100644");
    for mode in [0u32, 1, 0o600, 0o4755, 0o100600, u32::MAX] {
        assert_eq!(permissions_text(mode), format!("{mode:04o}"));
    }
}

fn report() -> DatabaseHealthReportView {
    DatabaseHealthReportView {
        database_path: "/data/library.sqlite3".to_string(),
        database_path_lossy: false,
        database_present: true,
        open_outcome: "Opened".to_string(),
        main_file: Some(DatabaseFileView {
            size_bytes: 4096,
            permissions_mode: Some(0o644),
            owner_uid: Some(1000),
            group_gid: Some(100),
            inode: Some(77),
            modified_unix_seconds: Some(1700000000),
        }),
        journal_mode: Some("wal".to_string()),
        schema_version: Some(7),
        quick_check: "Ok".to_string(),
        integrity_check: "NotRun".to_string(),
        sidecars: vec![
            SidecarView { kind: "Wal".to_string(), present: true, size_bytes: Some(32), rollback_journal_header: None },
            SidecarView {
                kind: "RollbackJournal".to_string(),
                present: false,
                size_bytes: None,
                rollback_journal_header: Some("Zeroed".to_string()),
            },
        ],
        diagnostics: Vec::new(),
    }
}

#[test]
fn database_check_exact_text_of_a_healthy_database() {
    assert_eq!(
        format_database_health_report(&report()),
        [
            "EmuWiz Database Check\n\n",
            "Database: /data/library.sqlite3\n",
            "Present: yes\n",
            "Open outcome: Opened\n",
            "Size: 4096 bytes\n",
            "Permissions: 0644\n",
            "Owner UID/GID: 1000/100\n",
            "Inode: 77\n",
            "Modified: 1700000000 Unix seconds\n",
            "Journal mode: wal\n",
            "Schema version: 7\n",
            "Quick check: Ok\n",
            "Integrity check: NotRun (not run by the bounded default diagnostic)\n",
            "Sidecars:\n",
            "  Wal: present (32 bytes)\n",
            "  RollbackJournal: absent (-)\n",
            "    Header: Zeroed\n",
            "Diagnostics:\n",
            "  none\n",
        ]
        .concat()
    );
}

#[test]
fn database_check_of_a_missing_database_with_diagnostics() {
    let mut missing = report();
    missing.database_path_lossy = true;
    missing.database_present = false;
    missing.open_outcome = "NotPresent".to_string();
    let mut file = missing.main_file.unwrap();
    file.permissions_mode = None;
    file.group_gid = None;
    file.inode = None;
    file.modified_unix_seconds = None;
    missing.main_file = Some(file);
    missing.journal_mode = None;
    missing.schema_version = None;
    missing.sidecars.clear();
    missing.diagnostics = vec![DatabaseDiagnosticView {
        code: "OpenFailed".to_string(),
        message: "could not open".to_string(),
        raw_sqlite_message: Some("unable to open database file".to_string()),
    }];
    let text = format_database_health_report(&missing);
    assert!(text.contains("Database: /data/library.sqlite3 (lossy display)\nPresent: no\n"));
    assert!(text.contains("Size: 4096 bytes\nJournal mode: not readable\nSchema version: not readable\n"));
    assert!(text.ends_with(
        "Sidecars:\nDiagnostics:\n  OpenFailed: could not open\n    SQLite detail (unstable): unable to open database file\n"
    ));
    missing.main_file = None;
    assert!(format_database_health_report(&missing).contains("Open outcome: NotPresent\nJournal mode"));
}
