use archivefs_cli::library_status::{
    format_library_status, CatalogueStatsView, CompletedScanView, DatabaseHealthView, LibraryStatusView,
};
use archivefs_cli::platform_audit::{
    format_platform_audit, CountRow, DiskFormatRowView, PlatformAuditView, PlatformChangeView,
};

fn healthy() -> DatabaseHealthView {
    DatabaseHealthView {
        resolved_path: "/home/u/.local/share/emuwiz/library.sqlite3".to_string(),
        database_exists: true,
        database_opens: true,
        error: None,
        schema_version: Some(7),
        migrations_current: true,
        foreign_keys_enabled: true,
    }
}

fn status(health: DatabaseHealthView) -> LibraryStatusView {
    LibraryStatusView { health, latest_known_schema_version: 7, stats: None, last_completed_scan: None }
}

#[test]
fn library_status_without_a_database_stops_after_exists() {
    let mut health = healthy();
    health.database_exists = false;
    health.database_opens = false;
    health.schema_version = None;
    let output = format_library_status(&status(health));
    assert_eq!(
        output,
        "EmuWiz Library Status\n\nDatabase: /home/u/.local/share/emuwiz/library.sqlite3\n  Exists: no\n\nNo library database yet. Run: emuwiz-cli library-scan\n"
    );
    assert!(output.contains("Exists: no"));
    assert!(output.contains("No library database yet. Run: emuwiz-cli library-scan"));
}

#[test]
fn library_status_of_an_unopenable_database_gives_the_rebuild_advice() {
    let mut health = healthy();
    health.database_opens = false;
    health.error = Some("file is not a database".to_string());
    let output = format_library_status(&status(health));
    assert!(output.ends_with(
        &[
            "  Exists: yes\n",
            "  Opens: no\n",
            "  Error: file is not a database\n",
            "\nThe database file exists but could not be opened. It is always safe to delete it and run emuwiz-cli library-scan to rebuild it from your configured source folders.\n",
        ]
        .concat()
    ));
}

#[test]
fn library_status_of_a_newer_or_outdated_schema() {
    let mut newer = healthy();
    newer.schema_version = Some(9);
    newer.migrations_current = false;
    let output = format_library_status(&status(newer));
    assert!(output.ends_with(
        &[
            "  Schema version: 9\n",
            "  Migrations current: no\n",
            "  Foreign keys enabled: yes\n",
            "\nThis database's schema (version 9) is newer than this build of EmuWiz supports (version 7). Upgrade EmuWiz, or remove the database file to rebuild it with this version.\n",
        ]
        .concat()
    ));
    let mut older = healthy();
    older.schema_version = Some(3);
    older.migrations_current = false;
    assert!(format_library_status(&status(older))
        .ends_with("\nThis database's schema is outdated. Run: emuwiz-cli library-scan to upgrade it.\n"));
    let mut unknown = healthy();
    unknown.schema_version = None;
    unknown.migrations_current = false;
    assert!(format_library_status(&status(unknown)).ends_with("  Schema version: unknown\n  Migrations current: no\n  Foreign keys enabled: yes\n"));
}

#[test]
fn library_status_reports_counts_and_the_last_scan() {
    let mut view = status(healthy());
    view.stats = Some(CatalogueStatsView {
        total_archives: 1,
        present_archives: 1,
        missing_archives: 0,
        archives_with_platform: 1,
        archives_unknown_platform: 0,
    });
    view.last_completed_scan = Some(CompletedScanView {
        started_at: "2025-01-01T00:00:00Z".to_string(),
        finished_at: None,
        triggered_by: "test".to_string(),
        source_folders_scanned: 1,
        archives_seen: 1,
        archives_added: 1,
        archives_updated: 0,
        archives_missing: 0,
        errors_count: 2,
        error_message: Some("one folder unreadable".to_string()),
    });
    let output = format_library_status(&view);
    assert!(output.contains("Total: 1"));
    assert!(output.contains("Present: 1"));
    assert!(output.contains("Detected platform: 1"));
    assert!(output.ends_with(
        &[
            "  Foreign keys enabled: yes\n",
            "\nArchive counts:\n",
            "  Total: 1\n",
            "  Present: 1\n",
            "  Missing: 0\n",
            "  Detected platform: 1\n",
            "  Unknown platform: 0\n",
            "\nLast completed scan:\n",
            "  Started: 2025-01-01T00:00:00Z\n",
            "  Finished: unknown\n",
            "  Triggered by: test\n",
            "  Source folders scanned: 1\n",
            "  Archives seen: 1\n",
            "  Archives added: 1\n",
            "  Archives updated: 0\n",
            "  Archives missing: 0\n",
            "  Errors: 2\n",
            "  Error details: one folder unreadable\n",
        ]
        .concat()
    ));
    let empty = format_library_status(&status(healthy()));
    assert!(empty.ends_with("\nArchive counts:\n  unavailable\n\nLast completed scan:\n  none yet - run: emuwiz-cli library-scan\n"));
}

fn row(name: &str, count: u64) -> CountRow {
    CountRow { name: name.to_string(), count }
}

fn change(path: &str, before: Option<&str>, after: Option<&str>, reason: &str) -> PlatformChangeView {
    PlatformChangeView {
        path: path.to_string(),
        before: before.map(str::to_string),
        after: after.map(str::to_string),
        confidence: "Probable".to_string(),
        reason: reason.to_string(),
    }
}

fn quiet_audit() -> PlatformAuditView {
    PlatformAuditView {
        root: "/roms".to_string(),
        files_considered: 10,
        directories_considered: 2,
        elapsed_milliseconds: 15,
        confirmed: 4,
        probable: 3,
        ambiguous: 2,
        unknown: 1,
        platform_counts: vec![row("MegaDrive", 4), row("SNES", 1234567)],
        top_ambiguous_extensions: Vec::new(),
        disk_format: Vec::new(),
        symlinks_seen: 0,
        symlinks_read: 0,
        symlinks_with_signature_evidence: 0,
        symlink_refusals: Vec::new(),
        reclassified_total: 0,
        reclassified: Vec::new(),
        newly_detected_total: 0,
        newly_detected: Vec::new(),
        historical_misclassifications_total: 0,
        historical_misclassifications: Vec::new(),
        requested_platforms_absent: Vec::new(),
    }
}

#[test]
fn platform_audit_exact_text_with_nothing_changed() {
    assert_eq!(
        format_platform_audit(&quiet_audit()),
        [
            "EmuWiz platform-detection audit (read-only)\n",
            "Root: /roms\n",
            "Considered: 10 files, 2 directories in 15 ms\n",
            "\n",
            "Confirmed: 4  Probable: 3  Ambiguous: 2  Unknown: 1\n",
            "\n",
            "Detections by platform (2):\n",
            "        4  MegaDrive\n",
            "  1234567  SNES\n",
            "\n",
            "Symlinked files: 0 seen, 0 readable under the trusted-root policy, 0 produced signature evidence\n",
            "\n",
            "Reclassified - a platform was previously asserted and now differs: 0 (showing 0)\n",
            "  none: every platform this build previously asserted still holds\n",
            "\n",
            "Newly detected - nothing was classified before: 0 (showing 0)\n",
            "\n",
            "Historical misclassifications - the old `.gen`/`.smd` extension rule would have called these Mega Drive ROMs: 0 (showing 0)\n",
            "\n",
            "Nothing was written, corrected, mounted or extracted.\n",
        ]
        .concat()
    );
}

#[test]
fn platform_audit_lists_every_optional_section() {
    let mut audit = quiet_audit();
    audit.platform_counts = vec![row("PC", 12345678)];
    audit.top_ambiguous_extensions = vec![row("bin", 9)];
    audit.disk_format = vec![DiskFormatRowView {
        extension: "iso".to_string(),
        files: 3,
        structurally_valid: 2,
        malformed: 0,
        refused: 1,
        bytes_inspected: 4096,
        refusals: vec![row("too small", 1)],
    }];
    audit.symlinks_seen = 2;
    audit.symlinks_read = 1;
    audit.symlink_refusals = vec![row("outside trusted root", 1)];
    audit.reclassified_total = 5;
    audit.reclassified = vec![change("/roms/a.bin", Some("MegaDrive"), None, "no header")];
    audit.newly_detected_total = 1;
    audit.newly_detected = vec![change("/roms/b.sfc", None, Some("SNES"), "")];
    audit.historical_misclassifications_total = 1;
    audit.historical_misclassifications = vec![change("/roms/c.gen", None, Some("PCEngine"), "PCE header")];
    audit.requested_platforms_absent = vec!["Saturn".to_string(), "3DO".to_string()];
    let text = format_platform_audit(&audit);
    assert!(text.contains("Detections by platform (1):\n  12345678  PC\n\nTop unresolved extension groups:\n        9  .bin\n"));
    assert!(text.contains(
        &[
            "\nStructural disk-format validation (what the parser proved):\n",
            "  .iso: 3 file(s), 2 structurally valid, 0 malformed, 1 refused, 4096 bytes read\n",
            "           1  too small\n",
            "\nSymlinked files: 2 seen, 1 readable under the trusted-root policy, 0 produced signature evidence\n",
            "  refused       1  outside trusted root\n",
        ]
        .concat()
    ));
    assert!(text.contains("(showing 1)\n  /roms/a.bin : MegaDrive -> Unknown [Probable]\n      no header\n"));
    assert!(!text.contains("none: every platform"));
    assert!(text.contains("  /roms/b.sfc : -> SNES [Probable]\n"));
    assert!(text.contains("  /roms/c.gen : MegaDrive -> PCEngine [Probable]\n      PCE header\n"));
    assert!(text.ends_with(
        "\nRequested platforms with no detection in this sample (2):\n  Saturn, 3DO\n\nNothing was written, corrected, mounted or extracted.\n"
    ));
}

use archivefs_cli::platform_audit::{format_platform_detection, DetectionEvidenceView, PlatformDetectionView};

fn detection(platform: Option<&str>) -> PlatformDetectionView {
    PlatformDetectionView {
        platform: platform.map(str::to_string),
        display_name: platform.map(|_| "ZX Spectrum".to_string()),
        confidence: "Probable".to_string(),
        deciding_source: Some("folder name".to_string()),
        manually_assigned: false,
        ambiguity_reason: None,
        candidates: Vec::new(),
        requires_confirmation: false,
        evidence: vec![DetectionEvidenceView {
            source_label: "folder name".to_string(),
            platform: "ZXSpectrum".to_string(),
            detail: "parent folder is zx-spectrum".to_string(),
        }],
    }
}

#[test]
fn platform_detection_names_the_platform_its_confidence_and_its_evidence() {
    let text = format_platform_detection("/roms/zx-spectrum/game.tzx", "/roms", &detection(Some("ZXSpectrum")));
    assert_eq!(
        text,
        [
            "Path: /roms/zx-spectrum/game.tzx\n",
            "Source root: /roms\n",
            "\n",
            "Platform: ZX Spectrum (ZXSpectrum)\n",
            "Confidence: Probable\n",
            "Detected from: folder name\n",
            "Assignment: Automatically detected\n",
            "\n",
            "Evidence (strongest first):\n",
            "  [folder name] ZXSpectrum - parent folder is zx-spectrum\n",
        ]
        .concat()
    );
}

#[test]
fn platform_detection_of_an_unknown_platform_lists_candidates_and_the_action() {
    let mut report = detection(None);
    report.confidence = "Unknown".to_string();
    report.ambiguity_reason = Some("extension .bin is shared".to_string());
    report.candidates = vec!["Sega CD".to_string(), "PlayStation".to_string()];
    report.requires_confirmation = true;
    report.evidence.clear();
    let text = format_platform_detection("/roms/unsorted/game.bin", "/roms", &report);
    assert_eq!(
        text,
        [
            "Path: /roms/unsorted/game.bin\n",
            "Source root: /roms\n",
            "\n",
            "Platform unknown\n",
            "Confidence: Unknown\n",
            "Reason: extension .bin is shared\n",
            "Possible candidates: Sega CD, PlayStation\n",
            "Action: assign platform manually\n",
            "Confirmation: a person should confirm this before it is relied on\n",
        ]
        .concat()
    );
}

#[test]
fn platform_detection_of_a_manual_assignment_without_evidence() {
    let mut report = detection(Some("AmstradCPC"));
    report.display_name = None;
    report.confidence = "Confirmed".to_string();
    report.deciding_source = None;
    report.manually_assigned = true;
    report.candidates = vec!["ignored once a platform is known".to_string()];
    report.evidence.clear();
    let text = format_platform_detection("/roms/unsorted/game.bin", "/roms", &report);
    assert!(text.contains("Platform: AmstradCPC (AmstradCPC)\n"));
    assert!(text.contains("Confidence: Confirmed\n"));
    assert!(text.contains("Detected from: no evidence\n"));
    assert!(text.ends_with("Assignment: Manually assigned\n"));
    assert!(!text.contains("Possible candidates"));
}
