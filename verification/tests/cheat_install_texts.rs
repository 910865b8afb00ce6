use archivefs_cli::cheat_install::{
    backup_assessment_name, destination_assessment_name, format_cheat_history, format_cheat_inspection,
    format_cheat_install_run, install_outcome_name, install_outcome_variant, rollback_availability_name,
    CheatBackupAssessment, CheatDestinationAssessment, CheatInspectionView, CheatInstallOutcome,
    CheatInstallRunView, CheatRollbackAvailability, HistoryWarningView, InspectionEntryView, InstallEntryView,
    InstallSummaryView, RollbackJournalView,
};

fn inspection() -> CheatInspectionView {
    CheatInspectionView {
        run_id: "run-1".to_string(),
        journal_path: "/data/cheat-install-runs/run.json".to_string(),
        started_at_unix_seconds: 100,
        catalogue_source: "local-catalogue".to_string(),
        destination_root: Some("/retroarch/cheats".to_string()),
        install_status: "Success".to_string(),
        rollback: RollbackJournalView { ambiguous: false, exists: false, journal_path: None, completed_successfully: None },
        entries: vec![InspectionEntryView {
            display_title: Some("Mario".to_string()),
            platform: Some("NES".to_string()),
            source_path: "/catalogue/Mario.cht".to_string(),
            destination_path: Some("/retroarch/cheats/NES/Mario.cht".to_string()),
            original_outcome: CheatInstallOutcome::InstalledNew,
            destination: CheatDestinationAssessment::UnchangedSinceInstall,
            backup: CheatBackupAssessment::NotApplicable,
            rollback_availability: CheatRollbackAvailability::Available,
            rollback_reasons: Vec::new(),
        }],
        warnings: Vec::new(),
    }
}

#[test]
fn cheat_history_human_and_json_output_have_stable_useful_shapes() {
    let human = format_cheat_history("/data/cheat-install-runs", &vec![inspection()], &Vec::new());
    assert!(human.contains("Run run-1"));
    assert!(human.contains("current destination: unchanged_since_install"));
    assert!(human.contains("rollback: available"));
    assert_eq!(
        human,
        [
            "RetroArch cheat installation history\n",
            "  journal root: /data/cheat-install-runs\n",
            "  runs: 1\n",
            "\n",
            "Run run-1\n",
            "  journal: /data/cheat-install-runs/run.json\n",
            "  created: 100\n",
            "  catalogue: local-catalogue\n",
            "  destination root: /retroarch/cheats\n",
            "  install status: Success\n",
            "  entries: 1\n",
            "  rollback journal: none\n",
            "  [1] Mario\n",
            "      platform: NES\n",
            "      source: /catalogue/Mario.cht\n",
            "      destination: /retroarch/cheats/NES/Mario.cht\n",
            "      install action: installed_new\n",
            "      current destination: unchanged_since_install\n",
            "      backup: not_applicable\n",
            "      rollback: available\n",
        ]
        .concat()
    );
}

#[test]
fn cheat_history_without_runs_and_with_warnings() {
    let warnings = vec![HistoryWarningView {
        code: "malformed_journal".to_string(),
        message: "malformed cheat install run".to_string(),
        path: "/data/bad.json".to_string(),
    }];
    assert_eq!(
        format_cheat_history("/data/runs", &Vec::new(), &warnings),
        "RetroArch cheat installation history\n  journal root: /data/runs\n  runs: 0\n  No installation journals found.\n\nWarnings:\n  - malformed_journal: malformed cheat install run (/data/bad.json)\n"
    );
}

#[test]
fn cheat_inspection_numbers_entries_and_reports_the_rollback_journal() {
    let mut run = inspection();
    run.destination_root = None;
    run.rollback = RollbackJournalView {
        ambiguous: false,
        exists: true,
        journal_path: Some("/data/rollback.json".to_string()),
        completed_successfully: Some(true),
    };
    let mut second = run.entries[0].clone();
    second.display_title = None;
    second.platform = None;
    second.destination_path = None;
    second.original_outcome = CheatInstallOutcome::ReplacedWithBackup;
    second.destination = CheatDestinationAssessment::Changed;
    second.backup = CheatBackupAssessment::Missing;
    second.rollback_availability = CheatRollbackAvailability::BlockedMissingBackup;
    second.rollback_reasons = vec!["the backup file is gone".to_string()];
    run.entries.push(second);
    run.warnings = vec!["entry 2 has no title".to_string()];
    let text = format_cheat_inspection(&run);
    assert!(text.contains("  destination root: unknown\n"));
    assert!(text.contains("  entries: 2\n  rollback journal: /data/rollback.json (completed successfully)\n  [1] Mario\n"));
    assert!(text.ends_with(
        &[
            "  [2] unknown title\n",
            "      platform: unknown\n",
            "      source: /catalogue/Mario.cht\n",
            "      destination: unknown\n",
            "      install action: replaced_with_backup\n",
            "      current destination: changed\n",
            "      backup: missing\n",
            "      rollback: blocked_missing_backup\n",
            "        reason: the backup file is gone\n",
            "  warning: entry 2 has no title\n",
        ]
        .concat()
    ));
    run.rollback.completed_successfully = None;
    assert!(format_cheat_inspection(&run).contains("  rollback journal: /data/rollback.json (present, not validated as completed)\n"));
    run.rollback.ambiguous = true;
    assert!(format_cheat_inspection(&run).contains("  rollback journal: ambiguous association\n"));
}

fn install_run() -> CheatInstallRunView {
    CheatInstallRunView {
        schema_version: 1,
        run_id: "run-7".to_string(),
        dry_run: true,
        allow_replace_different: false,
        destination_root: Some("/retroarch/cheats".to_string()),
        catalogue_source: "local-catalogue".to_string(),
        status: "DryRun".to_string(),
        summary: InstallSummaryView {
            requested: 1,
            eligible: 1,
            installed_new: 0,
            already_installed: 0,
            replaced: 0,
            skipped: 0,
            failed: 0,
            backups_created: 0,
            writes_required: 1,
            writes_attempted: 0,
            writes_succeeded: 0,
            dry_run_actions: 1,
        },
        entries: vec![InstallEntryView {
            source_path: "/catalogue/Mario.cht".to_string(),
            outcome: CheatInstallOutcome::InstalledNew,
            reason_code: "would_install".to_string(),
            applied: false,
            destination_path: Some("/retroarch/cheats/NES/Mario.cht".to_string()),
            backup_path: None,
            resulting_destination_hash: None,
            detail: vec!["dry run: nothing written".to_string()],
        }],
        journal_path: None,
        journal_error: None,
    }
}

#[test]
fn cheat_install_run_exact_text_of_a_dry_run() {
    assert_eq!(
        format_cheat_install_run(&install_run()),
        [
            "EmuWiz RetroArch Cheat Installer\n",
            "Run format: 1\n",
            "Run ID: run-7\n",
            "Mode: dry-run (no writes performed)\n",
            "Replace different content: false\n",
            "Destination root: /retroarch/cheats\n",
            "Catalogue: local-catalogue\n",
            "Status: DryRun\n",
            "Requested: 1 | eligible: 1 | installed_new: 0 | already_installed: 0 | replaced: 0 | skipped: 0 | failed: 0\n",
            "Backups created: 0 | writes required: 1 | writes attempted: 0 | writes succeeded: 0 | dry-run actions: 1\n",
            "\n",
            "/catalogue/Mario.cht\n",
            "  outcome: InstalledNew (would_install) | applied: false\n",
            "  destination: /retroarch/cheats/NES/Mario.cht\n",
            "  detail: dry run: nothing written\n",
        ]
        .concat()
    );
}

#[test]
fn cheat_install_run_of_an_apply_with_its_journal() {
    let mut run = install_run();
    run.dry_run = false;
    run.allow_replace_different = true;
    run.destination_root = None;
    run.entries[0].outcome = CheatInstallOutcome::ReplacedWithBackup;
    run.entries[0].applied = true;
    run.entries[0].backup_path = Some("/retroarch/cheats/NES/Mario.cht.bak".to_string());
    run.entries[0].resulting_destination_hash = Some("abc".to_string());
    run.entries[0].detail.clear();
    run.journal_path = Some("/data/runs/run-7.json".to_string());
    run.journal_error = Some("disk full".to_string());
    let text = format_cheat_install_run(&run);
    assert!(text.contains("Mode: apply\nReplace different content: true\nCatalogue: local-catalogue\n"));
    assert!(text.ends_with(
        &[
            "  outcome: ReplacedWithBackup (would_install) | applied: true\n",
            "  destination: /retroarch/cheats/NES/Mario.cht\n",
            "  backup: /retroarch/cheats/NES/Mario.cht.bak\n",
            "  resulting hash: abc\n",
            "\n",
            "Journal: /data/runs/run-7.json\n",
            "\n",
            "Journal write failed: disk full\n",
        ]
        .concat()
    ));
}

#[test]
fn assessment_names_are_snake_case() {
    assert_eq!(install_outcome_name(CheatInstallOutcome::SkippedDestinationChanged), "skipped_destination_changed");
    assert_eq!(install_outcome_variant(CheatInstallOutcome::FailedVerification), "FailedVerification");
    assert_eq!(destination_assessment_name(CheatDestinationAssessment::UnsafePath), "unsafe_path");
    assert_eq!(backup_assessment_name(CheatBackupAssessment::PresentAndValid), "present_and_valid");
    assert_eq!(rollback_availability_name(CheatRollbackAvailability::BlockedInvalidJournal), "blocked_invalid_journal");
}
