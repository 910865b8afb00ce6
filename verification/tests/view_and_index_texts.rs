use archivefs_cli::cheat_install::{format_cheat_rollback_run, CheatRollbackRunView};
use archivefs_cli::config_check::{explain_config_load_error, format_config_check_report, CheckOutcome, ConfigCheckView};
use archivefs_cli::index_reports::{
    format_cleaned_dirs, format_index_find_results, format_index_summary, format_index_warnings, format_index_written,
    format_missing_index, format_mount_one, format_watch_rebuild, IndexEntryView,
};
use archivefs_cli::library::{
    format_alias_removed, format_library_find_results, format_platform_alias_saved, format_platform_aliases,
    PlatformAliasView,
};
use archivefs_cli::library_views::{
    format_library_view_apply_report, format_library_view_plan, format_library_view_remove_report,
    format_library_views, ApplyReportView, ApplyResultView, LibraryViewPlanView, LibraryViewSummary, PlanCounts,
    PlanEntryView,
};
use archivefs_cli::sources::{format_source_added, format_source_enabled, format_source_removed};

fn view() -> LibraryViewSummary {
    LibraryViewSummary {
        id: "main".to_string(),
        name: "Main".to_string(),
        enabled: true,
        destination_root: "/views/main".to_string(),
        source_folders: vec![],
        platforms: vec!["GameCube".to_string(), "Wii".to_string()],
        layout_label: "Platform/Title".to_string(),
    }
}

#[test]
fn library_views_list_each_view_and_the_empty_case() {
    assert_eq!(format_library_views(&vec![]), "EmuWiz Library Views\n\nNo library views are configured.\n");
    assert_eq!(
        format_library_views(&vec![view()]),
        "EmuWiz Library Views\n\n\
         Main (main)\n\
         \x20 Enabled:        yes\n\
         \x20 Destination:    /views/main\n\
         \x20 Source folders: all configured sources\n\
         \x20 Platforms:      GameCube, Wii\n\
         \x20 Layout:         Platform/Title\n\n"
    );
}

fn plan(entries: Vec<PlanEntryView>) -> LibraryViewPlanView {
    LibraryViewPlanView {
        destination_root: "/views/main".to_string(),
        unsafe_root_error: None,
        profile_error: None,
        fingerprint_conflict: None,
        counts: PlanCounts { create: 1, correct: 2, repair: 0, remove: 0, collision: 0, skip: 3 },
        entries,
    }
}

#[test]
fn library_view_plan_lists_counts_and_only_the_links_that_change() {
    let entries = vec![
        PlanEntryView {
            action: "AlreadyCorrect".to_string(),
            already_correct: true,
            destination_path: Some("/views/main/a".to_string()),
            archive_path: None,
            reason: None,
        },
        PlanEntryView {
            action: "Create".to_string(),
            already_correct: false,
            destination_path: None,
            archive_path: Some("/roms/b.zip".to_string()),
            reason: Some("new archive".to_string()),
        },
    ];
    assert_eq!(
        format_library_view_plan("Main", "main", &plan(entries)),
        "Library View: Main (main)\nDestination:  /views/main\n\n\
         Create:    1\nCorrect:   2\nRepair:    0\nRemove:    0\nCollision: 0\nSkip:      3\n\n\
         Details:\n  [Create] /roms/b.zip - new archive\n"
    );
    let quiet = plan(vec![]);
    assert!(format_library_view_plan("Main", "main", &quiet).ends_with("Skip:      3\n"));
    let mut refused = plan(vec![]);
    refused.profile_error = Some("layout unknown".to_string());
    assert_eq!(
        format_library_view_plan("Main", "main", &refused),
        "Library View: Main (main)\nDestination:  /views/main\n\nUNSUPPORTED PROFILE - Apply is refused: layout unknown\n"
    );
}

#[test]
fn library_view_apply_and_remove_reports() {
    let report = ApplyReportView {
        created: 2,
        repaired: 0,
        removed: 1,
        unchanged: 4,
        failed: 1,
        results: vec![
            ApplyResultView { relative_link_path: "Wii/a".to_string(), failed: true, left_unchanged: false, error: None },
            ApplyResultView { relative_link_path: "Wii/b".to_string(), failed: false, left_unchanged: true, error: None },
        ],
    };
    assert_eq!(
        format_library_view_apply_report("Main", "main", &report, "Apply"),
        "Library View: Main (main)\nApply complete:\n  Created:   2\n  Repaired:  0\n  Removed:   1\n  Unchanged: 4\n  Failed:    1\n\nFailures:\n  Wii/a - unknown error\n"
    );
    assert_eq!(
        format_library_view_remove_report("Main", "main", &report, true),
        "Library View: Main (main)\nRemoved 1 managed symlink(s).\nEmuWiz did not delete any original archive files.\n\
         The view definition was kept - Preview/Apply will recreate its symlinks.\n\n\
         Left untouched (changed since the last apply):\n  Wii/b\n"
    );
}

#[test]
fn index_find_and_summary_texts() {
    assert_eq!(format_index_find_results("halo", &vec![]), "No index matches found for 'halo'.\n");
    let entry = IndexEntryView {
        platform: None,
        display_name: "Halo".to_string(),
        archive_path: "/roms/Halo.zip".to_string(),
        mount_path: "/mnt/Halo".to_string(),
        health: "Healthy".to_string(),
        mount_state: "Mounted".to_string(),
    };
    assert_eq!(
        format_index_find_results("halo", &vec![entry]),
        "EmuWiz Index Find\nQuery: halo\n\nMatches:\n  Platform: Unknown\n  Display: Halo\n  Archive: /roms/Halo.zip\n  Mount: /mnt/Halo\n  Health: Healthy\n  State: Mounted\n\n"
    );
    assert_eq!(
        format_index_summary(3, 1, 2, &vec![("Xbox".to_string(), 3)]),
        "EmuWiz Index\n\nSummary:\n  Total archives: 3\n  Mounted: 1\n  Pending: 2\n\nPlatforms:\n  Xbox: 3\n"
    );
    assert!(format_index_summary(0, 0, 0, &vec![]).ends_with("Platforms:\n  none\n"));
    assert_eq!(format_index_written("/data/index.json", 5), "Wrote index: /data/index.json (5 archives)\n");
    assert_eq!(format_missing_index("/i.json"), "No archive index found at /i.json. Run: emuwiz-cli index-build\n");
}

#[test]
fn watch_warnings_cleaning_and_mounting_texts() {
    assert_eq!(
        format_watch_rebuild(4, 1, &vec!["/roms/a.zip".to_string()]),
        "Rebuilt index (4 archives) after 1 archive event:\n  /roms/a.zip\n"
    );
    assert_eq!(format_watch_rebuild(4, 2, &vec![]), "Rebuilt index (4 archives) after 2 archive events:\n");
    assert_eq!(format_index_warnings(false, false), "");
    assert_eq!(
        format_index_warnings(true, true),
        "Warning: index contains missing archive paths. Run emuwiz-cli index-build.\nWarning: index may be stale. Run emuwiz-cli index-build.\n"
    );
    assert_eq!(
        format_cleaned_dirs(&vec!["/mnt/a".to_string()]),
        "Removed: /mnt/a\nRemoved 1 empty directories.\n"
    );
    assert_eq!(format_mount_one(false, "/roms/a.zip", "/mnt/a"), "Unmounted:\n  Archive: /roms/a.zip\n  Mount:   /mnt/a\n");
}

#[test]
fn config_check_report_groups_warnings_and_errors() {
    let checks = vec![
        ConfigCheckView { outcome: CheckOutcome::Passed, status_label: "OK".to_string(), name: "mount root".to_string(), detail: "exists".to_string() },
        ConfigCheckView { outcome: CheckOutcome::Warn, status_label: "WARN".to_string(), name: "sources".to_string(), detail: "none".to_string() },
    ];
    let text = format_config_check_report("/c.toml", &checks, 0, 1, true);
    assert_eq!(
        text,
        format!(
            "EmuWiz Config Check\nConfig: /c.toml\n\nChecks:\n  [{:<5}] {:<28} {}\n  [{:<5}] {:<28} {}\n\nWarnings:\n  sources: none\n\nErrors:\n  none\n\nSummary:\n  Errors: 0\n  Warnings: 1\n  Status: OK\n",
            "OK", "mount root", "exists", "WARN", "sources", "none"
        )
    );
}

#[test]
fn confirmed_missing_config_gets_a_first_run_hint() {
    let original_text = "/tmp/missing.toml: No such file or directory";
    let explained = explain_config_load_error(original_text, true, true, "/tmp/missing.toml");
    assert!(explained.starts_with(original_text));
    assert!(explained.contains("normal for a new install"));
    assert!(explained.contains("emuwiz-cli config-check"));
}

#[test]
fn dangling_symlink_config_path_gets_no_first_run_hint() {
    let original_text = "/tmp/config.toml: No such file or directory";
    assert_eq!(explain_config_load_error(original_text, true, false, "/tmp/config.toml"), original_text);
}

#[test]
fn permission_denied_config_path_gets_no_first_run_hint() {
    let original_text = "/etc/shadow-archivefs-test-config.toml: Permission denied";
    assert_eq!(
        explain_config_load_error(original_text, false, false, "/etc/shadow-archivefs-test-config.toml"),
        original_text
    );
}

#[test]
fn alias_find_and_source_confirmations() {
    assert_eq!(format_platform_aliases(&vec![]), "No custom platform aliases defined.\n");
    let alias = PlatformAliasView { alias: "gc".to_string(), platform: "GameCube".to_string() };
    assert_eq!(
        format_platform_aliases(&vec![alias.clone()]),
        "EmuWiz Platform Aliases\n\n  Alias: gc\n  Platform: GameCube\n\n"
    );
    assert_eq!(
        format_platform_alias_saved(&alias),
        "Saved platform alias 'gc' -> GameCube.\nRun a library scan to apply this change.\n"
    );
    assert_eq!(
        format_alias_removed("gc", true),
        Ok("Removed platform alias 'gc'. Run a library scan to apply this change.\n".to_string())
    );
    assert_eq!(format_alias_removed("gc", false), Err("no platform alias matches 'gc'".to_string()));
    assert_eq!(format_library_find_results("zz", &vec![]), "No library matches found for 'zz'.\n");
    assert_eq!(
        format_source_added("/mnt/roms"),
        "Added source folder: /mnt/roms\nRun 'emuwiz-cli source scan /mnt/roms' to scan it.\n"
    );
    assert_eq!(
        format_source_enabled("/mnt/roms", false),
        "Disabled source folder: /mnt/roms\nIts catalogue entries are preserved and excluded from future scans.\n"
    );
    assert_eq!(
        format_source_removed("/mnt/roms", Some(1)),
        "Removed source folder from configuration: /mnt/roms\nEmuWiz did not delete the folder or any files inside it.\nRemoved 1 catalogue entry for this source.\n"
    );
    assert!(format_source_removed("/mnt/roms", Some(2)).ends_with("Removed 2 catalogue entries for this source.\n"));
    assert!(format_source_removed("/mnt/roms", None).ends_with("Catalogue entries for this source were kept.\n"));
}

#[test]
fn cheat_rollback_run_text() {
    let run = CheatRollbackRunView {
        status: "Success".to_string(),
        original_install_run_id: "cheat-install-1".to_string(),
        requested: 2,
        removed: 1,
        restored: 1,
        already_restored: 0,
        failed: 0,
        journal_path: Some("/j/r.json".to_string()),
    };
    assert_eq!(
        format_cheat_rollback_run(&run),
        "RetroArch cheat rollback: Success\n  original run: cheat-install-1\n  entries: 2\n  removed: 1  restored: 1  already restored: 0  failed: 0\n  journal: /j/r.json\n"
    );
}
