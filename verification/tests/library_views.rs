use archivefs_cli::library::{
    filter_library_entries, format_bulk_platform_change, format_library_entries, format_library_scan,
    format_missing_removal, format_platform_change, format_statuses, parse_library_find_args, push_counts,
    resolve_platform_argument,
    select_one_library_entry, ArchiveStatusView, FolderError, LibraryArchiveView, LibraryPlatformChangeView,
    LibraryScanReport,
};

fn strings(items: &[&str]) -> Vec<String> {
    items.iter().map(|s| s.to_string()).collect()
}

fn view(id: i64, path: &str, platform: Option<&str>) -> LibraryArchiveView {
    LibraryArchiveView {
        id,
        path: path.to_string(),
        platform: platform.map(str::to_string),
        platform_source: platform.map(|_| "automatic".to_string()),
        present: true,
        size_bytes: None,
        modified_time_unix_seconds: None,
    }
}

fn example_statuses() -> Vec<ArchiveStatusView> {
    vec![
        ArchiveStatusView {
            archive_path: "/roms/Halo.zip".to_string(),
            mount_path: "/mnt/archivefs/Xbox/Halo".to_string(),
            state: "Mounted".to_string(),
        },
        ArchiveStatusView {
            archive_path: "/roms/Mystery.7z".to_string(),
            mount_path: "/mnt/archivefs/Unknown/Mystery".to_string(),
            state: "Pending".to_string(),
        },
    ]
}

#[test]
fn format_statuses_preserves_existing_human_output_exactly() {
    let output = format_statuses(&example_statuses());

    assert_eq!(
        output,
        [
            "Archive                                           Mount                                             State\n",
            "/roms/Halo.zip                                    /mnt/archivefs/Xbox/Halo                          Mounted\n",
            "/roms/Mystery.7z                                  /mnt/archivefs/Unknown/Mystery                    Pending\n",
        ].concat()
    );
}

#[test]
fn library_find_returns_no_results_without_erroring() {
    let entries: Vec<LibraryArchiveView> = Vec::new();
    let matches = filter_library_entries(&entries, "nothing-will-match-this");

    assert!(matches.is_empty());
}

#[test]
fn library_find_matches_case_insensitively_on_path_and_platform() {
    let entries = vec![
        view(1, "/roms/GameCube/Luigis_Mansion.iso", Some("GameCube")),
        view(2, "/roms/misc/halo.zip", Some("Xbox")),
        view(3, "/roms/misc/unknown.bin", None),
    ];
    assert_eq!(filter_library_entries(&entries, "LUIGI"), vec![entries[0].clone()]);
    assert_eq!(filter_library_entries(&entries, "xbox"), vec![entries[1].clone()]);
    assert_eq!(filter_library_entries(&entries, "misc"), vec![entries[1].clone(), entries[2].clone()]);
    assert_eq!(filter_library_entries(&entries, ""), entries);
}

#[test]
fn select_one_requires_exactly_one_match() {
    let entries = vec![view(1, "/roms/a/halo.zip", None), view(22, "/roms/b/halo.zip", None), view(3, "/roms/zelda.zip", None)];
    assert_eq!(select_one_library_entry(&entries, "zelda").unwrap(), entries[2]);
    assert_eq!(select_one_library_entry(&entries, "mario").unwrap_err(), "no archive matched 'mario'");
    assert_eq!(
        select_one_library_entry(&entries, "halo").unwrap_err(),
        "multiple archives matched 'halo':\n  [id 1] /roms/a/halo.zip\n  [id 22] /roms/b/halo.zip\nRe-run with --id <id> to select exactly one archive."
    );
}

#[test]
fn library_listing_text() {
    let mut entry = view(7, "/roms/halo.zip", Some("Xbox"));
    entry.size_bytes = Some(1536);
    entry.modified_time_unix_seconds = Some(86_400 + 3_661);
    let mut missing = view(-8, "/roms/gone.zip", None);
    missing.present = false;
    missing.modified_time_unix_seconds = Some(-5);
    let text = format_library_entries(&vec![entry, missing]);
    assert_eq!(
        text,
        [
            "  Id: 7\n  Path: /roms/halo.zip\n  Platform: Xbox (automatic)\n  State: Present\n  Size: 1.5 KiB\n",
            "  Modified: 1970-01-02 01:01:01 UTC\n\n",
            "  Id: -8\n  Path: /roms/gone.zip\n  Platform: Unknown\n  State: Missing\n  Size: unknown\n",
            "  Modified: 1970-01-01 00:00:00 UTC\n\n",
        ].concat()
    );
    assert_eq!(format_library_entries(&vec![]), "");
}

#[test]
fn scan_report_counts_attempted_folders() {
    let report = LibraryScanReport::from_counts(
        9,
        3,
        1,
        2,
        0,
        5,
        1,
        vec![FolderError { path: "/mnt/usb".to_string(), error: "not mounted".to_string() }],
    );
    assert_eq!(report.source_folders_attempted, 4);
    assert_eq!(report.source_folders_failed, 1);
    assert_eq!(
        format_library_scan(&report),
        [
            "EmuWiz Library Scan\n\nSource folders:\n  Attempted: 4\n  Succeeded: 3\n  Failed: 1\n",
            "\nArchives:\n  New: 1\n  Changed: 2\n  Restored: 0\n  Unchanged: 5\n  Missing: 1\n",
            "\nErrors:\n  /mnt/usb: not mounted\n",
        ].concat()
    );
    let clean = LibraryScanReport::from_counts(1, 2, 0, 0, 0, 0, 0, vec![]);
    assert!(format_library_scan(&clean).ends_with("\nErrors:\n  none\n"));
}

#[test]
fn counts_and_small_reports() {
    let mut out = String::from("Platforms:\n");
    push_counts(&mut out, &vec![("GameCube".to_string(), 3), ("Wii".to_string(), 1)]);
    assert_eq!(out, "Platforms:\n  GameCube: 3\n  Wii: 1\n");
    let mut none = String::new();
    push_counts(&mut none, &vec![]);
    assert_eq!(none, "  none\n");

    assert_eq!(
        format_missing_removal(1),
        "EmuWiz Library Remove Missing\nRemoved: 1 missing catalogue entry.\nNo archive files or mounted contents were deleted.\n"
    );
    assert!(format_missing_removal(0).contains("Removed: 0 missing catalogue entries."));

    let change = LibraryPlatformChangeView {
        path: "/roms/n64/Luigis_Mansion.zip".to_string(),
        old_platform: Some("N64".to_string()),
        old_source: Some("automatic".to_string()),
        new_platform: Some("GameCube".to_string()),
        new_source: Some("manual".to_string()),
    };
    assert_eq!(
        format_platform_change("Set Platform", &change),
        "EmuWiz Library Set Platform\nPath: /roms/n64/Luigis_Mansion.zip\nOld platform: N64 (automatic)\nNew platform: GameCube (manual)\n"
    );
    assert_eq!(
        format_bulk_platform_change("Set Platform Bulk", 3, 1, 1, &vec![4, -2]),
        "EmuWiz Library Set Platform Bulk\nRequested: 3\nChanged: 1\nUnchanged: 1\nMissing: 4, -2\n"
    );
    assert!(format_bulk_platform_change("Clear", 0, 0, 0, &vec![]).ends_with("Missing: none\n"));
}

#[test]
fn platform_argument_resolution() {
    let canonical = strings(&["GameCube", "Wii", "Xbox360"]);
    for typed in ["gamecube", "GAMECUBE", "GameCube", "gAmEcUbE"] {
        assert_eq!(resolve_platform_argument(typed.to_string(), false, &canonical).unwrap(), "GameCube");
    }
    assert_eq!(resolve_platform_argument("gamecube".to_string(), true, &canonical).unwrap(), "gamecube");
    assert_eq!(resolve_platform_argument("NotARealPlatform".to_string(), true, &canonical).unwrap(), "NotARealPlatform");
    let error = resolve_platform_argument("NotARealPlatform".to_string(), false, &canonical).unwrap_err();
    assert_eq!(
        error,
        "unsupported platform 'NotARealPlatform'. Must be one of: GameCube, Wii, Xbox360. Pass --custom to assign free-form platform text."
    );
}

fn canonical_names() -> Vec<String> {
    strings(&["GameCube", "Wii", "Xbox360"])
}

#[test]
fn resolve_platform_argument_still_validates_canonical_names_for_bulk() {
    let canonical = canonical_names();
    assert!(resolve_platform_argument("NotARealPlatform".to_string(), false, &canonical).is_err());
    assert_eq!(resolve_platform_argument("gamecube".to_string(), false, &canonical).unwrap(), "GameCube");
    assert_eq!(resolve_platform_argument("AnythingAtAll".to_string(), true, &canonical).unwrap(), "AnythingAtAll");
}

#[test]
fn unsupported_platform_text_is_rejected_without_custom() {
    let error = resolve_platform_argument("NotARealPlatform".to_string(), false, &canonical_names()).unwrap_err();
    assert!(error.contains("unsupported platform"));
    assert!(error.contains("--custom"));
}

#[test]
fn custom_flag_stores_unsupported_platform_text_exactly_as_typed() {
    assert_eq!(
        resolve_platform_argument("NotARealPlatform".to_string(), true, &canonical_names()).unwrap(),
        "NotARealPlatform"
    );
}

#[test]
fn platform_matching_is_case_insensitive_but_stores_one_canonical_spelling() {
    for typed in ["gamecube", "GAMECUBE", "GameCube", "gAmEcUbE"] {
        assert_eq!(
            resolve_platform_argument(typed.to_string(), false, &canonical_names()).unwrap(),
            "GameCube",
            "{typed:?} must resolve to the canonical spelling"
        );
    }
    assert_eq!(resolve_platform_argument("gamecube".to_string(), true, &canonical_names()).unwrap(), "gamecube");
}

#[test]
fn library_find_arguments_take_flags_and_join_the_query() {
    assert_eq!(
        parse_library_find_args(strings(&["super", "--unknown-only", "mario", "--json"])),
        Ok((true, true, "super mario".to_string()))
    );
    assert_eq!(parse_library_find_args(strings(&["zelda"])), Ok((false, false, "zelda".to_string())));
    assert_eq!(
        parse_library_find_args(strings(&["--json", "zelda"])),
        Ok((false, false, "--json zelda".to_string()))
    );
    assert_eq!(parse_library_find_args(Vec::new()), Err("library-find requires a query".to_string()));
    assert_eq!(
        parse_library_find_args(strings(&["--unknown-only", "--json"])),
        Err("library-find requires a query".to_string())
    );
}
