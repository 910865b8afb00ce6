use archivefs_cli::bsfree::{
    cheat_capability, check_rollback, choose_cheats, count_installable, install_capability, is_valid_game_id,
    normalize_cli_title, operation_of, parse_select_token, platform_matches, rollback_preview_status, run,
    select_tokens, title_guard_refuses, title_mismatch, wrong_platform, BsFreeRequest, CheatSelection, CodeFormat,
    DefaultRoots, DolphinPlatform, PageArgs,
};

fn strings(items: &[&str]) -> Vec<String> {
    items.iter().map(|s| s.to_string()).collect()
}

fn defaults() -> DefaultRoots {
    DefaultRoots {
        source_root: Ok("/default/source".to_string()),
        history_root: Ok("/default/history".to_string()),
        backup_root: Ok("/default/backup".to_string()),
    }
}

#[test]
fn gamecube_title_guard_compares_normalized_titles() {
    assert_eq!(normalize_cli_title("Luigi's Mansion (USA)"), normalize_cli_title("Luigis Mansion"));
    assert_ne!(normalize_cli_title("Pokemon XD"), normalize_cli_title("The Sims"));
    assert!(normalize_cli_title("  !?  ").is_empty(), "punct-only titles never match");
}

#[test]
fn cheat_capability_reflects_installable_and_reference_only_codes() {
    // A GameCube Action Replay code the classifier accepts as native.
    let capability = cheat_capability(1, "Lives".to_string(), Some(CodeFormat::ActionReplayNative));
    assert!(capability.installable);
    assert!(capability.capability.contains("Dolphin"));

    // A code for a platform no adapter installs on.
    let capability = cheat_capability(2, "Code".to_string(), None);
    assert!(!capability.installable);
    assert_eq!(capability.capability, "reference only: no EmuWiz adapter for this platform/format");
}

#[test]
fn capability_text_for_each_format() {
    let gecko = cheat_capability(3, "G".to_string(), Some(CodeFormat::GeckoEquivalent));
    assert!(gecko.installable);
    assert_eq!(gecko.capability, "installable via Dolphin (Gecko, byte-identical)");
    let unsupported = cheat_capability(4, "U".to_string(), Some(CodeFormat::Unsupported));
    assert!(!unsupported.installable);
    assert!(unsupported.capability.starts_with("browse-only"));
    let malformed = cheat_capability(5, "M".to_string(), Some(CodeFormat::Malformed));
    assert!(!malformed.installable);
    assert_eq!(malformed.upstream_id, 5);
    assert_eq!(malformed.name, "M");

    let formats = vec![Some(CodeFormat::GeckoEquivalent), None, Some(CodeFormat::Malformed), Some(CodeFormat::ActionReplayNative)];
    assert_eq!(count_installable(&formats), 2);
    assert_eq!(count_installable(&vec![]), 0);
    assert!(install_capability(true, false).starts_with("Some GameCube codes"));
    assert!(install_capability(false, true).starts_with("Some Wii codes"));
    assert_eq!(install_capability(false, false), "No EmuWiz adapter can install codes for this platform; browse-only");
}

#[test]
fn bsfree_run_reads_global_flags_then_the_command() {
    let line = run(strings(&["--json", "--root", "/src", "status"]), defaults()).unwrap();
    assert!(line.json);
    assert_eq!(line.root, "/src");
    assert_eq!(line.request, BsFreeRequest::Status);

    assert_eq!(run(vec![], defaults()).unwrap_err(), "cheats source bsfree requires a command");
    assert_eq!(run(strings(&["--root"]), defaults()).unwrap_err(), "--root requires a value");
    assert_eq!(run(strings(&["frobnicate"]), defaults()).unwrap_err(), "unknown BSFree command \"frobnicate\"");
    assert_eq!(run(strings(&["status", "extra"]), defaults()).unwrap_err(), "BSFree status does not accept [\"extra\"]");
    assert_eq!(run(strings(&["import-local"]), defaults()).unwrap_err(), "import-local requires exactly one database path");
}

#[test]
fn bsfree_pages_and_searches() {
    let line = run(strings(&["systems", "--offset", "10", "--limit", "65000"]), defaults()).unwrap();
    assert_eq!(line.request, BsFreeRequest::Systems { page: PageArgs { offset: 10, limit: Some(65000) } });
    let error = run(strings(&["systems", "--limit", "70000"]), defaults()).unwrap_err();
    assert_eq!(error, "number too large to fit in target type");
    let line = run(strings(&["search", "--title", "Zelda", "--device", "6"]), defaults()).unwrap();
    match line.request {
        BsFreeRequest::Search { title, device_id, platform_id, page, .. } => {
            assert_eq!(title, Some("Zelda".to_string()));
            assert_eq!(device_id, Some(6));
            assert_eq!(platform_id, None);
            assert_eq!(page, PageArgs { offset: 0, limit: None });
        }
        other => panic!("unexpected {other:?}"),
    }
    assert_eq!(run(strings(&["game"]), defaults()).unwrap_err(), "game requires an upstream UID");
    assert_eq!(run(strings(&["game", "x"]), defaults()).unwrap_err(), "invalid digit found in string");
}

#[test]
fn bsfree_install_arguments_are_checked_before_anything_is_opened() {
    let args = strings(&[
        "gamecube-preview", "--archive", "/roms/g.iso", "--game-id", "GM4E01", "--configuration-path", "/cfg",
        "--bsfree-game", "12", "--staging-root", "/stage", "--select", "1,2",
    ]);
    let line = run(args, defaults()).unwrap();
    match line.request {
        BsFreeRequest::Install { platform, apply, args } => {
            assert_eq!(platform, DolphinPlatform::GameCube);
            assert!(!apply);
            assert_eq!(args.game_id, "GM4E01");
            assert_eq!(args.upstream_uid, 12);
            assert_eq!(args.select, Some("1,2".to_string()));
            assert!(!args.confirmed);
        }
        other => panic!("unexpected {other:?}"),
    }
    let missing = run(strings(&["wii-apply", "--game-id", "RMCE01"]), defaults()).unwrap_err();
    assert_eq!(missing, "wii preview/apply requires --archive <selected-game-path>");
    let bad_id = strings(&[
        "wii-apply", "--archive", "a", "--game-id", "rmce01", "--configuration-path", "c", "--bsfree-game", "1",
        "--staging-root", "s",
    ]);
    assert_eq!(run(bad_id, defaults()).unwrap_err(), "game-id must be an exact six-character Dolphin Game ID");
    assert!(is_valid_game_id("GM4E01"));
    assert!(!is_valid_game_id("GM4E0"));
    assert!(!is_valid_game_id("gm4e01"));
}

#[test]
fn rollback_arguments_and_refusal() {
    let line = run(strings(&["wii-rollback", "--journal", "j.json", "--configuration-path", "c", "--confirm"]), defaults()).unwrap();
    assert_eq!(
        line.request,
        BsFreeRequest::Rollback {
            journal: "j.json".to_string(),
            configuration_path: "c".to_string(),
            backup_root: "/default/backup".to_string(),
            history_root: "/default/history".to_string(),
            confirmed: true,
        }
    );
    assert!(check_rollback(false, false).unwrap_err().starts_with("rollback is not available for this journal"));
    assert!(check_rollback(false, true).is_ok());
    assert!(check_rollback(true, false).is_ok());
    assert_eq!(rollback_preview_status(), "preview (not approved); re-run with --confirm to roll back");
    assert_eq!(operation_of(true, true), (true, "apply"));
    assert_eq!(operation_of(true, false), (false, "preview"));
    assert_eq!(operation_of(false, true), (false, "preview"));
}

#[test]
fn select_tokens_and_cheat_choice() {
    assert_eq!(select_tokens(" 1, ,2 ,, 3 "), strings(&["1", "2", "3"]));
    assert_eq!(parse_select_token("42").unwrap(), 42);
    assert_eq!(
        parse_select_token("x").unwrap_err(),
        "--select value \"x\" is not a numeric code ID: invalid digit found in string"
    );

    let ids = vec![10, 20, 30, 20];
    let selectable = vec![true, false, true, true];
    assert_eq!(choose_cheats(DolphinPlatform::GameCube, &ids, &selectable, &None, true).unwrap(), CheatSelection::All);
    assert_eq!(
        choose_cheats(DolphinPlatform::GameCube, &ids, &selectable, &Some("30, 10".to_string()), false).unwrap(),
        CheatSelection::Chosen(vec![2, 0])
    );
    assert_eq!(
        choose_cheats(DolphinPlatform::GameCube, &ids, &selectable, &Some("20".to_string()), false).unwrap_err(),
        "selected BSFree code ID 20 is not installable (browse-only format)"
    );
    assert_eq!(
        choose_cheats(DolphinPlatform::Wii, &ids, &selectable, &Some("-5".to_string()), false).unwrap_err(),
        "selected BSFree code ID -5 is not in this game's cheat list"
    );
    assert_eq!(
        choose_cheats(DolphinPlatform::Wii, &ids, &selectable, &None, false).unwrap_err(),
        "wii preview/apply requires --select <id,id,...> or --select-all"
    );
}

#[test]
fn wrong_game_and_platform_guards() {
    assert!(!title_guard_refuses(&None, "Luigi's Mansion"));
    assert!(!title_guard_refuses(&Some("Luigis Mansion (USA)".to_string()), "Luigi's Mansion"));
    assert!(title_guard_refuses(&Some("The Sims".to_string()), "Pokemon XD"));
    assert!(!title_guard_refuses(&Some("!?".to_string()), "Pokemon XD"));
    assert!(title_mismatch("Pokemon XD", "The Sims").starts_with("selected BSFree game \"Pokemon XD\" does not match the archive title \"The Sims\""));
    assert!(platform_matches(DolphinPlatform::Wii, &Some("Wii".to_string())));
    assert!(!platform_matches(DolphinPlatform::GameCube, &Some("Wii".to_string())));
    assert!(!platform_matches(DolphinPlatform::GameCube, &None));
    assert_eq!(
        wrong_platform(DolphinPlatform::GameCube, "Halo", "Xbox"),
        "BSFree game \"Halo\" is not a GameCube game (system \"Xbox\"); only GameCube codes can be installed via Dolphin, and this game is browse-only"
    );
}

#[test]
fn default_roots_are_used_where_their_flags_are_absent() {
    let line = run(strings(&["status"]), defaults()).unwrap();
    assert_eq!(line.root, "/default/source");
    let args = strings(&[
        "wii-apply", "--archive", "a", "--game-id", "RMCE01", "--configuration-path", "c", "--bsfree-game", "1",
        "--staging-root", "s", "--backup-root", "/b",
    ]);
    match run(args, defaults()).unwrap().request {
        BsFreeRequest::Install { args, .. } => {
            assert_eq!(args.history_root, "/default/history");
            assert_eq!(args.backup_root, "/b");
        }
        other => panic!("unexpected {other:?}"),
    }
}

#[test]
fn a_failed_default_lookup_stops_the_command_where_it_is_needed() {
    let broken = || DefaultRoots {
        source_root: Ok("/default/source".to_string()),
        history_root: Err("no history folder".to_string()),
        backup_root: Err("no backup folder".to_string()),
    };
    // The history default is needed before --select is read, so its failure
    // comes first even though --select lacks a value.
    let install = strings(&[
        "gamecube-apply", "--archive", "a", "--game-id", "GM4E01", "--configuration-path", "c", "--bsfree-game", "1",
        "--staging-root", "s", "--select",
    ]);
    assert_eq!(run(install, broken()).unwrap_err(), "no history folder");
    // A bad flag read before the lookup still wins.
    let early = strings(&["gamecube-apply", "--archive", "a", "--game-id", "GM4E01", "--revision", "x"]);
    assert_eq!(run(early, broken()).unwrap_err(), "invalid digit found in string");
    // With --history-root given, the backup default is the next lookup.
    let given = strings(&[
        "gamecube-apply", "--archive", "a", "--game-id", "GM4E01", "--configuration-path", "c", "--bsfree-game", "1",
        "--staging-root", "s", "--history-root", "/h", "--title",
    ]);
    assert_eq!(run(given, broken()).unwrap_err(), "no backup folder");
    // Rollback looks up the backup folder before the history folder.
    let rollback = strings(&["gamecube-rollback", "--journal", "j", "--configuration-path", "c"]);
    assert_eq!(run(rollback, broken()).unwrap_err(), "no backup folder");
    // The source folder default is looked up even when --root is given.
    let no_source = DefaultRoots { source_root: Err("no source folder".to_string()), ..defaults() };
    assert_eq!(run(strings(&["--root", "/r", "frobnicate"]), no_source).unwrap_err(), "no source folder");
    let no_source = DefaultRoots { source_root: Err("no source folder".to_string()), ..defaults() };
    assert_eq!(run(strings(&["--root"]), no_source).unwrap_err(), "--root requires a value");
}
