use archivefs_cli::requests::{
    alias_remove_args, cheat_catalogue_args, cheat_history_args, cheat_inspect_args, cheat_install_args,
    cheat_rollback_args, doctor_args, gamecube_diagnostic_args, identity_args, identity_inspect_args,
    index_refresh_args, info_args, joined_input, json_only, platform_detect_args, provider_coverage_args,
    source_args, sources_args, view_args, wii_import_args, DetectRequest, DoctorRequest, SourceRequest,
    ViewRequest,
};

fn strings(items: &[&str]) -> Vec<String> {
    items.iter().map(|item| item.to_string()).collect()
}

#[test]
fn mount_one_joins_every_word_of_the_name() {
    assert_eq!(
        joined_input(&strings(&["Halo", "2"]), "mount-one requires an archive path or name"),
        Ok("Halo 2".to_string())
    );
    assert_eq!(
        joined_input(&strings(&[]), "index-find requires a query"),
        Err("index-find requires a query".to_string())
    );
}

#[test]
fn info_takes_a_trailing_json_flag() {
    assert_eq!(info_args(strings(&["Halo", "--json"])), Ok(("Halo".to_string(), true)));
    assert_eq!(info_args(strings(&["Halo", "2"])), Ok(("Halo 2".to_string(), false)));
    assert_eq!(info_args(strings(&["--json"])), Err("info requires an archive path or name".to_string()));
    assert_eq!(info_args(strings(&[])), Err("info requires an archive path or name".to_string()));
}

#[test]
fn json_only_commands_refuse_anything_else() {
    assert_eq!(json_only("retroarch-environment", strings(&["--json"])), Ok(true));
    assert_eq!(json_only("retroarch-environment", strings(&[])), Ok(false));
    assert_eq!(
        json_only("pcsx2-patch-preview", strings(&["--json", "extra"])),
        Err("pcsx2-patch-preview accepts only --json".to_string())
    );
}

#[test]
fn index_refresh_accepts_resume_and_a_cache_root() {
    let parsed = index_refresh_args(
        "gamehacking-ps2-index-refresh",
        strings(&["--resume", "--cache-root", "/cache", "--json"]),
    )
    .unwrap();
    assert!(parsed.json);
    assert_eq!(parsed.cache_root, Some("/cache".to_string()));
    assert_eq!(
        index_refresh_args("gamehacking-wii-index-refresh", strings(&["--force"])),
        Err("gamehacking-wii-index-refresh does not accept [\"--force\"]".to_string())
    );
    assert_eq!(
        index_refresh_args("gamehacking-wii-index-refresh", strings(&["--cache-root", "a", "--cache-root", "b"])),
        Err("--cache-root may be specified only once".to_string())
    );
}

#[test]
fn game_identity_inspect_requires_a_path() {
    assert_eq!(
        identity_inspect_args(strings(&["--platform", "Wii"])),
        Err("game-identity-inspect requires --path <image>".to_string())
    );
    let parsed = identity_inspect_args(strings(&["--path", "/roms/a.iso", "--platform", "Wii"])).unwrap();
    assert_eq!(parsed.path, "/roms/a.iso");
    assert_eq!(parsed.platform, Some("Wii".to_string()));
    assert!(!parsed.json);
}

#[test]
fn wii_import_page_needs_its_game_image_and_file_in_that_order() {
    assert_eq!(
        wii_import_args(strings(&["--image", "a.iso"])),
        Err("gamehacking-wii-import-page requires --game-id <id>".to_string())
    );
    assert_eq!(
        wii_import_args(strings(&["--game-id", "x"])),
        Err("--game-id requires a non-negative integer, got \"x\"".to_string())
    );
    assert_eq!(
        wii_import_args(strings(&["--game-id", "7", "--file", "p.html"])),
        Err("gamehacking-wii-import-page requires --image <path>".to_string())
    );
    assert_eq!(
        wii_import_args(strings(&["--game-id", "7", "--image", "a.iso"])),
        Err("gamehacking-wii-import-page requires --file <saved-page.html>".to_string())
    );
    let parsed = wii_import_args(strings(&["--game-id", "7", "--image", "a.iso", "--file", "p.html"])).unwrap();
    assert_eq!(parsed.game_id, 7);
    assert_eq!(parsed.image, "a.iso");
    assert_eq!(parsed.file, "p.html");
    assert_eq!(parsed.cache_root, None);
}

#[test]
fn gamecube_diagnostics_read_the_game_id_and_fetch_flag() {
    let parsed = gamecube_diagnostic_args(
        "gamehacking-gamecube-sysid-diagnostic",
        true,
        strings(&["--game-id", "12", "--verify-fetch"]),
    )
    .unwrap();
    assert_eq!(parsed.game_id, 12);
    assert!(parsed.verify_fetch);
    assert_eq!(
        gamecube_diagnostic_args("gamehacking-gamecube-code-format-audit", false, strings(&["--game-id", "12", "--verify-fetch"])),
        Err("gamehacking-gamecube-code-format-audit does not accept [\"--verify-fetch\"]".to_string())
    );
    assert_eq!(
        gamecube_diagnostic_args("gamehacking-gamecube-code-format-audit", false, strings(&[])),
        Err("gamehacking-gamecube-code-format-audit requires --game-id <id>".to_string())
    );
}

#[test]
fn retroarch_cheat_commands_take_one_path() {
    let parsed = cheat_catalogue_args(strings(&["/cat", "--cheat-destination-root", "/dest"])).unwrap();
    assert_eq!(parsed.catalogue, "/cat");
    assert_eq!(parsed.destination_root, Some("/dest".to_string()));
    assert_eq!(
        cheat_catalogue_args(strings(&[])),
        Err("retroarch-cheat-catalogue requires a local catalogue path".to_string())
    );
    assert_eq!(
        cheat_install_args(strings(&["/cat"])),
        Err("retroarch-cheat-install requires --cheat-destination-root <path>".to_string())
    );
    let install = cheat_install_args(strings(&["--yes", "/cat", "--cheat-destination-root", "/d", "--dry-run"])).unwrap();
    assert!(install.confirmed && install.dry_run && !install.allow_replace_different && !install.json);
    assert_eq!(install.catalogue, "/cat");
    assert_eq!(
        cheat_install_args(strings(&["a", "b", "--cheat-destination-root", "/d"])),
        Err("retroarch-cheat-install accepts one local catalogue path, --cheat-destination-root <path>, --dry-run, --yes, --replace-different, and --json".to_string())
    );
    assert_eq!(cheat_history_args(strings(&["--json"])), Ok((true, None)));
    assert_eq!(
        cheat_history_args(strings(&["x"])),
        Err("retroarch-cheat-history accepts only --journal-root <path> and --json".to_string())
    );
    assert_eq!(cheat_inspect_args(strings(&["j.json", "--json"])), Ok((true, "j.json".to_string())));
    assert_eq!(
        cheat_inspect_args(strings(&[])),
        Err("retroarch-cheat-inspect requires one journal path and optionally --json".to_string())
    );
    let rollback = cheat_rollback_args(strings(&["j.json", "--cheat-destination-root", "/d", "--yes"])).unwrap();
    assert_eq!(rollback.journal, "j.json");
    assert!(rollback.confirmed && !rollback.dry_run);
}

#[test]
fn provider_coverage_bounds_its_archive_ids() {
    let parsed = provider_coverage_args(strings(&["--id", "3", "--id", "1", "--json"])).unwrap();
    assert_eq!(parsed.archive_ids, vec![3, 1]);
    assert!(parsed.json);
    assert_eq!(
        provider_coverage_args(strings(&["--json"])),
        Err("cheat-provider-coverage requires at least one exact --id <archive-id>".to_string())
    );
    let mut many = Vec::new();
    for id in 0..33 {
        many.push("--id".to_string());
        many.push(id.to_string());
    }
    assert_eq!(
        provider_coverage_args(many),
        Err("cheat-provider-coverage accepts at most 32 archive IDs per bounded run".to_string())
    );
    assert_eq!(
        provider_coverage_args(strings(&["--id", "x"])),
        Err("--id value 'x' is not a valid archive id".to_string())
    );
    assert_eq!(
        provider_coverage_args(strings(&["--id", "1", "extra"])),
        Err("cheat-provider-coverage does not accept [\"extra\"]".to_string())
    );
}

#[test]
fn doctor_chooses_report_findings_or_a_known_repair() {
    let known = strings(&["rebuild-index", "clean-mounts"]);
    assert_eq!(doctor_args(strings(&["--json"]), &known), Ok(DoctorRequest::Report { json: true }));
    assert_eq!(doctor_args(strings(&["--findings"]), &known), Ok(DoctorRequest::Findings { json: false }));
    assert_eq!(
        doctor_args(strings(&["--repair", "nope"]), &known),
        Err("unknown repair action \"nope\"; expected one of: rebuild-index, clean-mounts".to_string())
    );
    assert_eq!(
        doctor_args(strings(&["--repair", "clean-mounts"]), &known),
        Err("doctor --repair requires --finding <finding-id>".to_string())
    );
    assert_eq!(
        doctor_args(strings(&["--repair", "clean-mounts", "--finding", "f1", "--confirm", "--json"]), &known),
        Ok(DoctorRequest::Repair {
            action: "clean-mounts".to_string(),
            finding: "f1".to_string(),
            resource: None,
            confirm: true,
            dry_run: false,
            json: true,
        })
    );
    assert_eq!(
        doctor_args(strings(&["--repair", "clean-mounts", "--finding", "f1", "later"]), &known),
        Err("doctor --repair does not accept [\"later\"]".to_string())
    );
}

#[test]
fn platform_detect_reads_one_path_or_an_audit() {
    assert_eq!(
        platform_detect_args(strings(&["/roms/a.iso", "--json"])),
        Ok(DetectRequest::Detect { json: true, manual: None, root: None, target: "/roms/a.iso".to_string() })
    );
    assert_eq!(
        platform_detect_args(strings(&[])),
        Err("platform-detect requires a path, e.g. emuwiz-cli platform-detect /roms/scummvm/laurabow2/RESOURCE.GEN".to_string())
    );
    assert_eq!(
        platform_detect_args(strings(&["a", "b"])),
        Err("platform-detect does not accept [\"b\"]".to_string())
    );
    assert_eq!(
        platform_detect_args(strings(&["--audit"])),
        Err("platform-detect --audit requires --root <directory>".to_string())
    );
    assert_eq!(
        platform_detect_args(strings(&["--audit", "--root", "/roms", "--limit", "ten"])),
        Err("--limit must be a number: invalid digit found in string".to_string())
    );
    assert_eq!(
        platform_detect_args(strings(&["--audit", "--root", "/roms", "--limit", "10"])),
        Ok(DetectRequest::Audit { json: false, manual: None, root: "/roms".to_string(), limit: Some(10) })
    );
}

#[test]
fn source_sub_commands_need_their_target() {
    assert_eq!(
        source_args(strings(&["add", "/mnt/roms", "--json"])),
        Ok(SourceRequest::Add { path: "/mnt/roms".to_string(), json: true })
    );
    assert_eq!(
        source_args(strings(&["disable"])),
        Err("source disable requires an id or path".to_string())
    );
    assert_eq!(
        source_args(strings(&["remove", "3"])),
        Err("source remove requires exactly one of --keep-catalogue or --remove-catalogue".to_string())
    );
    assert_eq!(
        source_args(strings(&["remove", "3", "--keep-catalogue"])),
        Ok(SourceRequest::Remove { identifier: "3".to_string(), keep_catalogue: true, json: false })
    );
    assert_eq!(
        source_args(strings(&["move", "3"])),
        Err("unknown 'source' sub-command 'move' (expected add, enable, disable, scan, or remove)".to_string())
    );
    assert!(source_args(strings(&[])).unwrap_err().starts_with("source requires a sub-command"));
}

#[test]
fn view_sub_commands_need_a_view() {
    assert_eq!(view_args(strings(&["list", "--json"])), Ok(ViewRequest::List { json: true }));
    assert_eq!(view_args(strings(&["apply"])), Err("view apply requires a view id or name".to_string()));
    assert_eq!(
        view_args(strings(&["remove", "--keep-definition", "Main"])),
        Ok(ViewRequest::Remove { identifier: "Main".to_string(), keep_definition: true, json: false })
    );
    assert_eq!(
        view_args(strings(&["remove", "--keep-definition"])),
        Err("view remove requires a view id or name".to_string())
    );
    assert_eq!(
        view_args(strings(&["sync"])),
        Err("unknown 'view' sub-command 'sync' (expected list, preview, apply, repair, or remove)".to_string())
    );
}

#[test]
fn sources_identity_and_alias_removal_arguments() {
    assert_eq!(sources_args(strings(&["scan-all", "--json"])), (true, true));
    assert_eq!(sources_args(strings(&[])), (false, false));
    assert_eq!(identity_args(strings(&["source", "romm", "status"])), Ok(strings(&["status"])));
    assert_eq!(
        identity_args(strings(&["source", "igdb"])),
        Err("identity currently supports only `source romm <command>`".to_string())
    );
    assert_eq!(alias_remove_args(strings(&["gc"])), Ok("gc".to_string()));
    assert!(alias_remove_args(strings(&[])).is_err());
}
