use archivefs_cli::gamehacking_reports::{
    find_catalogue_game, format_code_format_audit, format_refresh_progress, format_refresh_result,
    format_sysid_diagnostic, format_wii_import, CodeFormatView, SysIdDiagnosticView, WiiImportView,
};

#[test]
fn a_game_is_found_by_its_first_matching_id() {
    assert_eq!(find_catalogue_game(&vec![5, 9, 9], 9), Ok(1));
    assert_eq!(
        find_catalogue_game(&vec![5], 7),
        Err("game 7 was not found in the cached GameCube catalogue; run gamehacking-gamecube-index-refresh first".to_string())
    );
}

#[test]
fn refresh_progress_and_result_lines() {
    assert_eq!(
        format_refresh_progress("PS2", 3, 10, 120, Some(4), true),
        "GameHacking PS2 index: 3/10 pages \u{b7} 120 games \u{b7} page 4 downloaded"
    );
    assert_eq!(
        format_refresh_progress("Wii", 0, 10, 0, None, false),
        "GameHacking Wii index: 0/10 pages \u{b7} 0 games \u{b7} page - cached"
    );
    assert_eq!(
        format_refresh_result("GameCube", 812, 17, 2, 15, "/cache/gc.json"),
        "GameHacking GameCube catalogue ready: 812 games from 17 pages (2 downloaded, 15 cached)\n/cache/gc.json"
    );
}

#[test]
fn sysid_diagnostic_text() {
    let mut d = SysIdDiagnosticView {
        game_id: 42,
        title: "Pikmin".to_string(),
        game_page_url: "https://gamehacking.org/game/42".to_string(),
        export_form_action: "/export".to_string(),
        hidden_fields: vec![("sysID".to_string(), "7".to_string())],
        sys_id: Some(7),
        cheats: Some(vec![("Infinite Pikmin".to_string(), "GeckoEquivalent".to_string())]),
    };
    assert_eq!(
        format_sysid_diagnostic(&d),
        "Game ID: 42\nTitle: Pikmin\nGame page URL: https://gamehacking.org/game/42\nExport form action: /export\n\
         Hidden fields:\n  sysID = 7\nConfirmed sysID: 7\nVerified fetch: 1 named cheat(s) parsed\n  - Infinite Pikmin [GeckoEquivalent]\n"
    );
    d.sys_id = None;
    d.cheats = None;
    assert!(format_sysid_diagnostic(&d)
        .ends_with("Confirmed sysID: none found (no hidden sysID field, or it did not parse as a number)\n"));
}

#[test]
fn code_format_audit_text() {
    let cheat = CodeFormatView {
        name: "Moon Jump".to_string(),
        author: None,
        line_count: 2,
        opcode_prefixes: vec!["04".to_string(), "C2".to_string()],
        code_format: "Unsupported".to_string(),
        classification_reason: "C2 needs assembly".to_string(),
        code_lines: vec!["04000000 00000001".to_string(), "C2000000 00000002".to_string()],
    };
    assert_eq!(
        format_code_format_audit(42, "Pikmin", &vec![cheat]),
        "Game ID: 42\nTitle: Pikmin\nCheats: 1\n\n- Moon Jump\n  Author: (none)\n  Line count: 2\n  Opcode prefixes: 04, C2\n\
         \x20 Classification: Unsupported\n  Reason: C2 needs assembly\n  Raw lines:\n    04000000 00000001\n    C2000000 00000002\n"
    );
}

#[test]
fn wii_import_text() {
    let w = WiiImportView {
        game_id: 9,
        dolphin_game_id: "RMGE01".to_string(),
        game_title: "Super Mario Galaxy".to_string(),
        imported_cheats: 3,
        supported_cheats: 2,
        blocked_or_unknown: 1,
        cache_path: "/c/9.html".to_string(),
        catalogue_path: "/c/wii.json".to_string(),
        coverage: "partial".to_string(),
        content_sha256: "ab".to_string(),
        provenance: "saved page".to_string(),
        network_used: false,
    };
    assert_eq!(
        format_wii_import(&w),
        "Imported GameHacking.org Wii game 9\nVerified Dolphin Game ID: RMGE01\nGame: Super Mario Galaxy\nImported cheats: 3\n\
         Supported cheats: 2\nBlocked or unknown cheats: 1\nCache: /c/9.html\nCatalogue: /c/wii.json\nCoverage: partial\n\
         Content SHA-256: ab\nProvenance: saved page\nNetwork used: no\n"
    );
}
