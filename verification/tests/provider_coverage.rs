use archivefs_cli::provider_coverage::{
    coverage_route, dolphin_identity_kind, format_cheat_provider_coverage, outside_audit, retroarch_identity,
    select_archives, CoverageGameView, CoverageRoute, CoverageSummaryView, RejectionReasonView,
};

#[test]
fn selection_keeps_the_order_asked_for_each_archive_once() {
    let catalogue = vec![10, 20, 30, 20];
    assert_eq!(select_archives(&vec![30, 10, 30, 20], &catalogue), Ok(vec![2, 0, 1]));
    assert_eq!(select_archives(&Vec::new(), &catalogue), Ok(Vec::new()));
    assert_eq!(
        select_archives(&vec![10, 99, 98], &catalogue),
        Err("archive id 99 is not present in the library catalogue".to_string())
    );
    assert_eq!(
        select_archives(&vec![-5], &Vec::new()),
        Err("archive id -5 is not present in the library catalogue".to_string())
    );
}

#[test]
fn platforms_route_to_their_provider_ignoring_ascii_case() {
    assert_eq!(coverage_route("GameCube"), CoverageRoute::Dolphin);
    assert_eq!(coverage_route("wii"), CoverageRoute::Dolphin);
    assert_eq!(coverage_route("PLAYSTATION 2"), CoverageRoute::Outside);
    assert_eq!(coverage_route("Xbox 360"), CoverageRoute::Outside);
    assert_eq!(coverage_route("SNES"), CoverageRoute::RetroArch);
    assert_eq!(coverage_route("Unknown"), CoverageRoute::RetroArch);
    assert_eq!(coverage_route("Wii U"), CoverageRoute::RetroArch);
    assert_eq!(
        outside_audit(4, "PlayStation 2"),
        "archive id 4 routes to PlayStation 2, which is outside this Dolphin/RetroArch audit"
    );
}

#[test]
fn identities_prefer_a_content_hash_over_a_serial() {
    let s = |t: &str| Some(t.to_string());
    assert_eq!(retroarch_identity(&s("1A2B3C4D"), true, &s("SLUS-1")), (s("content_crc"), s("1A2B3C4D")));
    assert_eq!(retroarch_identity(&s("ab12"), false, &None), (s("content_sha256"), s("ab12")));
    assert_eq!(retroarch_identity(&None, false, &s("SLUS-1")), (s("serial"), s("SLUS-1")));
    assert_eq!(retroarch_identity(&None, true, &None), (None, None));
    assert_eq!(dolphin_identity_kind(&s("RMGE01")), s("dolphin_game_id"));
    assert_eq!(dolphin_identity_kind(&None), None);
}

#[test]
fn coverage_report_text_lists_each_game() {
    let summary = CoverageSummaryView {
        games_inspected: 2,
        games_with_compatible_cheats: 1,
        games_without_compatible_cheats: 1,
        compatible_cheats: 12,
        rejected_candidates: 3,
        duplicates: 1,
        conflicts: 0,
        unsupported_formats: 2,
    };
    let games = vec![
        CoverageGameView {
            emulator: "Dolphin".to_string(),
            provider_name: "Dolphin GameSettings".to_string(),
            game_title: "Super Mario Galaxy".to_string(),
            platform: "Wii".to_string(),
            verified_identity: Some("RMGE01".to_string()),
            region: Some("NTSC-U".to_string()),
            revision: None,
            compatible_cheat_count: 12,
            rejected_candidate_count: 3,
            duplicate_count: 1,
            conflicting_entry_count: 0,
            unsupported_format_count: 2,
            rejection_reasons: vec![RejectionReasonView { count: 3, explanation: "different region".to_string() }],
            no_match_reason: None,
        },
        CoverageGameView {
            emulator: "RetroArch".to_string(),
            provider_name: "local-provider".to_string(),
            game_title: "Homebrew".to_string(),
            platform: "SNES".to_string(),
            verified_identity: None,
            region: None,
            revision: None,
            compatible_cheat_count: 0,
            rejected_candidate_count: 0,
            duplicate_count: 0,
            conflicting_entry_count: 0,
            unsupported_format_count: 0,
            rejection_reasons: Vec::new(),
            no_match_reason: Some("no verified identity".to_string()),
        },
    ];
    assert_eq!(
        format_cheat_provider_coverage(&summary, &games),
        [
            "EmuWiz Cheat Provider Coverage Audit\n",
            "Read-only bounded selection: yes | Games: 2 | With compatible cheats: 1 | Without: 1\n",
            "Compatible cheats: 12 | Rejected candidates: 3 | Duplicates: 1 | Conflicts: 0 | Unsupported formats: 2\n",
            "\n",
            "Dolphin / Dolphin GameSettings \u{2014} Super Mario Galaxy (Wii)\n",
            "  verified identity: RMGE01\n",
            "  region: NTSC-U | revision: unavailable\n",
            "  compatible cheats: 12 | rejected: 3 | duplicates: 1 | conflicts: 0 | unsupported: 2\n",
            "  rejected (3): different region\n",
            "\n",
            "RetroArch / local-provider \u{2014} Homebrew (SNES)\n",
            "  verified identity: unavailable\n",
            "  region: unavailable | revision: unavailable\n",
            "  compatible cheats: 0 | rejected: 0 | duplicates: 0 | conflicts: 0 | unsupported: 0\n",
            "  no match: no verified identity\n",
        ]
        .concat()
    );
}
