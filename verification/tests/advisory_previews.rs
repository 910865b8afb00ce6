use archivefs_cli::advisory::{
    format_advisory_patch_plan, format_id_list, AdvisoryEntryView, AdvisoryPatchPlanView, AdvisorySourceView,
    AdvisorySummaryView, HypotheticalDestinationView, InstallationCandidateView,
};
use archivefs_cli::retroarch_advisory::{
    format_destination, format_retroarch_advisory_plan, format_retroarch_artifact_inventory, ArtifactFindingView,
    ArtifactInventoryView, ArtifactSummaryView, CatalogueGameView, CheatSummaryView, CoreSelectionSource,
    DestinationView, InventoryDiagnosticView, PlaylistEvidenceView, ProfileOutcomeView, RetroArchAdvisoryEntryView,
    RetroArchAdvisoryPlanView, RetroArchAdvisorySummaryView,
};

fn strings(items: &[&str]) -> Vec<String> {
    items.iter().map(|s| s.to_string()).collect()
}

const TRANSPORT_ONLY_EXPLANATION: &str =
    "HTTPS transport verified; downloaded metadata is not signed content";
const FRESHNESS: &str = "No authenticated timestamp or monotonic version; first-seen replay cannot be detected";

fn source(prefix: &str, display_name: &str, endpoint: &str) -> AdvisorySourceView {
    AdvisorySourceView {
        display_name: display_name.to_string(),
        endpoint: endpoint.to_string(),
        provenance: format!("{prefix} provenance"),
        license_notice: format!("{prefix} license notice"),
        metadata_schema: format!("{prefix}-schema-v1"),
        source_version: format!("{prefix}-revision"),
        metadata_sha256: format!("{prefix}-metadata-hash"),
        verification: "TransportOnly".to_string(),
        verification_explanation: TRANSPORT_ONLY_EXPLANATION.to_string(),
        freshness_explanation: FRESHNESS.to_string(),
    }
}

fn candidate(kind: &str, data_root: &str, provenance: &str) -> InstallationCandidateView {
    InstallationCandidateView {
        kind: kind.to_string(),
        data_root: data_root.to_string(),
        provenance: provenance.to_string(),
        discovery_confidence: "StandardPathCandidate".to_string(),
        detected_version: None,
        mutation_readiness: "NotEvaluated".to_string(),
    }
}

fn one_missing_game() -> AdvisorySummaryView {
    AdvisorySummaryView {
        metadata_records: 1,
        exact_matches: 0,
        probable_matches: 0,
        uncertain_matches: 0,
        ambiguous_matches: 0,
        missing_games: 1,
    }
}

fn golden_two_candidate_plan() -> AdvisoryPatchPlanView {
    AdvisoryPatchPlanView {
        executable: false,
        format_version: "1".to_string(),
        plan_id: "golden-plan-id".to_string(),
        source: source("golden", "Golden PCSX2 metadata", "https://golden.invalid/endpoint"),
        installation_candidates: vec![
            candidate("Native", "/golden/home/.config/PCSX2", "golden native provenance"),
            candidate(
                "Flatpak",
                "/golden/home/.var/app/net.pcsx2.PCSX2/config/PCSX2",
                "golden flatpak provenance",
            ),
        ],
        summary: one_missing_game(),
        entries: vec![AdvisoryEntryView {
            record_id: "patches/GOLD-00001_DEADBEEF.pnach".to_string(),
            disposition: "AmbiguousInstallationCandidates".to_string(),
            match_confidence: "NoMatch".to_string(),
            catalogue_archive_ids: Vec::new(),
            serial: Some("GOLD-00001".to_string()),
            executable_crc: Some("DEADBEEF".to_string()),
            reasons: strings(&[
                "no compatible catalogue identity evidence",
                "metadata preview only; no PNACH content was downloaded",
                "multiple standard-path PCSX2 candidates were found; none was selected",
            ]),
            hypothetical_destinations: vec![
                HypotheticalDestinationView {
                    candidate_kind: "Native".to_string(),
                    display_path: "/golden/home/.config/PCSX2/patches/GOLD-00001_DEADBEEF.pnach".to_string(),
                },
                HypotheticalDestinationView {
                    candidate_kind: "Flatpak".to_string(),
                    display_path:
                        "/golden/home/.var/app/net.pcsx2.PCSX2/config/PCSX2/patches/GOLD-00001_DEADBEEF.pnach"
                            .to_string(),
                },
            ],
        }],
    }
}

#[test]
fn advisory_patch_preview_format_is_explicitly_non_executable_and_hypothetical() {
    let plan = AdvisoryPatchPlanView {
        executable: false,
        format_version: "1".to_string(),
        plan_id: "plan-hash".to_string(),
        source: AdvisorySourceView {
            display_name: "PCSX2 metadata".to_string(),
            endpoint: "https://example.invalid/compiled-in".to_string(),
            provenance: "fixture provenance".to_string(),
            license_notice: "fixture license notice".to_string(),
            metadata_schema: "fixture-schema-v1".to_string(),
            source_version: "revision".to_string(),
            metadata_sha256: "metadata-hash".to_string(),
            verification: "TransportOnly".to_string(),
            verification_explanation: TRANSPORT_ONLY_EXPLANATION.to_string(),
            freshness_explanation: FRESHNESS.to_string(),
        },
        installation_candidates: vec![candidate("Native", "/readonly/PCSX2", "fixture root")],
        summary: one_missing_game(),
        entries: vec![AdvisoryEntryView {
            record_id: "patches/12345678.pnach".to_string(),
            disposition: "MissingGame".to_string(),
            match_confidence: "NoMatch".to_string(),
            catalogue_archive_ids: Vec::new(),
            serial: None,
            executable_crc: Some("12345678".to_string()),
            reasons: strings(&["metadata preview only; no PNACH content was downloaded"]),
            hypothetical_destinations: vec![HypotheticalDestinationView {
                candidate_kind: "Native".to_string(),
                display_path: "/readonly/PCSX2/patches/12345678.pnach".to_string(),
            }],
        }],
    };

    let output = format_advisory_patch_plan(&plan);
    assert!(output.contains("Advisory only: yes (executable: false)"));
    assert!(output.contains("TransportOnly"));
    assert!(output.contains("not signed content"));
    assert!(output.contains("first-seen replay cannot be detected"));
    assert!(output.contains("match confidence: NoMatch"));
    assert!(output.contains("hypothetical PNACH destination (Native, not created)"));
}

#[test]
fn advisory_patch_preview_exact_human_output_for_a_fixed_native_and_flatpak_plan() {
    let output = format_advisory_patch_plan(&golden_two_candidate_plan());
    assert_eq!(
        output,
        [
            "EmuWiz PCSX2 Patch Metadata Preview\n",
            "Advisory only: yes (executable: false)\n",
            "Plan format: 1\n",
            "Plan ID: golden-plan-id\n",
            "Source: Golden PCSX2 metadata\n",
            "Endpoint: https://golden.invalid/endpoint\n",
            "Provenance: golden provenance\n",
            "License: golden license notice\n",
            "Metadata schema: golden-schema-v1\n",
            "Source version: golden-revision\n",
            "Metadata SHA-256: golden-metadata-hash\n",
            "Verification: TransportOnly\n",
            "Verification detail: HTTPS transport verified; downloaded metadata is not signed content\n",
            "Freshness: No authenticated timestamp or monotonic version; first-seen replay cannot be detected\n",
            "\n",
            "PCSX2 candidates: 2\n",
            "  Native: /golden/home/.config/PCSX2 (golden native provenance, confidence: StandardPathCandidate, version: not inspected, mutation readiness: NotEvaluated)\n",
            "  Flatpak: /golden/home/.var/app/net.pcsx2.PCSX2/config/PCSX2 (golden flatpak provenance, confidence: StandardPathCandidate, version: not inspected, mutation readiness: NotEvaluated)\n",
            "\n",
            "Records: 1 | exact: 0 | probable: 0 | uncertain: 0 | ambiguous: 0 | no match: 1\n",
            "\n",
            "patches/GOLD-00001_DEADBEEF.pnach\n",
            "  disposition: AmbiguousInstallationCandidates\n",
            "  match confidence: NoMatch\n",
            "  catalogue archive IDs: []\n",
            "  identity: serial=GOLD-00001 executable_crc=DEADBEEF\n",
            "  reason: no compatible catalogue identity evidence\n",
            "  reason: metadata preview only; no PNACH content was downloaded\n",
            "  reason: multiple standard-path PCSX2 candidates were found; none was selected\n",
            "  hypothetical PNACH destination (Native, not created): /golden/home/.config/PCSX2/patches/GOLD-00001_DEADBEEF.pnach\n",
            "  hypothetical PNACH destination (Flatpak, not created): /golden/home/.var/app/net.pcsx2.PCSX2/config/PCSX2/patches/GOLD-00001_DEADBEEF.pnach\n",
        ]
        .concat()
    );

    let native_index = output.find("Native: /golden").unwrap();
    let flatpak_index = output.find("Flatpak: /golden").unwrap();
    assert!(native_index < flatpak_index);
}

#[test]
fn advisory_preview_without_candidates_says_no_destination_is_available() {
    let mut plan = golden_two_candidate_plan();
    plan.installation_candidates.clear();
    plan.entries[0].hypothetical_destinations.clear();
    plan.entries[0].serial = None;
    plan.entries[0].executable_crc = None;
    plan.entries[0].catalogue_archive_ids = vec![3, -4];
    let output = format_advisory_patch_plan(&plan);
    assert!(output.contains("PCSX2 candidates: 0\n\nRecords: 1"));
    assert!(output.contains("  catalogue archive IDs: [3, -4]\n"));
    assert!(output.contains("  identity: serial=none executable_crc=none\n"));
    assert!(output.ends_with("  hypothetical PNACH destination: unavailable (no PCSX2 candidate)\n"));
}

#[test]
fn id_lists_are_written_like_debug_output() {
    assert_eq!(format_id_list(&Vec::new()), "[]");
    assert_eq!(format_id_list(&vec![7]), "[7]");
    assert_eq!(format_id_list(&vec![1, 22, -333]), "[1, 22, -333]");
}

fn path_destination(derivation: &str, path: &str, parent: Option<bool>, exists: Option<bool>) -> DestinationView {
    DestinationView {
        unsupported: false,
        unsupported_reason: None,
        derivation: derivation.to_string(),
        path: Some(path.to_string()),
        parent_exists: parent,
        destination_exists: exists,
        conflict: false,
    }
}

fn empty_inventory() -> ArtifactInventoryView {
    ArtifactInventoryView {
        format_version: 1,
        complete: true,
        summary: ArtifactSummaryView {
            artifacts_found: 0,
            cheat_files: 0,
            soft_patch_files: 0,
            expected_destinations: 0,
            empty_destinations: 0,
            occupied_destinations: 0,
            duplicate_artifacts: 0,
            conflicting_artifacts: 0,
            orphaned_artifacts: 0,
            ambiguous_artifacts: 0,
            unsupported_artifacts: 0,
        },
        findings: Vec::new(),
        diagnostics: Vec::new(),
    }
}

fn retroarch_advisory_fixture() -> RetroArchAdvisoryPlanView {
    RetroArchAdvisoryPlanView {
        format_version: 1,
        plan_id: "golden-retroarch-plan-id".to_string(),
        executable: false,
        summary: RetroArchAdvisorySummaryView {
            catalogue_archives: 1,
            exact_core_profile_outcomes: 1,
            ambiguous_core_profile_outcomes: 0,
            unsupported_profile_outcomes: 0,
        },
        entries: vec![RetroArchAdvisoryEntryView {
            archive_id: 7,
            display_name: "Chrono Trigger (USA).sfc.zip".to_string(),
            platform: Some("SNES".to_string()),
            content_extension: Some("zip".to_string()),
            soft_patch_candidates: vec![path_destination(
                "content_basename_soft_patch_sibling",
                "/roms/SNES/Chrono Trigger (USA).sfc.ips",
                Some(true),
                Some(false),
            )],
            profile_outcomes: vec![ProfileOutcomeView {
                profile_kind: "Native".to_string(),
                scope: "User".to_string(),
                disposition: "ExactCore".to_string(),
                matched_core_stem: Some("snes9x".to_string()),
                selected_core_source: Some(CoreSelectionSource::ExtensionMatch),
                candidate_core_stems: strings(&["snes9x"]),
                playlist_evidence: Vec::new(),
                cheat_database_root: path_destination(
                    "cheat_database_path_config_key",
                    "/home/golden/.config/retroarch/cheats",
                    None,
                    Some(true),
                ),
                per_game_cheat_file: path_destination(
                    "core_supported_extensions_single_match",
                    "/home/golden/.config/retroarch/cheats/snes9x/Chrono Trigger (USA).sfc.cht",
                    Some(false),
                    Some(false),
                ),
                reasons: strings(&[
                    "exactly one installed core (snes9x) declares this file extension as supported",
                ]),
            }],
        }],
        artifact_inventory: empty_inventory(),
    }
}

#[test]
fn retroarch_advisory_preview_human_output_is_explicitly_read_only_and_advisory() {
    let plan = retroarch_advisory_fixture();
    let output = format_retroarch_advisory_plan(&plan);

    assert!(output.contains("EmuWiz RetroArch Patch/Cheat Preview"));
    assert!(output.contains("Advisory only: yes (executable: false)"));
    assert!(output.contains("Plan ID: golden-retroarch-plan-id"));
    assert!(output.contains(
        "Read-only: yes (no files were created, modified, or deleted; no core was loaded; no network call was made)"
    ));
    assert!(output.contains("Chrono Trigger (USA).sfc.zip (archive id 7)"));
    assert!(output.contains("platform: SNES | content extension: zip"));
    assert!(output.contains("disposition ExactCore"));
    assert!(output.contains("matched core: snes9x"));
    assert!(output.contains("cheat database root (cheat_database_path_config_key, not created)"));
    assert!(output.contains(
        "per-game cheat file (core_supported_extensions_single_match, not created): /home/golden/.config/retroarch/cheats/snes9x/Chrono Trigger (USA).sfc.cht"
    ));
    assert!(output.contains("candidate (content_basename_soft_patch_sibling, not created)"));
    assert!(output.ends_with(
        &[
            "\nExisting artifact inventory (format 1, complete: true):\n",
            "  found: 0 | cheats: 0 | soft patches: 0 | expected: 0 | empty: 0 | occupied: 0\n",
            "  duplicate: 0 | conflicting: 0 | orphaned: 0 | ambiguous: 0 | unsupported: 0\n",
        ]
        .concat()
    ));
}

#[test]
fn retroarch_advisory_preview_unsupported_destination_is_rendered_without_a_fabricated_path() {
    let mut output = String::new();
    format_destination(
        &mut output,
        "per-game cheat file",
        &DestinationView {
            unsupported: true,
            unsupported_reason: Some("multiple_installed_cores_support_extension".to_string()),
            derivation: "unsupported".to_string(),
            path: None,
            parent_exists: None,
            destination_exists: None,
            conflict: false,
        },
    );

    assert_eq!(
        output,
        "    per-game cheat file: unsupported (multiple_installed_cores_support_extension)\n"
    );
}

#[test]
fn retroarch_advisory_preview_exact_profile_block() {
    let output = format_retroarch_advisory_plan(&retroarch_advisory_fixture());
    assert_eq!(
        output,
        [
            "EmuWiz RetroArch Patch/Cheat Preview\n",
            "Advisory only: yes (executable: false)\n",
            "Plan format: 1\n",
            "Plan ID: golden-retroarch-plan-id\n",
            "Read-only: yes (no files were created, modified, or deleted; no core was loaded; no network call was made)\n",
            "\n",
            "Catalogue archives previewed: 1 | exact-core outcomes: 1 | ambiguous-core outcomes: 0 | unsupported outcomes: 0\n",
            "\n",
            "Chrono Trigger (USA).sfc.zip (archive id 7)\n",
            "  platform: SNES | content extension: zip\n",
            "  soft-patch sibling candidates:\n",
            "    candidate (content_basename_soft_patch_sibling, not created): /roms/SNES/Chrono Trigger (USA).sfc.ips\n",
            "      parent exists: true | destination exists: false | conflict: false\n",
            "  profile Native/User: disposition ExactCore\n",
            "    matched core: snes9x (from core file extension)\n",
            "    candidate cores: snes9x\n",
            "    cheat database root (cheat_database_path_config_key, not created): /home/golden/.config/retroarch/cheats\n",
            "      parent exists: n/a | destination exists: true | conflict: false\n",
            "    per-game cheat file (core_supported_extensions_single_match, not created): /home/golden/.config/retroarch/cheats/snes9x/Chrono Trigger (USA).sfc.cht\n",
            "      parent exists: false | destination exists: false | conflict: false\n",
            "    reason: exactly one installed core (snes9x) declares this file extension as supported\n",
            "\n",
            "Existing artifact inventory (format 1, complete: true):\n",
            "  found: 0 | cheats: 0 | soft patches: 0 | expected: 0 | empty: 0 | occupied: 0\n",
            "  duplicate: 0 | conflicting: 0 | orphaned: 0 | ambiguous: 0 | unsupported: 0\n",
        ]
        .concat()
    );
}

#[test]
fn retroarch_advisory_preview_lists_playlist_evidence_and_unknowns() {
    let mut plan = retroarch_advisory_fixture();
    plan.entries[0].platform = None;
    plan.entries[0].content_extension = None;
    plan.entries[0].soft_patch_candidates.clear();
    let outcome = &mut plan.entries[0].profile_outcomes[0];
    outcome.selected_core_source = Some(CoreSelectionSource::PlaylistEvidence);
    outcome.candidate_core_stems = strings(&["snes9x", "bsnes"]);
    outcome.playlist_evidence = vec![
        PlaylistEvidenceView {
            playlist_name: "Nintendo - SNES.lpl".to_string(),
            entry_index: 3,
            entry_label: None,
            confidence: "ExactPath".to_string(),
            database_name: None,
            core_association: "Named(\"snes9x\")".to_string(),
        },
        PlaylistEvidenceView {
            playlist_name: "Favorites.lpl".to_string(),
            entry_index: 12,
            entry_label: Some("Chrono Trigger".to_string()),
            confidence: "SameStem".to_string(),
            database_name: Some("Nintendo - SNES.rdb".to_string()),
            core_association: "Detect".to_string(),
        },
    ];
    let output = format_retroarch_advisory_plan(&plan);
    assert!(output.contains("  platform: unknown | content extension: unknown\n  soft-patch sibling candidates:\n  profile"));
    assert!(output.contains("    matched core: snes9x (from playlist evidence)\n"));
    assert!(output.contains("    candidate cores: snes9x, bsnes\n"));
    assert!(output.contains(
        &[
            "    playlist evidence (2):\n",
            "      Nintendo - SNES.lpl entry 3 ((no label)): confidence ExactPath, database: unknown, core: Named(\"snes9x\")\n",
            "      Favorites.lpl entry 12 (Chrono Trigger): confidence SameStem, database: Nintendo - SNES.rdb, core: Detect\n",
        ]
        .concat()
    ));
}

#[test]
fn artifact_inventory_lists_findings_with_their_evidence() {
    let mut inventory = empty_inventory();
    inventory.complete = false;
    inventory.summary.artifacts_found = 2;
    inventory.summary.cheat_files = 1;
    inventory.summary.orphaned_artifacts = 1;
    inventory.findings = vec![
        ArtifactFindingView {
            artifact_kind: "CheatFile".to_string(),
            path: "/cheats/snes9x/Chrono Trigger (USA).sfc.cht".to_string(),
            size_bytes: Some(2048),
            conflict_state: "Expected".to_string(),
            confidence: "Exact".to_string(),
            catalogue_games: vec![
                CatalogueGameView { display_name: "Chrono Trigger (USA).sfc.zip".to_string(), archive_id: 7 },
                CatalogueGameView { display_name: "Chrono Trigger (Japan).sfc.zip".to_string(), archive_id: 9 },
            ],
            core_stems: strings(&["snes9x"]),
            cheat_summary: Some(CheatSummaryView {
                parsed_cheat_entries: 4,
                declared_cheat_count: Some(5),
                enabled_cheat_entries: 1,
                complete: false,
                description: None,
            }),
            diagnostics: vec![InventoryDiagnosticView {
                code: "declared_count_mismatch".to_string(),
                severity: "Warning".to_string(),
            }],
        },
        ArtifactFindingView {
            artifact_kind: "SoftPatch".to_string(),
            path: "/roms/orphan.ips".to_string(),
            size_bytes: None,
            conflict_state: "Orphaned".to_string(),
            confidence: "None".to_string(),
            catalogue_games: Vec::new(),
            core_stems: Vec::new(),
            cheat_summary: None,
            diagnostics: Vec::new(),
        },
    ];
    inventory.diagnostics = vec![InventoryDiagnosticView {
        code: "directory_unreadable".to_string(),
        severity: "Error".to_string(),
    }];
    let mut output = String::from("before");
    format_retroarch_artifact_inventory(&mut output, &inventory);
    assert_eq!(
        output,
        [
            "before\n",
            "Existing artifact inventory (format 1, complete: false):\n",
            "  found: 2 | cheats: 1 | soft patches: 0 | expected: 0 | empty: 0 | occupied: 0\n",
            "  duplicate: 0 | conflicting: 0 | orphaned: 1 | ambiguous: 0 | unsupported: 0\n",
            "  CheatFile: /cheats/snes9x/Chrono Trigger (USA).sfc.cht (2048 bytes, Expected, confidence Exact)\n",
            "    catalogue games: Chrono Trigger (USA).sfc.zip (7), Chrono Trigger (Japan).sfc.zip (9)\n",
            "    core evidence: snes9x\n",
            "    cheat metadata: entries 4 (declared 5) | enabled 1 | complete false | description unknown\n",
            "    diagnostic: declared_count_mismatch (Warning)\n",
            "  SoftPatch: /roms/orphan.ips (unknown bytes, Orphaned, confidence None)\n",
            "  inventory diagnostic: directory_unreadable (Error)\n",
        ]
        .concat()
    );
}
