use archivefs_cli::cheat_catalogue::{
    format_cheat_availability_report, AvailabilityEntryView, AvailabilitySummaryView, CatalogueDiagnosticView,
    CheatAvailabilityView, MatchCandidateView, MatchEvidenceView,
};
use archivefs_cli::dat_audit::{
    format_audit_text, AuditDatView, AuditEntryView, AuditSummary, IndexStats, VerdictDetail,
};

fn dat() -> AuditDatView {
    AuditDatView {
        file_path: "/dats/snes.dat".to_string(),
        entry_count: 2,
        rom_count: 3,
        format_label: "Logiqx".to_string(),
        ecosystem_label: "No-Intro".to_string(),
        name: Some("Nintendo - SNES".to_string()),
    }
}

fn index() -> IndexStats {
    IndexStats {
        crc32: 3,
        crc32_collisions: 0,
        md5: 3,
        md5_collisions: 1,
        sha1: 2,
        sha1_collisions: 0,
        sha256: 0,
        sha256_collisions: 0,
    }
}

fn summary(total: u64, exact: u64, not_in_dat: u64) -> AuditSummary {
    AuditSummary {
        total,
        exact,
        exact_multiple: 0,
        probable: 0,
        probable_multiple: 0,
        filename_only: 0,
        ambiguous: 0,
        not_in_dat,
        no_evidence: 0,
    }
}

#[test]
fn audit_text_without_files_is_the_head_and_zero_counts() {
    let text = format_audit_text(&dat(), &index(), false, &summary(0, 0, 0), &Vec::new());
    assert_eq!(
        text,
        [
            "DAT Audit: /dats/snes.dat\n",
            "DAT: 2 entries, 3 ROMs (Logiqx format, No-Intro ecosystem)\n",
            "DAT name: Nintendo - SNES\n",
            "\n",
            "Index: CRC32=3 (0 collisions), MD5=3 (1 collisions), SHA-1=2 (0 collisions), SHA-256=0 (0 collisions)\n",
            "\n",
            "Audited: 0 files (by name)\n",
            "  Exact:       0\n",
            "  Exact (mult): 0\n",
            "  Probable:    0\n",
            "  Probable (mult): 0\n",
            "  Filename:    0\n",
            "  Ambiguous:   0\n",
            "  Not in DAT:  0\n",
            "  No evidence: 0\n",
        ]
        .concat()
    );
}

#[test]
fn audit_text_with_named_files_warns_and_lists_each_verdict() {
    let mut unnamed = dat();
    unnamed.name = None;
    let entries = vec![
        AuditEntryView {
            label: "Exact".to_string(),
            local_filename: "Game (USA).sfc".to_string(),
            detail: VerdictDetail::Exact { game_name: "Game (USA)".to_string(), algorithm: "SHA-1".to_string() },
        },
        AuditEntryView {
            label: "Ambiguous".to_string(),
            local_filename: "Twin.sfc".to_string(),
            detail: VerdictDetail::Candidates { count: 2 },
        },
        AuditEntryView {
            label: "Filename".to_string(),
            local_filename: "Other.sfc".to_string(),
            detail: VerdictDetail::Game { game_name: "Other".to_string() },
        },
        AuditEntryView {
            label: "NotInDat".to_string(),
            local_filename: "Homebrew.sfc".to_string(),
            detail: VerdictDetail::Nothing,
        },
    ];
    let text = format_audit_text(&unnamed, &index(), true, &summary(4, 1, 1), &entries);
    assert!(!text.contains("DAT name:"));
    assert!(text.contains(
        "\nNote: --file compares names only. No file is opened, read or hashed,\n      so a match here says a name is in the DAT - not that this file is.\n\nAudited: 4 files (by name)\n"
    ));
    assert!(text.ends_with(
        &[
            "  No evidence: 0\n",
            "\n",
            "Details:\n",
            "  [Exact] Game (USA).sfc -> Game (USA) [SHA-1]\n",
            "  [Ambiguous] Twin.sfc -> 2 candidates\n",
            "  [Filename] Other.sfc -> Other\n",
            "  [NotInDat] Homebrew.sfc\n",
        ]
        .concat()
    ));
}

fn availability_entry() -> AvailabilityEntryView {
    AvailabilityEntryView {
        source_game_name: "Chrono Trigger (USA)".to_string(),
        format: "RetroArchCht".to_string(),
        cheat_count: 12,
        enabled_by_default_count: 0,
        source_file_path: "cht/Nintendo - SNES/Chrono Trigger (USA).cht".to_string(),
        parsing_complete: true,
        match_confidence: "Exact".to_string(),
        evidence: vec![MatchEvidenceView { tier: "NormalizedTitle".to_string(), detail: "title equal".to_string() }],
        candidates: Vec::new(),
        installed_state: "NotInstalled".to_string(),
        installed_state_detail: Vec::new(),
        staging_candidate: true,
        planned_action: "Stage".to_string(),
        staging_reason: "no file at the destination".to_string(),
        proposed_destination_path: Some("/cheats/Snes9x/Chrono Trigger (USA).cht".to_string()),
        existing_destination_hash: None,
        destructive_if_applied: false,
    }
}

fn availability_report() -> CheatAvailabilityView {
    CheatAvailabilityView {
        format_version: "1".to_string(),
        source_name: "libretro-database".to_string(),
        source_root: "/data/libretro-database".to_string(),
        complete: true,
        summary: AvailabilitySummaryView {
            games_in_catalogue: 1,
            exact_matches: 1,
            strong_matches: 0,
            weak_matches: 0,
            ambiguous_matches: 0,
            unsupported_matches: 0,
            not_installed: 1,
            already_installed: 0,
            conflicts: 0,
            staging_candidates: 1,
        },
        entries: vec![availability_entry()],
        diagnostics: Vec::new(),
    }
}

#[test]
fn cheat_availability_report_exact_text_for_one_game() {
    assert_eq!(
        format_cheat_availability_report(&availability_report()),
        [
            "EmuWiz RetroArch Cheat Catalogue Preview\n",
            "Report format: 1\n",
            "Read-only: yes (no cheat was downloaded, installed, enabled, or copied; no core was loaded; no network call was made)\n",
            "Source: libretro-database (/data/libretro-database)\n",
            "Complete: true\n",
            "Games in catalogue: 1 | exact: 1 | strong: 0 | weak: 0 | ambiguous: 0 | unsupported: 0\n",
            "Not installed: 1 | already installed: 0 | conflicts: 0 | staging candidates: 1\n",
            "\n",
            "Chrono Trigger (USA) (RetroArchCht, 12 cheats, 0 enabled by default)\n",
            "  source file: cht/Nintendo - SNES/Chrono Trigger (USA).cht\n",
            "  match: Exact | installed state: NotInstalled | staging candidate: true\n",
            "  staging: Stage (no file at the destination)\n",
            "    proposed destination: /cheats/Snes9x/Chrono Trigger (USA).cht\n",
            "    evidence: NormalizedTitle - title equal\n",
        ]
        .concat()
    );
}

#[test]
fn cheat_availability_report_shows_candidates_details_and_diagnostics() {
    let mut report = availability_report();
    report.complete = false;
    let entry = &mut report.entries[0];
    entry.match_confidence = "Ambiguous".to_string();
    entry.evidence.clear();
    entry.candidates = vec![
        MatchCandidateView { display_name: "Chrono Trigger (USA).zip".to_string(), archive_id: 4 },
        MatchCandidateView { display_name: "Chrono Trigger (USA) [h].zip".to_string(), archive_id: 11 },
    ];
    entry.installed_state_detail = vec!["different content at destination".to_string()];
    entry.existing_destination_hash = Some("abc123".to_string());
    entry.destructive_if_applied = true;
    entry.parsing_complete = false;
    report.diagnostics = vec![
        CatalogueDiagnosticView {
            code: "unreadable_file".to_string(),
            severity: "Warning".to_string(),
            path: Some("cht/broken.cht".to_string()),
        },
        CatalogueDiagnosticView { code: "truncated".to_string(), severity: "Info".to_string(), path: None },
    ];
    let text = format_cheat_availability_report(&report);
    assert!(text.contains("Complete: false\n"));
    assert!(text.contains("  staging: Stage (no file at the destination) [destructive if ever applied]\n"));
    assert!(text.ends_with(
        &[
            "    proposed destination: /cheats/Snes9x/Chrono Trigger (USA).cht\n",
            "    existing destination hash: abc123\n",
            "    candidates: Chrono Trigger (USA).zip (4), Chrono Trigger (USA) [h].zip (11)\n",
            "    installed state: different content at destination\n",
            "    parsing diagnostics present (bounded metadata incomplete)\n",
            "\n",
            "Catalogue diagnostics:\n",
            "  unreadable_file (Warning) - cht/broken.cht\n",
            "  truncated (Info)\n",
        ]
        .concat()
    ));
}
