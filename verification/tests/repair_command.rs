use archivefs_cli::repair::{
    classify_transaction_kind, file_name, file_stem, is_quarantine_path, run, slug, take_u64_value, RepairCommand,
    TransactionKind,
};
use archivefs_cli::repair_report::{
    format_report, EvidenceKind, PathReason, ProposalView, RepairCounts, RepairPlanView, SetReason,
};

fn strings(items: &[&str]) -> Vec<String> {
    items.iter().map(|s| s.to_string()).collect()
}

#[test]
fn repair_sub_commands() {
    assert_eq!(run(vec![]).unwrap_err(), "repair requires a sub-command: scan | plan | apply | history | rollback");
    assert_eq!(
        run(strings(&["fix"])).unwrap_err(),
        "unknown repair sub-command 'fix' (expected scan, plan, apply, history, or rollback)"
    );
    assert_eq!(
        run(strings(&["scan", "--root", "/roms", "--dat", "n.dat", "--json"])).unwrap(),
        RepairCommand::Scan {
            json: true,
            root: "/roms".to_string(),
            dat: "n.dat".to_string(),
            source_id: None,
            profile: None,
            plan_out: None,
        }
    );
    assert_eq!(run(strings(&["scan", "--dat", "n.dat"])).unwrap_err(), "repair scan requires --root <library directory>");
    assert_eq!(run(strings(&["plan", "--plan", "p.json"])).unwrap(), RepairCommand::Plan { json: false, plan: "p.json".to_string() });
    match run(strings(&[
        "apply", "--plan", "p", "--root", "r", "--dat", "d", "--generation", "7", "--proposal-id", "a", "--proposal-id", "b",
    ]))
    .unwrap()
    {
        RepairCommand::Apply { generation, proposal_ids, journal_dir, .. } => {
            assert_eq!(generation, 7);
            assert_eq!(proposal_ids, strings(&["a", "b"]));
            assert_eq!(journal_dir, None);
        }
        other => panic!("unexpected {other:?}"),
    }
    assert_eq!(
        run(strings(&["history", "--limit", "x"])).unwrap_err(),
        "--limit value 'x' is not a valid number"
    );
    assert_eq!(
        run(strings(&["history", "--limit", "3", "--json"])).unwrap(),
        RepairCommand::History { json: true, journal_dir: None, limit: Some(3) }
    );
    assert_eq!(
        run(strings(&["rollback", "--transaction", "t1"])).unwrap_err(),
        "repair rollback requires --journal-dir <path>"
    );
    assert!(run(strings(&["plan", "--plan", "p", "extra"])).unwrap_err().contains("does not accept"));
    let mut args = strings(&["--generation", "12"]);
    assert_eq!(take_u64_value(&mut args, "--generation").unwrap(), Some(12));
}

#[test]
fn slug_is_a_short_safe_source_id() {
    assert_eq!(slug("/dats/Nintendo - Game Boy (20240101).dat"), "nintendo-game-boy-20240101");
    assert_eq!(slug("/dats/---.dat"), "dat");
    assert_eq!(slug(""), "dat");
    assert_eq!(slug("/dats/ABC__x.y.dat"), "abc-x-y");
    assert_eq!(file_name("/a/b/c.dat"), Some("c.dat".to_string()));
    assert_eq!(file_stem("/a/b/c.tar.gz"), Some("c.tar".to_string()));
    assert_eq!(file_stem("/a/b/.hidden"), Some(".hidden".to_string()));
}

#[test]
fn transactions_are_classified_by_destination() {
    assert!(is_quarantine_path("/roms/.emuwiz-quarantine/x.bin"));
    assert!(!is_quarantine_path("/roms/x.emuwiz-quarantine"));
    assert_eq!(
        classify_transaction_kind(&strings(&["/roms/.emuwiz-quarantine/a", "/r/.emuwiz-quarantine/b"])),
        TransactionKind::DuplicateQuarantine
    );
    assert_eq!(classify_transaction_kind(&strings(&["/roms/a", "/roms/b"])), TransactionKind::MoveRename);
    assert_eq!(classify_transaction_kind(&strings(&["/roms/a", "/roms/.emuwiz-quarantine/b"])), TransactionKind::Unknown);
    assert_eq!(classify_transaction_kind(&vec![]), TransactionKind::Unknown);
    assert_eq!(TransactionKind::DuplicateQuarantine.label(), "Duplicate quarantine");
    assert_eq!(TransactionKind::MoveRename.json_tag(), "move_rename");
}

fn counts() -> RepairCounts {
    RepairCounts {
        dat_candidates: 4,
        ignored_ancillary: 2,
        complete_sets: 1,
        incomplete_sets: 1,
        bad_metadata_sets: 0,
        needs_review_sets: 0,
        already_canonical: 1,
        safe_repairs: 1,
        unmatched_candidates: 0,
        needs_review: 1,
        blocked_repair: 0,
        unsupported: 0,
        scan_errors: 0,
        duplicate_groups_examined: 1,
        duplicate_groups_content_proven: 1,
        duplicate_quarantine_safe: 1,
        duplicate_quarantine_needs_review: 0,
        duplicate_same_object_ignored: 0,
        duplicate_content_mismatch_refused: 0,
    }
}

#[test]
fn repair_report_separates_renames_from_quarantines() {
    let plan = RepairPlanView {
        profile: "dat-rename".to_string(),
        source_display_name: "Nintendo".to_string(),
        source_id: "nintendo".to_string(),
        scan_root: "/roms".to_string(),
        generation: 3,
        truncated: false,
        files_scanned: 6,
        counts: counts(),
        ignored_by_extension: vec![("nfo".to_string(), 2)],
        proposals: vec![
            ProposalView {
                id: "p1".to_string(),
                source_path: "/roms/zelda.bin".to_string(),
                destination: Some("/roms/Zelda (USA).bin".to_string()),
                survivor_path: None,
                is_duplicate_quarantine: false,
                safety_label: "safe".to_string(),
                reason: "matches the DAT".to_string(),
                evidence: vec![EvidenceKind::Other],
            },
            ProposalView {
                id: "p2".to_string(),
                source_path: "/roms/redundant-copy.bin".to_string(),
                destination: Some("/roms/.emuwiz-quarantine/redundant-copy.bin".to_string()),
                survivor_path: Some("/roms/canon.bin".to_string()),
                is_duplicate_quarantine: true,
                safety_label: "safe".to_string(),
                reason: "same content".to_string(),
                evidence: vec![EvidenceKind::Other, EvidenceKind::DuplicateContent],
            },
        ],
        needs_review: vec![PathReason { path: "/roms/odd.bin".to_string(), reason: "two candidates".to_string() }],
        blocked: vec![],
        unsupported: vec![],
        duplicate_needs_review: vec![],
        complete_sets: strings(&["Zelda (USA)"]),
        incomplete_sets: vec![SetReason { game_name: "Mario".to_string(), reason: "1 of 2 ROMs".to_string() }],
        bad_metadata_sets: vec![],
        needs_review_sets: vec![],
        scan_errors: vec![],
    };
    let report = format_report(&plan);
    assert!(report.starts_with(&[
        "Whole-Library Repair Scan\n  Profile: dat-rename\n  Source: Nintendo (nintendo)\n  Scan root: /roms\n",
        "  Generation: 3\n  Truncated: no\n\n  Files encountered:   6\n  DAT candidates:      4\n",
        "  Ignored ancillary:   2\n    by extension:\n      nfo: 2\n\nCounts:\n"
    ].concat()), "{report}");
    assert!(report.contains("SAFE\n/roms/zelda.bin -> /roms/Zelda (USA).bin\n  Reason: matches the DAT\nSAFE DUPLICATE QUARANTINE\n"), "{report}");
    assert!(report.contains(&[
        "/roms/redundant-copy.bin [id p2]\n  Destination: /roms/.emuwiz-quarantine/redundant-copy.bin\n",
        "  Survivor: /roms/canon.bin\n  Safety: safe\n  DuplicateContent evidence: yes\n  Reason: same content\n"
    ].concat()), "{report}");
    assert!(report.contains("NEEDS REVIEW\n/roms/odd.bin\n  Reason: two candidates\nBLOCKED\nUNSUPPORTED\nDUPLICATE NEEDS REVIEW\n"), "{report}");
    assert!(report.ends_with("COMPLETE SETS\nZelda (USA)\nINCOMPLETE SETS\nMario: 1 of 2 ROMs\nBAD METADATA SETS\nNEEDS REVIEW SETS\nSCAN ERRORS\n  none\n"), "{report}");
    assert_eq!(report.matches("[id p2]").count(), 1);
    assert!(!report.contains("/roms/zelda.bin [id"), "{report}");
}
