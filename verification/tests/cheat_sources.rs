use archivefs_cli::bsfree::PageArgs;
use archivefs_cli::cheat_reconcile::{
    check_input_size, format_reconcile_report, parse_relationship, relationship_label, relationship_name, run as reconcile_run,
    take_named, ReconcileEntry, ReconcileGroup, ReconcileRequest, Relationship, MAX_INPUT_BYTES,
};
use archivefs_cli::cheatbase::{run, CheatBaseRequest};

fn strings(items: &[&str]) -> Vec<String> {
    items.iter().map(|s| s.to_string()).collect()
}

#[test]
fn relationship_filter_names_are_stable() {
    assert_eq!(relationship_name(Relationship::ExactRawDuplicate), "ExactRawDuplicate");
    assert!(parse_relationship("conflicts").is_ok());
    assert!(parse_relationship("nope").is_err());
}

#[test]
fn relationship_aliases_ignore_ascii_case() {
    assert_eq!(parse_relationship("DUPLICATES").unwrap(), Relationship::ExactSemanticDuplicate);
    assert_eq!(parse_relationship("exact").unwrap(), Relationship::ExactSemanticDuplicate);
    assert_eq!(parse_relationship("Raw-Duplicates").unwrap(), Relationship::ExactRawDuplicate);
    assert_eq!(parse_relationship("same-title-different-code").unwrap(), Relationship::SameTitleDifferentCode);
    assert_eq!(parse_relationship("related-unproven").unwrap(), Relationship::RelatedUnproven);
    assert_eq!(parse_relationship("Unique").unwrap(), Relationship::Unique);
    assert_eq!(
        parse_relationship("nope").unwrap_err(),
        "unknown relationship \"nope\"; expected duplicates, conflicts, related, or unique"
    );
    assert_eq!(relationship_label(Relationship::SameTitleDifferentCode), "Conflict: same title, different code");
}

#[test]
fn reconcile_arguments() {
    assert_eq!(
        reconcile_run(strings(&["--json", "entries.json"])).unwrap(),
        ReconcileRequest { json: true, relationship: None, input: "entries.json".to_string() }
    );
    assert_eq!(
        reconcile_run(strings(&["--input", "e.json", "--relationship", "unique", "e.json"])).unwrap(),
        ReconcileRequest { json: false, relationship: Some("unique".to_string()), input: "e.json".to_string() }
    );
    assert_eq!(
        reconcile_run(vec![]).unwrap_err(),
        "cheats reconcile requires <entries.json> (or --input <path>)"
    );
    assert_eq!(
        reconcile_run(strings(&["a.json", "b.json"])).unwrap_err(),
        "cheats reconcile does not accept [\"a.json\", \"b.json\"]"
    );
    assert_eq!(reconcile_run(strings(&["x", "--relationship"])).unwrap_err(), "--relationship requires a value");
    let mut args = strings(&["--input", "p", "q"]);
    assert_eq!(take_named(&mut args, "--input").unwrap(), Some("p".to_string()));
    assert_eq!(args, strings(&["q"]));
}

#[test]
fn reconcile_input_bound() {
    assert_eq!(MAX_INPUT_BYTES, 16 * 1024 * 1024);
    assert!(check_input_size(MAX_INPUT_BYTES).is_ok());
    assert_eq!(check_input_size(MAX_INPUT_BYTES + 1).unwrap_err(), "reconciliation input exceeds the 16 MiB bound");
}

fn entry(title: &str, source: &str, provenance: &[&str]) -> ReconcileEntry {
    ReconcileEntry { title: title.to_string(), source: source.to_string(), provenance: strings(provenance) }
}

#[test]
fn reconcile_report_counts_every_group_and_filters_the_listing() {
    let entries = vec![
        entry("Infinite Lives", "BSFree", &["bsfree #1"]),
        entry("Infinite lives", "CheatBase", &[]),
        entry("Max Money", "BSFree", &["bsfree #2", "page 3"]),
    ];
    let groups = vec![
        ReconcileGroup {
            relationship: Relationship::ExactSemanticDuplicate,
            normalized_title: "infinite lives".to_string(),
            entry_indices: vec![0, 1],
            differences: vec![],
        },
        ReconcileGroup {
            relationship: Relationship::Unique,
            normalized_title: "max money".to_string(),
            entry_indices: vec![2, 9],
            differences: strings(&["only one source"]),
        },
        ReconcileGroup {
            relationship: Relationship::ExactRawDuplicate,
            normalized_title: "ghost".to_string(),
            entry_indices: vec![7],
            differences: vec![],
        },
    ];
    let all = format_reconcile_report("Game X", "GameCube", &entries, &groups, None);
    assert_eq!(
        all,
        [
            "Game: Game X\nPlatform: GameCube\n\n",
            "Exact duplicates: 2 groups\nConflicts: 0\nRelated/unproven: 0\nUnique: 1\n\nNo auto-winner.\n",
            "\nInfinite Lives\n  Exact semantic duplicate\n  Sources:\n    - BSFree\n      bsfree #1\n    - CheatBase\n",
            "\nMax Money\n  Unique\n  Difference: only one source\n  Sources:\n    - BSFree\n      bsfree #2\n      page 3\n",
            "\nghost\n  Exact raw duplicate\n  Sources:\n",
        ].concat()
    );
    let unique_only = format_reconcile_report("Game X", "GameCube", &entries, &groups, Some(Relationship::Unique));
    assert!(unique_only.contains("Exact duplicates: 2 groups"), "{unique_only}");
    assert!(unique_only.contains("\nMax Money\n"), "{unique_only}");
    assert!(!unique_only.contains("Infinite Lives"), "{unique_only}");
}

#[test]
fn cheatbase_commands() {
    let line = run(strings(&["--root", "/cb", "--json", "lookup-hash", "--algorithm", "sha1", "--hash", "abc"])).unwrap();
    assert!(line.json);
    assert_eq!(line.root, Some("/cb".to_string()));
    assert_eq!(
        line.request,
        CheatBaseRequest::LookupHash {
            algorithm: "sha1".to_string(),
            hash: "abc".to_string(),
            platform: None,
            page: PageArgs { offset: 0, limit: None },
        }
    );
    assert_eq!(run(strings(&["lookup-hash", "--hash", "abc"])).unwrap_err(), "lookup-hash requires --algorithm");
    assert_eq!(run(strings(&["lookup-hash", "--algorithm", "md5"])).unwrap_err(), "lookup-hash requires --hash");
    assert_eq!(run(strings(&["lookup-serial", "--serial", "S"])).unwrap_err(), "lookup-serial requires --platform");
    assert_eq!(run(vec![]).unwrap_err(), "cheats source cheatbase requires a command");
    assert_eq!(run(strings(&["import-local", "a", "b"])).unwrap_err(), "import-local requires exactly one SQLite path");
    assert_eq!(run(strings(&["validate", "x"])).unwrap_err(), "CheatBase validate does not accept [\"x\"]");
    assert_eq!(run(strings(&["nope"])).unwrap_err(), "unknown CheatBase command \"nope\"");
    assert_eq!(run(strings(&["game"])).unwrap_err(), "game requires an upstream release ID");
    assert_eq!(
        run(strings(&["game", "77", "--limit", "5"])).unwrap().request,
        CheatBaseRequest::Game { release_id: 77, page: PageArgs { offset: 0, limit: Some(5) } }
    );
    assert_eq!(
        run(strings(&["remove", "--confirm"])).unwrap().request,
        CheatBaseRequest::Remove { confirmed: true }
    );
    assert_eq!(run(strings(&["disable"])).unwrap().request, CheatBaseRequest::SetEnabled { enabled: false });
    assert_eq!(
        run(strings(&["search", "--release-id", "x"])).unwrap_err(),
        "invalid digit found in string"
    );
}
