use archivefs_cli::dat::{
    inspect_text, is_valid, json_errors, partition_diagnostics, run, validate_text, validation_errors, ChecksumView,
    DatCommand, DatView, Diagnostic, GameView, RomView, Severity,
};

fn strings(items: &[&str]) -> Vec<String> {
    items.iter().map(|s| s.to_string()).collect()
}

fn diagnostic(severity: Severity, text: &str) -> Diagnostic {
    Diagnostic { severity, text: text.to_string() }
}

fn rom(name: &str, crc: Option<&str>, sha1: Option<&str>) -> RomView {
    let mut checksums = Vec::new();
    if let Some(value) = crc {
        checksums.push(ChecksumView { label: "CRC32".to_string(), value: value.to_string() });
    }
    if let Some(value) = sha1 {
        checksums.push(ChecksumView { label: "SHA-1".to_string(), value: value.to_string() });
    }
    RomView {
        name: name.to_string(),
        size_bytes: Some(16),
        checksums,
        has_crc32: crc.is_some(),
        has_md5: false,
        has_sha1: sha1.is_some(),
        has_sha256: false,
    }
}

fn sample_dat(games: Vec<GameView>) -> DatView {
    let rom_count = games.iter().map(|g| g.roms.len() as u64).sum();
    DatView {
        file_path: "/dats/test.dat".to_string(),
        format_label: "Logiqx XML".to_string(),
        ecosystem_label: "TOSEC".to_string(),
        name: Some("Test TOSEC Set".to_string()),
        description: None,
        version: Some("2026-01-01".to_string()),
        author: None,
        entry_count: games.len() as u64,
        rom_count,
        games,
    }
}

#[test]
fn inspect_empty_args_errors() {
    assert!(run(vec![]).is_err());
}

#[test]
fn inspect_unknown_subcommand_errors() {
    assert!(run(vec!["unknown".into()]).is_err());
}

#[test]
fn dat_run_reads_each_sub_command() {
    assert_eq!(
        run(strings(&["inspect", "a.dat", "--json"])).unwrap(),
        DatCommand::Inspect { json: true, path: "a.dat".to_string() }
    );
    assert_eq!(
        run(strings(&["validate", "a.dat"])).unwrap(),
        DatCommand::Validate { json: false, path: "a.dat".to_string() }
    );
    assert_eq!(
        run(strings(&["audit", "a.dat", "--file", "x.bin", "--file", "y.bin"])).unwrap(),
        DatCommand::Audit { json: false, path: "a.dat".to_string(), files: strings(&["x.bin", "y.bin"]) }
    );
    assert!(run(strings(&["inspect"])).is_err());
    assert!(run(strings(&["inspect", "a.dat", "extra"])).unwrap_err().contains("does not accept"));
}

#[test]
fn partition_keeps_each_diagnostic_in_exactly_one_list() {
    let diagnostics = vec![
        diagnostic(Severity::Note, "note one"),
        diagnostic(Severity::Warning, "warn one"),
        diagnostic(Severity::Error, "error one"),
        diagnostic(Severity::Warning, "warn two"),
    ];
    let (errors, warnings, notes) = partition_diagnostics(&diagnostics);
    assert_eq!(errors, vec![diagnostic(Severity::Error, "error one")]);
    assert_eq!(warnings, vec![diagnostic(Severity::Warning, "warn one"), diagnostic(Severity::Warning, "warn two")]);
    assert_eq!(notes, vec![diagnostic(Severity::Note, "note one")]);
    assert_eq!(errors.len() + warnings.len() + notes.len(), diagnostics.len());
}

#[test]
fn validate_note_only_dat_shows_parser_notes_and_no_warnings_section() {
    let dat = sample_dat(vec![GameView { name: "Game 0".to_string(), roms: vec![rom("g0.bin", Some("00000000"), None)] }]);
    let diagnostics = vec![diagnostic(Severity::Note, "the Logiqx DTD is not fetched")];
    let text = validate_text(&dat, &diagnostics, &vec![]);
    assert!(text.contains("Valid:     yes"), "{text}");
    assert!(!text.contains("Warnings:"), "{text}");
    assert!(text.contains("Parser notes:\n  - the Logiqx DTD is not fetched\n"), "{text}");
    assert!(text.contains("Hash coverage (1 ROMs):\n  CRC32:   1\n  MD5:     0\n  SHA-1:   0\n  SHA-256: 0\n"), "{text}");
}

#[test]
fn validate_a_real_warning_keeps_its_section_and_errors_invalidate() {
    let dat = sample_dat(vec![GameView { name: "G".to_string(), roms: vec![rom("a.bin", None, None)] }]);
    let diagnostics = vec![diagnostic(Severity::Warning, "dropped crc not-a-checksum")];
    let text = validate_text(&dat, &diagnostics, &vec![]);
    assert!(text.contains("Valid:     yes"), "{text}");
    assert!(text.contains("Warnings:\n  - dropped crc not-a-checksum\n"), "{text}");
    assert!(!text.contains("Parser notes:"), "{text}");

    let with_error = vec![diagnostic(Severity::Warning, "w"), diagnostic(Severity::Error, "synthetic error diagnostic")];
    assert!(!is_valid(&vec![], &with_error));
    let errors = json_errors(&vec!["bad file".to_string()], &with_error);
    assert_eq!(errors, strings(&["bad file", "synthetic error diagnostic"]));
    let text = validate_text(&dat, &with_error, &vec![]);
    assert!(text.contains("Valid:     no\nErrors:\n  - synthetic error diagnostic\n"), "{text}");
    assert!(text.contains("Warnings:\n  - w\n"), "{text}");
}

#[test]
fn inspect_text_lists_header_counts_and_games() {
    let dat = sample_dat(vec![GameView {
        name: "Game 0".to_string(),
        roms: vec![rom("g0.bin", Some("0000abcd"), Some("da39a3ee"))],
    }]);
    let text = inspect_text(&dat, &vec![diagnostic(Severity::Note, "n")]);
    assert!(text.starts_with("DAT File: /dats/test.dat\nFormat:   Logiqx XML\nEcosystem: TOSEC\nName:     Test TOSEC Set\nVersion:  2026-01-01\nEntries:  1\nROMs:     1\n"), "{text}");
    assert!(!text.contains("Warnings:"), "{text}");
    assert!(text.contains("Parser notes:\n  - n\n"), "{text}");
    assert!(text.contains("Game 0"), "{text}");
    assert!(text.contains("CRC32: 0000abcd, SHA-1: da39a3ee"), "{text}");
}

#[test]
fn an_empty_logiqx_dat_is_a_validation_error() {
    let empty = sample_dat(vec![]);
    assert_eq!(validation_errors(&empty), strings(&["file parsed but contains no game entries"]));
    let mut other = sample_dat(vec![]);
    other.format_label = "ClrMamePro".to_string();
    assert!(validation_errors(&other).is_empty());
}
