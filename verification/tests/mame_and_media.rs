use archivefs_cli::mame_evidence::{refresh_notice, refresh_summary, run as mame_run, MameRequest, RefreshCounts};
use archivefs_cli::mame_normalise::{dat_sha256_hex, detection_notice, hex_lower, run as normalise_run, CollectionMode, NormaliseRequest};
use archivefs_cli::media_set::{check_json_size, check_record_count, run as media_run, MediaOperation, MediaSetRequest};

fn strings(items: &[&str]) -> Vec<String> {
    items.iter().map(|s| s.to_string()).collect()
}

#[test]
fn mame_evidence_commands() {
    assert_eq!(mame_run(strings(&["evidence", "status"])).unwrap(), MameRequest::Status);
    assert_eq!(
        mame_run(strings(&["evidence", "refresh", "--root", "/mame", "--dat", "m.dat", "--set", "pacman", "--json"])).unwrap(),
        MameRequest::Refresh {
            root: "/mame".to_string(),
            dat: "m.dat".to_string(),
            set: Some("pacman".to_string()),
            json: true,
        }
    );
    assert_eq!(mame_run(vec![]).unwrap_err(), "mame evidence <refresh|status> ...");
    assert_eq!(mame_run(strings(&["evidence"])).unwrap_err(), "mame evidence <refresh|status> ...");
    assert_eq!(mame_run(strings(&["other"])).unwrap_err(), "mame evidence <refresh|status> ...");
    assert_eq!(
        mame_run(strings(&["evidence", "refresh", "--dat", "m.dat"])).unwrap_err(),
        "mame evidence refresh requires --root <path>"
    );
    assert_eq!(
        mame_run(strings(&["evidence", "refresh", "--root", "/m"])).unwrap_err(),
        "mame evidence refresh requires --dat <path>"
    );
    assert_eq!(
        mame_run(strings(&["evidence", "refresh", "--fast"])).unwrap_err(),
        "unknown mame evidence refresh option: --fast"
    );
    // A later option wins, and an option given last has no value.
    assert_eq!(
        mame_run(strings(&["evidence", "refresh", "--root", "/a", "--dat", "d", "--root", "/b"])).unwrap(),
        MameRequest::Refresh { root: "/b".to_string(), dat: "d".to_string(), set: None, json: false }
    );
    assert_eq!(
        mame_run(strings(&["evidence", "refresh", "--dat", "d", "--root", "/a", "--root"])).unwrap_err(),
        "mame evidence refresh requires --root <path>"
    );
}

#[test]
fn mame_evidence_texts() {
    let counts = RefreshCounts {
        sets_published: 3,
        members_seen: 40,
        members_reused: 30,
        members_rehashed: 10,
        members_actionable: 2,
        members_failed: 1,
        cache_rows_published: 39,
    };
    assert_eq!(
        refresh_summary(&counts),
        "published 3 sets; 40 members seen; 30 reused; 10 rehashed; 2 actionable; 1 failed; 39 cache rows published"
    );
    assert_eq!(
        refresh_notice("/mame", &Some("pacman".to_string())),
        "Refreshing MAME member evidence under /mame for family pacman; unchanged members reuse exact path/size/mtime cache rows."
    );
    assert_eq!(
        refresh_notice("/mame", &None),
        "Refreshing MAME member evidence under /mame; unchanged members reuse exact path/size/mtime cache rows."
    );
}

#[test]
fn mame_normalise_arguments() {
    assert_eq!(
        normalise_run(strings(&["preview", "/mame", "m.dat", "non-merged"])).unwrap(),
        NormaliseRequest { root: "/mame".to_string(), dat: "m.dat".to_string(), mode: CollectionMode::NonMerged }
    );
    assert_eq!(normalise_run(strings(&["preview", "/m", "d", "not-sure"])).unwrap().mode, CollectionMode::NotSure);
    assert_eq!(
        normalise_run(strings(&["preview", "/m", "d", "weird"])).unwrap_err(),
        "unknown MAME collection mode: weird"
    );
    assert_eq!(
        normalise_run(strings(&["plan", "/m", "d", "split"])).unwrap_err(),
        "mame-normalise preview <mame-folder> <dat-file> <merged|split|non-merged|not-sure>"
    );
    assert!(normalise_run(strings(&["preview", "/m", "d"])).is_err());
    assert_eq!(
        detection_notice(CollectionMode::Split),
        "Detected MAME collection layout: Split; preview is read-only and still requires user confirmation before mutation."
    );
}

#[test]
fn dat_fingerprint_is_lower_hex_sha256() {
    assert_eq!(hex_lower(&vec![0x00, 0x0f, 0xa0, 0xff]), "000fa0ff");
    assert_eq!(
        dat_sha256_hex(&b"abc".to_vec()),
        "ba7816bf8f01cfea414140de5dae2223b00361a396177a9cb410ff61f20015ad"
    );
    assert_eq!(
        dat_sha256_hex(&Vec::new()),
        "e3b0c44298fc1c149afbf4c8996fb92427ae41e4649b934ca495991b7852b855"
    );
}

#[test]
fn media_set_arguments() {
    assert_eq!(media_run(vec![]).unwrap(), MediaSetRequest::Help);
    assert_eq!(media_run(strings(&["-h", "x"])).unwrap(), MediaSetRequest::Help);
    assert_eq!(media_run(strings(&["burn"])).unwrap_err(), "Unknown media-set command");
    match media_run(strings(&["inspect", "a.cue", "--platform", "PS1", "--max-files", "10", "--no-optical-native", "--json", "b.cue"])).unwrap() {
        MediaSetRequest::Run(options) => {
            assert_eq!(options.operation, MediaOperation::Inspect);
            assert_eq!(options.paths, strings(&["a.cue", "b.cue"]));
            assert_eq!(options.platform, Some("PS1".to_string()));
            assert_eq!(options.max_files, Some(10));
            assert_eq!(options.max_read_bytes, None);
            assert!(!options.native_optical);
        }
        other => panic!("unexpected {other:?}"),
    }
    match media_run(strings(&["plan", "--", "--weird-name", "x"])).unwrap() {
        MediaSetRequest::Run(options) => assert_eq!(options.paths, strings(&["--weird-name", "x"])),
        other => panic!("unexpected {other:?}"),
    }
    assert_eq!(media_run(strings(&["inspect", "--bogus"])).unwrap_err(), "Unknown option --bogus");
    assert_eq!(media_run(strings(&["inspect", "--platform"])).unwrap_err(), "--platform requires a name");
    assert_eq!(media_run(strings(&["inspect", "--max-read-bytes", "lots"])).unwrap_err(), "invalid digit found in string");
    assert_eq!(media_run(strings(&["inspect"])).unwrap_err(), "Supply explicit media paths or --catalogue");
    assert!(media_run(strings(&["inspect", "--catalogue", "c.json"])).is_ok());
    assert_eq!(
        media_run(strings(&["explain", "a", "b"])).unwrap_err(),
        "media-set explain requires exactly one path, optionally with --catalogue"
    );
    assert!(check_record_count(100_000).is_ok());
    assert_eq!(
        check_record_count(100_001).unwrap_err(),
        "Diagnostic input exceeds 100,000 records; use the core API for larger catalogues"
    );
    assert!(check_json_size(128 * 1024 * 1024).is_ok());
    assert_eq!(check_json_size(128 * 1024 * 1024 + 1).unwrap_err(), "Diagnostic JSON exceeds 128 MiB");
}
