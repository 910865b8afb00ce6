use archivefs_cli::game_identity::{
    find_first_wanted, find_primary_evidence, format_game_identity_report, game_identity_report_rows,
    identity_row_key, EvidenceWanted, GameIdentityView, IdentityEvidenceView, IdentityKind, IdentityStatus,
};

fn evidence(kind: IdentityKind, value: Option<&str>, status: IdentityStatus, filename_only: bool, method: &str) -> IdentityEvidenceView {
    IdentityEvidenceView {
        kind,
        kind_label: format!("{kind:?}"),
        value: value.map(str::to_string),
        status,
        status_label: match status {
            IdentityStatus::Verified => "verified".to_string(),
            IdentityStatus::Candidate => "candidate".to_string(),
            IdentityStatus::Other => "header_unreadable".to_string(),
        },
        filename_only,
        confidence_label: if filename_only { "FilenameOnly".to_string() } else { "Structural".to_string() },
        method: method.to_string(),
        diagnostic: "ok".to_string(),
    }
}

fn report(evidence: Vec<IdentityEvidenceView>) -> GameIdentityView {
    GameIdentityView {
        archive_path: "/roms/wii/game.rvz".to_string(),
        platform_label: "Wii".to_string(),
        format_label: "Rvz".to_string(),
        verified_game_id: None,
        verified_disc_number: None,
        verified_revision: None,
        verified_region: None,
        bytes_read: 4096,
        complete: true,
        evidence,
    }
}

fn rows(r: &GameIdentityView) -> Vec<(String, String)> {
    game_identity_report_rows(r).into_iter().map(|(l, v)| (l.to_string(), v)).collect()
}

#[test]
fn verified_evidence_is_preferred_over_an_earlier_filename_candidate() {
    let r = {
        let mut r = report(vec![
            evidence(IdentityKind::DolphinGameId, Some("RMGE01"), IdentityStatus::Candidate, true, "filename"),
            evidence(IdentityKind::DolphinRevision, Some("2"), IdentityStatus::Candidate, false, "outer header"),
            evidence(IdentityKind::DolphinGameId, Some("RMGE01"), IdentityStatus::Verified, false, "disc header"),
        ]);
        r.verified_game_id = Some("RMGE01".to_string());
        r.verified_region = Some("NTSC-U".to_string());
        r
    };
    assert_eq!(find_first_wanted(&r.evidence, EvidenceWanted::VerifiedPrimary), Some(2));
    assert_eq!(find_first_wanted(&r.evidence, EvidenceWanted::ProvenPrimary), Some(2));
    assert_eq!(find_first_wanted(&r.evidence, EvidenceWanted::CandidateRevision), Some(1));
    assert_eq!(find_primary_evidence(&r.evidence), Some(2));
    let expected: Vec<(String, String)> = [
        ("Path", "/roms/wii/game.rvz"),
        ("Platform", "Wii"),
        ("Image format", "Rvz"),
        ("Verified Game ID", "RMGE01"),
        ("Disc number", "unavailable"),
        ("Revision", "2 (candidate)"),
        ("Region", "NTSC-U"),
        ("Provenance", "disc header"),
        ("Bytes read", "4096"),
        ("Failure code", "None"),
        ("Complete", "true"),
    ]
    .iter()
    .map(|(l, v)| (l.to_string(), v.to_string()))
    .collect();
    assert_eq!(rows(&r), expected);
}

#[test]
fn a_filename_candidate_is_never_the_provenance_or_the_failure() {
    let r = report(vec![evidence(IdentityKind::Ps2Serial, Some("SLUS-20062"), IdentityStatus::Candidate, true, "filename")]);
    assert_eq!(find_primary_evidence(&r.evidence), None);
    let got = rows(&r);
    assert_eq!(got[5], ("Revision".to_string(), "unavailable".to_string()));
    assert_eq!(got[7], ("Provenance".to_string(), "unavailable".to_string()));
    assert_eq!(got[9], ("Failure code".to_string(), "None".to_string()));
}

#[test]
fn an_unverified_structural_primary_reports_its_status_as_the_failure() {
    let mut r = report(vec![
        evidence(IdentityKind::Other, Some("x"), IdentityStatus::Verified, false, "other"),
        evidence(IdentityKind::XexTitleId, None, IdentityStatus::Other, false, "xex header"),
    ]);
    r.verified_revision = Some("1".to_string());
    r.complete = false;
    let got = rows(&r);
    assert_eq!(got[5].1, "1");
    assert_eq!(got[7].1, "xex header");
    assert_eq!(got[9].1, "header_unreadable");
    assert_eq!(got[10].1, "false");
}

#[test]
fn a_candidate_revision_without_a_value_is_unavailable() {
    let r = report(vec![
        evidence(IdentityKind::DolphinRevision, None, IdentityStatus::Candidate, false, "outer header"),
        evidence(IdentityKind::DolphinRevision, Some("3"), IdentityStatus::Candidate, false, "outer header"),
    ]);
    assert_eq!(rows(&r)[5].1, "unavailable");
}

#[test]
fn game_identity_report_text_lists_rows_then_evidence() {
    let r = report(vec![evidence(IdentityKind::DolphinGameId, Some("RMGE01"), IdentityStatus::Verified, false, "disc header")]);
    let text = format_game_identity_report(&r);
    assert!(text.starts_with("EmuWiz Game Identity\n\n  Path: /roms/wii/game.rvz\n  Platform: Wii\n"));
    assert!(text.ends_with(
        "  Complete: true\n\nEvidence:\n  DolphinGameId = RMGE01 [verified] (Structural; disc header; ok)\n"
    ));
    let bare = format_game_identity_report(&report(Vec::new()));
    assert!(bare.ends_with("  Failure code: None\n  Complete: true\n"));
}

#[test]
fn identity_row_keys_are_snake_case() {
    assert_eq!(identity_row_key("Verified Game ID"), "verified_game_id");
    assert_eq!(identity_row_key("Bytes read"), "bytes_read");
    assert_eq!(identity_row_key("Path"), "path");
}
