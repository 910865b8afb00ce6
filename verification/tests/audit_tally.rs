use archivefs_cli::audit_tally::{
    finish_audit, limit_reached, milestone_platforms, new_audit_tally, rank_order, ranked, record_directory,
    record_file, record_unread_symlink, tally_has, DetectionConfidence, DiskFormatOutcome,
    DiskFormatResult, FileObservation, SymlinkRead,
};
use archivefs_cli::platform_audit::{format_platform_audit, CountRow};

fn obs(path: &str, ext: Option<&str>, before: Option<&str>, after: Option<&str>, confidence: DetectionConfidence) -> FileObservation {
    FileObservation {
        path: path.to_string(),
        extension: ext.map(str::to_string),
        before: before.map(str::to_string),
        detected_platform: after.map(str::to_string),
        confidence,
        confidence_label: format!("{confidence:?}"),
        first_evidence_detail: after.map(|p| format!("{p} evidence")),
        ambiguity_reason: None,
        symlink: None,
        disk_format: None,
    }
}

fn row(name: &str, count: u64) -> CountRow {
    CountRow { name: name.to_string(), count }
}

#[test]
fn tallies_count_each_name_once() {
    let mut t = new_audit_tally();
    for name in ["b", "a", "b", "c", "b", "a"] {
        record_file(&mut t, &obs("/roms/x", None, None, Some(name), DetectionConfidence::Confirmed));
    }
    assert_eq!(t.platform_counts, vec![row("b", 3), row("a", 2), row("c", 1)]);
    assert!(tally_has(&t.platform_counts, "c"));
    assert!(!tally_has(&t.platform_counts, "d"));
}

#[test]
fn ranking_puts_larger_counts_first_then_names_in_order() {
    let rows = vec![row("zeta", 2), row("alpha", 1), row("beta", 2), row("Gamma", 2)];
    assert_eq!(rank_order(&rows), vec![3, 2, 0, 1]);
    assert_eq!(ranked(&rows), vec![row("Gamma", 2), row("beta", 2), row("zeta", 2), row("alpha", 1)]);
    assert_eq!(ranked(&Vec::new()), Vec::<CountRow>::new());
}

#[test]
fn an_audit_walk_is_tallied_and_reported() {
    let mut t = new_audit_tally();
    assert!(!limit_reached(&t, Some(1)));
    assert!(!limit_reached(&t, None));
    record_directory(&mut t);
    record_file(&mut t, &obs("/roms/a.sfc", Some("sfc"), Some("SNES"), Some("SNES"), DetectionConfidence::Confirmed));
    record_file(&mut t, &obs("/roms/b.gen", Some("gen"), Some("MegaDrive"), Some("PCEngine"), DetectionConfidence::Probable));
    record_file(&mut t, &obs("/roms/c.bin", Some("bin"), None, None, DetectionConfidence::Unknown));
    let mut new_one = obs("/roms/d.sfc", Some("sfc"), None, Some("SNES"), DetectionConfidence::Ambiguous);
    new_one.ambiguity_reason = Some("two headers".to_string());
    new_one.symlink = Some(SymlinkRead::Read { signature_evidence: true });
    record_file(&mut t, &new_one);
    let mut disk = obs("/roms/e.st", Some("st"), None, Some("AtariST"), DetectionConfidence::Confirmed);
    disk.disk_format = Some(DiskFormatOutcome { bytes_inspected: 512, result: DiskFormatResult::Valid });
    disk.symlink = Some(SymlinkRead::Refused { code: "outside_trusted_root".to_string() });
    record_file(&mut t, &disk);
    let mut bad_disk = obs("/roms/f.st", Some("st"), None, None, DetectionConfidence::Unknown);
    bad_disk.disk_format = Some(DiskFormatOutcome {
        bytes_inspected: 100,
        result: DiskFormatResult::Refused { code: "too_small".to_string() },
    });
    record_file(&mut t, &bad_disk);
    record_unread_symlink(&mut t, "unresolvable_target");
    assert!(limit_reached(&t, Some(6)));
    assert!(!limit_reached(&t, Some(7)));
    assert_eq!(t.files_considered, 6);
    assert_eq!(t.events, 8);

    let report = finish_audit(t, "/roms".to_string(), 12);
    assert_eq!(report.confirmed + report.probable + report.ambiguous + report.unknown, report.files_considered);
    assert_eq!(report.platform_counts, vec![row("SNES", 2), row("AtariST", 1), row("PCEngine", 1)]);
    assert_eq!(report.top_ambiguous_extensions, vec![row("bin", 1), row("st", 1)]);
    assert_eq!(report.symlinks_seen, 3);
    assert_eq!(report.symlinks_read, 1);
    assert_eq!(report.symlinks_with_signature_evidence, 1);
    assert_eq!(report.symlink_refusals, vec![row("outside_trusted_root", 1), row("unresolvable_target", 1)]);
    assert_eq!(report.disk_format.len(), 1);
    assert_eq!(report.disk_format[0].extension, "st");
    assert_eq!(report.disk_format[0].files, 2);
    assert_eq!(report.disk_format[0].structurally_valid, 1);
    assert_eq!(report.disk_format[0].malformed, 1);
    assert_eq!(report.disk_format[0].bytes_inspected, 612);
    assert_eq!(report.historical_misclassifications_total, 1);
    assert_eq!(report.historical_misclassifications[0].after.as_deref(), Some("PCEngine"));
    assert_eq!(report.reclassified_total, 1);
    assert_eq!(report.reclassified[0].path, "/roms/b.gen");
    assert_eq!(report.newly_detected_total, 2);
    assert_eq!(report.newly_detected[0].reason, "two headers");
    assert_eq!(report.newly_detected[1].reason, "AtariST evidence");
    assert!(!report.requested_platforms_absent.contains(&"AtariST".to_string()));
    assert!(report.requested_platforms_absent.contains(&"ZX Spectrum".to_string()));
    assert_eq!(report.requested_platforms_absent.len(), milestone_platforms().len() - 1);

    let text = format_platform_audit(&report);
    assert!(text.contains("Considered: 6 files, 1 directories in 12 ms\n"));
    assert!(text.contains("Confirmed: 2  Probable: 1  Ambiguous: 1  Unknown: 2\n"));
    assert!(text.contains("  .st: 2 file(s), 1 structurally valid, 1 malformed, 0 refused, 612 bytes read\n           1  too_small\n"));
}

#[test]
fn change_lists_are_capped_but_totals_are_not() {
    let mut t = new_audit_tally();
    for k in 0..45 {
        let path = format!("/roms/{k}.smd");
        record_file(&mut t, &obs(&path, Some("smd"), Some("MegaDrive"), Some("SNES"), DetectionConfidence::Probable));
    }
    for k in 0..12 {
        let path = format!("/roms/new{k}.sfc");
        record_file(&mut t, &obs(&path, Some("sfc"), None, Some("SNES"), DetectionConfidence::Probable));
    }
    let report = finish_audit(t, "/roms".to_string(), 0);
    assert_eq!(report.reclassified_total, 45);
    assert_eq!(report.reclassified.len(), 40);
    assert_eq!(report.newly_detected_total, 12);
    assert_eq!(report.newly_detected.len(), 10);
    assert_eq!(report.historical_misclassifications_total, 45);
    assert_eq!(report.historical_misclassifications.len(), 20);
    assert_eq!(report.reclassified[39].path, "/roms/39.smd");
}

#[test]
fn only_fifteen_unresolved_extensions_are_reported() {
    let mut t = new_audit_tally();
    for k in 0..20u32 {
        let ext = format!("x{k:02}");
        for _ in 0..(k % 3 + 1) {
            record_file(&mut t, &obs("/roms/f", Some(&ext), None, None, DetectionConfidence::Unknown));
        }
    }
    let report = finish_audit(t, "/roms".to_string(), 0);
    assert_eq!(report.top_ambiguous_extensions.len(), 15);
    assert_eq!(report.top_ambiguous_extensions[0], row("x02", 3));
    assert!(report.top_ambiguous_extensions.windows(2).all(|w| w[0].count > w[1].count || (w[0].count == w[1].count && w[0].name < w[1].name)));
}
