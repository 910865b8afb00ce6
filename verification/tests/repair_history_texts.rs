use archivefs_cli::repair_history::{
    check_rollbackable, format_history_entry_text, format_history_text, format_rollback_text,
    format_transaction_result, history_order, rollback_result_label, rollback_verdict, text_less,
    unusable_transaction_id, HistoryEntryView, ReverifyView, RollbackProgress, RollbackResultView,
    TransactionSummaryView, TransferView,
};

fn transfer(source: &str, destination: &str) -> TransferView {
    TransferView { source_path: source.to_string(), destination_path: destination.to_string() }
}

fn reverify(verified: bool, label: &str, source: &str, destination: &str, detail: &str) -> ReverifyView {
    ReverifyView {
        verified,
        outcome_label: label.to_string(),
        source_path: source.to_string(),
        destination_path: destination.to_string(),
        detail: detail.to_string(),
    }
}

fn applied_rename() -> HistoryEntryView {
    HistoryEntryView {
        transaction_id: "tx-0002".to_string(),
        state_label: "Applied".to_string(),
        rollback_label: "NotRolledBack".to_string(),
        rollbackable: true,
        requested: 3,
        applied: 3,
        failed: 0,
        skipped: 0,
        entries: vec![
            transfer("/roms/a.zip", "/roms/A (USA).zip"),
            transfer("/roms/b.zip", "/roms/B (USA).zip"),
            transfer("/roms/c.zip", "/roms/C (USA).zip"),
        ],
        reverify: vec![
            reverify(true, "Verified", "/roms/a.zip", "/roms/A (USA).zip", "hash matches"),
            reverify(false, "Missing", "/roms/b.zip", "/roms/B (USA).zip", "destination is gone"),
            reverify(true, "Verified", "/roms/c.zip", "/roms/C (USA).zip", "hash matches"),
        ],
    }
}

#[test]
fn history_entry_text_names_the_kind_counts_first_move_and_unverified_destinations() {
    assert_eq!(
        format_history_entry_text(&applied_rename()),
        [
            "\n",
            "Transaction tx-0002 [Move/Rename transaction]\n",
            "  State: Applied\n",
            "  Rollback status: NotRolledBack\n",
            "  Rollbackable now: yes\n",
            "  Requested: 3  Applied: 3  Failed: 0  Skipped: 0\n",
            "  /roms/a.zip -> /roms/A (USA).zip\n",
            "  + 2 more\n",
            "  Reverify: 2 of 3 destination(s) verified\n",
            "    [Missing] /roms/B (USA).zip: destination is gone\n",
        ]
        .concat()
    );
}

#[test]
fn history_entry_text_of_a_quarantine_and_of_an_empty_transaction() {
    let mut quarantine = applied_rename();
    quarantine.transaction_id = "tx-q".to_string();
    quarantine.rollbackable = false;
    quarantine.rollback_label = "FullyRolledBack".to_string();
    quarantine.entries = vec![transfer("/roms/dup.zip", "/roms/.emuwiz-quarantine/dup.zip")];
    quarantine.reverify = Vec::new();
    let text = format_history_entry_text(&quarantine);
    assert!(text.contains("Transaction tx-q [Duplicate quarantine]\n"));
    assert!(text.contains("  Rollbackable now: no\n"));
    assert!(text.contains("  /roms/dup.zip -> /roms/.emuwiz-quarantine/dup.zip\n  Reverify"));
    assert!(text.ends_with("  Reverify: not applicable (nothing currently applied)\n"));

    let mut mixed = applied_rename();
    mixed.entries.push(transfer("/roms/d.zip", "/roms/.emuwiz-quarantine/d.zip"));
    assert!(format_history_entry_text(&mixed).contains("[UNKNOWN]"));

    let mut empty = applied_rename();
    empty.entries = Vec::new();
    let text = format_history_entry_text(&empty);
    assert!(text.contains("[UNKNOWN]"));
    assert!(text.contains("  (no entries recorded)\n"));
}

#[test]
fn history_text_lists_problems_before_transactions() {
    let problems = vec!["broken.json: expected value".to_string()];
    let text = format_history_text("/journals", &problems, &vec![applied_rename()]);
    assert!(text.starts_with(
        &[
            "Repair history: 1 transaction(s) in /journals\n",
            "  1 journal file(s) could not be parsed:\n",
            "    broken.json: expected value\n",
            "\nTransaction tx-0002",
        ]
        .concat()
    ));
    assert_eq!(format_history_text("/journals", &Vec::new(), &Vec::new()), "Repair history: 0 transaction(s) in /journals\n");
}

#[test]
fn history_order_is_newest_first_then_larger_id_then_journal_order() {
    let created = vec![100, 300, 200, 300, 300];
    let ids: Vec<String> = ["a", "b", "c", "d", "b"].iter().map(|s| s.to_string()).collect();
    assert_eq!(history_order(&created, &ids, None), vec![3, 1, 4, 2, 0]);
    assert_eq!(history_order(&created, &ids, Some(2)), vec![3, 1]);
    assert_eq!(history_order(&created, &ids, Some(0)), Vec::<usize>::new());
    assert_eq!(history_order(&created, &ids, Some(99)).len(), 5);
    assert_eq!(history_order(&Vec::new(), &Vec::new(), None), Vec::<usize>::new());
}

#[test]
fn text_order_is_code_point_order_with_prefixes_first() {
    let s = |t: &str| t.to_string();
    assert!(text_less(&s("abc"), &s("abd")));
    assert!(text_less(&s("ab"), &s("abc")));
    assert!(!text_less(&s("abc"), &s("ab")));
    assert!(!text_less(&s("same"), &s("same")));
    assert!(text_less(&s("Zed"), &s("apple")));
    assert!(text_less(&s(""), &s("a")));
}

#[test]
fn rollback_text_reports_each_result_shape() {
    let checks = vec![reverify(false, "Restored", "/roms/A (USA).zip", "/roms/a.zip", "back in place")];
    assert_eq!(
        format_rollback_text("tx-0002", &RollbackResultView::FullyRolledBack, 3, &checks),
        [
            "Repair rollback: transaction tx-0002\n",
            "  Result: FullyRolledBack\n",
            "  Entries restored: 3\n",
            "  Reverify:\n",
            "    [Restored] /roms/A (USA).zip -> /roms/a.zip: back in place\n",
        ]
        .concat()
    );
    let partial = RollbackResultView::PartiallyRolledBack {
        rolled_back: 1,
        failed: vec![("/roms/B (USA).zip".to_string(), "destination changed".to_string())],
    };
    assert_eq!(
        format_rollback_text("tx-9", &partial, 0, &Vec::new()),
        [
            "Repair rollback: transaction tx-9\n",
            "  Result: PartiallyRolledBack\n",
            "  Entries restored: 1\n",
            "  Entries not restored: 1\n",
            "    /roms/B (USA).zip: destination changed\n",
            "  Reverify:\n",
            "    not applicable (nothing currently applied)\n",
        ]
        .concat()
    );
    let failed = RollbackResultView::RollbackFailed { failed: Vec::new() };
    assert!(format_rollback_text("tx-9", &failed, 0, &Vec::new()).contains("  Result: RollbackFailed\n  Entries not restored: 0\n"));
}

#[test]
fn rollback_verdict_succeeds_only_when_fully_rolled_back() {
    assert_eq!(rollback_verdict("tx", &RollbackResultView::FullyRolledBack), Ok(()));
    let partial = RollbackResultView::PartiallyRolledBack { rolled_back: 1, failed: Vec::new() };
    assert_eq!(rollback_verdict("tx", &partial), Err("transaction 'tx' was only partially rolled back".to_string()));
    let failed = RollbackResultView::RollbackFailed { failed: Vec::new() };
    assert_eq!(rollback_verdict("tx", &failed), Err("transaction 'tx' rollback failed".to_string()));
    assert_eq!(rollback_result_label(&partial), "PartiallyRolledBack");
}

#[test]
fn rollbackability_and_unusable_ids_are_refused_with_their_reason() {
    assert_eq!(check_rollbackable("tx", true, "Applied", "NotRolledBack"), Ok(()));
    assert_eq!(
        check_rollbackable("tx", false, "RolledBack", "FullyRolledBack"),
        Err("transaction 'tx' is not rollbackable (state: RolledBack, rollback: FullyRolledBack)".to_string())
    );
    assert_eq!(unusable_transaction_id("../x"), "transaction id '../x' cannot name a journal file");
}

#[test]
fn transaction_result_lists_extra_rows_counts_destinations_and_reverify() {
    let summary = TransactionSummaryView {
        transaction_id: "tx-7".to_string(),
        requested: 2,
        applied: 1,
        failed: 1,
        skipped: 0,
        rollback: RollbackProgress::PartiallyRolledBack,
    };
    let extra = vec![("Survivor".to_string(), "/roms/keep.zip".to_string())];
    let entries = vec![transfer("/roms/dup.zip", "/roms/.emuwiz-quarantine/dup.zip")];
    let checks = vec![reverify(true, "Verified", "/roms/dup.zip", "/roms/.emuwiz-quarantine/dup.zip", "ok")];
    assert_eq!(
        format_transaction_result("Quarantine", &summary, &extra, &entries, &checks),
        [
            "Quarantine (transaction tx-7):\n",
            "  Survivor: /roms/keep.zip\n",
            "  Requested: 2\n",
            "  Applied: 1\n",
            "  Failed: 1\n",
            "  Skipped: 0\n",
            "  Rolled back: yes\n",
            "  Destinations:\n",
            "    /roms/dup.zip -> /roms/.emuwiz-quarantine/dup.zip\n",
            "  Reverify:\n",
            "    [Verified] /roms/dup.zip -> /roms/.emuwiz-quarantine/dup.zip: ok\n",
        ]
        .concat()
    );
    let quiet = TransactionSummaryView { rollback: RollbackProgress::NotRolledBack, ..summary };
    let text = format_transaction_result("Rename", &quiet, &Vec::new(), &Vec::new(), &Vec::new());
    assert!(text.contains("  Rolled back: no\n  Reverify:\n"));
    assert!(text.ends_with("  Reverify:\n"));
}
