//! The text of `repair history`, `repair rollback` and an applied repair
//! transaction, and the verdict a rollback ends with.
//!
//! The journal, the rollback engine and the re-verification belong to the
//! repair engine; what is here words what they report.
use vstd::prelude::*;
use crate::repair::{classify_transaction_kind, spec_transaction_kind, TransactionKind};
use crate::text::{chars_of, concat, decimal, push_str, spec_decimal};

verus! {

/// One journaled move: where a file was and where it went.
#[derive(Debug, Clone, PartialEq, Eq)]
pub struct TransferView {
    pub source_path: String,
    pub destination_path: String,
}

/// One destination as re-verified after an apply or a rollback.
#[derive(Debug, Clone, PartialEq, Eq)]
pub struct ReverifyView {
    /// Whether the destination was verified.
    pub verified: bool,
    /// The outcome's label.
    pub outcome_label: String,
    pub source_path: String,
    pub destination_path: String,
    pub detail: String,
}

/// One transaction as `repair history` shows it.
#[derive(Debug, Clone, PartialEq, Eq)]
pub struct HistoryEntryView {
    pub transaction_id: String,
    pub state_label: String,
    pub rollback_label: String,
    pub rollbackable: bool,
    pub requested: u64,
    pub applied: u64,
    pub failed: u64,
    pub skipped: u64,
    pub entries: Vec<TransferView>,
    pub reverify: Vec<ReverifyView>,
}

/// A line: the text and a newline.
pub open spec fn ln(t: Seq<char>) -> Seq<char> {
    t + "\n"@
}

/// The destinations of the entries, in order.
pub open spec fn destinations(entries: Seq<TransferView>) -> Seq<String> {
    entries.map_values(|e: TransferView| e.destination_path)
}

/// The label of a transaction kind.
pub open spec fn kind_label(k: TransactionKind) -> Seq<char> {
    match k {
        TransactionKind::DuplicateQuarantine => "Duplicate quarantine"@,
        TransactionKind::MoveRename => "Move/Rename transaction"@,
        TransactionKind::Unknown => "UNKNOWN"@,
    }
}

/// How many destinations were verified.
pub open spec fn verified_count(v: Seq<ReverifyView>) -> nat
    decreases v.len(),
{
    if v.len() == 0 {
        0
    } else {
        verified_count(v.drop_last()) + if v.last().verified { 1nat } else { 0nat }
    }
}

/// The lines of the destinations that were not verified.
pub open spec fn unverified_lines(v: Seq<ReverifyView>) -> Seq<char>
    decreases v.len(),
{
    if v.len() == 0 {
        Seq::empty()
    } else {
        let e = v.last();
        unverified_lines(v.drop_last()) + if e.verified {
            Seq::empty()
        } else {
            ln("    ["@ + e.outcome_label@ + "] "@ + e.destination_path@ + ": "@ + e.detail@)
        }
    }
}

/// The first transfer, and how many more there are.
pub open spec fn transfers_summary(entries: Seq<TransferView>) -> Seq<char> {
    if entries.len() == 0 {
        ln("  (no entries recorded)"@)
    } else {
        ln("  "@ + entries[0].source_path@ + " -> "@ + entries[0].destination_path@)
            + if entries.len() > 1 { ln("  + "@ + spec_decimal((entries.len() - 1) as nat) + " more"@) } else { Seq::empty() }
    }
}

/// The re-verification summary of a history entry.
pub open spec fn reverify_summary(v: Seq<ReverifyView>) -> Seq<char> {
    if v.len() == 0 {
        ln("  Reverify: not applicable (nothing currently applied)"@)
    } else {
        ln("  Reverify: "@ + spec_decimal(verified_count(v)) + " of "@ + spec_decimal(v.len()) + " destination(s) verified"@)
            + unverified_lines(v)
    }
}

/// The first lines of a history entry: id and kind, state, rollback status
/// and whether it can be rolled back now.
pub open spec fn history_entry_head(e: HistoryEntryView, kind: TransactionKind) -> Seq<char> {
    ln(Seq::empty())
        + ln("Transaction "@ + e.transaction_id@ + " ["@ + kind_label(kind) + "]"@)
        + ln("  State: "@ + e.state_label@)
        + ln("  Rollback status: "@ + e.rollback_label@)
        + ln("  Rollbackable now: "@ + if e.rollbackable { "yes"@ } else { "no"@ })
}

/// The counts line of a history entry.
pub open spec fn history_counts(e: HistoryEntryView) -> Seq<char> {
    ln("  Requested: "@ + spec_decimal(e.requested as nat) + "  Applied: "@ + spec_decimal(e.applied as nat)
        + "  Failed: "@ + spec_decimal(e.failed as nat) + "  Skipped: "@ + spec_decimal(e.skipped as nat))
}

/// The text of one transaction in `repair history`; its kind is read from
/// its entries' destinations.
pub open spec fn history_entry_text(e: HistoryEntryView) -> Seq<char> {
    history_entry_head(e, spec_transaction_kind(destinations(e.entries@)))
        + history_counts(e)
        + transfers_summary(e.entries@)
        + reverify_summary(e.reverify@)
}

fn line(out: &mut String, t: &str)
    ensures
        final(out)@ == old(out)@ + ln(t@),
{
    push_str(out, t);
    push_str(out, "\n");
    proof {
        assert(final(out)@ =~= old(out)@ + ln(t@));
    }
}

fn transaction_kind(entries: &Vec<TransferView>) -> (k: TransactionKind)
    ensures
        k == spec_transaction_kind(destinations(entries@)),
{
    let mut dests: Vec<String> = Vec::new();
    let mut k: usize = 0;
    while k < entries.len()
        invariant
            k <= entries@.len(),
            dests@ == destinations(entries@.take(k as int)),
        decreases entries@.len() - k,
    {
        dests.push(entries[k].destination_path.clone());
        proof {
            assert(dests@ =~= destinations(entries@.take(k + 1)));
        }
        k = k + 1;
    }
    proof {
        assert(entries@.take(entries@.len() as int) =~= entries@);
    }
    classify_transaction_kind(&dests)
}

fn push_transfers_summary(out: &mut String, entries: &Vec<TransferView>)
    ensures
        final(out)@ == old(out)@ + transfers_summary(entries@),
{
    if entries.len() == 0 {
        line(out, "  (no entries recorded)");
    } else {
        let ghost start = out@;
        push_str(out, "  ");
        push_str(out, entries[0].source_path.as_str());
        push_str(out, " -> ");
        line(out, entries[0].destination_path.as_str());
        let remaining = entries.len() - 1;
        if remaining > 0 {
            push_str(out, "  + ");
            push_str(out, decimal(remaining as u64).as_str());
            line(out, " more");
        }
        proof {
            assert(out@ =~= start + transfers_summary(entries@));
        }
    }
}

fn push_reverify_summary(out: &mut String, v: &Vec<ReverifyView>)
    ensures
        final(out)@ == old(out)@ + reverify_summary(v@),
{
    if v.len() == 0 {
        line(out, "  Reverify: not applicable (nothing currently applied)");
        return;
    }
    let mut verified: u64 = 0;
    let mut k: usize = 0;
    while k < v.len()
        invariant
            k <= v@.len(),
            verified == verified_count(v@.take(k as int)),
            verified <= k,
        decreases v@.len() - k,
    {
        proof {
            assert(v@.take(k + 1).drop_last() =~= v@.take(k as int));
        }
        if v[k].verified {
            verified = verified + 1;
        }
        k = k + 1;
    }
    proof {
        assert(v@.take(v@.len() as int) =~= v@);
    }
    let ghost start = out@;
    push_str(out, "  Reverify: ");
    push_str(out, decimal(verified).as_str());
    push_str(out, " of ");
    push_str(out, decimal(v.len() as u64).as_str());
    line(out, " destination(s) verified");
    let ghost head = out@;
    let mut j: usize = 0;
    while j < v.len()
        invariant
            j <= v@.len(),
            out@ == head + unverified_lines(v@.take(j as int)),
        decreases v@.len() - j,
    {
        proof {
            assert(v@.take(j + 1).drop_last() =~= v@.take(j as int));
            assert(v@.take(j + 1).last() == v@[j as int]);
        }
        let ghost before = out@;
        let e = &v[j];
        if !e.verified {
            push_str(out, "    [");
            push_str(out, e.outcome_label.as_str());
            push_str(out, "] ");
            push_str(out, e.destination_path.as_str());
            push_str(out, ": ");
            line(out, e.detail.as_str());
        }
        proof {
            assert(out@ =~= before + if e.verified { Seq::<char>::empty() } else {
                ln("    ["@ + e.outcome_label@ + "] "@ + e.destination_path@ + ": "@ + e.detail@)
            });
        }
        j = j + 1;
    }
    proof {
        assert(v@.take(v@.len() as int) =~= v@);
        assert(out@ =~= start + reverify_summary(v@));
    }
}

/// The text of one transaction in `repair history`: id and kind, state,
/// rollback status and whether it can be rolled back now, the counts, the
/// first move with how many more, and the re-verification summary listing
/// each destination that was not verified.
pub fn format_history_entry_text(e: &HistoryEntryView) -> (r: String)
    ensures
        r@ == history_entry_text(*e),
{
    let kind = transaction_kind(&e.entries);
    let mut out = String::new();
    push_history_head(&mut out, e, kind);
    push_history_counts(&mut out, e);
    push_transfers_summary(&mut out, &e.entries);
    push_reverify_summary(&mut out, &e.reverify);
    proof {
        assert(out@ =~= history_entry_text(*e));
    }
    out
}

fn push_history_head(out: &mut String, e: &HistoryEntryView, kind: TransactionKind)
    ensures
        final(out)@ == old(out)@ + history_entry_head(*e, kind),
{
    let ghost start = out@;
    push_str(out, "\n");
    push_str(out, "Transaction ");
    push_str(out, e.transaction_id.as_str());
    push_str(out, " [");
    push_str(out, kind.label());
    line(out, "]");
    push_str(out, "  State: ");
    line(out, e.state_label.as_str());
    push_str(out, "  Rollback status: ");
    line(out, e.rollback_label.as_str());
    push_str(out, "  Rollbackable now: ");
    line(out, if e.rollbackable { "yes" } else { "no" });
    proof {
        assert(ln(Seq::<char>::empty()) =~= "\n"@);
        assert(out@ =~= start + history_entry_head(*e, kind));
    }
}

fn push_history_counts(out: &mut String, e: &HistoryEntryView)
    ensures
        final(out)@ == old(out)@ + history_counts(*e),
{
    let ghost start = out@;
    push_str(out, "  Requested: ");
    push_str(out, decimal(e.requested).as_str());
    push_str(out, "  Applied: ");
    push_str(out, decimal(e.applied).as_str());
    push_str(out, "  Failed: ");
    push_str(out, decimal(e.failed).as_str());
    push_str(out, "  Skipped: ");
    line(out, decimal(e.skipped).as_str());
    proof {
        assert(out@ =~= start + history_counts(*e));
    }
}

/// The journal files that could not be parsed, if any.
pub open spec fn problems_text(problems: Seq<String>) -> Seq<char> {
    if problems.len() == 0 {
        Seq::empty()
    } else {
        ln("  "@ + spec_decimal(problems.len()) + " journal file(s) could not be parsed:"@) + problem_lines(problems)
    }
}

/// One line per unparsable journal file.
pub open spec fn problem_lines(problems: Seq<String>) -> Seq<char>
    decreases problems.len(),
{
    if problems.len() == 0 {
        Seq::empty()
    } else {
        problem_lines(problems.drop_last()) + ln("    "@ + problems.last()@)
    }
}

/// Every listed transaction in turn.
pub open spec fn history_entries_text(entries: Seq<HistoryEntryView>) -> Seq<char>
    decreases entries.len(),
{
    if entries.len() == 0 {
        Seq::empty()
    } else {
        history_entries_text(entries.drop_last()) + history_entry_text(entries.last())
    }
}

/// The text of `repair history`.
pub open spec fn history_text(journal_dir: Seq<char>, problems: Seq<String>, entries: Seq<HistoryEntryView>) -> Seq<char> {
    ln("Repair history: "@ + spec_decimal(entries.len()) + " transaction(s) in "@ + journal_dir)
        + problems_text(problems) + history_entries_text(entries)
}

/// The text of `repair history`: how many transactions are listed from
/// which directory, the journal files that could not be parsed, then each
/// transaction.
pub fn format_history_text(journal_dir: &str, problems: &Vec<String>, entries: &Vec<HistoryEntryView>) -> (r: String)
    ensures
        r@ == history_text(journal_dir@, problems@, entries@),
{
    let mut out = "Repair history: ".to_owned();
    push_str(&mut out, decimal(entries.len() as u64).as_str());
    push_str(&mut out, " transaction(s) in ");
    line(&mut out, journal_dir);
    let ghost after_head = out@;
    if problems.len() > 0 {
        push_str(&mut out, "  ");
        push_str(&mut out, decimal(problems.len() as u64).as_str());
        line(&mut out, " journal file(s) could not be parsed:");
        let ghost head = out@;
        let mut k: usize = 0;
        while k < problems.len()
            invariant
                k <= problems@.len(),
                out@ == head + problem_lines(problems@.take(k as int)),
            decreases problems@.len() - k,
        {
            proof {
                assert(problems@.take(k + 1).drop_last() =~= problems@.take(k as int));
                assert(problems@.take(k + 1).last() == problems@[k as int]);
            }
            let ghost before = out@;
            push_str(&mut out, "    ");
            line(&mut out, problems[k].as_str());
            proof {
                assert(out@ =~= before + ln("    "@ + problems@[k as int]@));
            }
            k = k + 1;
        }
        proof {
            assert(problems@.take(problems@.len() as int) =~= problems@);
        }
    }
    proof {
        assert(out@ =~= after_head + problems_text(problems@));
    }
    let ghost listed = out@;
    let mut j: usize = 0;
    while j < entries.len()
        invariant
            j <= entries@.len(),
            out@ == listed + history_entries_text(entries@.take(j as int)),
        decreases entries@.len() - j,
    {
        proof {
            assert(entries@.take(j + 1).drop_last() =~= entries@.take(j as int));
            assert(entries@.take(j + 1).last() == entries@[j as int]);
        }
        let text = format_history_entry_text(&entries[j]);
        push_str(&mut out, text.as_str());
        j = j + 1;
    }
    proof {
        assert(entries@.take(entries@.len() as int) =~= entries@);
        assert(out@ =~= history_text(journal_dir@, problems@, entries@));
    }
    out
}

/// How a rollback ended.
#[derive(Debug, Clone, PartialEq, Eq)]
pub enum RollbackResultView {
    FullyRolledBack,
    /// Some entries were restored; these (path, reason) were not.
    PartiallyRolledBack { rolled_back: u64, failed: Vec<(String, String)> },
    /// No entry was restored; these (path, reason) failed.
    RollbackFailed { failed: Vec<(String, String)> },
}

/// The label of a rollback result.
pub open spec fn spec_rollback_result_label(r: RollbackResultView) -> Seq<char> {
    match r {
        RollbackResultView::FullyRolledBack => "FullyRolledBack"@,
        RollbackResultView::PartiallyRolledBack { .. } => "PartiallyRolledBack"@,
        RollbackResultView::RollbackFailed { .. } => "RollbackFailed"@,
    }
}

/// The label of a rollback result.
pub fn rollback_result_label(result: &RollbackResultView) -> (r: &'static str)
    ensures
        r@ == spec_rollback_result_label(*result),
{
    match result {
        RollbackResultView::FullyRolledBack => "FullyRolledBack",
        RollbackResultView::PartiallyRolledBack { .. } => "PartiallyRolledBack",
        RollbackResultView::RollbackFailed { .. } => "RollbackFailed",
    }
}

/// A rollback succeeds only when every entry was restored.
pub open spec fn spec_rollback_verdict(transaction_id: Seq<char>, r: RollbackResultView) -> Result<(), Seq<char>> {
    match r {
        RollbackResultView::FullyRolledBack => Ok(()),
        RollbackResultView::PartiallyRolledBack { .. } =>
            Err("transaction '"@ + transaction_id + "' was only partially rolled back"@),
        RollbackResultView::RollbackFailed { .. } => Err("transaction '"@ + transaction_id + "' rollback failed"@),
    }
}

/// The outcome `repair rollback` exits with, after its report is printed:
/// success only for a rollback that restored every entry.
pub fn rollback_verdict(transaction_id: &str, result: &RollbackResultView) -> (r: Result<(), String>)
    ensures
        match spec_rollback_verdict(transaction_id@, *result) {
            Ok(()) => r is Ok,
            Err(m) => r matches Err(s) && s@ == m,
        },
{
    match result {
        RollbackResultView::FullyRolledBack => Ok(()),
        RollbackResultView::PartiallyRolledBack { .. } => {
            let mut m = concat("transaction '", transaction_id);
            push_str(&mut m, "' was only partially rolled back");
            Err(m)
        },
        RollbackResultView::RollbackFailed { .. } => {
            let mut m = concat("transaction '", transaction_id);
            push_str(&mut m, "' rollback failed");
            Err(m)
        },
    }
}

/// The refusal of a transaction that cannot be rolled back.
pub open spec fn not_rollbackable_text(transaction_id: Seq<char>, state: Seq<char>, rollback: Seq<char>) -> Seq<char> {
    "transaction '"@ + transaction_id + "' is not rollbackable (state: "@ + state + ", rollback: "@ + rollback + ")"@
}

/// Refuses a transaction that is not rollbackable before the rollback
/// engine is called.
pub fn check_rollbackable(transaction_id: &str, rollbackable: bool, state_label: &str, rollback_label: &str) -> (r: Result<(), String>)
    ensures
        rollbackable ==> r is Ok,
        !rollbackable ==> (r matches Err(m) && m@ == not_rollbackable_text(transaction_id@, state_label@, rollback_label@)),
{
    if rollbackable {
        return Ok(());
    }
    let mut m = concat("transaction '", transaction_id);
    push_str(&mut m, "' is not rollbackable (state: ");
    push_str(&mut m, state_label);
    push_str(&mut m, ", rollback: ");
    push_str(&mut m, rollback_label);
    push_str(&mut m, ")");
    Err(m)
}

/// The refusal of a transaction id that cannot name a journal file.
pub fn unusable_transaction_id(transaction_id: &str) -> (r: String)
    ensures
        r@ == "transaction id '"@ + transaction_id@ + "' cannot name a journal file"@,
{
    let mut m = concat("transaction id '", transaction_id);
    push_str(&mut m, "' cannot name a journal file");
    m
}

/// One (path, reason) per line, indented.
pub open spec fn failure_lines(failed: Seq<(String, String)>) -> Seq<char>
    decreases failed.len(),
{
    if failed.len() == 0 {
        Seq::empty()
    } else {
        failure_lines(failed.drop_last()) + ln("    "@ + failed.last().0@ + ": "@ + failed.last().1@)
    }
}

/// The counts block of a rollback report.
pub open spec fn rollback_counts_text(r: RollbackResultView, restored: u64) -> Seq<char> {
    match r {
        RollbackResultView::FullyRolledBack => ln("  Entries restored: "@ + spec_decimal(restored as nat)),
        RollbackResultView::PartiallyRolledBack { rolled_back, failed } =>
            ln("  Entries restored: "@ + spec_decimal(rolled_back as nat))
                + ln("  Entries not restored: "@ + spec_decimal(failed@.len())) + failure_lines(failed@),
        RollbackResultView::RollbackFailed { failed } =>
            ln("  Entries not restored: "@ + spec_decimal(failed@.len())) + failure_lines(failed@),
    }
}

/// A re-verified move, as the rollback and apply reports list it.
pub open spec fn reverify_line(e: ReverifyView) -> Seq<char> {
    ln("    ["@ + e.outcome_label@ + "] "@ + e.source_path@ + " -> "@ + e.destination_path@ + ": "@ + e.detail@)
}

/// Every re-verified move.
pub open spec fn reverify_lines(v: Seq<ReverifyView>) -> Seq<char>
    decreases v.len(),
{
    if v.len() == 0 {
        Seq::empty()
    } else {
        reverify_lines(v.drop_last()) + reverify_line(v.last())
    }
}

/// The text of `repair rollback`.
pub open spec fn rollback_text(transaction_id: Seq<char>, r: RollbackResultView, restored: u64, v: Seq<ReverifyView>) -> Seq<char> {
    ln("Repair rollback: transaction "@ + transaction_id)
        + ln("  Result: "@ + spec_rollback_result_label(r))
        + rollback_counts_text(r, restored)
        + ln("  Reverify:"@)
        + (if v.len() == 0 { ln("    not applicable (nothing currently applied)"@) } else { Seq::empty() })
        + reverify_lines(v)
}

fn push_failures(out: &mut String, failed: &Vec<(String, String)>)
    ensures
        final(out)@ == old(out)@ + failure_lines(failed@),
{
    let ghost head = out@;
    let mut k: usize = 0;
    while k < failed.len()
        invariant
            k <= failed@.len(),
            out@ == head + failure_lines(failed@.take(k as int)),
        decreases failed@.len() - k,
    {
        proof {
            assert(failed@.take(k + 1).drop_last() =~= failed@.take(k as int));
            assert(failed@.take(k + 1).last() == failed@[k as int]);
        }
        let ghost before = out@;
        push_str(out, "    ");
        push_str(out, failed[k].0.as_str());
        push_str(out, ": ");
        line(out, failed[k].1.as_str());
        proof {
            let f = failed@[k as int];
            assert(out@ =~= before + ln("    "@ + f.0@ + ": "@ + f.1@));
        }
        k = k + 1;
    }
    proof {
        assert(failed@.take(failed@.len() as int) =~= failed@);
    }
}

fn push_reverify_lines(out: &mut String, v: &Vec<ReverifyView>)
    ensures
        final(out)@ == old(out)@ + reverify_lines(v@),
{
    let ghost head = out@;
    let mut k: usize = 0;
    while k < v.len()
        invariant
            k <= v@.len(),
            out@ == head + reverify_lines(v@.take(k as int)),
        decreases v@.len() - k,
    {
        proof {
            assert(v@.take(k + 1).drop_last() =~= v@.take(k as int));
            assert(v@.take(k + 1).last() == v@[k as int]);
        }
        let ghost before = out@;
        let e = &v[k];
        push_str(out, "    [");
        push_str(out, e.outcome_label.as_str());
        push_str(out, "] ");
        push_str(out, e.source_path.as_str());
        push_str(out, " -> ");
        push_str(out, e.destination_path.as_str());
        push_str(out, ": ");
        line(out, e.detail.as_str());
        proof {
            assert(out@ =~= before + reverify_line(*e));
        }
        k = k + 1;
    }
    proof {
        assert(v@.take(v@.len() as int) =~= v@);
    }
}

/// The text of `repair rollback`: the result, what was and was not
/// restored, and every destination as re-verified afterwards.
pub fn format_rollback_text(transaction_id: &str, result: &RollbackResultView, restored: u64, reverify: &Vec<ReverifyView>) -> (r: String)
    ensures
        r@ == rollback_text(transaction_id@, *result, restored, reverify@),
{
    let mut out = "Repair rollback: transaction ".to_owned();
    line(&mut out, transaction_id);
    push_str(&mut out, "  Result: ");
    line(&mut out, rollback_result_label(result));
    let ghost before_counts = out@;
    match result {
        RollbackResultView::FullyRolledBack => {
            push_str(&mut out, "  Entries restored: ");
            line(&mut out, decimal(restored).as_str());
        },
        RollbackResultView::PartiallyRolledBack { rolled_back, failed } => {
            push_str(&mut out, "  Entries restored: ");
            line(&mut out, decimal(*rolled_back).as_str());
            push_str(&mut out, "  Entries not restored: ");
            line(&mut out, decimal(failed.len() as u64).as_str());
            push_failures(&mut out, failed);
        },
        RollbackResultView::RollbackFailed { failed } => {
            push_str(&mut out, "  Entries not restored: ");
            line(&mut out, decimal(failed.len() as u64).as_str());
            push_failures(&mut out, failed);
        },
    }
    proof {
        assert(out@ =~= before_counts + rollback_counts_text(*result, restored));
    }
    line(&mut out, "  Reverify:");
    if reverify.len() == 0 {
        line(&mut out, "    not applicable (nothing currently applied)");
    }
    let ghost before_lines = out@;
    push_reverify_lines(&mut out, reverify);
    proof {
        assert(out@ =~= rollback_text(transaction_id@, *result, restored, reverify@));
    }
    out
}

/// How far a transaction has been rolled back.
#[derive(Debug, Clone, Copy, PartialEq, Eq, Structural)]
pub enum RollbackProgress {
    FullyRolledBack,
    PartiallyRolledBack,
    /// Any other rollback status: nothing rolled back.
    NotRolledBack,
}

/// The summary of one applied transaction.
#[derive(Debug, Clone, PartialEq, Eq)]
pub struct TransactionSummaryView {
    pub transaction_id: String,
    pub requested: u64,
    pub applied: u64,
    pub failed: u64,
    pub skipped: u64,
    pub rollback: RollbackProgress,
}

/// Whether a transaction counts as rolled back: fully or partially.
pub open spec fn is_rolled_back(p: RollbackProgress) -> bool {
    p is FullyRolledBack || p is PartiallyRolledBack
}

/// The caller's extra rows.
pub open spec fn extra_lines(extra: Seq<(String, String)>) -> Seq<char>
    decreases extra.len(),
{
    if extra.len() == 0 {
        Seq::empty()
    } else {
        extra_lines(extra.drop_last()) + ln("  "@ + extra.last().0@ + ": "@ + extra.last().1@)
    }
}

/// The moves of a transaction.
pub open spec fn transfer_lines(entries: Seq<TransferView>) -> Seq<char>
    decreases entries.len(),
{
    if entries.len() == 0 {
        Seq::empty()
    } else {
        transfer_lines(entries.drop_last()) + ln("    "@ + entries.last().source_path@ + " -> "@ + entries.last().destination_path@)
    }
}

/// The text of one applied transaction.
pub open spec fn transaction_result_text(label: Seq<char>, s: TransactionSummaryView, extra: Seq<(String, String)>,
    entries: Seq<TransferView>, v: Seq<ReverifyView>) -> Seq<char> {
    ln(label + " (transaction "@ + s.transaction_id@ + "):"@)
        + extra_lines(extra)
        + summary_counts_text(s)
        + (if entries.len() == 0 { Seq::empty() } else { ln("  Destinations:"@) + transfer_lines(entries) })
        + ln("  Reverify:"@)
        + reverify_lines(v)
}

fn push_extra(out: &mut String, extra: &Vec<(String, String)>)
    ensures
        final(out)@ == old(out)@ + extra_lines(extra@),
{
    let ghost head = out@;
    let mut k: usize = 0;
    while k < extra.len()
        invariant
            k <= extra@.len(),
            out@ == head + extra_lines(extra@.take(k as int)),
        decreases extra@.len() - k,
    {
        proof {
            assert(extra@.take(k + 1).drop_last() =~= extra@.take(k as int));
            assert(extra@.take(k + 1).last() == extra@[k as int]);
        }
        let ghost before = out@;
        push_str(out, "  ");
        push_str(out, extra[k].0.as_str());
        push_str(out, ": ");
        line(out, extra[k].1.as_str());
        proof {
            let x = extra@[k as int];
            assert(out@ =~= before + ln("  "@ + x.0@ + ": "@ + x.1@));
        }
        k = k + 1;
    }
    proof {
        assert(extra@.take(extra@.len() as int) =~= extra@);
    }
}

fn push_transfers(out: &mut String, entries: &Vec<TransferView>)
    ensures
        final(out)@ == old(out)@ + transfer_lines(entries@),
{
    let ghost head = out@;
    let mut k: usize = 0;
    while k < entries.len()
        invariant
            k <= entries@.len(),
            out@ == head + transfer_lines(entries@.take(k as int)),
        decreases entries@.len() - k,
    {
        proof {
            assert(entries@.take(k + 1).drop_last() =~= entries@.take(k as int));
            assert(entries@.take(k + 1).last() == entries@[k as int]);
        }
        let ghost before = out@;
        push_str(out, "    ");
        push_str(out, entries[k].source_path.as_str());
        push_str(out, " -> ");
        line(out, entries[k].destination_path.as_str());
        proof {
            let e = entries@[k as int];
            assert(out@ =~= before + ln("    "@ + e.source_path@ + " -> "@ + e.destination_path@));
        }
        k = k + 1;
    }
    proof {
        assert(entries@.take(entries@.len() as int) =~= entries@);
    }
}

/// The text of one applied transaction: its label and id, the caller's
/// extra rows, the counts, whether it was rolled back, its moves, and each
/// move as re-verified.
pub fn format_transaction_result(label: &str, summary: &TransactionSummaryView, extra: &Vec<(String, String)>,
    entries: &Vec<TransferView>, reverify: &Vec<ReverifyView>) -> (r: String)
    ensures
        r@ == transaction_result_text(label@, *summary, extra@, entries@, reverify@),
{
    let rolled_back = match summary.rollback {
        RollbackProgress::FullyRolledBack | RollbackProgress::PartiallyRolledBack => true,
        RollbackProgress::NotRolledBack => false,
    };
    let mut out = concat(label, " (transaction ");
    push_str(&mut out, summary.transaction_id.as_str());
    line(&mut out, "):");
    push_extra(&mut out, extra);
    push_summary_counts(&mut out, summary, rolled_back);
    let ghost before = out@;
    if entries.len() > 0 {
        line(&mut out, "  Destinations:");
        push_transfers(&mut out, entries);
    }
    proof {
        assert(out@ =~= before + if entries@.len() == 0 { Seq::<char>::empty() } else { ln("  Destinations:"@) + transfer_lines(entries@) });
    }
    line(&mut out, "  Reverify:");
    push_reverify_lines(&mut out, reverify);
    proof {
        assert(out@ =~= transaction_result_text(label@, *summary, extra@, entries@, reverify@));
    }
    out
}

/// The counts block of an applied transaction.
pub open spec fn summary_counts_text(s: TransactionSummaryView) -> Seq<char> {
    ln("  Requested: "@ + spec_decimal(s.requested as nat))
        + ln("  Applied: "@ + spec_decimal(s.applied as nat))
        + ln("  Failed: "@ + spec_decimal(s.failed as nat))
        + ln("  Skipped: "@ + spec_decimal(s.skipped as nat))
        + ln("  Rolled back: "@ + if is_rolled_back(s.rollback) { "yes"@ } else { "no"@ })
}

fn push_summary_counts(out: &mut String, summary: &TransactionSummaryView, rolled_back: bool)
    requires
        rolled_back == is_rolled_back(summary.rollback),
    ensures
        final(out)@ == old(out)@ + summary_counts_text(*summary),
{
    let ghost start = out@;
    push_str(out, "  Requested: ");
    line(out, decimal(summary.requested).as_str());
    push_str(out, "  Applied: ");
    line(out, decimal(summary.applied).as_str());
    push_str(out, "  Failed: ");
    line(out, decimal(summary.failed).as_str());
    push_str(out, "  Skipped: ");
    line(out, decimal(summary.skipped).as_str());
    push_str(out, "  Rolled back: ");
    line(out, if rolled_back { "yes" } else { "no" });
    proof {
        assert(out@ =~= start + summary_counts_text(*summary));
    }
}


/// `a` sorts before `b` character by character, a proper prefix first (the
/// order of `String`'s comparison, since UTF-8 keeps code point order).
pub open spec fn lex_less(a: Seq<char>, b: Seq<char>) -> bool
    decreases a.len(),
{
    if a.len() == 0 {
        b.len() > 0
    } else if b.len() == 0 {
        false
    } else if a[0] != b[0] {
        a[0] < b[0]
    } else {
        lex_less(a.drop_first(), b.drop_first())
    }
}

/// No text sorts before itself.
pub proof fn lemma_lex_irreflexive(a: Seq<char>)
    ensures
        !lex_less(a, a),
    decreases a.len(),
{
    if a.len() > 0 {
        lemma_lex_irreflexive(a.drop_first());
    }
}

/// Of two different texts exactly one sorts first.
pub proof fn lemma_lex_total(a: Seq<char>, b: Seq<char>)
    ensures
        lex_less(a, b) ==> !lex_less(b, a),
        a != b ==> lex_less(a, b) || lex_less(b, a),
    decreases a.len(),
{
    if a.len() > 0 && b.len() > 0 {
        lemma_lex_total(a.drop_first(), b.drop_first());
        if a[0] == b[0] && a.drop_first() == b.drop_first() {
            assert(a =~= seq![a[0]] + a.drop_first());
            assert(b =~= seq![b[0]] + b.drop_first());
        }
    } else if a.len() == 0 && b.len() == 0 {
        assert(a =~= b);
    }
}

/// Text order is transitive.
pub proof fn lemma_lex_transitive(a: Seq<char>, b: Seq<char>, c: Seq<char>)
    requires
        lex_less(a, b),
        lex_less(b, c),
    ensures
        lex_less(a, c),
    decreases a.len(),
{
    if a.len() > 0 && b.len() > 0 && c.len() > 0 && a[0] == b[0] && b[0] == c[0] {
        lemma_lex_transitive(a.drop_first(), b.drop_first(), c.drop_first());
    }
}

/// Text order is a strict total order.
pub proof fn lemma_lex_order(a: Seq<char>, b: Seq<char>, c: Seq<char>)
    ensures
        !lex_less(a, a),
        lex_less(a, b) ==> !lex_less(b, a),
        a != b ==> lex_less(a, b) || lex_less(b, a),
        lex_less(a, b) && lex_less(b, c) ==> lex_less(a, c),
{
    lemma_lex_irreflexive(a);
    lemma_lex_total(a, b);
    if lex_less(a, b) && lex_less(b, c) {
        lemma_lex_transitive(a, b, c);
    }
}

/// Whether `a` sorts before `b` as text.
pub fn text_less(a: &String, b: &String) -> (r: bool)
    ensures
        r == lex_less(a@, b@),
{
    let x = chars_of(a.as_str());
    let y = chars_of(b.as_str());
    let mut k: usize = 0;
    proof {
        assert(x@.skip(0) =~= x@);
        assert(y@.skip(0) =~= y@);
    }
    while k < x.len() && k < y.len()
        invariant
            k <= x@.len(),
            k <= y@.len(),
            lex_less(a@, b@) == lex_less(x@.skip(k as int), y@.skip(k as int)),
            x@ == a@,
            y@ == b@,
        decreases x@.len() - k,
    {
        if x[k] != y[k] {
            return x[k] < y[k];
        }
        proof {
            assert(x@.skip(k as int).drop_first() =~= x@.skip(k + 1));
            assert(y@.skip(k as int).drop_first() =~= y@.skip(k + 1));
        }
        k = k + 1;
    }
    k == x.len() && k < y.len()
}

/// In `repair history`, transaction `i` is listed before transaction `j`:
/// newer first, then the larger id first, then the journal order.
pub open spec fn listed_before(created: Seq<i64>, ids: Seq<String>, i: int, j: int) -> bool {
    created[i] > created[j]
        || (created[i] == created[j] && (lex_less(ids[j]@, ids[i]@) || (ids[i]@ == ids[j]@ && i < j)))
}

proof fn lemma_listed_order(created: Seq<i64>, ids: Seq<String>, i: int, j: int, k: int)
    ensures
        !listed_before(created, ids, i, i),
        i != j ==> listed_before(created, ids, i, j) || listed_before(created, ids, j, i),
        listed_before(created, ids, i, j) ==> !listed_before(created, ids, j, i),
        listed_before(created, ids, i, j) && listed_before(created, ids, j, k) ==> listed_before(created, ids, i, k),
{
    lemma_lex_order(ids[i]@, ids[j]@, ids[k]@);
    lemma_lex_order(ids[k]@, ids[j]@, ids[i]@);
    lemma_lex_order(ids[j]@, ids[i]@, ids[k]@);
}

/// `order` lists transactions `0..n` as `repair history` does, keeping the
/// first `limit` of them when a limit is given.
pub open spec fn is_history_order(created: Seq<i64>, ids: Seq<String>, limit: Option<usize>, order: Seq<usize>) -> bool {
    let n = created.len();
    &&& order.len() == match limit { Some(l) => if l < n { l as int } else { n as int }, None => n as int }
    &&& forall|p: int| 0 <= p < order.len() ==> #[trigger] order[p] < n
    &&& forall|p: int, q: int| 0 <= p < q < order.len() ==> listed_before(created, ids, #[trigger] order[p] as int, #[trigger] order[q] as int)
    &&& forall|x: int| 0 <= x < n && !#[trigger] order.contains(x as usize) ==>
            forall|p: int| 0 <= p < order.len() ==> listed_before(created, ids, #[trigger] order[p] as int, x)
}

/// The order `repair history` lists transactions in, as positions into the
/// journal list: newest first, ties broken by the larger transaction id
/// (stable for equal ids), cut to `limit` when one is given.
pub fn history_order(created: &Vec<i64>, ids: &Vec<String>, limit: Option<usize>) -> (r: Vec<usize>)
    requires
        created@.len() == ids@.len(),
    ensures
        is_history_order(created@, ids@, limit, r@),
{
    let n = created.len();
    let wanted = match limit {
        Some(l) => if l < n { l } else { n },
        None => n,
    };
    let mut remaining: Vec<usize> = Vec::new();
    let mut i: usize = 0;
    while i < n
        invariant
            i <= n,
            remaining@.len() == i,
            forall|p: int| 0 <= p < i ==> #[trigger] remaining@[p] == p,
        decreases n - i,
    {
        remaining.push(i);
        i = i + 1;
    }
    proof {
        assert forall|x: int| 0 <= x < n implies #[trigger] remaining@.contains(x as usize) by {
            assert(remaining@[x] == x);
        }
    }
    let mut order: Vec<usize> = Vec::new();
    while order.len() < wanted
        invariant
            n == created@.len(),
            n == ids@.len(),
            wanted <= n,
            order@.len() <= wanted,
            order@.len() + remaining@.len() == n,
            forall|p: int| 0 <= p < order@.len() ==> #[trigger] order@[p] < n,
            forall|p: int| 0 <= p < remaining@.len() ==> #[trigger] remaining@[p] < n,
            forall|p: int, q: int| 0 <= p < q < remaining@.len() ==> #[trigger] remaining@[p] != #[trigger] remaining@[q],
            forall|x: int| #![trigger remaining@.contains(x as usize)] #![trigger order@.contains(x as usize)]
                0 <= x < n ==> (remaining@.contains(x as usize) <==> !order@.contains(x as usize)),
            forall|p: int, q: int| 0 <= p < q < order@.len()
                ==> listed_before(created@, ids@, #[trigger] order@[p] as int, #[trigger] order@[q] as int),
            forall|x: int| 0 <= x < n && !#[trigger] order@.contains(x as usize) ==>
                forall|p: int| 0 <= p < order@.len() ==> listed_before(created@, ids@, #[trigger] order@[p] as int, x),
            wanted == match limit { Some(l) => if l < n { l as int } else { n as int }, None => n as int },
        decreases wanted - order@.len(),
    {
        let m = remaining.len();
        let mut bi: usize = 0;
        let mut k: usize = 1;
        while k < m
            invariant
                m == remaining@.len(),
                0 < m,
                bi < k <= m,
                n == created@.len(),
                n == ids@.len(),
                forall|p: int| 0 <= p < remaining@.len() ==> #[trigger] remaining@[p] < n,
                forall|p: int, q: int| 0 <= p < q < remaining@.len() ==> #[trigger] remaining@[p] != #[trigger] remaining@[q],
                forall|p: int| 0 <= p < k && p != bi
                    ==> listed_before(created@, ids@, remaining@[bi as int] as int, #[trigger] remaining@[p] as int),
            decreases m - k,
        {
            let a = remaining[k];
            let b = remaining[bi];
            let before = created[a] > created[b]
                || (created[a] == created[b] && (text_less(&ids[b], &ids[a]) || (ids[a] == ids[b] && a < b)));
            proof {
                assert(before == listed_before(created@, ids@, a as int, b as int));
                lemma_listed_order(created@, ids@, a as int, b as int, b as int);
            }
            if before {
                proof {
                    assert forall|p: int| 0 <= p < k + 1 && p != k
                        implies listed_before(created@, ids@, a as int, #[trigger] remaining@[p] as int) by {
                        if p != bi {
                            lemma_listed_order(created@, ids@, a as int, b as int, remaining@[p] as int);
                        }
                    }
                }
                bi = k;
            } else {
                proof {
                    assert(a != b);
                }
            }
            k = k + 1;
        }
        let best = remaining[bi];
        let ghost old_order = order@;
        let ghost old_remaining = remaining@;
        proof {
            let bx: int = best as int;
            assert(old_remaining[bi as int] == best);
            assert(old_remaining.contains(bx as usize));
            assert(!old_order.contains(bx as usize));
            assert(!old_order.contains(best));
            assert(forall|p: int| 0 <= p < old_order.len() ==> listed_before(created@, ids@, #[trigger] old_order[p] as int, best as int));
        }
        remaining.remove(bi);
        order.push(best);
        proof {
            assert forall|x: int| #![trigger remaining@.contains(x as usize)] #![trigger order@.contains(x as usize)]
                0 <= x < n implies (remaining@.contains(x as usize) <==> !order@.contains(x as usize)) by {
                if remaining@.contains(x as usize) {
                    let p = choose|p: int| 0 <= p < remaining@.len() && remaining@[p] == x as usize;
                    let q = if p < bi { p } else { p + 1 };
                    assert(old_remaining[q] == x as usize);
                    assert(q != bi);
                    assert(x as usize != best);
                    assert(old_remaining.contains(x as usize));
                    if order@.contains(x as usize) {
                        let r = choose|r: int| 0 <= r < order@.len() && order@[r] == x as usize;
                        if r < old_order.len() {
                            assert(old_order.contains(x as usize));
                        }
                    }
                } else {
                    if x as usize == best {
                        assert(order@[order@.len() - 1] == best);
                    } else {
                        if old_remaining.contains(x as usize) {
                            let q = choose|q: int| 0 <= q < old_remaining.len() && old_remaining[q] == x as usize;
                            assert(q != bi);
                            let p = if q < bi { q } else { q - 1 };
                            assert(remaining@[p] == x as usize);
                            assert(false);
                        }
                        assert(old_order.contains(x as usize));
                        let r = choose|r: int| 0 <= r < old_order.len() && old_order[r] == x as usize;
                        assert(order@[r] == x as usize);
                    }
                }
            }
            assert forall|x: int| 0 <= x < n && !#[trigger] order@.contains(x as usize) implies
                forall|p: int| 0 <= p < order@.len() ==> listed_before(created@, ids@, #[trigger] order@[p] as int, x) by {
                assert(remaining@.contains(x as usize));
                let p = choose|p: int| 0 <= p < remaining@.len() && remaining@[p] == x as usize;
                let q = if p < bi { p } else { p + 1 };
                assert(old_remaining[q] == x as usize);
                assert(q != bi);
                assert(listed_before(created@, ids@, best as int, x));
                assert(!old_order.contains(x as usize)) by {
                    if old_order.contains(x as usize) {
                        let r = choose|r: int| 0 <= r < old_order.len() && old_order[r] == x as usize;
                        assert(order@[r] == x as usize);
                    }
                }
            }
            assert forall|p: int, q: int| 0 <= p < q < order@.len()
                implies listed_before(created@, ids@, #[trigger] order@[p] as int, #[trigger] order@[q] as int) by {
                if q == order@.len() - 1 {
                    assert(order@[q] == best);
                    assert(order@[p] == old_order[p]);
                }
            }
            assert forall|p: int, q: int| 0 <= p < q < remaining@.len() implies #[trigger] remaining@[p] != #[trigger] remaining@[q] by {
                let p2 = if p < bi { p } else { p + 1 };
                let q2 = if q < bi { q } else { q + 1 };
                assert(remaining@[p] == old_remaining[p2]);
                assert(remaining@[q] == old_remaining[q2]);
            }
        }
    }
    order
}
} // verus!
