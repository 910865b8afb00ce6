//! The texts of the RetroArch cheat installer: one install run, and the
//! history of runs as read back from their journals, with what each entry
//! did and whether it can be rolled back.
use vstd::prelude::*;
use crate::text::{decimal, push_str, signed_decimal, signed_text, spec_decimal};

verus! {

/// What installing one cheat file did.
#[derive(Debug, Clone, Copy, PartialEq, Eq, Structural)]
pub enum CheatInstallOutcome {
    InstalledNew,
    AlreadyInstalled,
    ReplacedWithBackup,
    SkippedReplaceNotAllowed,
    SkippedNotEligible,
    SkippedConflict,
    SkippedSourceChanged,
    SkippedDestinationChanged,
    FailedUnsafePath,
    FailedBackup,
    FailedWrite,
    FailedVerification,
}

/// How an outcome is named in the history.
pub open spec fn outcome_name(o: CheatInstallOutcome) -> Seq<char> {
    match o {
        CheatInstallOutcome::InstalledNew => "installed_new"@,
        CheatInstallOutcome::AlreadyInstalled => "already_installed"@,
        CheatInstallOutcome::ReplacedWithBackup => "replaced_with_backup"@,
        CheatInstallOutcome::SkippedReplaceNotAllowed => "skipped_replace_not_allowed"@,
        CheatInstallOutcome::SkippedNotEligible => "skipped_not_eligible"@,
        CheatInstallOutcome::SkippedConflict => "skipped_conflict"@,
        CheatInstallOutcome::SkippedSourceChanged => "skipped_source_changed"@,
        CheatInstallOutcome::SkippedDestinationChanged => "skipped_destination_changed"@,
        CheatInstallOutcome::FailedUnsafePath => "failed_unsafe_path"@,
        CheatInstallOutcome::FailedBackup => "failed_backup"@,
        CheatInstallOutcome::FailedWrite => "failed_write"@,
        CheatInstallOutcome::FailedVerification => "failed_verification"@,
    }
}

/// How an outcome is written in a run's report: its variant's name.
pub open spec fn outcome_variant(o: CheatInstallOutcome) -> Seq<char> {
    match o {
        CheatInstallOutcome::InstalledNew => "InstalledNew"@,
        CheatInstallOutcome::AlreadyInstalled => "AlreadyInstalled"@,
        CheatInstallOutcome::ReplacedWithBackup => "ReplacedWithBackup"@,
        CheatInstallOutcome::SkippedReplaceNotAllowed => "SkippedReplaceNotAllowed"@,
        CheatInstallOutcome::SkippedNotEligible => "SkippedNotEligible"@,
        CheatInstallOutcome::SkippedConflict => "SkippedConflict"@,
        CheatInstallOutcome::SkippedSourceChanged => "SkippedSourceChanged"@,
        CheatInstallOutcome::SkippedDestinationChanged => "SkippedDestinationChanged"@,
        CheatInstallOutcome::FailedUnsafePath => "FailedUnsafePath"@,
        CheatInstallOutcome::FailedBackup => "FailedBackup"@,
        CheatInstallOutcome::FailedWrite => "FailedWrite"@,
        CheatInstallOutcome::FailedVerification => "FailedVerification"@,
    }
}

/// The name of an install outcome.
pub fn install_outcome_name(value: CheatInstallOutcome) -> (r: &'static str)
    ensures
        r@ == outcome_name(value),
{
    match value {
        CheatInstallOutcome::InstalledNew => "installed_new",
        CheatInstallOutcome::AlreadyInstalled => "already_installed",
        CheatInstallOutcome::ReplacedWithBackup => "replaced_with_backup",
        CheatInstallOutcome::SkippedReplaceNotAllowed => "skipped_replace_not_allowed",
        CheatInstallOutcome::SkippedNotEligible => "skipped_not_eligible",
        CheatInstallOutcome::SkippedConflict => "skipped_conflict",
        CheatInstallOutcome::SkippedSourceChanged => "skipped_source_changed",
        CheatInstallOutcome::SkippedDestinationChanged => "skipped_destination_changed",
        CheatInstallOutcome::FailedUnsafePath => "failed_unsafe_path",
        CheatInstallOutcome::FailedBackup => "failed_backup",
        CheatInstallOutcome::FailedWrite => "failed_write",
        CheatInstallOutcome::FailedVerification => "failed_verification",
    }
}

/// The variant name of an install outcome.
pub fn install_outcome_variant(value: CheatInstallOutcome) -> (r: &'static str)
    ensures
        r@ == outcome_variant(value),
{
    match value {
        CheatInstallOutcome::InstalledNew => "InstalledNew",
        CheatInstallOutcome::AlreadyInstalled => "AlreadyInstalled",
        CheatInstallOutcome::ReplacedWithBackup => "ReplacedWithBackup",
        CheatInstallOutcome::SkippedReplaceNotAllowed => "SkippedReplaceNotAllowed",
        CheatInstallOutcome::SkippedNotEligible => "SkippedNotEligible",
        CheatInstallOutcome::SkippedConflict => "SkippedConflict",
        CheatInstallOutcome::SkippedSourceChanged => "SkippedSourceChanged",
        CheatInstallOutcome::SkippedDestinationChanged => "SkippedDestinationChanged",
        CheatInstallOutcome::FailedUnsafePath => "FailedUnsafePath",
        CheatInstallOutcome::FailedBackup => "FailedBackup",
        CheatInstallOutcome::FailedWrite => "FailedWrite",
        CheatInstallOutcome::FailedVerification => "FailedVerification",
    }
}

/// What is found at an installed cheat's destination now.
#[derive(Debug, Clone, Copy, PartialEq, Eq, Structural)]
pub enum CheatDestinationAssessment {
    UnchangedSinceInstall,
    Missing,
    Changed,
    Inaccessible,
    UnsafePath,
    Unknown,
}

/// How a destination assessment is named.
pub open spec fn destination_name(d: CheatDestinationAssessment) -> Seq<char> {
    match d {
        CheatDestinationAssessment::UnchangedSinceInstall => "unchanged_since_install"@,
        CheatDestinationAssessment::Missing => "missing"@,
        CheatDestinationAssessment::Changed => "changed"@,
        CheatDestinationAssessment::Inaccessible => "inaccessible"@,
        CheatDestinationAssessment::UnsafePath => "unsafe_path"@,
        CheatDestinationAssessment::Unknown => "unknown"@,
    }
}

/// The name of a destination assessment.
pub fn destination_assessment_name(value: CheatDestinationAssessment) -> (r: &'static str)
    ensures
        r@ == destination_name(value),
{
    match value {
        CheatDestinationAssessment::UnchangedSinceInstall => "unchanged_since_install",
        CheatDestinationAssessment::Missing => "missing",
        CheatDestinationAssessment::Changed => "changed",
        CheatDestinationAssessment::Inaccessible => "inaccessible",
        CheatDestinationAssessment::UnsafePath => "unsafe_path",
        CheatDestinationAssessment::Unknown => "unknown",
    }
}

/// What is found of a replaced file's backup now.
#[derive(Debug, Clone, Copy, PartialEq, Eq, Structural)]
pub enum CheatBackupAssessment {
    NotApplicable,
    PresentAndValid,
    Missing,
    Changed,
    Inaccessible,
    UnsafePath,
    Unknown,
}

/// How a backup assessment is named.
pub open spec fn backup_name(b: CheatBackupAssessment) -> Seq<char> {
    match b {
        CheatBackupAssessment::NotApplicable => "not_applicable"@,
        CheatBackupAssessment::PresentAndValid => "present_and_valid"@,
        CheatBackupAssessment::Missing => "missing"@,
        CheatBackupAssessment::Changed => "changed"@,
        CheatBackupAssessment::Inaccessible => "inaccessible"@,
        CheatBackupAssessment::UnsafePath => "unsafe_path"@,
        CheatBackupAssessment::Unknown => "unknown"@,
    }
}

/// The name of a backup assessment.
pub fn backup_assessment_name(value: CheatBackupAssessment) -> (r: &'static str)
    ensures
        r@ == backup_name(value),
{
    match value {
        CheatBackupAssessment::NotApplicable => "not_applicable",
        CheatBackupAssessment::PresentAndValid => "present_and_valid",
        CheatBackupAssessment::Missing => "missing",
        CheatBackupAssessment::Changed => "changed",
        CheatBackupAssessment::Inaccessible => "inaccessible",
        CheatBackupAssessment::UnsafePath => "unsafe_path",
        CheatBackupAssessment::Unknown => "unknown",
    }
}

/// Whether an installed entry can be rolled back now, and if not why.
#[derive(Debug, Clone, Copy, PartialEq, Eq, Structural)]
pub enum CheatRollbackAvailability {
    Available,
    Unnecessary,
    AlreadyCompleted,
    BlockedDestinationChanged,
    BlockedMissingBackup,
    BlockedBackupChanged,
    BlockedUnsafePath,
    BlockedInvalidJournal,
    Unknown,
}

/// How a rollback availability is named.
pub open spec fn rollback_name(a: CheatRollbackAvailability) -> Seq<char> {
    match a {
        CheatRollbackAvailability::Available => "available"@,
        CheatRollbackAvailability::Unnecessary => "unnecessary"@,
        CheatRollbackAvailability::AlreadyCompleted => "already_completed"@,
        CheatRollbackAvailability::BlockedDestinationChanged => "blocked_destination_changed"@,
        CheatRollbackAvailability::BlockedMissingBackup => "blocked_missing_backup"@,
        CheatRollbackAvailability::BlockedBackupChanged => "blocked_backup_changed"@,
        CheatRollbackAvailability::BlockedUnsafePath => "blocked_unsafe_path"@,
        CheatRollbackAvailability::BlockedInvalidJournal => "blocked_invalid_journal"@,
        CheatRollbackAvailability::Unknown => "unknown"@,
    }
}

/// The name of a rollback availability.
pub fn rollback_availability_name(value: CheatRollbackAvailability) -> (r: &'static str)
    ensures
        r@ == rollback_name(value),
{
    match value {
        CheatRollbackAvailability::Available => "available",
        CheatRollbackAvailability::Unnecessary => "unnecessary",
        CheatRollbackAvailability::AlreadyCompleted => "already_completed",
        CheatRollbackAvailability::BlockedDestinationChanged => "blocked_destination_changed",
        CheatRollbackAvailability::BlockedMissingBackup => "blocked_missing_backup",
        CheatRollbackAvailability::BlockedBackupChanged => "blocked_backup_changed",
        CheatRollbackAvailability::BlockedUnsafePath => "blocked_unsafe_path",
        CheatRollbackAvailability::BlockedInvalidJournal => "blocked_invalid_journal",
        CheatRollbackAvailability::Unknown => "unknown",
    }
}

/// The counts of an install run.
#[derive(Debug, Clone, Copy, PartialEq, Eq, Structural)]
pub struct InstallSummaryView {
    pub requested: u64,
    pub eligible: u64,
    pub installed_new: u64,
    pub already_installed: u64,
    pub replaced: u64,
    pub skipped: u64,
    pub failed: u64,
    pub backups_created: u64,
    pub writes_required: u64,
    pub writes_attempted: u64,
    pub writes_succeeded: u64,
    pub dry_run_actions: u64,
}

/// One cheat file of an install run.
#[derive(Debug, Clone, PartialEq, Eq)]
pub struct InstallEntryView {
    pub source_path: String,
    pub outcome: CheatInstallOutcome,
    pub reason_code: String,
    pub applied: bool,
    pub destination_path: Option<String>,
    pub backup_path: Option<String>,
    pub resulting_destination_hash: Option<String>,
    pub detail: Vec<String>,
}

/// An install run and where its journal went.
#[derive(Debug, Clone, PartialEq, Eq)]
pub struct CheatInstallRunView {
    pub schema_version: u64,
    pub run_id: String,
    pub dry_run: bool,
    pub allow_replace_different: bool,
    pub destination_root: Option<String>,
    pub catalogue_source: String,
    /// The run's status, by name.
    pub status: String,
    pub summary: InstallSummaryView,
    pub entries: Vec<InstallEntryView>,
    pub journal_path: Option<String>,
    pub journal_error: Option<String>,
}

/// A line: the text and a newline.
pub open spec fn ln(t: Seq<char>) -> Seq<char> {
    t + "\n"@
}

/// `true` or `false`.
pub open spec fn bool_text(b: bool) -> Seq<char> {
    if b { "true"@ } else { "false"@ }
}

/// An optional labelled line.
pub open spec fn optional_ln(label: Seq<char>, v: Option<String>) -> Seq<char> {
    match v {
        Some(s) => ln(label + s@),
        None => Seq::empty(),
    }
}

/// The first lines of a run: its format, id and mode.
pub open spec fn run_id_lines(r: CheatInstallRunView) -> Seq<char> {
    ln("EmuWiz RetroArch Cheat Installer"@)
        + ln("Run format: "@ + spec_decimal(r.schema_version as nat))
        + ln("Run ID: "@ + r.run_id@)
        + ln("Mode: "@ + if r.dry_run { "dry-run (no writes performed)"@ } else { "apply"@ })
        + ln("Replace different content: "@ + bool_text(r.allow_replace_different))
}

/// The lines that follow: the destination, the catalogue and the status.
pub open spec fn run_source_lines(r: CheatInstallRunView) -> Seq<char> {
    optional_ln("Destination root: "@, r.destination_root)
        + ln("Catalogue: "@ + r.catalogue_source@)
        + ln("Status: "@ + r.status@)
}

/// The first lines of a run: its id, mode, destination and catalogue.
pub open spec fn run_head(r: CheatInstallRunView) -> Seq<char> {
    run_id_lines(r) + run_source_lines(r)
}

/// The first counts line of a run.
pub open spec fn outcome_counts_ln(s: InstallSummaryView) -> Seq<char> {
    ln("Requested: "@ + spec_decimal(s.requested as nat) + " | eligible: "@ + spec_decimal(s.eligible as nat)
        + " | installed_new: "@ + spec_decimal(s.installed_new as nat) + " | already_installed: "@
        + spec_decimal(s.already_installed as nat) + " | replaced: "@ + spec_decimal(s.replaced as nat)
        + " | skipped: "@ + spec_decimal(s.skipped as nat) + " | failed: "@ + spec_decimal(s.failed as nat))
}

/// The second counts line of a run.
pub open spec fn write_counts_ln(s: InstallSummaryView) -> Seq<char> {
    ln("Backups created: "@ + spec_decimal(s.backups_created as nat) + " | writes required: "@
        + spec_decimal(s.writes_required as nat) + " | writes attempted: "@ + spec_decimal(s.writes_attempted as nat)
        + " | writes succeeded: "@ + spec_decimal(s.writes_succeeded as nat) + " | dry-run actions: "@
        + spec_decimal(s.dry_run_actions as nat))
}

/// Detail lines of an entry.
pub open spec fn detail_lines(v: Seq<String>) -> Seq<char>
    decreases v.len(),
{
    if v.len() == 0 { Seq::empty() } else { detail_lines(v.drop_last()) + ln("  detail: "@ + v.last()@) }
}

/// The first lines of an entry: the source and its outcome.
pub open spec fn install_entry_head(e: InstallEntryView) -> Seq<char> {
    ln(Seq::empty())
        + ln(e.source_path@)
        + ln("  outcome: "@ + outcome_variant(e.outcome) + " ("@ + e.reason_code@ + ") | applied: "@ + bool_text(e.applied))
}

/// The paths of an entry, where known.
pub open spec fn install_entry_paths(e: InstallEntryView) -> Seq<char> {
    optional_ln("  destination: "@, e.destination_path)
        + optional_ln("  backup: "@, e.backup_path)
        + optional_ln("  resulting hash: "@, e.resulting_destination_hash)
}

/// One entry of a run.
pub open spec fn install_entry_text(e: InstallEntryView) -> Seq<char> {
    install_entry_head(e) + install_entry_paths(e) + detail_lines(e.detail@)
}

/// Every entry of a run.
pub open spec fn install_entry_texts(v: Seq<InstallEntryView>) -> Seq<char>
    decreases v.len(),
{
    if v.len() == 0 { Seq::empty() } else { install_entry_texts(v.drop_last()) + install_entry_text(v.last()) }
}

/// The journal lines: where it was written, or why it was not.
pub open spec fn journal_text(r: CheatInstallRunView) -> Seq<char> {
    (match r.journal_path { Some(p) => ln(Seq::empty()) + ln("Journal: "@ + p@), None => Seq::empty() })
        + match r.journal_error { Some(e) => ln(Seq::empty()) + ln("Journal write failed: "@ + e@), None => Seq::empty() }
}

/// The whole text of an install run.
pub open spec fn install_run_text(r: CheatInstallRunView) -> Seq<char> {
    run_head(r) + outcome_counts_ln(r.summary) + write_counts_ln(r.summary) + install_entry_texts(r.entries@)
        + journal_text(r)
}

fn line(out: &mut String, t: &str)
    ensures
        final(out)@ == old(out)@ + ln(t@),
{
    push_str(out, t);
    push_str(out, "\n");
    proof {
        assert(final(out)@ =~= old(out)@ + ln(t@));
    }
}

fn blank(out: &mut String)
    ensures
        final(out)@ == old(out)@ + ln(Seq::empty()),
{
    push_str(out, "\n");
    proof {
        assert(final(out)@ =~= old(out)@ + ln(Seq::empty()));
    }
}

fn push_bool(out: &mut String, b: bool)
    ensures
        final(out)@ == old(out)@ + bool_text(b),
{
    push_str(out, if b { "true" } else { "false" });
}

fn push_optional(out: &mut String, label: &str, v: &Option<String>)
    ensures
        final(out)@ == old(out)@ + optional_ln(label@, *v),
{
    match v {
        Some(s) => {
            push_str(out, label);
            line(out, s.as_str());
            proof {
                assert(final(out)@ =~= old(out)@ + ln(label@ + s@));
            }
        },
        None => {
            proof {
                assert(out@ =~= out@ + Seq::<char>::empty());
            }
        },
    }
}

fn push_lines(out: &mut String, label: &str, v: &Vec<String>)
    ensures
        final(out)@ == old(out)@ + labelled_lines(label@, v@),
{
    let ghost head = out@;
    let mut k: usize = 0;
    while k < v.len()
        invariant
            k <= v@.len(),
            out@ == head + labelled_lines(label@, v@.take(k as int)),
        decreases v@.len() - k,
    {
        proof {
            assert(v@.take(k + 1).drop_last() =~= v@.take(k as int));
            assert(v@.take(k + 1).last() == v@[k as int]);
        }
        let ghost before = out@;
        push_str(out, label);
        line(out, v[k].as_str());
        proof {
            assert(out@ =~= before + ln(label@ + v@[k as int]@));
        }
        k = k + 1;
    }
    proof {
        assert(v@.take(v@.len() as int) =~= v@);
    }
}

/// Lines with a common label.
pub open spec fn labelled_lines(label: Seq<char>, v: Seq<String>) -> Seq<char>
    decreases v.len(),
{
    if v.len() == 0 { Seq::empty() } else { labelled_lines(label, v.drop_last()) + ln(label + v.last()@) }
}

proof fn lemma_detail_lines(v: Seq<String>)
    ensures
        detail_lines(v) == labelled_lines("  detail: "@, v),
    decreases v.len(),
{
    if v.len() > 0 {
        lemma_detail_lines(v.drop_last());
    }
}

fn push_run_id_lines(out: &mut String, r: &CheatInstallRunView)
    ensures
        final(out)@ == old(out)@ + run_id_lines(*r),
{
    let ghost start = out@;
    line(out, "EmuWiz RetroArch Cheat Installer");
    push_str(out, "Run format: ");
    line(out, decimal(r.schema_version).as_str());
    push_str(out, "Run ID: ");
    line(out, r.run_id.as_str());
    push_str(out, "Mode: ");
    line(out, if r.dry_run { "dry-run (no writes performed)" } else { "apply" });
    push_str(out, "Replace different content: ");
    push_bool(out, r.allow_replace_different);
    push_str(out, "\n");
    proof {
        assert(out@ =~= start + run_id_lines(*r));
    }
}

fn push_run_head(out: &mut String, r: &CheatInstallRunView)
    ensures
        final(out)@ == old(out)@ + run_head(*r),
{
    let ghost start = out@;
    push_run_id_lines(out, r);
    push_optional(out, "Destination root: ", &r.destination_root);
    push_str(out, "Catalogue: ");
    line(out, r.catalogue_source.as_str());
    push_str(out, "Status: ");
    line(out, r.status.as_str());
    proof {
        assert(out@ =~= start + run_head(*r));
    }
}

fn push_outcome_counts(out: &mut String, s: &InstallSummaryView)
    ensures
        final(out)@ == old(out)@ + outcome_counts_ln(*s),
{
    let ghost start = out@;
    push_str(out, "Requested: ");
    push_str(out, decimal(s.requested).as_str());
    push_str(out, " | eligible: ");
    push_str(out, decimal(s.eligible).as_str());
    push_str(out, " | installed_new: ");
    push_str(out, decimal(s.installed_new).as_str());
    push_str(out, " | already_installed: ");
    push_str(out, decimal(s.already_installed).as_str());
    push_str(out, " | replaced: ");
    push_str(out, decimal(s.replaced).as_str());
    push_str(out, " | skipped: ");
    push_str(out, decimal(s.skipped).as_str());
    push_str(out, " | failed: ");
    line(out, decimal(s.failed).as_str());
    proof {
        assert(out@ =~= start + outcome_counts_ln(*s));
    }
}

fn push_write_counts(out: &mut String, s: &InstallSummaryView)
    ensures
        final(out)@ == old(out)@ + write_counts_ln(*s),
{
    let ghost start = out@;
    push_str(out, "Backups created: ");
    push_str(out, decimal(s.backups_created).as_str());
    push_str(out, " | writes required: ");
    push_str(out, decimal(s.writes_required).as_str());
    push_str(out, " | writes attempted: ");
    push_str(out, decimal(s.writes_attempted).as_str());
    push_str(out, " | writes succeeded: ");
    push_str(out, decimal(s.writes_succeeded).as_str());
    push_str(out, " | dry-run actions: ");
    line(out, decimal(s.dry_run_actions).as_str());
    proof {
        assert(out@ =~= start + write_counts_ln(*s));
    }
}

fn push_install_entry_head(out: &mut String, e: &InstallEntryView)
    ensures
        final(out)@ == old(out)@ + install_entry_head(*e),
{
    let ghost start = out@;
    blank(out);
    line(out, e.source_path.as_str());
    push_str(out, "  outcome: ");
    push_str(out, install_outcome_variant(e.outcome));
    push_str(out, " (");
    push_str(out, e.reason_code.as_str());
    push_str(out, ") | applied: ");
    push_bool(out, e.applied);
    push_str(out, "\n");
    proof {
        assert(out@ =~= start + install_entry_head(*e));
    }
}

fn push_install_entry_paths(out: &mut String, e: &InstallEntryView)
    ensures
        final(out)@ == old(out)@ + install_entry_paths(*e),
{
    let ghost start = out@;
    push_optional(out, "  destination: ", &e.destination_path);
    push_optional(out, "  backup: ", &e.backup_path);
    push_optional(out, "  resulting hash: ", &e.resulting_destination_hash);
    proof {
        assert(out@ =~= start + install_entry_paths(*e));
    }
}

fn push_install_entry(out: &mut String, e: &InstallEntryView)
    ensures
        final(out)@ == old(out)@ + install_entry_text(*e),
{
    let ghost start = out@;
    push_install_entry_head(out, e);
    push_install_entry_paths(out, e);
    push_lines(out, "  detail: ", &e.detail);
    proof {
        lemma_detail_lines(e.detail@);
        assert(out@ =~= start + install_entry_text(*e));
    }
}

fn push_journal(out: &mut String, r: &CheatInstallRunView)
    ensures
        final(out)@ == old(out)@ + journal_text(*r),
{
    let ghost start = out@;
    match &r.journal_path {
        Some(p) => {
            blank(out);
            push_str(out, "Journal: ");
            line(out, p.as_str());
        },
        None => {},
    }
    let ghost mid = out@;
    match &r.journal_error {
        Some(e) => {
            blank(out);
            push_str(out, "Journal write failed: ");
            line(out, e.as_str());
        },
        None => {},
    }
    proof {
        assert(mid =~= start + match r.journal_path {
            Some(p) => ln(Seq::empty()) + ln("Journal: "@ + p@),
            None => Seq::<char>::empty(),
        });
        assert(out@ =~= start + journal_text(*r));
    }
}

/// The report of one cheat install run: its id and mode, whether different
/// content may be replaced, the destination and catalogue, the status and
/// counts, each cheat file's outcome, and where the journal was written or
/// why it was not.
pub fn format_cheat_install_run(run: &CheatInstallRunView) -> (r: String)
    ensures
        r@ == install_run_text(*run),
{
    let mut out = String::new();
    push_run_head(&mut out, run);
    push_outcome_counts(&mut out, &run.summary);
    push_write_counts(&mut out, &run.summary);
    let ghost head = out@;
    let v = &run.entries;
    let mut k: usize = 0;
    while k < v.len()
        invariant
            k <= v@.len(),
            out@ == head + install_entry_texts(v@.take(k as int)),
        decreases v@.len() - k,
    {
        proof {
            assert(v@.take(k + 1).drop_last() =~= v@.take(k as int));
            assert(v@.take(k + 1).last() == v@[k as int]);
        }
        push_install_entry(&mut out, &v[k]);
        k = k + 1;
    }
    proof {
        assert(v@.take(v@.len() as int) =~= v@);
    }
    push_journal(&mut out, run);
    out
}

/// What is known of a run's rollback journal.
#[derive(Debug, Clone, PartialEq, Eq)]
pub struct RollbackJournalView {
    /// Whether more than one rollback journal could belong to the run.
    pub ambiguous: bool,
    pub exists: bool,
    pub journal_path: Option<String>,
    pub completed_successfully: Option<bool>,
}

/// One installed entry as read back from a run's journal.
#[derive(Debug, Clone, PartialEq, Eq)]
pub struct InspectionEntryView {
    pub display_title: Option<String>,
    pub platform: Option<String>,
    pub source_path: String,
    pub destination_path: Option<String>,
    pub original_outcome: CheatInstallOutcome,
    pub destination: CheatDestinationAssessment,
    pub backup: CheatBackupAssessment,
    pub rollback_availability: CheatRollbackAvailability,
    pub rollback_reasons: Vec<String>,
}

/// One install run as read back from its journal.
#[derive(Debug, Clone, PartialEq, Eq)]
pub struct CheatInspectionView {
    pub run_id: String,
    pub journal_path: String,
    pub started_at_unix_seconds: i64,
    pub catalogue_source: String,
    pub destination_root: Option<String>,
    /// The install status, by name.
    pub install_status: String,
    pub rollback: RollbackJournalView,
    pub entries: Vec<InspectionEntryView>,
    pub warnings: Vec<String>,
}

/// A journal that could not be read while listing the history.
#[derive(Debug, Clone, PartialEq, Eq)]
pub struct HistoryWarningView {
    pub code: String,
    pub message: String,
    pub path: String,
}

/// A path that may be unknown.
pub open spec fn or_unknown(v: Option<String>) -> Seq<char> {
    match v {
        Some(s) => s@,
        None => "unknown"@,
    }
}

/// The first lines of an inspected run.
pub open spec fn inspection_head(i: CheatInspectionView) -> Seq<char> {
    ln("Run "@ + i.run_id@)
        + ln("  journal: "@ + i.journal_path@)
        + ln("  created: "@ + signed_decimal(i.started_at_unix_seconds as int))
        + ln("  catalogue: "@ + i.catalogue_source@)
        + ln("  destination root: "@ + or_unknown(i.destination_root))
        + ln("  install status: "@ + i.install_status@)
        + ln("  entries: "@ + spec_decimal(i.entries@.len()))
}

/// The rollback journal line.
pub open spec fn rollback_journal_ln(r: RollbackJournalView) -> Seq<char> {
    if r.ambiguous {
        ln("  rollback journal: ambiguous association"@)
    } else if r.exists {
        ln("  rollback journal: "@ + or_unknown(r.journal_path) + " ("@
            + (if r.completed_successfully == Some(true) {
                "completed successfully"@
            } else {
                "present, not validated as completed"@
            }) + ")"@)
    } else {
        ln("  rollback journal: none"@)
    }
}

/// One inspected entry, numbered from one.
pub open spec fn inspection_entry_text(number: nat, e: InspectionEntryView) -> Seq<char> {
    inspection_entry_ident(number, e)
        + inspection_entry_state(e)
        + labelled_lines("        reason: "@, e.rollback_reasons@)
}

/// Which entry it is: its number, title, platform, source and destination.
pub open spec fn inspection_entry_ident(number: nat, e: InspectionEntryView) -> Seq<char> {
    ln("  ["@ + spec_decimal(number) + "] "@ + match e.display_title { Some(t) => t@, None => "unknown title"@ })
        + ln("      platform: "@ + or_unknown(e.platform))
        + ln("      source: "@ + e.source_path@)
        + ln("      destination: "@ + or_unknown(e.destination_path))
}

/// What an inspected entry did and what is found of it now.
pub open spec fn inspection_entry_state(e: InspectionEntryView) -> Seq<char> {
    ln("      install action: "@ + outcome_name(e.original_outcome))
        + ln("      current destination: "@ + destination_name(e.destination))
        + ln("      backup: "@ + backup_name(e.backup))
        + ln("      rollback: "@ + rollback_name(e.rollback_availability))
}

/// Every inspected entry, numbered from one.
pub open spec fn inspection_entries(v: Seq<InspectionEntryView>) -> Seq<char>
    decreases v.len(),
{
    if v.len() == 0 {
        Seq::empty()
    } else {
        inspection_entries(v.drop_last()) + inspection_entry_text(v.len(), v.last())
    }
}

/// The whole text of an inspected run.
pub open spec fn inspection_text(i: CheatInspectionView) -> Seq<char> {
    inspection_head(i) + rollback_journal_ln(i.rollback) + inspection_entries(i.entries@)
        + labelled_lines("  warning: "@, i.warnings@)
}

/// Every inspected run, each after a blank line.
pub open spec fn inspection_texts(v: Seq<CheatInspectionView>) -> Seq<char>
    decreases v.len(),
{
    if v.len() == 0 { Seq::empty() } else { inspection_texts(v.drop_last()) + "\n"@ + inspection_text(v.last()) }
}

/// The history's warning lines.
pub open spec fn history_warning_lines(v: Seq<HistoryWarningView>) -> Seq<char>
    decreases v.len(),
{
    if v.len() == 0 {
        Seq::empty()
    } else {
        history_warning_lines(v.drop_last()) + ln("  - "@ + v.last().code@ + ": "@ + v.last().message@ + " ("@
            + v.last().path@ + ")"@)
    }
}

/// The whole cheat installation history.
pub open spec fn history_text(journal_root: Seq<char>, entries: Seq<CheatInspectionView>, warnings: Seq<HistoryWarningView>) -> Seq<char> {
    "RetroArch cheat installation history\n  journal root: "@ + journal_root + "\n  runs: "@ + spec_decimal(entries.len())
        + "\n"@
        + (if entries.len() == 0 { "  No installation journals found.\n"@ } else { Seq::empty() })
        + inspection_texts(entries)
        + if warnings.len() == 0 { Seq::empty() } else { "\nWarnings:\n"@ + history_warning_lines(warnings) }
}

fn push_inspection_head(out: &mut String, i: &CheatInspectionView)
    ensures
        final(out)@ == old(out)@ + inspection_head(*i),
{
    let ghost start = out@;
    push_str(out, "Run ");
    line(out, i.run_id.as_str());
    push_str(out, "  journal: ");
    line(out, i.journal_path.as_str());
    push_str(out, "  created: ");
    line(out, signed_text(i.started_at_unix_seconds).as_str());
    push_str(out, "  catalogue: ");
    line(out, i.catalogue_source.as_str());
    push_str(out, "  destination root: ");
    match &i.destination_root {
        Some(d) => line(out, d.as_str()),
        None => line(out, "unknown"),
    }
    push_str(out, "  install status: ");
    line(out, i.install_status.as_str());
    push_str(out, "  entries: ");
    line(out, decimal(i.entries.len() as u64).as_str());
    proof {
        assert(out@ =~= start + inspection_head(*i));
    }
}

fn push_rollback_journal(out: &mut String, r: &RollbackJournalView)
    ensures
        final(out)@ == old(out)@ + rollback_journal_ln(*r),
{
    let ghost start = out@;
    if r.ambiguous {
        line(out, "  rollback journal: ambiguous association");
    } else if r.exists {
        push_str(out, "  rollback journal: ");
        match &r.journal_path {
            Some(p) => push_str(out, p.as_str()),
            None => push_str(out, "unknown"),
        }
        push_str(out, " (");
        let completed = match r.completed_successfully {
            Some(c) => c,
            None => false,
        };
        push_str(out, if completed { "completed successfully" } else { "present, not validated as completed" });
        line(out, ")");
    } else {
        line(out, "  rollback journal: none");
    }
    proof {
        assert(out@ =~= start + rollback_journal_ln(*r));
    }
}

fn push_inspection_entry_state(out: &mut String, e: &InspectionEntryView)
    ensures
        final(out)@ == old(out)@ + inspection_entry_state(*e),
{
    let ghost start = out@;
    push_str(out, "      install action: ");
    line(out, install_outcome_name(e.original_outcome));
    push_str(out, "      current destination: ");
    line(out, destination_assessment_name(e.destination));
    push_str(out, "      backup: ");
    line(out, backup_assessment_name(e.backup));
    push_str(out, "      rollback: ");
    line(out, rollback_availability_name(e.rollback_availability));
    proof {
        assert(out@ =~= start + inspection_entry_state(*e));
    }
}

fn push_or_line(out: &mut String, label: &str, v: &Option<String>, absent: &str)
    ensures
        final(out)@ == old(out)@ + ln(label@ + match *v { Some(t) => t@, None => absent@ }),
{
    let ghost start = out@;
    push_str(out, label);
    match v {
        Some(t) => line(out, t.as_str()),
        None => line(out, absent),
    }
    proof {
        assert(out@ =~= start + ln(label@ + match *v { Some(t) => t@, None => absent@ }));
    }
}

fn push_inspection_entry_ident(out: &mut String, number: u64, e: &InspectionEntryView)
    ensures
        final(out)@ == old(out)@ + inspection_entry_ident(number as nat, *e),
{
    let ghost start = out@;
    let mut lead = "  [".to_owned();
    push_str(&mut lead, decimal(number).as_str());
    push_str(&mut lead, "] ");
    push_or_line(out, lead.as_str(), &e.display_title, "unknown title");
    push_or_line(out, "      platform: ", &e.platform, "unknown");
    push_str(out, "      source: ");
    line(out, e.source_path.as_str());
    push_or_line(out, "      destination: ", &e.destination_path, "unknown");
    proof {
        assert(out@ =~= start + inspection_entry_ident(number as nat, *e));
    }
}

fn push_inspection_entry(out: &mut String, number: u64, e: &InspectionEntryView)
    ensures
        final(out)@ == old(out)@ + inspection_entry_text(number as nat, *e),
{
    let ghost start = out@;
    push_inspection_entry_ident(out, number, e);
    push_inspection_entry_state(out, e);
    push_lines(out, "        reason: ", &e.rollback_reasons);
    proof {
        assert(out@ =~= start + inspection_entry_text(number as nat, *e));
    }
}

/// The text of one install run as read back from its journal: the run, its
/// rollback journal, each entry numbered from one with what it did, what is
/// at its destination and backup now and whether it can be rolled back
/// (with why not), then the journal's warnings.
pub fn format_cheat_inspection(inspection: &CheatInspectionView) -> (r: String)
    ensures
        r@ == inspection_text(*inspection),
{
    let mut out = String::new();
    push_inspection_head(&mut out, inspection);
    push_rollback_journal(&mut out, &inspection.rollback);
    let ghost head = out@;
    let v = &inspection.entries;
    let mut k: usize = 0;
    while k < v.len()
        invariant
            k <= v@.len(),
            out@ == head + inspection_entries(v@.take(k as int)),
        decreases v@.len() - k,
    {
        proof {
            assert(v@.take(k + 1).drop_last() =~= v@.take(k as int));
            assert(v@.take(k + 1).last() == v@[k as int]);
            assert(v@.take(k + 1).len() == k + 1);
        }
        push_inspection_entry(&mut out, (k + 1) as u64, &v[k]);
        k = k + 1;
    }
    proof {
        assert(v@.take(v@.len() as int) =~= v@);
    }
    push_lines(&mut out, "  warning: ", &inspection.warnings);
    out
}

/// The cheat installation history: the journal root and how many runs it
/// holds (or that it holds none), each run as read back from its journal,
/// then the journals that could not be read.
pub fn format_cheat_history(journal_root: &str, entries: &Vec<CheatInspectionView>, warnings: &Vec<HistoryWarningView>) -> (r: String)
    ensures
        r@ == history_text(journal_root@, entries@, warnings@),
{
    let mut out = "RetroArch cheat installation history\n  journal root: ".to_owned();
    push_str(&mut out, journal_root);
    push_str(&mut out, "\n  runs: ");
    push_str(&mut out, decimal(entries.len() as u64).as_str());
    push_str(&mut out, "\n");
    if entries.len() == 0 {
        push_str(&mut out, "  No installation journals found.\n");
    }
    let ghost head = out@;
    let mut k: usize = 0;
    while k < entries.len()
        invariant
            k <= entries@.len(),
            out@ == head + inspection_texts(entries@.take(k as int)),
        decreases entries@.len() - k,
    {
        proof {
            assert(entries@.take(k + 1).drop_last() =~= entries@.take(k as int));
            assert(entries@.take(k + 1).last() == entries@[k as int]);
        }
        push_str(&mut out, "\n");
        let text = format_cheat_inspection(&entries[k]);
        push_str(&mut out, text.as_str());
        proof {
            assert(out@ =~= head + inspection_texts(entries@.take(k + 1)));
        }
        k = k + 1;
    }
    proof {
        assert(entries@.take(entries@.len() as int) =~= entries@);
    }
    let ghost body = out@;
    if warnings.len() > 0 {
        push_str(&mut out, "\nWarnings:\n");
        let ghost wh = out@;
        let mut j: usize = 0;
        while j < warnings.len()
            invariant
                j <= warnings@.len(),
                out@ == wh + history_warning_lines(warnings@.take(j as int)),
            decreases warnings@.len() - j,
        {
            proof {
                assert(warnings@.take(j + 1).drop_last() =~= warnings@.take(j as int));
                assert(warnings@.take(j + 1).last() == warnings@[j as int]);
            }
            let ghost before = out@;
            let w = &warnings[j];
            push_str(&mut out, "  - ");
            push_str(&mut out, w.code.as_str());
            push_str(&mut out, ": ");
            push_str(&mut out, w.message.as_str());
            push_str(&mut out, " (");
            push_str(&mut out, w.path.as_str());
            line(&mut out, ")");
            proof {
                assert(out@ =~= before + ln("  - "@ + w.code@ + ": "@ + w.message@ + " ("@ + w.path@ + ")"@));
            }
            j = j + 1;
        }
        proof {
            assert(warnings@.take(warnings@.len() as int) =~= warnings@);
        }
    }
    proof {
        assert(out@ =~= history_text(journal_root@, entries@, warnings@));
    }
    out
}

/// A cheat rollback run: its status, the install run it undid, its counts
/// and where its journal went.
#[derive(Debug, Clone, PartialEq, Eq)]
pub struct CheatRollbackRunView {
    /// The run's status, by name.
    pub status: String,
    pub original_install_run_id: String,
    pub requested: u64,
    pub removed: u64,
    pub restored: u64,
    pub already_restored: u64,
    pub failed: u64,
    pub journal_path: Option<String>,
}

/// The `retroarch-cheat-rollback` text.
pub open spec fn rollback_run_text(r: CheatRollbackRunView) -> Seq<char> {
    ln("RetroArch cheat rollback: "@ + r.status@)
        + ln("  original run: "@ + r.original_install_run_id@)
        + ln("  entries: "@ + spec_decimal(r.requested as nat))
        + ln("  removed: "@ + spec_decimal(r.removed as nat) + "  restored: "@ + spec_decimal(r.restored as nat)
            + "  already restored: "@ + spec_decimal(r.already_restored as nat) + "  failed: "@
            + spec_decimal(r.failed as nat))
        + match r.journal_path {
            Some(p) => ln("  journal: "@ + p@),
            None => Seq::empty(),
        }
}

/// The report of one cheat rollback run.
pub fn format_cheat_rollback_run(run: &CheatRollbackRunView) -> (r: String)
    ensures
        r@ == rollback_run_text(*run),
{
    let mut out = "RetroArch cheat rollback: ".to_owned();
    line(&mut out, run.status.as_str());
    push_str(&mut out, "  original run: ");
    line(&mut out, run.original_install_run_id.as_str());
    push_str(&mut out, "  entries: ");
    line(&mut out, decimal(run.requested).as_str());
    push_str(&mut out, "  removed: ");
    push_str(&mut out, decimal(run.removed).as_str());
    push_str(&mut out, "  restored: ");
    push_str(&mut out, decimal(run.restored).as_str());
    push_str(&mut out, "  already restored: ");
    push_str(&mut out, decimal(run.already_restored).as_str());
    push_str(&mut out, "  failed: ");
    line(&mut out, decimal(run.failed).as_str());
    match &run.journal_path {
        Some(p) => {
            push_str(&mut out, "  journal: ");
            line(&mut out, p.as_str());
        },
        None => {},
    }
    proof {
        assert(out@ =~= rollback_run_text(*run));
    }
    out
}

} // verus!
