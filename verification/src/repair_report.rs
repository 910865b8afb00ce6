//! The text of a whole-library repair scan: the counts, the safe renames,
//! the safe duplicate quarantines, and everything that needs a person.
use vstd::prelude::*;
use crate::text::{decimal, push_str, spec_decimal};

verus! {

/// The counts a repair scan reports.
#[derive(Debug, Clone, Copy, PartialEq, Eq, Structural)]
pub struct RepairCounts {
    pub dat_candidates: u64,
    pub ignored_ancillary: u64,
    pub complete_sets: u64,
    pub incomplete_sets: u64,
    pub bad_metadata_sets: u64,
    pub needs_review_sets: u64,
    pub already_canonical: u64,
    pub safe_repairs: u64,
    pub unmatched_candidates: u64,
    pub needs_review: u64,
    pub blocked_repair: u64,
    pub unsupported: u64,
    pub scan_errors: u64,
    pub duplicate_groups_examined: u64,
    pub duplicate_groups_content_proven: u64,
    pub duplicate_quarantine_safe: u64,
    pub duplicate_quarantine_needs_review: u64,
    pub duplicate_same_object_ignored: u64,
    pub duplicate_content_mismatch_refused: u64,
}

/// The kind of one piece of evidence behind a proposal.
#[derive(Debug, Clone, Copy, PartialEq, Eq, Structural)]
pub enum EvidenceKind {
    /// The files were proven to hold the same content.
    DuplicateContent,
    /// Any other evidence.
    Other,
}

/// One repair proposal, as the report shows it.
#[derive(Debug, Clone, PartialEq, Eq)]
pub struct ProposalView {
    pub id: String,
    pub source_path: String,
    /// Where the proposal moves or renames the file, when it does.
    pub destination: Option<String>,
    /// The file a duplicate quarantine keeps.
    pub survivor_path: Option<String>,
    /// Whether the proposal moves a proven duplicate into quarantine.
    pub is_duplicate_quarantine: bool,
    pub safety_label: String,
    pub reason: String,
    pub evidence: Vec<EvidenceKind>,
}

/// A path held back, and why.
#[derive(Debug, Clone, PartialEq, Eq)]
pub struct PathReason {
    pub path: String,
    pub reason: String,
}

/// A set of the DAT, and why it is where it is.
#[derive(Debug, Clone, PartialEq, Eq)]
pub struct SetReason {
    pub game_name: String,
    pub reason: String,
}

/// Everything the report of a repair scan shows.
#[derive(Debug, Clone, PartialEq, Eq)]
pub struct RepairPlanView {
    pub profile: String,
    pub source_display_name: String,
    pub source_id: String,
    pub scan_root: String,
    pub generation: u64,
    pub truncated: bool,
    pub files_scanned: u64,
    pub counts: RepairCounts,
    /// Ignored ancillary files by extension, in order.
    pub ignored_by_extension: Vec<(String, u64)>,
    pub proposals: Vec<ProposalView>,
    pub needs_review: Vec<PathReason>,
    pub blocked: Vec<PathReason>,
    pub unsupported: Vec<PathReason>,
    pub duplicate_needs_review: Vec<PathReason>,
    pub complete_sets: Vec<String>,
    pub incomplete_sets: Vec<SetReason>,
    pub bad_metadata_sets: Vec<SetReason>,
    pub needs_review_sets: Vec<SetReason>,
    pub scan_errors: Vec<String>,
}

/// A line: the text and a newline.
pub open spec fn ln(t: Seq<char>) -> Seq<char> {
    t + "\n"@
}

/// A labelled number on a line.
pub open spec fn count_ln(label: Seq<char>, n: u64) -> Seq<char> {
    ln(label + spec_decimal(n as nat))
}

/// The report's head: what was scanned, and how much.
pub open spec fn head_text(p: RepairPlanView) -> Seq<char> {
    ln("Whole-Library Repair Scan"@)
        + ln("  Profile: "@ + p.profile@)
        + ln("  Source: "@ + p.source_display_name@ + " ("@ + p.source_id@ + ")"@)
        + ln("  Scan root: "@ + p.scan_root@)
        + count_ln("  Generation: "@, p.generation)
        + ln("  Truncated: "@ + if p.truncated { "yes"@ } else { "no"@ })
        + ln(Seq::empty())
        + count_ln("  Files encountered:   "@, p.files_scanned)
        + count_ln("  DAT candidates:      "@, p.counts.dat_candidates)
        + count_ln("  Ignored ancillary:   "@, p.counts.ignored_ancillary)
}

/// The ignored ancillary files per extension.
pub open spec fn extension_lines(v: Seq<(String, u64)>) -> Seq<char>
    decreases v.len(),
{
    if v.len() == 0 {
        Seq::empty()
    } else {
        extension_lines(v.drop_last()) + ln("      "@ + v.last().0@ + ": "@ + spec_decimal(v.last().1 as nat))
    }
}

/// The per-extension block, shown only when there is something in it.
pub open spec fn extension_text(v: Seq<(String, u64)>) -> Seq<char> {
    if v.len() == 0 { Seq::empty() } else { ln("    by extension:"@) + extension_lines(v) }
}

/// The counts of sets and proposals.
pub open spec fn counts_text(c: RepairCounts) -> Seq<char> {
    ln(Seq::empty())
        + ln("Counts:"@)
        + count_ln("  Complete sets: "@, c.complete_sets)
        + count_ln("  Incomplete sets: "@, c.incomplete_sets)
        + count_ln("  Bad metadata sets: "@, c.bad_metadata_sets)
        + count_ln("  NeedsReview sets: "@, c.needs_review_sets)
        + count_ln("  Already canonical: "@, c.already_canonical)
        + count_ln("  Safe repairs: "@, c.safe_repairs)
        + count_ln("  Unmatched candidates: "@, c.unmatched_candidates)
        + count_ln("  NeedsReview: "@, c.needs_review)
        + count_ln("  Blocked: "@, c.blocked_repair)
        + count_ln("  Unsupported: "@, c.unsupported)
        + count_ln("  Scan errors: "@, c.scan_errors)
}

/// The duplicate quarantine counts.
pub open spec fn duplicate_counts_text(c: RepairCounts) -> Seq<char> {
    ln(Seq::empty())
        + ln("Duplicate quarantine:"@)
        + count_ln("  Groups examined: "@, c.duplicate_groups_examined)
        + count_ln("  Groups content-proven: "@, c.duplicate_groups_content_proven)
        + count_ln("  Safe: "@, c.duplicate_quarantine_safe)
        + count_ln("  NeedsReview: "@, c.duplicate_quarantine_needs_review)
        + count_ln("  SameObject ignored: "@, c.duplicate_same_object_ignored)
        + count_ln("  Content mismatch/refused: "@, c.duplicate_content_mismatch_refused)
        + ln(Seq::empty())
}

/// A path that may be absent, shown as empty then.
pub open spec fn or_empty(p: Option<String>) -> Seq<char> {
    match p {
        Some(s) => s@,
        None => Seq::empty(),
    }
}

/// Whether some evidence proves duplicate content.
pub open spec fn has_duplicate_content(evidence: Seq<EvidenceKind>) -> bool {
    exists|i: int| 0 <= i < evidence.len() && evidence[i] == EvidenceKind::DuplicateContent
}

/// An ordinary rename in the SAFE block.
pub open spec fn rename_text(p: ProposalView) -> Seq<char> {
    ln(p.source_path@ + " -> "@ + or_empty(p.destination)) + ln("  Reason: "@ + p.reason@)
}

/// A duplicate quarantine in its block.
pub open spec fn quarantine_text(p: ProposalView) -> Seq<char> {
    ln(p.source_path@ + " [id "@ + p.id@ + "]"@)
        + ln("  Destination: "@ + or_empty(p.destination))
        + ln("  Survivor: "@ + or_empty(p.survivor_path))
        + ln("  Safety: "@ + p.safety_label@)
        + ln("  DuplicateContent evidence: "@ + if has_duplicate_content(p.evidence@) { "yes"@ } else { "no"@ })
        + ln("  Reason: "@ + p.reason@)
}

/// The proposals that are (`quarantine`) or are not duplicate quarantines,
/// in order, each as its block shows it.
pub open spec fn proposal_lines(ps: Seq<ProposalView>, quarantine: bool) -> Seq<char>
    decreases ps.len(),
{
    if ps.len() == 0 {
        Seq::empty()
    } else {
        let p = ps.last();
        proposal_lines(ps.drop_last(), quarantine) + if p.is_duplicate_quarantine != quarantine {
            Seq::empty()
        } else if quarantine {
            quarantine_text(p)
        } else {
            rename_text(p)
        }
    }
}

/// Held-back paths with their reasons.
pub open spec fn path_reason_lines(v: Seq<PathReason>) -> Seq<char>
    decreases v.len(),
{
    if v.len() == 0 {
        Seq::empty()
    } else {
        path_reason_lines(v.drop_last()) + ln(v.last().path@) + ln("  Reason: "@ + v.last().reason@)
    }
}

/// Set names, one per line.
pub open spec fn name_lines(v: Seq<String>) -> Seq<char>
    decreases v.len(),
{
    if v.len() == 0 {
        Seq::empty()
    } else {
        name_lines(v.drop_last()) + ln(v.last()@)
    }
}

/// Sets with their reasons.
pub open spec fn set_reason_lines(v: Seq<SetReason>) -> Seq<char>
    decreases v.len(),
{
    if v.len() == 0 {
        Seq::empty()
    } else {
        set_reason_lines(v.drop_last()) + ln(v.last().game_name@ + ": "@ + v.last().reason@)
    }
}

/// The held-back blocks.
pub open spec fn review_text(p: RepairPlanView) -> Seq<char> {
    ln("NEEDS REVIEW"@) + path_reason_lines(p.needs_review@)
        + ln("BLOCKED"@) + path_reason_lines(p.blocked@)
        + ln("UNSUPPORTED"@) + path_reason_lines(p.unsupported@)
        + ln("DUPLICATE NEEDS REVIEW"@) + path_reason_lines(p.duplicate_needs_review@)
}

/// The set blocks and the scan errors.
pub open spec fn sets_text(p: RepairPlanView) -> Seq<char> {
    ln("COMPLETE SETS"@) + name_lines(p.complete_sets@)
        + ln("INCOMPLETE SETS"@) + set_reason_lines(p.incomplete_sets@)
        + ln("BAD METADATA SETS"@) + set_reason_lines(p.bad_metadata_sets@)
        + ln("NEEDS REVIEW SETS"@) + set_reason_lines(p.needs_review_sets@)
        + ln("SCAN ERRORS"@) + if p.scan_errors@.len() == 0 { ln("  none"@) } else { name_lines(p.scan_errors@) }
}

/// The whole report of a repair scan.
pub open spec fn repair_report(p: RepairPlanView) -> Seq<char> {
    head_text(p) + extension_text(p.ignored_by_extension@) + counts_text(p.counts) + duplicate_counts_text(p.counts)
        + ln("SAFE"@) + proposal_lines(p.proposals@, false)
        + ln("SAFE DUPLICATE QUARANTINE"@) + proposal_lines(p.proposals@, true)
        + review_text(p) + sets_text(p)
}

fn line(out: &mut String, t: &str)
    ensures
        final(out)@ == old(out)@ + ln(t@),
{
    push_str(out, t);
    push_str(out, "\n");
    proof {
        assert(final(out)@ =~= old(out)@ + ln(t@));
    }
}

fn count_line(out: &mut String, label: &str, n: u64)
    ensures
        final(out)@ == old(out)@ + count_ln(label@, n),
{
    push_str(out, label);
    push_str(out, decimal(n).as_str());
    push_str(out, "\n");
    proof {
        assert(final(out)@ =~= old(out)@ + count_ln(label@, n));
    }
}

fn blank(out: &mut String)
    ensures
        final(out)@ == old(out)@ + ln(Seq::empty()),
{
    push_str(out, "\n");
    proof {
        assert(final(out)@ =~= old(out)@ + ln(Seq::empty()));
    }
}

fn push_head(out: &mut String, plan: &RepairPlanView)
    ensures
        final(out)@ == old(out)@ + head_text(*plan),
{
    let ghost start = out@;
    line(out, "Whole-Library Repair Scan");
    push_str(out, "  Profile: ");
    line(out, plan.profile.as_str());
    push_str(out, "  Source: ");
    push_str(out, plan.source_display_name.as_str());
    push_str(out, " (");
    push_str(out, plan.source_id.as_str());
    line(out, ")");
    push_str(out, "  Scan root: ");
    line(out, plan.scan_root.as_str());
    count_line(out, "  Generation: ", plan.generation);
    push_str(out, "  Truncated: ");
    line(out, if plan.truncated { "yes" } else { "no" });
    blank(out);
    count_line(out, "  Files encountered:   ", plan.files_scanned);
    count_line(out, "  DAT candidates:      ", plan.counts.dat_candidates);
    count_line(out, "  Ignored ancillary:   ", plan.counts.ignored_ancillary);
    proof {
        assert(out@ =~= start + head_text(*plan));
    }
}

fn push_extensions(out: &mut String, v: &Vec<(String, u64)>)
    ensures
        final(out)@ == old(out)@ + extension_text(v@),
{
    if v.len() == 0 {
        proof {
            assert(out@ =~= out@ + Seq::<char>::empty());
        }
        return;
    }
    line(out, "    by extension:");
    let ghost head = out@;
    let mut k: usize = 0;
    while k < v.len()
        invariant
            k <= v@.len(),
            out@ == head + extension_lines(v@.take(k as int)),
        decreases v@.len() - k,
    {
        proof {
            assert(v@.take(k + 1).drop_last() =~= v@.take(k as int));
            assert(v@.take(k + 1).last() == v@[k as int]);
        }
        let ghost before = out@;
        push_str(out, "      ");
        push_str(out, v[k].0.as_str());
        push_str(out, ": ");
        push_str(out, decimal(v[k].1).as_str());
        push_str(out, "\n");
        proof {
            let e = v@[k as int];
            assert(out@ =~= before + ln("      "@ + e.0@ + ": "@ + spec_decimal(e.1 as nat)));
        }
        k = k + 1;
    }
    proof {
        assert(v@.take(v@.len() as int) =~= v@);
    }
}

fn push_counts_block(out: &mut String, c: &RepairCounts)
    ensures
        final(out)@ == old(out)@ + counts_text(*c),
{
    let ghost start = out@;
    blank(out);
    line(out, "Counts:");
    count_line(out, "  Complete sets: ", c.complete_sets);
    count_line(out, "  Incomplete sets: ", c.incomplete_sets);
    count_line(out, "  Bad metadata sets: ", c.bad_metadata_sets);
    count_line(out, "  NeedsReview sets: ", c.needs_review_sets);
    count_line(out, "  Already canonical: ", c.already_canonical);
    count_line(out, "  Safe repairs: ", c.safe_repairs);
    count_line(out, "  Unmatched candidates: ", c.unmatched_candidates);
    count_line(out, "  NeedsReview: ", c.needs_review);
    count_line(out, "  Blocked: ", c.blocked_repair);
    count_line(out, "  Unsupported: ", c.unsupported);
    count_line(out, "  Scan errors: ", c.scan_errors);
    proof {
        assert(out@ =~= start + counts_text(*c));
    }
}

fn push_duplicate_counts(out: &mut String, c: &RepairCounts)
    ensures
        final(out)@ == old(out)@ + duplicate_counts_text(*c),
{
    let ghost start = out@;
    blank(out);
    line(out, "Duplicate quarantine:");
    count_line(out, "  Groups examined: ", c.duplicate_groups_examined);
    count_line(out, "  Groups content-proven: ", c.duplicate_groups_content_proven);
    count_line(out, "  Safe: ", c.duplicate_quarantine_safe);
    count_line(out, "  NeedsReview: ", c.duplicate_quarantine_needs_review);
    count_line(out, "  SameObject ignored: ", c.duplicate_same_object_ignored);
    count_line(out, "  Content mismatch/refused: ", c.duplicate_content_mismatch_refused);
    blank(out);
    proof {
        assert(out@ =~= start + duplicate_counts_text(*c));
    }
}

fn push_optional(out: &mut String, p: &Option<String>)
    ensures
        final(out)@ == old(out)@ + or_empty(*p),
{
    match p {
        Some(s) => push_str(out, s.as_str()),
        None => {
            proof {
                assert(out@ =~= out@ + Seq::<char>::empty());
            }
        },
    }
}

fn duplicate_content(evidence: &Vec<EvidenceKind>) -> (r: bool)
    ensures
        r == has_duplicate_content(evidence@),
{
    let mut k: usize = 0;
    while k < evidence.len()
        invariant
            k <= evidence@.len(),
            forall|i: int| 0 <= i < k ==> evidence@[i] != EvidenceKind::DuplicateContent,
        decreases evidence@.len() - k,
    {
        if evidence[k] == EvidenceKind::DuplicateContent {
            return true;
        }
        k = k + 1;
    }
    false
}

fn push_rename(out: &mut String, p: &ProposalView)
    ensures
        final(out)@ == old(out)@ + rename_text(*p),
{
    let ghost start = out@;
    push_str(out, p.source_path.as_str());
    push_str(out, " -> ");
    push_optional(out, &p.destination);
    push_str(out, "\n");
    push_str(out, "  Reason: ");
    line(out, p.reason.as_str());
    proof {
        assert(out@ =~= start + rename_text(*p));
    }
}

#[verifier::spinoff_prover]
#[verifier::rlimit(40)]
fn push_quarantine(out: &mut String, p: &ProposalView)
    ensures
        final(out)@ == old(out)@ + quarantine_text(*p),
{
    let ghost start = out@;
    push_str(out, p.source_path.as_str());
    push_str(out, " [id ");
    push_str(out, p.id.as_str());
    line(out, "]");
    push_str(out, "  Destination: ");
    push_optional(out, &p.destination);
    push_str(out, "\n");
    push_str(out, "  Survivor: ");
    push_optional(out, &p.survivor_path);
    push_str(out, "\n");
    push_str(out, "  Safety: ");
    line(out, p.safety_label.as_str());
    push_str(out, "  DuplicateContent evidence: ");
    line(out, if duplicate_content(&p.evidence) { "yes" } else { "no" });
    push_str(out, "  Reason: ");
    line(out, p.reason.as_str());
    proof {
        assert(out@ =~= start + quarantine_text(*p));
    }
}

fn push_proposals(out: &mut String, ps: &Vec<ProposalView>, quarantine: bool)
    ensures
        final(out)@ == old(out)@ + proposal_lines(ps@, quarantine),
{
    let ghost head = out@;
    let mut k: usize = 0;
    while k < ps.len()
        invariant
            k <= ps@.len(),
            out@ == head + proposal_lines(ps@.take(k as int), quarantine),
        decreases ps@.len() - k,
    {
        proof {
            assert(ps@.take(k + 1).drop_last() =~= ps@.take(k as int));
            assert(ps@.take(k + 1).last() == ps@[k as int]);
        }
        let ghost before = out@;
        let p = &ps[k];
        if p.is_duplicate_quarantine != quarantine {
            proof {
                assert(out@ =~= out@ + Seq::<char>::empty());
            }
        } else if quarantine {
            push_quarantine(out, p);
        } else {
            push_rename(out, p);
        }
        proof {
            assert(out@ =~= head + proposal_lines(ps@.take(k + 1), quarantine));
        }
        k = k + 1;
    }
    proof {
        assert(ps@.take(ps@.len() as int) =~= ps@);
    }
}

fn push_path_reasons(out: &mut String, v: &Vec<PathReason>)
    ensures
        final(out)@ == old(out)@ + path_reason_lines(v@),
{
    let ghost head = out@;
    let mut k: usize = 0;
    while k < v.len()
        invariant
            k <= v@.len(),
            out@ == head + path_reason_lines(v@.take(k as int)),
        decreases v@.len() - k,
    {
        proof {
            assert(v@.take(k + 1).drop_last() =~= v@.take(k as int));
            assert(v@.take(k + 1).last() == v@[k as int]);
        }
        let ghost before = out@;
        line(out, v[k].path.as_str());
        push_str(out, "  Reason: ");
        line(out, v[k].reason.as_str());
        proof {
            let e = v@[k as int];
            assert(out@ =~= before + ln(e.path@) + ln("  Reason: "@ + e.reason@));
            assert(out@ =~= head + path_reason_lines(v@.take(k + 1)));
        }
        k = k + 1;
    }
    proof {
        assert(v@.take(v@.len() as int) =~= v@);
    }
}

fn push_names(out: &mut String, v: &Vec<String>)
    ensures
        final(out)@ == old(out)@ + name_lines(v@),
{
    let ghost head = out@;
    let mut k: usize = 0;
    while k < v.len()
        invariant
            k <= v@.len(),
            out@ == head + name_lines(v@.take(k as int)),
        decreases v@.len() - k,
    {
        proof {
            assert(v@.take(k + 1).drop_last() =~= v@.take(k as int));
            assert(v@.take(k + 1).last() == v@[k as int]);
        }
        line(out, v[k].as_str());
        proof {
            assert(out@ =~= head + name_lines(v@.take(k + 1)));
        }
        k = k + 1;
    }
    proof {
        assert(v@.take(v@.len() as int) =~= v@);
    }
}

fn push_set_reasons(out: &mut String, v: &Vec<SetReason>)
    ensures
        final(out)@ == old(out)@ + set_reason_lines(v@),
{
    let ghost head = out@;
    let mut k: usize = 0;
    while k < v.len()
        invariant
            k <= v@.len(),
            out@ == head + set_reason_lines(v@.take(k as int)),
        decreases v@.len() - k,
    {
        proof {
            assert(v@.take(k + 1).drop_last() =~= v@.take(k as int));
            assert(v@.take(k + 1).last() == v@[k as int]);
        }
        let ghost before = out@;
        push_str(out, v[k].game_name.as_str());
        push_str(out, ": ");
        line(out, v[k].reason.as_str());
        proof {
            let e = v@[k as int];
            assert(out@ =~= before + ln(e.game_name@ + ": "@ + e.reason@));
            assert(out@ =~= head + set_reason_lines(v@.take(k + 1)));
        }
        k = k + 1;
    }
    proof {
        assert(v@.take(v@.len() as int) =~= v@);
    }
}

fn push_review(out: &mut String, plan: &RepairPlanView)
    ensures
        final(out)@ == old(out)@ + review_text(*plan),
{
    let ghost start = out@;
    line(out, "NEEDS REVIEW");
    push_path_reasons(out, &plan.needs_review);
    line(out, "BLOCKED");
    push_path_reasons(out, &plan.blocked);
    line(out, "UNSUPPORTED");
    push_path_reasons(out, &plan.unsupported);
    line(out, "DUPLICATE NEEDS REVIEW");
    push_path_reasons(out, &plan.duplicate_needs_review);
    proof {
        assert(out@ =~= start + review_text(*plan));
    }
}

fn push_sets(out: &mut String, plan: &RepairPlanView)
    ensures
        final(out)@ == old(out)@ + sets_text(*plan),
{
    let ghost start = out@;
    line(out, "COMPLETE SETS");
    push_names(out, &plan.complete_sets);
    line(out, "INCOMPLETE SETS");
    push_set_reasons(out, &plan.incomplete_sets);
    line(out, "BAD METADATA SETS");
    push_set_reasons(out, &plan.bad_metadata_sets);
    line(out, "NEEDS REVIEW SETS");
    push_set_reasons(out, &plan.needs_review_sets);
    line(out, "SCAN ERRORS");
    if plan.scan_errors.len() == 0 {
        line(out, "  none");
    } else {
        push_names(out, &plan.scan_errors);
    }
    proof {
        assert(out@ =~= start + sets_text(*plan));
    }
}

/// The text report of a whole-library repair scan: what was scanned, the
/// counts, the safe renames, then the safe duplicate quarantines (each
/// proposal in exactly one of those two blocks), what needs review or was
/// blocked or unsupported, the sets by status, and the scan errors.
pub fn format_report(plan: &RepairPlanView) -> (r: String)
    ensures
        r@ == repair_report(*plan),
{
    let mut out = String::new();
    push_head(&mut out, plan);
    push_extensions(&mut out, &plan.ignored_by_extension);
    push_counts_block(&mut out, &plan.counts);
    push_duplicate_counts(&mut out, &plan.counts);
    line(&mut out, "SAFE");
    push_proposals(&mut out, &plan.proposals, false);
    line(&mut out, "SAFE DUPLICATE QUARANTINE");
    push_proposals(&mut out, &plan.proposals, true);
    push_review(&mut out, plan);
    push_sets(&mut out, plan);
    proof {
        assert(out@ =~= repair_report(*plan));
    }
    out
}

/// How many of the proposals the block for `quarantine` shows.
pub open spec fn block_count(ps: Seq<ProposalView>, quarantine: bool) -> nat
    decreases ps.len(),
{
    if ps.len() == 0 {
        0
    } else {
        block_count(ps.drop_last(), quarantine) + if ps.last().is_duplicate_quarantine == quarantine { 1nat } else { 0nat }
    }
}

/// Every proposal is shown in exactly one of the SAFE block and the SAFE
/// DUPLICATE QUARANTINE block.
pub proof fn lemma_blocks_partition_proposals(ps: Seq<ProposalView>)
    ensures
        block_count(ps, false) + block_count(ps, true) == ps.len(),
    decreases ps.len(),
{
    if ps.len() > 0 {
        lemma_blocks_partition_proposals(ps.drop_last());
    }
}

} // verus!
