//! The advisory PCSX2 patch metadata preview: what the plan says about its
//! source, the PCSX2 installations found, and each metadata record. It is
//! text only; nothing is downloaded, created or written.
use vstd::prelude::*;
use crate::text::{decimal, push_str, signed_decimal, signed_text, spec_decimal, spec_join, join, views};

verus! {

/// Where the metadata came from and how far it is trusted.
#[derive(Debug, Clone, PartialEq, Eq)]
pub struct AdvisorySourceView {
    pub display_name: String,
    pub endpoint: String,
    pub provenance: String,
    pub license_notice: String,
    pub metadata_schema: String,
    pub source_version: String,
    pub metadata_sha256: String,
    /// The verification level, by name.
    pub verification: String,
    pub verification_explanation: String,
    pub freshness_explanation: String,
}

/// One PCSX2 installation candidate.
#[derive(Debug, Clone, PartialEq, Eq)]
pub struct InstallationCandidateView {
    pub kind: String,
    pub data_root: String,
    pub provenance: String,
    /// How it was discovered, by name.
    pub discovery_confidence: String,
    pub detected_version: Option<String>,
    pub mutation_readiness: String,
}

/// The counts over all records.
#[derive(Debug, Clone, Copy, PartialEq, Eq, Structural)]
pub struct AdvisorySummaryView {
    pub metadata_records: u64,
    pub exact_matches: u64,
    pub probable_matches: u64,
    pub uncertain_matches: u64,
    pub ambiguous_matches: u64,
    pub missing_games: u64,
}

/// Where a PNACH file would go for one candidate; nothing is created.
#[derive(Debug, Clone, PartialEq, Eq)]
pub struct HypotheticalDestinationView {
    pub candidate_kind: String,
    pub display_path: String,
}

/// One metadata record and what the preview concluded for it.
#[derive(Debug, Clone, PartialEq, Eq)]
pub struct AdvisoryEntryView {
    pub record_id: String,
    /// The disposition, by name.
    pub disposition: String,
    /// The match confidence, by name.
    pub match_confidence: String,
    pub catalogue_archive_ids: Vec<i64>,
    pub serial: Option<String>,
    pub executable_crc: Option<String>,
    pub reasons: Vec<String>,
    pub hypothetical_destinations: Vec<HypotheticalDestinationView>,
}

/// An advisory patch plan.
#[derive(Debug, Clone, PartialEq, Eq)]
pub struct AdvisoryPatchPlanView {
    pub executable: bool,
    pub format_version: String,
    pub plan_id: String,
    pub source: AdvisorySourceView,
    pub installation_candidates: Vec<InstallationCandidateView>,
    pub summary: AdvisorySummaryView,
    pub entries: Vec<AdvisoryEntryView>,
}

/// A line: the text and a newline.
pub open spec fn ln(t: Seq<char>) -> Seq<char> {
    t + "\n"@
}

/// A value that may be absent, with the text shown then.
pub open spec fn or_text(v: Option<String>, absent: Seq<char>) -> Seq<char> {
    match v {
        Some(s) => s@,
        None => absent,
    }
}

/// `{:?}` of a list of ids: in square brackets, separated by ", ".
pub open spec fn id_list_debug(ids: Seq<i64>) -> Seq<char> {
    "["@ + spec_join(ids.map_values(|id: i64| signed_decimal(id as int)), ", "@) + "]"@
}

/// The head of the preview: the plan and its source.
pub open spec fn plan_head(p: AdvisoryPatchPlanView) -> Seq<char> {
    ln("EmuWiz PCSX2 Patch Metadata Preview"@)
        + ln("Advisory only: yes (executable: "@ + (if p.executable { "true"@ } else { "false"@ }) + ")"@)
        + ln("Plan format: "@ + p.format_version@)
        + ln("Plan ID: "@ + p.plan_id@)
        + source_text(p.source)
}

/// The source block.
pub open spec fn source_text(s: AdvisorySourceView) -> Seq<char> {
    ln("Source: "@ + s.display_name@)
        + ln("Endpoint: "@ + s.endpoint@)
        + ln("Provenance: "@ + s.provenance@)
        + ln("License: "@ + s.license_notice@)
        + ln("Metadata schema: "@ + s.metadata_schema@)
        + ln("Source version: "@ + s.source_version@)
        + ln("Metadata SHA-256: "@ + s.metadata_sha256@)
        + ln("Verification: "@ + s.verification@)
        + ln("Verification detail: "@ + s.verification_explanation@)
        + ln("Freshness: "@ + s.freshness_explanation@)
}

/// One installation candidate's line.
pub open spec fn candidate_line(c: InstallationCandidateView) -> Seq<char> {
    ln("  "@ + c.kind@ + ": "@ + c.data_root@ + " ("@ + c.provenance@ + ", confidence: "@ + c.discovery_confidence@
        + ", version: "@ + or_text(c.detected_version, "not inspected"@) + ", mutation readiness: "@
        + c.mutation_readiness@ + ")"@)
}

/// Every installation candidate, in order.
pub open spec fn candidate_lines(v: Seq<InstallationCandidateView>) -> Seq<char>
    decreases v.len(),
{
    if v.len() == 0 { Seq::empty() } else { candidate_lines(v.drop_last()) + candidate_line(v.last()) }
}

/// The counts line.
pub open spec fn summary_line(s: AdvisorySummaryView) -> Seq<char> {
    ln("Records: "@ + spec_decimal(s.metadata_records as nat) + " | exact: "@ + spec_decimal(s.exact_matches as nat)
        + " | probable: "@ + spec_decimal(s.probable_matches as nat) + " | uncertain: "@
        + spec_decimal(s.uncertain_matches as nat) + " | ambiguous: "@ + spec_decimal(s.ambiguous_matches as nat)
        + " | no match: "@ + spec_decimal(s.missing_games as nat))
}

/// The reasons of a record.
pub open spec fn reason_lines(v: Seq<String>) -> Seq<char>
    decreases v.len(),
{
    if v.len() == 0 { Seq::empty() } else { reason_lines(v.drop_last()) + ln("  reason: "@ + v.last()@) }
}

/// The hypothetical destinations of a record.
pub open spec fn destination_lines(v: Seq<HypotheticalDestinationView>) -> Seq<char>
    decreases v.len(),
{
    if v.len() == 0 {
        Seq::empty()
    } else {
        destination_lines(v.drop_last()) + ln("  hypothetical PNACH destination ("@ + v.last().candidate_kind@
            + ", not created): "@ + v.last().display_path@)
    }
}

/// One record's block.
pub open spec fn entry_text(e: AdvisoryEntryView) -> Seq<char> {
    entry_head(e) + entry_tail(e)
}

/// The first lines of a record's block: id, disposition, match, ids and
/// identity.
pub open spec fn entry_head(e: AdvisoryEntryView) -> Seq<char> {
    ln(Seq::empty())
        + ln(e.record_id@)
        + ln("  disposition: "@ + e.disposition@)
        + ln("  match confidence: "@ + e.match_confidence@)
        + ln("  catalogue archive IDs: "@ + id_list_debug(e.catalogue_archive_ids@))
        + ln("  identity: serial="@ + or_text(e.serial, "none"@) + " executable_crc="@ + or_text(e.executable_crc, "none"@))
}

/// The rest of a record's block: reasons and hypothetical destinations.
pub open spec fn entry_tail(e: AdvisoryEntryView) -> Seq<char> {
    reason_lines(e.reasons@)
        + if e.hypothetical_destinations@.len() == 0 {
            ln("  hypothetical PNACH destination: unavailable (no PCSX2 candidate)"@)
        } else {
            destination_lines(e.hypothetical_destinations@)
        }
}

/// Every record's block, in order.
pub open spec fn entry_texts(v: Seq<AdvisoryEntryView>) -> Seq<char>
    decreases v.len(),
{
    if v.len() == 0 { Seq::empty() } else { entry_texts(v.drop_last()) + entry_text(v.last()) }
}

/// The whole advisory preview.
pub open spec fn advisory_text(p: AdvisoryPatchPlanView) -> Seq<char> {
    plan_head(p)
        + ln(Seq::empty())
        + ln("PCSX2 candidates: "@ + spec_decimal(p.installation_candidates@.len()))
        + candidate_lines(p.installation_candidates@)
        + ln(Seq::empty())
        + summary_line(p.summary)
        + entry_texts(p.entries@)
}

fn line(out: &mut String, t: &str)
    ensures
        final(out)@ == old(out)@ + ln(t@),
{
    push_str(out, t);
    push_str(out, "\n");
    proof {
        assert(final(out)@ =~= old(out)@ + ln(t@));
    }
}

fn blank(out: &mut String)
    ensures
        final(out)@ == old(out)@ + ln(Seq::empty()),
{
    push_str(out, "\n");
    proof {
        assert(final(out)@ =~= old(out)@ + ln(Seq::empty()));
    }
}

fn push_or(out: &mut String, v: &Option<String>, absent: &str)
    ensures
        final(out)@ == old(out)@ + or_text(*v, absent@),
{
    match v {
        Some(s) => push_str(out, s.as_str()),
        None => push_str(out, absent),
    }
}

/// `{:?}` of a list of ids.
pub fn format_id_list(ids: &Vec<i64>) -> (r: String)
    ensures
        r@ == id_list_debug(ids@),
{
    let mut texts: Vec<String> = Vec::new();
    let mut k: usize = 0;
    while k < ids.len()
        invariant
            k <= ids@.len(),
            views(texts@) == ids@.take(k as int).map_values(|id: i64| signed_decimal(id as int)),
        decreases ids@.len() - k,
    {
        let ghost before = texts@;
        texts.push(signed_text(ids[k]));
        proof {
            assert(views(texts@) =~= views(before).push(signed_decimal(ids@[k as int] as int)));
            assert(ids@.take(k + 1).map_values(|id: i64| signed_decimal(id as int))
                =~= ids@.take(k as int).map_values(|id: i64| signed_decimal(id as int)).push(signed_decimal(ids@[k as int] as int)));
        }
        k = k + 1;
    }
    proof {
        assert(ids@.take(ids@.len() as int) =~= ids@);
    }
    let mut out = "[".to_owned();
    push_str(&mut out, join(&texts, ", ").as_str());
    push_str(&mut out, "]");
    out
}

fn push_source(out: &mut String, s: &AdvisorySourceView)
    ensures
        final(out)@ == old(out)@ + source_text(*s),
{
    let ghost start = out@;
    push_str(out, "Source: ");
    line(out, s.display_name.as_str());
    push_str(out, "Endpoint: ");
    line(out, s.endpoint.as_str());
    push_str(out, "Provenance: ");
    line(out, s.provenance.as_str());
    push_str(out, "License: ");
    line(out, s.license_notice.as_str());
    push_str(out, "Metadata schema: ");
    line(out, s.metadata_schema.as_str());
    push_str(out, "Source version: ");
    line(out, s.source_version.as_str());
    push_str(out, "Metadata SHA-256: ");
    line(out, s.metadata_sha256.as_str());
    push_str(out, "Verification: ");
    line(out, s.verification.as_str());
    push_str(out, "Verification detail: ");
    line(out, s.verification_explanation.as_str());
    push_str(out, "Freshness: ");
    line(out, s.freshness_explanation.as_str());
    proof {
        assert(out@ =~= start + source_text(*s));
    }
}

fn push_head(out: &mut String, p: &AdvisoryPatchPlanView)
    ensures
        final(out)@ == old(out)@ + plan_head(*p),
{
    let ghost start = out@;
    line(out, "EmuWiz PCSX2 Patch Metadata Preview");
    push_str(out, "Advisory only: yes (executable: ");
    push_str(out, if p.executable { "true" } else { "false" });
    line(out, ")");
    push_str(out, "Plan format: ");
    line(out, p.format_version.as_str());
    push_str(out, "Plan ID: ");
    line(out, p.plan_id.as_str());
    push_source(out, &p.source);
    proof {
        assert(out@ =~= start + plan_head(*p));
    }
}

fn push_candidate(out: &mut String, c: &InstallationCandidateView)
    ensures
        final(out)@ == old(out)@ + candidate_line(*c),
{
    let ghost start = out@;
    push_str(out, "  ");
    push_str(out, c.kind.as_str());
    push_str(out, ": ");
    push_str(out, c.data_root.as_str());
    push_str(out, " (");
    push_str(out, c.provenance.as_str());
    push_str(out, ", confidence: ");
    push_str(out, c.discovery_confidence.as_str());
    push_str(out, ", version: ");
    push_or(out, &c.detected_version, "not inspected");
    push_str(out, ", mutation readiness: ");
    push_str(out, c.mutation_readiness.as_str());
    line(out, ")");
    proof {
        assert(out@ =~= start + candidate_line(*c));
    }
}

fn push_candidates(out: &mut String, v: &Vec<InstallationCandidateView>)
    ensures
        final(out)@ == old(out)@ + candidate_lines(v@),
{
    let ghost head = out@;
    let mut k: usize = 0;
    while k < v.len()
        invariant
            k <= v@.len(),
            out@ == head + candidate_lines(v@.take(k as int)),
        decreases v@.len() - k,
    {
        proof {
            assert(v@.take(k + 1).drop_last() =~= v@.take(k as int));
            assert(v@.take(k + 1).last() == v@[k as int]);
        }
        push_candidate(out, &v[k]);
        k = k + 1;
    }
    proof {
        assert(v@.take(v@.len() as int) =~= v@);
    }
}

fn push_summary(out: &mut String, s: &AdvisorySummaryView)
    ensures
        final(out)@ == old(out)@ + summary_line(*s),
{
    let ghost start = out@;
    push_str(out, "Records: ");
    push_str(out, decimal(s.metadata_records).as_str());
    push_str(out, " | exact: ");
    push_str(out, decimal(s.exact_matches).as_str());
    push_str(out, " | probable: ");
    push_str(out, decimal(s.probable_matches).as_str());
    push_str(out, " | uncertain: ");
    push_str(out, decimal(s.uncertain_matches).as_str());
    push_str(out, " | ambiguous: ");
    push_str(out, decimal(s.ambiguous_matches).as_str());
    push_str(out, " | no match: ");
    line(out, decimal(s.missing_games).as_str());
    proof {
        assert(out@ =~= start + summary_line(*s));
    }
}

fn push_reasons(out: &mut String, v: &Vec<String>)
    ensures
        final(out)@ == old(out)@ + reason_lines(v@),
{
    let ghost head = out@;
    let mut k: usize = 0;
    while k < v.len()
        invariant
            k <= v@.len(),
            out@ == head + reason_lines(v@.take(k as int)),
        decreases v@.len() - k,
    {
        proof {
            assert(v@.take(k + 1).drop_last() =~= v@.take(k as int));
            assert(v@.take(k + 1).last() == v@[k as int]);
        }
        let ghost before = out@;
        push_str(out, "  reason: ");
        line(out, v[k].as_str());
        proof {
            assert(out@ =~= before + ln("  reason: "@ + v@[k as int]@));
        }
        k = k + 1;
    }
    proof {
        assert(v@.take(v@.len() as int) =~= v@);
    }
}

fn push_destinations(out: &mut String, v: &Vec<HypotheticalDestinationView>)
    ensures
        final(out)@ == old(out)@ + destination_lines(v@),
{
    let ghost head = out@;
    let mut k: usize = 0;
    while k < v.len()
        invariant
            k <= v@.len(),
            out@ == head + destination_lines(v@.take(k as int)),
        decreases v@.len() - k,
    {
        proof {
            assert(v@.take(k + 1).drop_last() =~= v@.take(k as int));
            assert(v@.take(k + 1).last() == v@[k as int]);
        }
        let ghost before = out@;
        push_str(out, "  hypothetical PNACH destination (");
        push_str(out, v[k].candidate_kind.as_str());
        push_str(out, ", not created): ");
        line(out, v[k].display_path.as_str());
        proof {
            let d = v@[k as int];
            assert(out@ =~= before + ln("  hypothetical PNACH destination ("@ + d.candidate_kind@ + ", not created): "@ + d.display_path@));
        }
        k = k + 1;
    }
    proof {
        assert(v@.take(v@.len() as int) =~= v@);
    }
}

fn push_entry(out: &mut String, e: &AdvisoryEntryView)
    ensures
        final(out)@ == old(out)@ + entry_text(*e),
{
    push_entry_head(out, e);
    push_entry_tail(out, e);
    proof {
        assert(final(out)@ =~= old(out)@ + entry_text(*e));
    }
}

fn push_entry_head(out: &mut String, e: &AdvisoryEntryView)
    ensures
        final(out)@ == old(out)@ + entry_head(*e),
{
    let ghost start = out@;
    blank(out);
    line(out, e.record_id.as_str());
    push_str(out, "  disposition: ");
    line(out, e.disposition.as_str());
    push_str(out, "  match confidence: ");
    line(out, e.match_confidence.as_str());
    push_str(out, "  catalogue archive IDs: ");
    line(out, format_id_list(&e.catalogue_archive_ids).as_str());
    push_str(out, "  identity: serial=");
    push_or(out, &e.serial, "none");
    push_str(out, " executable_crc=");
    push_or(out, &e.executable_crc, "none");
    push_str(out, "\n");
    proof {
        assert(out@ =~= start + entry_head(*e));
    }
}

fn push_entry_tail(out: &mut String, e: &AdvisoryEntryView)
    ensures
        final(out)@ == old(out)@ + entry_tail(*e),
{
    let ghost start = out@;
    push_reasons(out, &e.reasons);
    if e.hypothetical_destinations.len() == 0 {
        line(out, "  hypothetical PNACH destination: unavailable (no PCSX2 candidate)");
    } else {
        push_destinations(out, &e.hypothetical_destinations);
    }
    proof {
        assert(out@ =~= start + entry_tail(*e));
    }
}

/// The advisory PCSX2 patch preview: the plan and its source, each PCSX2
/// candidate, the counts, then each record with its disposition, match,
/// identity, reasons and hypothetical destinations.
pub fn format_advisory_patch_plan(plan: &AdvisoryPatchPlanView) -> (r: String)
    ensures
        r@ == advisory_text(*plan),
{
    let mut out = String::new();
    push_head(&mut out, plan);
    blank(&mut out);
    push_str(&mut out, "PCSX2 candidates: ");
    line(&mut out, decimal(plan.installation_candidates.len() as u64).as_str());
    push_candidates(&mut out, &plan.installation_candidates);
    blank(&mut out);
    push_summary(&mut out, &plan.summary);
    let ghost head = out@;
    let mut k: usize = 0;
    while k < plan.entries.len()
        invariant
            k <= plan.entries@.len(),
            out@ == head + entry_texts(plan.entries@.take(k as int)),
        decreases plan.entries@.len() - k,
    {
        proof {
            assert(plan.entries@.take(k + 1).drop_last() =~= plan.entries@.take(k as int));
            assert(plan.entries@.take(k + 1).last() == plan.entries@[k as int]);
        }
        push_entry(&mut out, &plan.entries[k]);
        k = k + 1;
    }
    proof {
        assert(plan.entries@.take(plan.entries@.len() as int) =~= plan.entries@);
        assert(out@ =~= advisory_text(*plan));
    }
    out
}

} // verus!
