//! The read-only RetroArch patch and cheat preview: for each catalogue
//! archive, the soft-patch and cheat destinations each installed RetroArch
//! profile would use, and the inventory of what already exists. It is text
//! only; nothing is created, loaded or fetched.
use vstd::prelude::*;
use crate::advisory::{ln, or_text};
use crate::text::{decimal, join, push_str, signed_decimal, signed_text, spec_decimal, spec_join, views};

verus! {

/// A destination that a preview proposes, never created.
#[derive(Debug, Clone, PartialEq, Eq)]
pub struct DestinationView {
    /// Whether no destination can be proposed at all.
    pub unsupported: bool,
    pub unsupported_reason: Option<String>,
    /// How the destination was derived.
    pub derivation: String,
    /// The path for display, where one is known.
    pub path: Option<String>,
    pub parent_exists: Option<bool>,
    pub destination_exists: Option<bool>,
    pub conflict: bool,
}

/// Where the selected core came from.
#[derive(Debug, Clone, Copy, PartialEq, Eq, Structural)]
pub enum CoreSelectionSource {
    PlaylistEvidence,
    ExtensionMatch,
}

/// One playlist entry that speaks for a core.
#[derive(Debug, Clone, PartialEq, Eq)]
pub struct PlaylistEvidenceView {
    pub playlist_name: String,
    pub entry_index: u64,
    pub entry_label: Option<String>,
    /// The evidence confidence, by name.
    pub confidence: String,
    pub database_name: Option<String>,
    /// The core association, as the report writes it.
    pub core_association: String,
}

/// What one RetroArch profile concluded for one archive.
#[derive(Debug, Clone, PartialEq, Eq)]
pub struct ProfileOutcomeView {
    /// The profile kind, by name.
    pub profile_kind: String,
    /// The profile scope, by name.
    pub scope: String,
    /// The core match disposition, by name.
    pub disposition: String,
    pub matched_core_stem: Option<String>,
    pub selected_core_source: Option<CoreSelectionSource>,
    pub candidate_core_stems: Vec<String>,
    pub playlist_evidence: Vec<PlaylistEvidenceView>,
    pub cheat_database_root: DestinationView,
    pub per_game_cheat_file: DestinationView,
    pub reasons: Vec<String>,
}

/// One catalogue archive in the preview.
#[derive(Debug, Clone, PartialEq, Eq)]
pub struct RetroArchAdvisoryEntryView {
    pub archive_id: i64,
    pub display_name: String,
    pub platform: Option<String>,
    pub content_extension: Option<String>,
    pub soft_patch_candidates: Vec<DestinationView>,
    pub profile_outcomes: Vec<ProfileOutcomeView>,
}

/// The preview's counts.
#[derive(Debug, Clone, Copy, PartialEq, Eq, Structural)]
pub struct RetroArchAdvisorySummaryView {
    pub catalogue_archives: u64,
    pub exact_core_profile_outcomes: u64,
    pub ambiguous_core_profile_outcomes: u64,
    pub unsupported_profile_outcomes: u64,
}

/// The counts of the artifact inventory.
#[derive(Debug, Clone, Copy, PartialEq, Eq, Structural)]
pub struct ArtifactSummaryView {
    pub artifacts_found: u64,
    pub cheat_files: u64,
    pub soft_patch_files: u64,
    pub expected_destinations: u64,
    pub empty_destinations: u64,
    pub occupied_destinations: u64,
    pub duplicate_artifacts: u64,
    pub conflicting_artifacts: u64,
    pub orphaned_artifacts: u64,
    pub ambiguous_artifacts: u64,
    pub unsupported_artifacts: u64,
}

/// A catalogue game that an artifact is associated with.
#[derive(Debug, Clone, PartialEq, Eq)]
pub struct CatalogueGameView {
    pub display_name: String,
    pub archive_id: i64,
}

/// What was read from an existing cheat file.
#[derive(Debug, Clone, PartialEq, Eq)]
pub struct CheatSummaryView {
    pub parsed_cheat_entries: u64,
    pub declared_cheat_count: Option<u64>,
    pub enabled_cheat_entries: u64,
    pub complete: bool,
    pub description: Option<String>,
}

/// A diagnostic: its code and its severity, by name.
#[derive(Debug, Clone, PartialEq, Eq)]
pub struct InventoryDiagnosticView {
    pub code: String,
    pub severity: String,
}

/// An artifact found on disk.
#[derive(Debug, Clone, PartialEq, Eq)]
pub struct ArtifactFindingView {
    /// The artifact kind, by name.
    pub artifact_kind: String,
    pub path: String,
    pub size_bytes: Option<u64>,
    /// The conflict state, by name.
    pub conflict_state: String,
    /// The association confidence, by name.
    pub confidence: String,
    pub catalogue_games: Vec<CatalogueGameView>,
    pub core_stems: Vec<String>,
    pub cheat_summary: Option<CheatSummaryView>,
    pub diagnostics: Vec<InventoryDiagnosticView>,
}

/// The inventory of existing RetroArch artifacts.
#[derive(Debug, Clone, PartialEq, Eq)]
pub struct ArtifactInventoryView {
    pub format_version: u64,
    pub complete: bool,
    pub summary: ArtifactSummaryView,
    pub findings: Vec<ArtifactFindingView>,
    pub diagnostics: Vec<InventoryDiagnosticView>,
}

/// A RetroArch advisory plan.
#[derive(Debug, Clone, PartialEq, Eq)]
pub struct RetroArchAdvisoryPlanView {
    pub format_version: u64,
    pub plan_id: String,
    pub executable: bool,
    pub summary: RetroArchAdvisorySummaryView,
    pub entries: Vec<RetroArchAdvisoryEntryView>,
    pub artifact_inventory: ArtifactInventoryView,
}

/// `true` or `false`.
pub open spec fn bool_text(b: bool) -> Seq<char> {
    if b { "true"@ } else { "false"@ }
}

/// A flag that may be unknown, with `n/a` then.
pub open spec fn opt_bool_text(b: Option<bool>) -> Seq<char> {
    match b {
        Some(x) => bool_text(x),
        None => "n/a"@,
    }
}

/// A proposed destination under a label: one line when unsupported,
/// otherwise the path line and the existence line.
pub open spec fn destination_text(label: Seq<char>, d: DestinationView) -> Seq<char> {
    if d.unsupported {
        ln("    "@ + label + ": unsupported ("@ + or_text(d.unsupported_reason, "no reason recorded"@) + ")"@)
    } else {
        ln("    "@ + label + " ("@ + d.derivation@ + ", not created): "@ + or_text(d.path, "unknown"@))
            + ln("      parent exists: "@ + opt_bool_text(d.parent_exists) + " | destination exists: "@
            + opt_bool_text(d.destination_exists) + " | conflict: "@ + bool_text(d.conflict))
    }
}

/// Every soft-patch candidate, in order.
pub open spec fn candidate_destinations(v: Seq<DestinationView>) -> Seq<char>
    decreases v.len(),
{
    if v.len() == 0 {
        Seq::empty()
    } else {
        candidate_destinations(v.drop_last()) + destination_text("candidate"@, v.last())
    }
}

/// One playlist evidence line.
pub open spec fn evidence_line(e: PlaylistEvidenceView) -> Seq<char> {
    ln("      "@ + e.playlist_name@ + " entry "@ + spec_decimal(e.entry_index as nat) + " ("@
        + or_text(e.entry_label, "(no label)"@) + "): confidence "@ + e.confidence@ + ", database: "@
        + or_text(e.database_name, "unknown"@) + ", core: "@ + e.core_association@)
}

/// Every playlist evidence line, in order.
pub open spec fn evidence_lines(v: Seq<PlaylistEvidenceView>) -> Seq<char>
    decreases v.len(),
{
    if v.len() == 0 { Seq::empty() } else { evidence_lines(v.drop_last()) + evidence_line(v.last()) }
}

/// Where the matched core came from, as a suffix of its line.
pub open spec fn source_suffix(s: Option<CoreSelectionSource>) -> Seq<char> {
    match s {
        Some(CoreSelectionSource::PlaylistEvidence) => " (from playlist evidence)"@,
        Some(CoreSelectionSource::ExtensionMatch) => " (from core file extension)"@,
        None => Seq::empty(),
    }
}

/// Lines of reasons under an outcome.
pub open spec fn reason_lines(v: Seq<String>) -> Seq<char>
    decreases v.len(),
{
    if v.len() == 0 { Seq::empty() } else { reason_lines(v.drop_last()) + ln("    reason: "@ + v.last()@) }
}

/// The matched core line, where a core was matched.
pub open spec fn matched_core_text(o: ProfileOutcomeView) -> Seq<char> {
    match o.matched_core_stem {
        Some(stem) => ln("    matched core: "@ + stem@ + source_suffix(o.selected_core_source)),
        None => Seq::empty(),
    }
}

/// The candidate cores line, where there are any.
pub open spec fn candidate_cores_text(o: ProfileOutcomeView) -> Seq<char> {
    if o.candidate_core_stems@.len() == 0 {
        Seq::empty()
    } else {
        ln("    candidate cores: "@ + spec_join(views(o.candidate_core_stems@), ", "@))
    }
}

/// The playlist evidence block, where there is any.
pub open spec fn playlist_block(o: ProfileOutcomeView) -> Seq<char> {
    if o.playlist_evidence@.len() == 0 {
        Seq::empty()
    } else {
        ln("    playlist evidence ("@ + spec_decimal(o.playlist_evidence@.len()) + "):"@)
            + evidence_lines(o.playlist_evidence@)
    }
}

/// The first lines of an outcome: the profile, the core and its evidence.
pub open spec fn outcome_head(o: ProfileOutcomeView) -> Seq<char> {
    ln("  profile "@ + o.profile_kind@ + "/"@ + o.scope@ + ": disposition "@ + o.disposition@)
        + matched_core_text(o) + candidate_cores_text(o) + playlist_block(o)
}

/// One profile outcome.
pub open spec fn outcome_text(o: ProfileOutcomeView) -> Seq<char> {
    outcome_head(o) + destination_text("cheat database root"@, o.cheat_database_root)
        + destination_text("per-game cheat file"@, o.per_game_cheat_file) + reason_lines(o.reasons@)
}

/// Every profile outcome, in order.
pub open spec fn outcome_texts(v: Seq<ProfileOutcomeView>) -> Seq<char>
    decreases v.len(),
{
    if v.len() == 0 { Seq::empty() } else { outcome_texts(v.drop_last()) + outcome_text(v.last()) }
}

/// The lines that open an archive's block.
pub open spec fn entry_head(e: RetroArchAdvisoryEntryView) -> Seq<char> {
    ln(Seq::empty())
        + ln(e.display_name@ + " (archive id "@ + signed_decimal(e.archive_id as int) + ")"@)
        + ln("  platform: "@ + or_text(e.platform, "unknown"@) + " | content extension: "@
        + or_text(e.content_extension, "unknown"@))
        + ln("  soft-patch sibling candidates:"@)
}

/// One archive's block.
pub open spec fn entry_text(e: RetroArchAdvisoryEntryView) -> Seq<char> {
    entry_head(e) + candidate_destinations(e.soft_patch_candidates@) + outcome_texts(e.profile_outcomes@)
}

/// Every archive's block, in order.
pub open spec fn entry_texts(v: Seq<RetroArchAdvisoryEntryView>) -> Seq<char>
    decreases v.len(),
{
    if v.len() == 0 { Seq::empty() } else { entry_texts(v.drop_last()) + entry_text(v.last()) }
}

/// A diagnostic line with the given lead.
pub open spec fn diagnostic_lines(lead: Seq<char>, v: Seq<InventoryDiagnosticView>) -> Seq<char>
    decreases v.len(),
{
    if v.len() == 0 {
        Seq::empty()
    } else {
        diagnostic_lines(lead, v.drop_last()) + ln(lead + v.last().code@ + " ("@ + v.last().severity@ + ")"@)
    }
}

/// A catalogue game as `name (id)`.
pub open spec fn game_text(g: CatalogueGameView) -> Seq<char> {
    g.display_name@ + " ("@ + signed_decimal(g.archive_id as int) + ")"@
}

/// The cheat metadata line of a finding.
pub open spec fn cheat_summary_line(s: CheatSummaryView) -> Seq<char> {
    ln("    cheat metadata: entries "@ + spec_decimal(s.parsed_cheat_entries as nat)
        + match s.declared_cheat_count {
            Some(n) => " (declared "@ + spec_decimal(n as nat) + ")"@,
            None => Seq::empty(),
        }
        + " | enabled "@ + spec_decimal(s.enabled_cheat_entries as nat) + " | complete "@ + bool_text(s.complete)
        + " | description "@ + or_text(s.description, "unknown"@))
}

/// The first line of a finding.
pub open spec fn finding_line(f: ArtifactFindingView) -> Seq<char> {
    ln("  "@ + f.artifact_kind@ + ": "@ + f.path@ + " ("@
        + match f.size_bytes {
            Some(n) => spec_decimal(n as nat),
            None => "unknown"@,
        }
        + " bytes, "@ + f.conflict_state@ + ", confidence "@ + f.confidence@ + ")"@)
}

/// One finding.
pub open spec fn finding_text(f: ArtifactFindingView) -> Seq<char> {
    finding_line(f)
        + if f.catalogue_games@.len() == 0 {
            Seq::empty()
        } else {
            ln("    catalogue games: "@ + spec_join(f.catalogue_games@.map_values(|g: CatalogueGameView| game_text(g)), ", "@))
        }
        + if f.core_stems@.len() == 0 {
            Seq::empty()
        } else {
            ln("    core evidence: "@ + spec_join(views(f.core_stems@), ", "@))
        }
        + match f.cheat_summary {
            Some(s) => cheat_summary_line(s),
            None => Seq::empty(),
        }
        + diagnostic_lines("    diagnostic: "@, f.diagnostics@)
}

/// Every finding, in order.
pub open spec fn finding_texts(v: Seq<ArtifactFindingView>) -> Seq<char>
    decreases v.len(),
{
    if v.len() == 0 { Seq::empty() } else { finding_texts(v.drop_last()) + finding_text(v.last()) }
}

/// The first counts line of the inventory.
pub open spec fn found_line(s: ArtifactSummaryView) -> Seq<char> {
    ln("  found: "@ + spec_decimal(s.artifacts_found as nat) + " | cheats: "@ + spec_decimal(s.cheat_files as nat)
        + " | soft patches: "@ + spec_decimal(s.soft_patch_files as nat) + " | expected: "@
        + spec_decimal(s.expected_destinations as nat) + " | empty: "@ + spec_decimal(s.empty_destinations as nat)
        + " | occupied: "@ + spec_decimal(s.occupied_destinations as nat))
}

/// The second counts line of the inventory.
pub open spec fn trouble_line(s: ArtifactSummaryView) -> Seq<char> {
    ln("  duplicate: "@ + spec_decimal(s.duplicate_artifacts as nat) + " | conflicting: "@
        + spec_decimal(s.conflicting_artifacts as nat) + " | orphaned: "@ + spec_decimal(s.orphaned_artifacts as nat)
        + " | ambiguous: "@ + spec_decimal(s.ambiguous_artifacts as nat) + " | unsupported: "@
        + spec_decimal(s.unsupported_artifacts as nat))
}

/// The inventory's head: its format and counts.
pub open spec fn inventory_head(i: ArtifactInventoryView) -> Seq<char> {
    ln(Seq::empty())
        + ln("Existing artifact inventory (format "@ + spec_decimal(i.format_version as nat) + ", complete: "@
        + bool_text(i.complete) + "):"@)
        + found_line(i.summary) + trouble_line(i.summary)
}

/// The whole inventory section.
pub open spec fn inventory_text(i: ArtifactInventoryView) -> Seq<char> {
    inventory_head(i) + finding_texts(i.findings@) + diagnostic_lines("  inventory diagnostic: "@, i.diagnostics@)
}

/// The head of the preview: the plan, the read-only statement and the counts.
pub open spec fn plan_head(p: RetroArchAdvisoryPlanView) -> Seq<char> {
    let s = p.summary;
    ln("EmuWiz RetroArch Patch/Cheat Preview"@)
        + ln("Advisory only: yes (executable: "@ + bool_text(p.executable) + ")"@)
        + ln("Plan format: "@ + spec_decimal(p.format_version as nat))
        + ln("Plan ID: "@ + p.plan_id@)
        + ln("Read-only: yes (no files were created, modified, or deleted; no core was loaded; no network call was made)"@)
        + ln(Seq::empty())
        + ln("Catalogue archives previewed: "@ + spec_decimal(s.catalogue_archives as nat) + " | exact-core outcomes: "@
        + spec_decimal(s.exact_core_profile_outcomes as nat) + " | ambiguous-core outcomes: "@
        + spec_decimal(s.ambiguous_core_profile_outcomes as nat) + " | unsupported outcomes: "@
        + spec_decimal(s.unsupported_profile_outcomes as nat))
}

/// The whole RetroArch advisory preview.
pub open spec fn retroarch_advisory_text(p: RetroArchAdvisoryPlanView) -> Seq<char> {
    plan_head(p) + entry_texts(p.entries@) + inventory_text(p.artifact_inventory)
}

fn line(out: &mut String, t: &str)
    ensures
        final(out)@ == old(out)@ + ln(t@),
{
    push_str(out, t);
    push_str(out, "\n");
    proof {
        assert(final(out)@ =~= old(out)@ + ln(t@));
    }
}

fn push_bool(out: &mut String, b: bool)
    ensures
        final(out)@ == old(out)@ + bool_text(b),
{
    push_str(out, if b { "true" } else { "false" });
}

fn push_opt_bool(out: &mut String, b: Option<bool>)
    ensures
        final(out)@ == old(out)@ + opt_bool_text(b),
{
    match b {
        Some(x) => push_bool(out, x),
        None => push_str(out, "n/a"),
    }
}

fn push_or(out: &mut String, v: &Option<String>, absent: &str)
    ensures
        final(out)@ == old(out)@ + or_text(*v, absent@),
{
    match v {
        Some(s) => push_str(out, s.as_str()),
        None => push_str(out, absent),
    }
}

/// Writes a proposed destination under a label: `unsupported` with its
/// reason, or the path that would be used with what exists of it.
pub fn format_destination(output: &mut String, label: &str, destination: &DestinationView)
    ensures
        final(output)@ == old(output)@ + destination_text(label@, *destination),
{
    let ghost start = output@;
    let d = destination;
    if d.unsupported {
        push_str(output, "    ");
        push_str(output, label);
        push_str(output, ": unsupported (");
        push_or(output, &d.unsupported_reason, "no reason recorded");
        line(output, ")");
    } else {
        push_str(output, "    ");
        push_str(output, label);
        push_str(output, " (");
        push_str(output, d.derivation.as_str());
        push_str(output, ", not created): ");
        push_or(output, &d.path, "unknown");
        push_str(output, "\n");
        push_str(output, "      parent exists: ");
        push_opt_bool(output, d.parent_exists);
        push_str(output, " | destination exists: ");
        push_opt_bool(output, d.destination_exists);
        push_str(output, " | conflict: ");
        push_bool(output, d.conflict);
        push_str(output, "\n");
    }
    proof {
        assert(output@ =~= start + destination_text(label@, *destination));
    }
}

fn push_candidates(out: &mut String, v: &Vec<DestinationView>)
    ensures
        final(out)@ == old(out)@ + candidate_destinations(v@),
{
    let ghost head = out@;
    let mut k: usize = 0;
    while k < v.len()
        invariant
            k <= v@.len(),
            out@ == head + candidate_destinations(v@.take(k as int)),
        decreases v@.len() - k,
    {
        proof {
            assert(v@.take(k + 1).drop_last() =~= v@.take(k as int));
            assert(v@.take(k + 1).last() == v@[k as int]);
        }
        format_destination(out, "candidate", &v[k]);
        k = k + 1;
    }
    proof {
        assert(v@.take(v@.len() as int) =~= v@);
    }
}

fn push_evidence_line(out: &mut String, e: &PlaylistEvidenceView)
    ensures
        final(out)@ == old(out)@ + evidence_line(*e),
{
    let ghost start = out@;
    push_str(out, "      ");
    push_str(out, e.playlist_name.as_str());
    push_str(out, " entry ");
    push_str(out, decimal(e.entry_index).as_str());
    push_str(out, " (");
    push_or(out, &e.entry_label, "(no label)");
    push_str(out, "): confidence ");
    push_str(out, e.confidence.as_str());
    push_str(out, ", database: ");
    push_or(out, &e.database_name, "unknown");
    push_str(out, ", core: ");
    line(out, e.core_association.as_str());
    proof {
        assert(out@ =~= start + evidence_line(*e));
    }
}

fn push_evidence(out: &mut String, v: &Vec<PlaylistEvidenceView>)
    ensures
        final(out)@ == old(out)@ + evidence_lines(v@),
{
    let ghost head = out@;
    let mut k: usize = 0;
    while k < v.len()
        invariant
            k <= v@.len(),
            out@ == head + evidence_lines(v@.take(k as int)),
        decreases v@.len() - k,
    {
        proof {
            assert(v@.take(k + 1).drop_last() =~= v@.take(k as int));
            assert(v@.take(k + 1).last() == v@[k as int]);
        }
        push_evidence_line(out, &v[k]);
        k = k + 1;
    }
    proof {
        assert(v@.take(v@.len() as int) =~= v@);
    }
}

fn push_reasons(out: &mut String, v: &Vec<String>)
    ensures
        final(out)@ == old(out)@ + reason_lines(v@),
{
    let ghost head = out@;
    let mut k: usize = 0;
    while k < v.len()
        invariant
            k <= v@.len(),
            out@ == head + reason_lines(v@.take(k as int)),
        decreases v@.len() - k,
    {
        proof {
            assert(v@.take(k + 1).drop_last() =~= v@.take(k as int));
            assert(v@.take(k + 1).last() == v@[k as int]);
        }
        let ghost before = out@;
        push_str(out, "    reason: ");
        line(out, v[k].as_str());
        proof {
            assert(out@ =~= before + ln("    reason: "@ + v@[k as int]@));
        }
        k = k + 1;
    }
    proof {
        assert(v@.take(v@.len() as int) =~= v@);
    }
}

fn push_matched_core(out: &mut String, o: &ProfileOutcomeView)
    ensures
        final(out)@ == old(out)@ + matched_core_text(*o),
{
    let ghost start = out@;
    match &o.matched_core_stem {
        Some(stem) => {
            push_str(out, "    matched core: ");
            push_str(out, stem.as_str());
            match o.selected_core_source {
                Some(CoreSelectionSource::PlaylistEvidence) => push_str(out, " (from playlist evidence)"),
                Some(CoreSelectionSource::ExtensionMatch) => push_str(out, " (from core file extension)"),
                None => {},
            }
            push_str(out, "\n");
        },
        None => {},
    }
    proof {
        assert(out@ =~= start + matched_core_text(*o));
    }
}

fn push_candidate_cores(out: &mut String, o: &ProfileOutcomeView)
    ensures
        final(out)@ == old(out)@ + candidate_cores_text(*o),
{
    let ghost start = out@;
    if o.candidate_core_stems.len() > 0 {
        push_str(out, "    candidate cores: ");
        line(out, join(&o.candidate_core_stems, ", ").as_str());
    }
    proof {
        assert(out@ =~= start + candidate_cores_text(*o));
    }
}

fn push_playlist_block(out: &mut String, o: &ProfileOutcomeView)
    ensures
        final(out)@ == old(out)@ + playlist_block(*o),
{
    let ghost start = out@;
    if o.playlist_evidence.len() > 0 {
        push_str(out, "    playlist evidence (");
        push_str(out, decimal(o.playlist_evidence.len() as u64).as_str());
        line(out, "):");
        push_evidence(out, &o.playlist_evidence);
    }
    proof {
        assert(out@ =~= start + playlist_block(*o));
    }
}

fn push_outcome_head(out: &mut String, o: &ProfileOutcomeView)
    ensures
        final(out)@ == old(out)@ + outcome_head(*o),
{
    let ghost start = out@;
    push_str(out, "  profile ");
    push_str(out, o.profile_kind.as_str());
    push_str(out, "/");
    push_str(out, o.scope.as_str());
    push_str(out, ": disposition ");
    line(out, o.disposition.as_str());
    push_matched_core(out, o);
    push_candidate_cores(out, o);
    push_playlist_block(out, o);
    proof {
        assert(out@ =~= start + outcome_head(*o));
    }
}

fn push_outcome(out: &mut String, o: &ProfileOutcomeView)
    ensures
        final(out)@ == old(out)@ + outcome_text(*o),
{
    let ghost start = out@;
    push_outcome_head(out, o);
    format_destination(out, "cheat database root", &o.cheat_database_root);
    format_destination(out, "per-game cheat file", &o.per_game_cheat_file);
    push_reasons(out, &o.reasons);
    proof {
        assert(out@ =~= start + outcome_text(*o));
    }
}

fn push_outcomes(out: &mut String, v: &Vec<ProfileOutcomeView>)
    ensures
        final(out)@ == old(out)@ + outcome_texts(v@),
{
    let ghost head = out@;
    let mut k: usize = 0;
    while k < v.len()
        invariant
            k <= v@.len(),
            out@ == head + outcome_texts(v@.take(k as int)),
        decreases v@.len() - k,
    {
        proof {
            assert(v@.take(k + 1).drop_last() =~= v@.take(k as int));
            assert(v@.take(k + 1).last() == v@[k as int]);
        }
        push_outcome(out, &v[k]);
        k = k + 1;
    }
    proof {
        assert(v@.take(v@.len() as int) =~= v@);
    }
}

fn push_entry(out: &mut String, e: &RetroArchAdvisoryEntryView)
    ensures
        final(out)@ == old(out)@ + entry_text(*e),
{
    let ghost start = out@;
    push_str(out, "\n");
    push_str(out, e.display_name.as_str());
    push_str(out, " (archive id ");
    push_str(out, signed_text(e.archive_id).as_str());
    line(out, ")");
    push_str(out, "  platform: ");
    push_or(out, &e.platform, "unknown");
    push_str(out, " | content extension: ");
    push_or(out, &e.content_extension, "unknown");
    push_str(out, "\n");
    line(out, "  soft-patch sibling candidates:");
    proof {
        assert(ln(Seq::<char>::empty()) =~= "\n"@);
        assert(out@ =~= start + entry_head(*e));
    }
    push_candidates(out, &e.soft_patch_candidates);
    push_outcomes(out, &e.profile_outcomes);
    proof {
        assert(out@ =~= start + entry_text(*e));
    }
}

fn push_diagnostics(out: &mut String, lead: &str, v: &Vec<InventoryDiagnosticView>)
    ensures
        final(out)@ == old(out)@ + diagnostic_lines(lead@, v@),
{
    let ghost head = out@;
    let mut k: usize = 0;
    while k < v.len()
        invariant
            k <= v@.len(),
            out@ == head + diagnostic_lines(lead@, v@.take(k as int)),
        decreases v@.len() - k,
    {
        proof {
            assert(v@.take(k + 1).drop_last() =~= v@.take(k as int));
            assert(v@.take(k + 1).last() == v@[k as int]);
        }
        let ghost before = out@;
        push_str(out, lead);
        push_str(out, v[k].code.as_str());
        push_str(out, " (");
        push_str(out, v[k].severity.as_str());
        line(out, ")");
        proof {
            let d = v@[k as int];
            assert(out@ =~= before + ln(lead@ + d.code@ + " ("@ + d.severity@ + ")"@));
        }
        k = k + 1;
    }
    proof {
        assert(v@.take(v@.len() as int) =~= v@);
    }
}

fn push_finding_line(out: &mut String, f: &ArtifactFindingView)
    ensures
        final(out)@ == old(out)@ + finding_line(*f),
{
    let ghost start = out@;
    push_str(out, "  ");
    push_str(out, f.artifact_kind.as_str());
    push_str(out, ": ");
    push_str(out, f.path.as_str());
    push_str(out, " (");
    match f.size_bytes {
        Some(n) => push_str(out, decimal(n).as_str()),
        None => push_str(out, "unknown"),
    }
    push_str(out, " bytes, ");
    push_str(out, f.conflict_state.as_str());
    push_str(out, ", confidence ");
    push_str(out, f.confidence.as_str());
    line(out, ")");
    proof {
        assert(out@ =~= start + finding_line(*f));
    }
}

fn push_games(out: &mut String, v: &Vec<CatalogueGameView>)
    ensures
        final(out)@ == old(out)@ + if v@.len() == 0 {
            Seq::<char>::empty()
        } else {
            ln("    catalogue games: "@ + spec_join(v@.map_values(|g: CatalogueGameView| game_text(g)), ", "@))
        },
{
    if v.len() == 0 {
        proof {
            assert(out@ =~= out@ + Seq::<char>::empty());
        }
        return;
    }
    let mut texts: Vec<String> = Vec::new();
    let mut k: usize = 0;
    while k < v.len()
        invariant
            k <= v@.len(),
            views(texts@) == v@.take(k as int).map_values(|g: CatalogueGameView| game_text(g)),
        decreases v@.len() - k,
    {
        let mut t = v[k].display_name.clone();
        push_str(&mut t, " (");
        push_str(&mut t, signed_text(v[k].archive_id).as_str());
        push_str(&mut t, ")");
        let ghost before = texts@;
        texts.push(t);
        proof {
            assert(views(texts@) =~= views(before).push(game_text(v@[k as int])));
            assert(v@.take(k + 1).map_values(|g: CatalogueGameView| game_text(g))
                =~= v@.take(k as int).map_values(|g: CatalogueGameView| game_text(g)).push(game_text(v@[k as int])));
        }
        k = k + 1;
    }
    proof {
        assert(v@.take(v@.len() as int) =~= v@);
    }
    let ghost start = out@;
    push_str(out, "    catalogue games: ");
    line(out, join(&texts, ", ").as_str());
    proof {
        assert(out@ =~= start + ln("    catalogue games: "@ + spec_join(v@.map_values(|g: CatalogueGameView| game_text(g)), ", "@)));
    }
}

#[verifier::spinoff_prover]
#[verifier::rlimit(40)]
fn push_cheat_summary(out: &mut String, s: &CheatSummaryView)
    ensures
        final(out)@ == old(out)@ + cheat_summary_line(*s),
{
    let ghost start = out@;
    push_str(out, "    cheat metadata: entries ");
    push_str(out, decimal(s.parsed_cheat_entries).as_str());
    match s.declared_cheat_count {
        Some(n) => {
            push_str(out, " (declared ");
            push_str(out, decimal(n).as_str());
            push_str(out, ")");
        },
        None => {},
    }
    push_str(out, " | enabled ");
    push_str(out, decimal(s.enabled_cheat_entries).as_str());
    push_str(out, " | complete ");
    push_bool(out, s.complete);
    push_str(out, " | description ");
    push_or(out, &s.description, "unknown");
    push_str(out, "\n");
    proof {
        assert(out@ =~= start + cheat_summary_line(*s));
    }
}

#[verifier::spinoff_prover]
#[verifier::rlimit(40)]
fn push_finding(out: &mut String, f: &ArtifactFindingView)
    ensures
        final(out)@ == old(out)@ + finding_text(*f),
{
    let ghost start = out@;
    push_finding_line(out, f);
    push_games(out, &f.catalogue_games);
    let ghost after_games = out@;
    if f.core_stems.len() > 0 {
        push_str(out, "    core evidence: ");
        line(out, join(&f.core_stems, ", ").as_str());
    }
    let ghost after_cores = out@;
    match &f.cheat_summary {
        Some(s) => push_cheat_summary(out, s),
        None => {},
    }
    let ghost after_summary = out@;
    push_diagnostics(out, "    diagnostic: ", &f.diagnostics);
    proof {
        assert(after_cores =~= after_games + if f.core_stems@.len() == 0 {
            Seq::<char>::empty()
        } else {
            ln("    core evidence: "@ + spec_join(views(f.core_stems@), ", "@))
        });
        assert(after_summary =~= after_cores + match f.cheat_summary {
            Some(s) => cheat_summary_line(s),
            None => Seq::<char>::empty(),
        });
        assert(out@ =~= start + finding_text(*f));
    }
}

fn push_found_line(out: &mut String, s: &ArtifactSummaryView)
    ensures
        final(out)@ == old(out)@ + found_line(*s),
{
    let ghost start = out@;
    push_str(out, "  found: ");
    push_str(out, decimal(s.artifacts_found).as_str());
    push_str(out, " | cheats: ");
    push_str(out, decimal(s.cheat_files).as_str());
    push_str(out, " | soft patches: ");
    push_str(out, decimal(s.soft_patch_files).as_str());
    push_str(out, " | expected: ");
    push_str(out, decimal(s.expected_destinations).as_str());
    push_str(out, " | empty: ");
    push_str(out, decimal(s.empty_destinations).as_str());
    push_str(out, " | occupied: ");
    line(out, decimal(s.occupied_destinations).as_str());
    proof {
        assert(out@ =~= start + found_line(*s));
    }
}

fn push_trouble_line(out: &mut String, s: &ArtifactSummaryView)
    ensures
        final(out)@ == old(out)@ + trouble_line(*s),
{
    let ghost start = out@;
    push_str(out, "  duplicate: ");
    push_str(out, decimal(s.duplicate_artifacts).as_str());
    push_str(out, " | conflicting: ");
    push_str(out, decimal(s.conflicting_artifacts).as_str());
    push_str(out, " | orphaned: ");
    push_str(out, decimal(s.orphaned_artifacts).as_str());
    push_str(out, " | ambiguous: ");
    push_str(out, decimal(s.ambiguous_artifacts).as_str());
    push_str(out, " | unsupported: ");
    line(out, decimal(s.unsupported_artifacts).as_str());
    proof {
        assert(out@ =~= start + trouble_line(*s));
    }
}

fn push_inventory_head(out: &mut String, i: &ArtifactInventoryView)
    ensures
        final(out)@ == old(out)@ + inventory_head(*i),
{
    let ghost start = out@;
    push_str(out, "\n");
    push_str(out, "Existing artifact inventory (format ");
    push_str(out, decimal(i.format_version).as_str());
    push_str(out, ", complete: ");
    push_bool(out, i.complete);
    line(out, "):");
    push_found_line(out, &i.summary);
    push_trouble_line(out, &i.summary);
    proof {
        assert(ln(Seq::<char>::empty()) =~= "\n"@);
        assert(out@ =~= start + inventory_head(*i));
    }
}

/// Writes the inventory of RetroArch artifacts that already exist: the
/// counts, each finding with what is known of it, and the inventory's own
/// diagnostics.
pub fn format_retroarch_artifact_inventory(output: &mut String, inventory: &ArtifactInventoryView)
    ensures
        final(output)@ == old(output)@ + inventory_text(*inventory),
{
    let ghost start = output@;
    push_inventory_head(output, inventory);
    let ghost head = output@;
    let v = &inventory.findings;
    let mut k: usize = 0;
    while k < v.len()
        invariant
            k <= v@.len(),
            output@ == head + finding_texts(v@.take(k as int)),
        decreases v@.len() - k,
    {
        proof {
            assert(v@.take(k + 1).drop_last() =~= v@.take(k as int));
            assert(v@.take(k + 1).last() == v@[k as int]);
        }
        push_finding(output, &v[k]);
        k = k + 1;
    }
    proof {
        assert(v@.take(v@.len() as int) =~= v@);
    }
    push_diagnostics(output, "  inventory diagnostic: ", &inventory.diagnostics);
    proof {
        assert(output@ =~= start + inventory_text(*inventory));
    }
}

#[verifier::spinoff_prover]
#[verifier::rlimit(40)]
fn push_plan_head(out: &mut String, p: &RetroArchAdvisoryPlanView)
    ensures
        final(out)@ == old(out)@ + plan_head(*p),
{
    let ghost start = out@;
    let s = &p.summary;
    line(out, "EmuWiz RetroArch Patch/Cheat Preview");
    push_str(out, "Advisory only: yes (executable: ");
    push_bool(out, p.executable);
    line(out, ")");
    push_str(out, "Plan format: ");
    line(out, decimal(p.format_version).as_str());
    push_str(out, "Plan ID: ");
    line(out, p.plan_id.as_str());
    line(out, "Read-only: yes (no files were created, modified, or deleted; no core was loaded; no network call was made)");
    push_str(out, "\n");
    push_str(out, "Catalogue archives previewed: ");
    push_str(out, decimal(s.catalogue_archives).as_str());
    push_str(out, " | exact-core outcomes: ");
    push_str(out, decimal(s.exact_core_profile_outcomes).as_str());
    push_str(out, " | ambiguous-core outcomes: ");
    push_str(out, decimal(s.ambiguous_core_profile_outcomes).as_str());
    push_str(out, " | unsupported outcomes: ");
    line(out, decimal(s.unsupported_profile_outcomes).as_str());
    proof {
        assert(ln(Seq::<char>::empty()) =~= "\n"@);
        assert(out@ =~= start + plan_head(*p));
    }
}

/// The read-only RetroArch patch and cheat preview: the plan and its
/// counts, each catalogue archive with its soft-patch candidates and each
/// profile's outcome, then the inventory of existing artifacts.
pub fn format_retroarch_advisory_plan(plan: &RetroArchAdvisoryPlanView) -> (r: String)
    ensures
        r@ == retroarch_advisory_text(*plan),
{
    let mut out = String::new();
    push_plan_head(&mut out, plan);
    let ghost head = out@;
    let v = &plan.entries;
    let mut k: usize = 0;
    while k < v.len()
        invariant
            k <= v@.len(),
            out@ == head + entry_texts(v@.take(k as int)),
        decreases v@.len() - k,
    {
        proof {
            assert(v@.take(k + 1).drop_last() =~= v@.take(k as int));
            assert(v@.take(k + 1).last() == v@[k as int]);
        }
        push_entry(&mut out, &v[k]);
        k = k + 1;
    }
    proof {
        assert(v@.take(v@.len() as int) =~= v@);
    }
    format_retroarch_artifact_inventory(&mut out, &plan.artifact_inventory);
    out
}

} // verus!
