//! The read-only RetroArch cheat catalogue preview: how each catalogue game
//! matched the library, whether its cheats are installed, and what staging
//! would do. Nothing is downloaded, installed or written.
use vstd::prelude::*;
use crate::text::{decimal, push_str, signed_decimal, signed_text, spec_decimal, spec_join, join, views};

verus! {

/// The counts over the catalogue.
#[derive(Debug, Clone, Copy, PartialEq, Eq, Structural)]
pub struct AvailabilitySummaryView {
    pub games_in_catalogue: u64,
    pub exact_matches: u64,
    pub strong_matches: u64,
    pub weak_matches: u64,
    pub ambiguous_matches: u64,
    pub unsupported_matches: u64,
    pub not_installed: u64,
    pub already_installed: u64,
    pub conflicts: u64,
    pub staging_candidates: u64,
}

/// A library archive a catalogue game may be.
#[derive(Debug, Clone, PartialEq, Eq)]
pub struct MatchCandidateView {
    pub display_name: String,
    pub archive_id: i64,
}

/// One piece of match evidence.
#[derive(Debug, Clone, PartialEq, Eq)]
pub struct MatchEvidenceView {
    pub tier: String,
    pub detail: String,
}

/// One catalogue game and what the preview concluded for it.
#[derive(Debug, Clone, PartialEq, Eq)]
pub struct AvailabilityEntryView {
    pub source_game_name: String,
    /// The cheat file format, by name.
    pub format: String,
    pub cheat_count: u64,
    pub enabled_by_default_count: u64,
    pub source_file_path: String,
    pub parsing_complete: bool,
    /// The match confidence, by name.
    pub match_confidence: String,
    pub evidence: Vec<MatchEvidenceView>,
    pub candidates: Vec<MatchCandidateView>,
    /// The installed state, by name.
    pub installed_state: String,
    pub installed_state_detail: Vec<String>,
    pub staging_candidate: bool,
    /// The planned staging action, by name.
    pub planned_action: String,
    pub staging_reason: String,
    pub proposed_destination_path: Option<String>,
    pub existing_destination_hash: Option<String>,
    pub destructive_if_applied: bool,
}

/// A catalogue diagnostic.
#[derive(Debug, Clone, PartialEq, Eq)]
pub struct CatalogueDiagnosticView {
    pub code: String,
    /// The severity, by name.
    pub severity: String,
    pub path: Option<String>,
}

/// The whole availability report.
#[derive(Debug, Clone, PartialEq, Eq)]
pub struct CheatAvailabilityView {
    pub format_version: String,
    pub source_name: String,
    pub source_root: String,
    pub complete: bool,
    pub summary: AvailabilitySummaryView,
    pub entries: Vec<AvailabilityEntryView>,
    pub diagnostics: Vec<CatalogueDiagnosticView>,
}

/// A line: the text and a newline.
pub open spec fn ln(t: Seq<char>) -> Seq<char> {
    t + "\n"@
}

/// `true` or `false`.
pub open spec fn bool_text(b: bool) -> Seq<char> {
    if b { "true"@ } else { "false"@ }
}

/// The head: the report, its source and the counts.
pub open spec fn availability_head(r: CheatAvailabilityView) -> Seq<char> {
    let s = r.summary;
    ln("EmuWiz RetroArch Cheat Catalogue Preview"@)
        + ln("Report format: "@ + r.format_version@)
        + ln("Read-only: yes (no cheat was downloaded, installed, enabled, or copied; no core was loaded; no network call was made)"@)
        + ln("Source: "@ + r.source_name@ + " ("@ + r.source_root@ + ")"@)
        + ln("Complete: "@ + bool_text(r.complete))
        + match_counts_ln(s)
        + install_counts_ln(s)
}

/// The match counts line.
pub open spec fn match_counts_ln(s: AvailabilitySummaryView) -> Seq<char> {
    ln("Games in catalogue: "@ + spec_decimal(s.games_in_catalogue as nat) + " | exact: "@
        + spec_decimal(s.exact_matches as nat) + " | strong: "@ + spec_decimal(s.strong_matches as nat)
        + " | weak: "@ + spec_decimal(s.weak_matches as nat) + " | ambiguous: "@
        + spec_decimal(s.ambiguous_matches as nat) + " | unsupported: "@ + spec_decimal(s.unsupported_matches as nat))
}

/// The installation counts line.
pub open spec fn install_counts_ln(s: AvailabilitySummaryView) -> Seq<char> {
    ln("Not installed: "@ + spec_decimal(s.not_installed as nat) + " | already installed: "@
        + spec_decimal(s.already_installed as nat) + " | conflicts: "@ + spec_decimal(s.conflicts as nat)
        + " | staging candidates: "@ + spec_decimal(s.staging_candidates as nat))
}

/// The first lines of a game's block: the game, its file, match and staging.
pub open spec fn game_head(e: AvailabilityEntryView) -> Seq<char> {
    ln(Seq::empty()) + game_title_ln(e) + ln("  source file: "@ + e.source_file_path@) + match_ln(e) + staging_ln(e)
}

/// The game's title line.
pub open spec fn game_title_ln(e: AvailabilityEntryView) -> Seq<char> {
    ln(e.source_game_name@ + " ("@ + e.format@ + ", "@ + spec_decimal(e.cheat_count as nat) + " cheats, "@
        + spec_decimal(e.enabled_by_default_count as nat) + " enabled by default)"@)
}

/// The game's match line.
pub open spec fn match_ln(e: AvailabilityEntryView) -> Seq<char> {
    ln("  match: "@ + e.match_confidence@ + " | installed state: "@ + e.installed_state@
        + " | staging candidate: "@ + bool_text(e.staging_candidate))
}

/// The game's staging line.
pub open spec fn staging_ln(e: AvailabilityEntryView) -> Seq<char> {
    ln("  staging: "@ + e.planned_action@ + " ("@ + e.staging_reason@ + ")"@
        + if e.destructive_if_applied { " [destructive if ever applied]"@ } else { Seq::empty() })
}

/// An optional labelled line.
pub open spec fn optional_ln(label: Seq<char>, v: Option<String>) -> Seq<char> {
    match v {
        Some(s) => ln(label + s@),
        None => Seq::empty(),
    }
}

/// The evidence lines of a match.
pub open spec fn evidence_lines(v: Seq<MatchEvidenceView>) -> Seq<char>
    decreases v.len(),
{
    if v.len() == 0 {
        Seq::empty()
    } else {
        evidence_lines(v.drop_last()) + ln("    evidence: "@ + v.last().tier@ + " - "@ + v.last().detail@)
    }
}

/// One candidate as listed: its name and archive id.
pub open spec fn candidate_text(c: MatchCandidateView) -> Seq<char> {
    c.display_name@ + " ("@ + signed_decimal(c.archive_id as int) + ")"@
}

/// The candidates line, when there are candidates.
pub open spec fn candidates_ln(v: Seq<MatchCandidateView>) -> Seq<char> {
    if v.len() == 0 {
        Seq::empty()
    } else {
        ln("    candidates: "@ + spec_join(v.map_values(|c: MatchCandidateView| candidate_text(c)), ", "@))
    }
}

/// The installed-state detail lines.
pub open spec fn detail_lines(v: Seq<String>) -> Seq<char>
    decreases v.len(),
{
    if v.len() == 0 {
        Seq::empty()
    } else {
        detail_lines(v.drop_last()) + ln("    installed state: "@ + v.last()@)
    }
}

/// The rest of a game's block.
pub open spec fn game_tail(e: AvailabilityEntryView) -> Seq<char> {
    optional_ln("    proposed destination: "@, e.proposed_destination_path)
        + optional_ln("    existing destination hash: "@, e.existing_destination_hash)
        + evidence_lines(e.evidence@)
        + candidates_ln(e.candidates@)
        + detail_lines(e.installed_state_detail@)
        + if e.parsing_complete { Seq::empty() } else { ln("    parsing diagnostics present (bounded metadata incomplete)"@) }
}

/// Every game's block, in order.
pub open spec fn game_texts(v: Seq<AvailabilityEntryView>) -> Seq<char>
    decreases v.len(),
{
    if v.len() == 0 { Seq::empty() } else { game_texts(v.drop_last()) + game_head(v.last()) + game_tail(v.last()) }
}

/// The catalogue diagnostics lines.
pub open spec fn diagnostic_lines(v: Seq<CatalogueDiagnosticView>) -> Seq<char>
    decreases v.len(),
{
    if v.len() == 0 {
        Seq::empty()
    } else {
        let d = v.last();
        diagnostic_lines(v.drop_last()) + ln("  "@ + d.code@ + " ("@ + d.severity@ + ")"@
            + match d.path { Some(p) => " - "@ + p@, None => Seq::empty() })
    }
}

/// The whole preview.
pub open spec fn availability_text(r: CheatAvailabilityView) -> Seq<char> {
    availability_head(r) + game_texts(r.entries@)
        + if r.diagnostics@.len() == 0 {
            Seq::empty()
        } else {
            ln(Seq::empty()) + ln("Catalogue diagnostics:"@) + diagnostic_lines(r.diagnostics@)
        }
}

fn line(out: &mut String, t: &str)
    ensures
        final(out)@ == old(out)@ + ln(t@),
{
    push_str(out, t);
    push_str(out, "\n");
    proof {
        assert(final(out)@ =~= old(out)@ + ln(t@));
    }
}

fn push_bool(out: &mut String, b: bool)
    ensures
        final(out)@ == old(out)@ + bool_text(b),
{
    push_str(out, if b { "true" } else { "false" });
}

#[verifier::spinoff_prover]
#[verifier::rlimit(40)]
fn push_head(out: &mut String, r: &CheatAvailabilityView)
    ensures
        final(out)@ == old(out)@ + availability_head(*r),
{
    let ghost start = out@;
    let s = &r.summary;
    line(out, "EmuWiz RetroArch Cheat Catalogue Preview");
    push_str(out, "Report format: ");
    line(out, r.format_version.as_str());
    line(out, "Read-only: yes (no cheat was downloaded, installed, enabled, or copied; no core was loaded; no network call was made)");
    push_str(out, "Source: ");
    push_str(out, r.source_name.as_str());
    push_str(out, " (");
    push_str(out, r.source_root.as_str());
    line(out, ")");
    push_str(out, "Complete: ");
    push_bool(out, r.complete);
    push_str(out, "\n");
    push_match_counts(out, s);
    push_install_counts(out, s);
    proof {
        assert(out@ =~= start + availability_head(*r));
    }
}

fn push_match_counts(out: &mut String, s: &AvailabilitySummaryView)
    ensures
        final(out)@ == old(out)@ + match_counts_ln(*s),
{
    let ghost start = out@;
    push_str(out, "Games in catalogue: ");
    push_str(out, decimal(s.games_in_catalogue).as_str());
    push_str(out, " | exact: ");
    push_str(out, decimal(s.exact_matches).as_str());
    push_str(out, " | strong: ");
    push_str(out, decimal(s.strong_matches).as_str());
    push_str(out, " | weak: ");
    push_str(out, decimal(s.weak_matches).as_str());
    push_str(out, " | ambiguous: ");
    push_str(out, decimal(s.ambiguous_matches).as_str());
    push_str(out, " | unsupported: ");
    line(out, decimal(s.unsupported_matches).as_str());
    proof {
        assert(out@ =~= start + match_counts_ln(*s));
    }
}

fn push_install_counts(out: &mut String, s: &AvailabilitySummaryView)
    ensures
        final(out)@ == old(out)@ + install_counts_ln(*s),
{
    let ghost start = out@;
    push_str(out, "Not installed: ");
    push_str(out, decimal(s.not_installed).as_str());
    push_str(out, " | already installed: ");
    push_str(out, decimal(s.already_installed).as_str());
    push_str(out, " | conflicts: ");
    push_str(out, decimal(s.conflicts).as_str());
    push_str(out, " | staging candidates: ");
    line(out, decimal(s.staging_candidates).as_str());
    proof {
        assert(out@ =~= start + install_counts_ln(*s));
    }
}

fn push_title_ln(out: &mut String, e: &AvailabilityEntryView)
    ensures
        final(out)@ == old(out)@ + game_title_ln(*e),
{
    let ghost start = out@;
    push_str(out, e.source_game_name.as_str());
    push_str(out, " (");
    push_str(out, e.format.as_str());
    push_str(out, ", ");
    push_str(out, decimal(e.cheat_count).as_str());
    push_str(out, " cheats, ");
    push_str(out, decimal(e.enabled_by_default_count).as_str());
    line(out, " enabled by default)");
    proof {
        assert(out@ =~= start + game_title_ln(*e));
    }
}

fn push_match_ln(out: &mut String, e: &AvailabilityEntryView)
    ensures
        final(out)@ == old(out)@ + match_ln(*e),
{
    let ghost start = out@;
    push_str(out, "  match: ");
    push_str(out, e.match_confidence.as_str());
    push_str(out, " | installed state: ");
    push_str(out, e.installed_state.as_str());
    push_str(out, " | staging candidate: ");
    push_bool(out, e.staging_candidate);
    push_str(out, "\n");
    proof {
        assert(out@ =~= start + match_ln(*e));
    }
}

fn push_staging_ln(out: &mut String, e: &AvailabilityEntryView)
    ensures
        final(out)@ == old(out)@ + staging_ln(*e),
{
    let ghost start = out@;
    push_str(out, "  staging: ");
    push_str(out, e.planned_action.as_str());
    push_str(out, " (");
    push_str(out, e.staging_reason.as_str());
    push_str(out, ")");
    if e.destructive_if_applied {
        push_str(out, " [destructive if ever applied]");
    }
    push_str(out, "\n");
    proof {
        assert(out@ =~= start + staging_ln(*e));
    }
}

fn push_game_head(out: &mut String, e: &AvailabilityEntryView)
    ensures
        final(out)@ == old(out)@ + game_head(*e),
{
    let ghost start = out@;
    push_str(out, "\n");
    push_title_ln(out, e);
    push_str(out, "  source file: ");
    line(out, e.source_file_path.as_str());
    push_match_ln(out, e);
    push_staging_ln(out, e);
    proof {
        assert(ln(Seq::<char>::empty()) =~= "\n"@);
        assert(out@ =~= start + game_head(*e));
    }
}

fn push_optional_ln(out: &mut String, label: &str, v: &Option<String>)
    ensures
        final(out)@ == old(out)@ + optional_ln(label@, *v),
{
    match v {
        Some(s) => {
            push_str(out, label);
            line(out, s.as_str());
            proof {
                assert(final(out)@ =~= old(out)@ + ln(label@ + s@));
            }
        },
        None => {
            proof {
                assert(out@ =~= out@ + Seq::<char>::empty());
            }
        },
    }
}

fn push_evidence(out: &mut String, v: &Vec<MatchEvidenceView>)
    ensures
        final(out)@ == old(out)@ + evidence_lines(v@),
{
    let ghost head = out@;
    let mut k: usize = 0;
    while k < v.len()
        invariant
            k <= v@.len(),
            out@ == head + evidence_lines(v@.take(k as int)),
        decreases v@.len() - k,
    {
        proof {
            assert(v@.take(k + 1).drop_last() =~= v@.take(k as int));
            assert(v@.take(k + 1).last() == v@[k as int]);
        }
        let ghost before = out@;
        push_str(out, "    evidence: ");
        push_str(out, v[k].tier.as_str());
        push_str(out, " - ");
        line(out, v[k].detail.as_str());
        proof {
            let x = v@[k as int];
            assert(out@ =~= before + ln("    evidence: "@ + x.tier@ + " - "@ + x.detail@));
        }
        k = k + 1;
    }
    proof {
        assert(v@.take(v@.len() as int) =~= v@);
    }
}

fn push_candidates(out: &mut String, v: &Vec<MatchCandidateView>)
    ensures
        final(out)@ == old(out)@ + candidates_ln(v@),
{
    if v.len() == 0 {
        proof {
            assert(out@ =~= out@ + Seq::<char>::empty());
        }
        return;
    }
    let mut texts: Vec<String> = Vec::new();
    let mut k: usize = 0;
    while k < v.len()
        invariant
            k <= v@.len(),
            views(texts@) == v@.take(k as int).map_values(|c: MatchCandidateView| candidate_text(c)),
        decreases v@.len() - k,
    {
        let mut t = v[k].display_name.clone();
        push_str(&mut t, " (");
        push_str(&mut t, signed_text(v[k].archive_id).as_str());
        push_str(&mut t, ")");
        let ghost before = texts@;
        texts.push(t);
        proof {
            assert(views(texts@) =~= views(before).push(candidate_text(v@[k as int])));
            assert(v@.take(k + 1).map_values(|c: MatchCandidateView| candidate_text(c))
                =~= v@.take(k as int).map_values(|c: MatchCandidateView| candidate_text(c)).push(candidate_text(v@[k as int])));
        }
        k = k + 1;
    }
    proof {
        assert(v@.take(v@.len() as int) =~= v@);
    }
    let ghost start = out@;
    push_str(out, "    candidates: ");
    line(out, join(&texts, ", ").as_str());
    proof {
        assert(out@ =~= start + candidates_ln(v@));
    }
}

fn push_details(out: &mut String, v: &Vec<String>)
    ensures
        final(out)@ == old(out)@ + detail_lines(v@),
{
    let ghost head = out@;
    let mut k: usize = 0;
    while k < v.len()
        invariant
            k <= v@.len(),
            out@ == head + detail_lines(v@.take(k as int)),
        decreases v@.len() - k,
    {
        proof {
            assert(v@.take(k + 1).drop_last() =~= v@.take(k as int));
            assert(v@.take(k + 1).last() == v@[k as int]);
        }
        let ghost before = out@;
        push_str(out, "    installed state: ");
        line(out, v[k].as_str());
        proof {
            assert(out@ =~= before + ln("    installed state: "@ + v@[k as int]@));
        }
        k = k + 1;
    }
    proof {
        assert(v@.take(v@.len() as int) =~= v@);
    }
}

fn push_game_tail(out: &mut String, e: &AvailabilityEntryView)
    ensures
        final(out)@ == old(out)@ + game_tail(*e),
{
    let ghost start = out@;
    push_optional_ln(out, "    proposed destination: ", &e.proposed_destination_path);
    push_optional_ln(out, "    existing destination hash: ", &e.existing_destination_hash);
    push_evidence(out, &e.evidence);
    push_candidates(out, &e.candidates);
    push_details(out, &e.installed_state_detail);
    if !e.parsing_complete {
        line(out, "    parsing diagnostics present (bounded metadata incomplete)");
    }
    proof {
        assert(out@ =~= start + game_tail(*e));
    }
}

fn push_diagnostics(out: &mut String, v: &Vec<CatalogueDiagnosticView>)
    ensures
        final(out)@ == old(out)@ + diagnostic_lines(v@),
{
    let ghost head = out@;
    let mut k: usize = 0;
    while k < v.len()
        invariant
            k <= v@.len(),
            out@ == head + diagnostic_lines(v@.take(k as int)),
        decreases v@.len() - k,
    {
        proof {
            assert(v@.take(k + 1).drop_last() =~= v@.take(k as int));
            assert(v@.take(k + 1).last() == v@[k as int]);
        }
        let ghost before = out@;
        let d = &v[k];
        push_str(out, "  ");
        push_str(out, d.code.as_str());
        push_str(out, " (");
        push_str(out, d.severity.as_str());
        push_str(out, ")");
        match &d.path {
            Some(p) => {
                push_str(out, " - ");
                push_str(out, p.as_str());
            },
            None => {},
        }
        push_str(out, "\n");
        proof {
            assert(out@ =~= before + ln("  "@ + d.code@ + " ("@ + d.severity@ + ")"@
                + match d.path { Some(p) => " - "@ + p@, None => Seq::<char>::empty() }));
        }
        k = k + 1;
    }
    proof {
        assert(v@.take(v@.len() as int) =~= v@);
    }
}

/// The read-only RetroArch cheat catalogue preview: the source and counts,
/// then each catalogue game with its match, installed state and staging
/// plan, then the catalogue diagnostics when there are any.
pub fn format_cheat_availability_report(report: &CheatAvailabilityView) -> (r: String)
    ensures
        r@ == availability_text(*report),
{
    let mut out = String::new();
    push_head(&mut out, report);
    let ghost head = out@;
    let mut k: usize = 0;
    while k < report.entries.len()
        invariant
            k <= report.entries@.len(),
            out@ == head + game_texts(report.entries@.take(k as int)),
        decreases report.entries@.len() - k,
    {
        proof {
            assert(report.entries@.take(k + 1).drop_last() =~= report.entries@.take(k as int));
            assert(report.entries@.take(k + 1).last() == report.entries@[k as int]);
        }
        let ghost before = out@;
        push_game_head(&mut out, &report.entries[k]);
        push_game_tail(&mut out, &report.entries[k]);
        proof {
            let e = report.entries@[k as int];
            assert(out@ =~= head + (game_texts(report.entries@.take(k as int)) + game_head(e) + game_tail(e)));
        }
        k = k + 1;
    }
    proof {
        assert(report.entries@.take(report.entries@.len() as int) =~= report.entries@);
    }
    let ghost body = out@;
    if report.diagnostics.len() > 0 {
        push_str(&mut out, "\n");
        line(&mut out, "Catalogue diagnostics:");
        push_diagnostics(&mut out, &report.diagnostics);
    }
    proof {
        assert(ln(Seq::<char>::empty()) =~= "\n"@);
        assert(out@ =~= availability_text(*report));
    }
    out
}

} // verus!
