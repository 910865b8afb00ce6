//! The game identity report: which identity an archive's evidence proves,
//! and where it came from. Proven evidence is preferred: a filename-only
//! candidate is never reported as the provenance of an identity, nor as the
//! reason one is missing.
use vstd::prelude::*;
use crate::text::{ascii_lower, decimal, push_char, push_str, spec_join};

verus! {

/// The kinds of identity evidence the report tells apart.
#[derive(Debug, Clone, Copy, PartialEq, Eq, Structural)]
pub enum IdentityKind {
    DolphinGameId,
    Ps2Serial,
    XexTitleId,
    DolphinRevision,
    /// Any other kind.
    Other,
}

/// How far a piece of evidence was established.
#[derive(Debug, Clone, Copy, PartialEq, Eq, Structural)]
pub enum IdentityStatus {
    Verified,
    Candidate,
    /// Any other status.
    Other,
}

/// One piece of identity evidence.
#[derive(Debug, Clone, PartialEq, Eq)]
pub struct IdentityEvidenceView {
    pub kind: IdentityKind,
    /// The kind as the report writes it.
    pub kind_label: String,
    pub value: Option<String>,
    pub status: IdentityStatus,
    /// The status as the report writes it.
    pub status_label: String,
    /// Whether the evidence comes from the file name alone.
    pub filename_only: bool,
    /// The confidence, by name.
    pub confidence_label: String,
    /// How the evidence was obtained.
    pub method: String,
    pub diagnostic: String,
}

/// What the report shows of an archive's identity.
#[derive(Debug, Clone, PartialEq, Eq)]
pub struct GameIdentityView {
    pub archive_path: String,
    pub platform_label: String,
    /// The image format, by name.
    pub format_label: String,
    pub verified_game_id: Option<String>,
    pub verified_disc_number: Option<String>,
    pub verified_revision: Option<String>,
    pub verified_region: Option<String>,
    pub bytes_read: u64,
    pub complete: bool,
    pub evidence: Vec<IdentityEvidenceView>,
}

/// Which evidence a search looks for.
#[derive(Debug, Clone, Copy, PartialEq, Eq, Structural)]
pub enum EvidenceWanted {
    /// Primary identity evidence that was verified.
    VerifiedPrimary,
    /// Primary identity evidence that is more than a file name.
    ProvenPrimary,
    /// A revision that is only a candidate.
    CandidateRevision,
}

/// Whether evidence of this kind identifies a game.
pub open spec fn is_primary_kind(k: IdentityKind) -> bool {
    k is DolphinGameId || k is Ps2Serial || k is XexTitleId
}

/// Whether a piece of evidence is what a search looks for.
pub open spec fn wanted(e: IdentityEvidenceView, w: EvidenceWanted) -> bool {
    match w {
        EvidenceWanted::VerifiedPrimary => is_primary_kind(e.kind) && e.status is Verified,
        EvidenceWanted::ProvenPrimary => is_primary_kind(e.kind) && !e.filename_only,
        EvidenceWanted::CandidateRevision => e.kind is DolphinRevision && e.status is Candidate,
    }
}

/// `i` is the first position holding wanted evidence.
pub open spec fn is_first_wanted(v: Seq<IdentityEvidenceView>, w: EvidenceWanted, i: int) -> bool {
    &&& 0 <= i < v.len()
    &&& wanted(v[i], w)
    &&& forall|j: int| 0 <= j < i ==> !wanted(#[trigger] v[j], w)
}

/// The first position holding wanted evidence, if any does.
pub open spec fn first_wanted(v: Seq<IdentityEvidenceView>, w: EvidenceWanted) -> Option<int> {
    if exists|i: int| is_first_wanted(v, w, i) {
        Some(choose|i: int| is_first_wanted(v, w, i))
    } else {
        None
    }
}

/// Only one position can be the first.
pub proof fn lemma_first_wanted_unique(v: Seq<IdentityEvidenceView>, w: EvidenceWanted, i: int, j: int)
    requires
        is_first_wanted(v, w, i),
        is_first_wanted(v, w, j),
    ensures
        i == j,
{
    if i < j {
        assert(!wanted(v[i], w));
    } else if j < i {
        assert(!wanted(v[j], w));
    }
}

/// The evidence the identity rests on: the first verified primary evidence,
/// else the first primary evidence that is more than a file name.
pub open spec fn primary_evidence(v: Seq<IdentityEvidenceView>) -> Option<int> {
    match first_wanted(v, EvidenceWanted::VerifiedPrimary) {
        Some(i) => Some(i),
        None => first_wanted(v, EvidenceWanted::ProvenPrimary),
    }
}

/// The evidence an identity rests on is primary evidence that was verified
/// or is more than a file name: a filename-only candidate is never reported
/// as the provenance of an identity, nor as the reason one is missing.
pub proof fn lemma_primary_evidence_is_proven(v: Seq<IdentityEvidenceView>)
    ensures
        primary_evidence(v) matches Some(i) ==> 0 <= i < v.len() && is_primary_kind(v[i].kind)
            && (v[i].status is Verified || !v[i].filename_only),
{
    if let Some(i) = first_wanted(v, EvidenceWanted::VerifiedPrimary) {
        assert(exists|j: int| is_first_wanted(v, EvidenceWanted::VerifiedPrimary, j));
        assert(is_first_wanted(v, EvidenceWanted::VerifiedPrimary, i));
    } else if let Some(i) = first_wanted(v, EvidenceWanted::ProvenPrimary) {
        assert(exists|j: int| is_first_wanted(v, EvidenceWanted::ProvenPrimary, j));
        assert(is_first_wanted(v, EvidenceWanted::ProvenPrimary, i));
    }
}

/// A value that may be unavailable.
pub open spec fn or_unavailable(v: Option<String>) -> Seq<char> {
    match v {
        Some(s) => s@,
        None => "unavailable"@,
    }
}

/// The revision: the verified one, else the first candidate's value marked
/// as a candidate.
pub open spec fn revision_text(r: GameIdentityView) -> Seq<char> {
    match r.verified_revision {
        Some(v) => v@,
        None => match first_wanted(r.evidence@, EvidenceWanted::CandidateRevision) {
            Some(i) => match r.evidence@[i].value {
                Some(v) => v@ + " (candidate)"@,
                None => "unavailable"@,
            },
            None => "unavailable"@,
        },
    }
}

/// Where the identity came from.
pub open spec fn provenance_text(v: Seq<IdentityEvidenceView>) -> Seq<char> {
    match primary_evidence(v) {
        Some(i) => v[i].method@,
        None => "unavailable"@,
    }
}

/// Why no identity was verified: the primary evidence's status, or `None`.
pub open spec fn failure_text(v: Seq<IdentityEvidenceView>) -> Seq<char> {
    match primary_evidence(v) {
        Some(i) => if v[i].status is Verified { "None"@ } else { v[i].status_label@ },
        None => "None"@,
    }
}

/// The report's rows, labels and values.
pub open spec fn identity_rows(r: GameIdentityView) -> Seq<(Seq<char>, Seq<char>)> {
    seq![
        ("Path"@, r.archive_path@),
        ("Platform"@, r.platform_label@),
        ("Image format"@, r.format_label@),
        ("Verified Game ID"@, or_unavailable(r.verified_game_id)),
        ("Disc number"@, or_unavailable(r.verified_disc_number)),
        ("Revision"@, revision_text(r)),
        ("Region"@, or_unavailable(r.verified_region)),
        ("Provenance"@, provenance_text(r.evidence@)),
        ("Bytes read"@, crate::text::spec_decimal(r.bytes_read as nat)),
        ("Failure code"@, failure_text(r.evidence@)),
        ("Complete"@, if r.complete { "true"@ } else { "false"@ }),
    ]
}

/// The views of a list of rows.
pub open spec fn row_views(v: Seq<(&'static str, String)>) -> Seq<(Seq<char>, Seq<char>)> {
    v.map_values(|row: (&'static str, String)| (row.0@, row.1@))
}

/// Finds the first evidence a search looks for.
pub fn find_first_wanted(v: &Vec<IdentityEvidenceView>, w: EvidenceWanted) -> (r: Option<usize>)
    ensures
        match r {
            Some(i) => first_wanted(v@, w) == Some(i as int),
            None => first_wanted(v@, w) is None,
        },
{
    let mut k: usize = 0;
    while k < v.len()
        invariant
            k <= v@.len(),
            forall|j: int| 0 <= j < k ==> !wanted(#[trigger] v@[j], w),
        decreases v@.len() - k,
    {
        let e = &v[k];
        let hit = match w {
            EvidenceWanted::VerifiedPrimary => {
                let primary = match e.kind {
                    IdentityKind::DolphinGameId | IdentityKind::Ps2Serial | IdentityKind::XexTitleId => true,
                    _ => false,
                };
                primary && match e.status {
                    IdentityStatus::Verified => true,
                    _ => false,
                }
            },
            EvidenceWanted::ProvenPrimary => {
                let primary = match e.kind {
                    IdentityKind::DolphinGameId | IdentityKind::Ps2Serial | IdentityKind::XexTitleId => true,
                    _ => false,
                };
                primary && !e.filename_only
            },
            EvidenceWanted::CandidateRevision => {
                let revision = match e.kind {
                    IdentityKind::DolphinRevision => true,
                    _ => false,
                };
                revision && match e.status {
                    IdentityStatus::Candidate => true,
                    _ => false,
                }
            },
        };
        if hit {
            proof {
                assert(is_first_wanted(v@, w, k as int));
                let c = choose|i: int| is_first_wanted(v@, w, i);
                lemma_first_wanted_unique(v@, w, c, k as int);
            }
            return Some(k);
        }
        k = k + 1;
    }
    proof {
        assert forall|i: int| !is_first_wanted(v@, w, i) by {
            if 0 <= i < v@.len() {
                assert(!wanted(v@[i], w));
            }
        }
    }
    None
}

/// The evidence the identity rests on, by position.
pub fn find_primary_evidence(v: &Vec<IdentityEvidenceView>) -> (r: Option<usize>)
    ensures
        match r {
            Some(i) => primary_evidence(v@) == Some(i as int),
            None => primary_evidence(v@) is None,
        },
{
    match find_first_wanted(v, EvidenceWanted::VerifiedPrimary) {
        Some(i) => Some(i),
        None => find_first_wanted(v, EvidenceWanted::ProvenPrimary),
    }
}

fn or_unavailable_text(v: &Option<String>) -> (r: String)
    ensures
        r@ == or_unavailable(*v),
{
    match v {
        Some(s) => s.clone(),
        None => "unavailable".to_owned(),
    }
}

/// The rows of the game identity report: path, platform, image format, the
/// verified game id, disc number, revision and region, the provenance of
/// the primary evidence, the bytes read, the failure code, and whether the
/// identification completed.
pub fn game_identity_report_rows(report: &GameIdentityView) -> (r: Vec<(&'static str, String)>)
    ensures
        row_views(r@) == identity_rows(*report),
{
    let ev = &report.evidence;
    let primary = find_primary_evidence(ev);
    let revision = match &report.verified_revision {
        Some(v) => v.clone(),
        None => match find_first_wanted(ev, EvidenceWanted::CandidateRevision) {
            Some(i) => match &ev[i].value {
                Some(v) => {
                    let mut t = v.clone();
                    push_str(&mut t, " (candidate)");
                    t
                },
                None => "unavailable".to_owned(),
            },
            None => "unavailable".to_owned(),
        },
    };
    let provenance = match primary {
        Some(i) => ev[i].method.clone(),
        None => "unavailable".to_owned(),
    };
    let failure = match primary {
        Some(i) => match ev[i].status {
            IdentityStatus::Verified => "None".to_owned(),
            _ => ev[i].status_label.clone(),
        },
        None => "None".to_owned(),
    };
    let complete = if report.complete { "true".to_owned() } else { "false".to_owned() };
    let mut rows: Vec<(&'static str, String)> = Vec::new();
    rows.push(("Path", report.archive_path.clone()));
    rows.push(("Platform", report.platform_label.clone()));
    rows.push(("Image format", report.format_label.clone()));
    rows.push(("Verified Game ID", or_unavailable_text(&report.verified_game_id)));
    rows.push(("Disc number", or_unavailable_text(&report.verified_disc_number)));
    rows.push(("Revision", revision));
    rows.push(("Region", or_unavailable_text(&report.verified_region)));
    rows.push(("Provenance", provenance));
    rows.push(("Bytes read", decimal(report.bytes_read)));
    rows.push(("Failure code", failure));
    rows.push(("Complete", complete));
    proof {
        assert(row_views(rows@) =~= identity_rows(*report));
    }
    rows
}

/// A line: the text and a newline.
pub open spec fn ln(t: Seq<char>) -> Seq<char> {
    t + "\n"@
}

/// The row lines: each label and value.
pub open spec fn row_lines(rows: Seq<(Seq<char>, Seq<char>)>) -> Seq<char>
    decreases rows.len(),
{
    if rows.len() == 0 {
        Seq::empty()
    } else {
        row_lines(rows.drop_last()) + ln("  "@ + rows.last().0 + ": "@ + rows.last().1)
    }
}

/// One evidence line.
pub open spec fn evidence_line(e: IdentityEvidenceView) -> Seq<char> {
    ln("  "@ + e.kind_label@ + " = "@ + (match e.value { Some(v) => v@, None => "-"@ }) + " ["@ + e.status_label@
        + "] ("@ + e.confidence_label@ + "; "@ + e.method@ + "; "@ + e.diagnostic@ + ")"@)
}

/// Every evidence line.
pub open spec fn evidence_lines(v: Seq<IdentityEvidenceView>) -> Seq<char>
    decreases v.len(),
{
    if v.len() == 0 { Seq::empty() } else { evidence_lines(v.drop_last()) + evidence_line(v.last()) }
}

/// The game identity report text.
pub open spec fn identity_text(r: GameIdentityView) -> Seq<char> {
    "EmuWiz Game Identity\n\n"@ + row_lines(identity_rows(r))
        + if r.evidence@.len() == 0 { Seq::empty() } else { "\nEvidence:\n"@ + evidence_lines(r.evidence@) }
}

/// The game identity report: the rows, then every piece of evidence with
/// its status, confidence, method and diagnostic.
pub fn format_game_identity_report(report: &GameIdentityView) -> (r: String)
    ensures
        r@ == identity_text(*report),
{
    let rows = game_identity_report_rows(report);
    let mut out = "EmuWiz Game Identity\n\n".to_owned();
    let ghost head = out@;
    let mut k: usize = 0;
    while k < rows.len()
        invariant
            k <= rows@.len(),
            out@ == head + row_lines(row_views(rows@).take(k as int)),
        decreases rows@.len() - k,
    {
        proof {
            assert(row_views(rows@).take(k + 1).drop_last() =~= row_views(rows@).take(k as int));
            assert(row_views(rows@).take(k + 1).last() == row_views(rows@)[k as int]);
        }
        let ghost before = out@;
        push_str(&mut out, "  ");
        push_str(&mut out, rows[k].0);
        push_str(&mut out, ": ");
        push_str(&mut out, rows[k].1.as_str());
        push_str(&mut out, "\n");
        proof {
            assert(out@ =~= before + ln("  "@ + rows@[k as int].0@ + ": "@ + rows@[k as int].1@));
        }
        k = k + 1;
    }
    proof {
        assert(row_views(rows@).take(rows@.len() as int) =~= row_views(rows@));
    }
    if report.evidence.len() > 0 {
        push_str(&mut out, "\nEvidence:\n");
        let ghost eh = out@;
        let v = &report.evidence;
        let mut j: usize = 0;
        while j < v.len()
            invariant
                j <= v@.len(),
                out@ == eh + evidence_lines(v@.take(j as int)),
            decreases v@.len() - j,
        {
            proof {
                assert(v@.take(j + 1).drop_last() =~= v@.take(j as int));
                assert(v@.take(j + 1).last() == v@[j as int]);
            }
            push_evidence_line(&mut out, &v[j]);
            j = j + 1;
        }
        proof {
            assert(v@.take(v@.len() as int) =~= v@);
        }
    }
    out
}

fn push_evidence_line(out: &mut String, e: &IdentityEvidenceView)
    ensures
        final(out)@ == old(out)@ + evidence_line(*e),
{
    let ghost start = out@;
    push_str(out, "  ");
    push_str(out, e.kind_label.as_str());
    push_str(out, " = ");
    match &e.value {
        Some(v) => push_str(out, v.as_str()),
        None => push_str(out, "-"),
    }
    push_str(out, " [");
    push_str(out, e.status_label.as_str());
    push_str(out, "] (");
    push_str(out, e.confidence_label.as_str());
    push_str(out, "; ");
    push_str(out, e.method.as_str());
    push_str(out, "; ");
    push_str(out, e.diagnostic.as_str());
    push_str(out, ")");
    push_str(out, "\n");
    proof {
        assert(out@ =~= start + evidence_line(*e));
    }
}

/// A row's key in the JSON report: its label lower-cased, with spaces
/// replaced by underscores.
pub open spec fn row_key(label: Seq<char>) -> Seq<char> {
    label.map_values(|c: char| if c == ' ' { '_' } else { ascii_lower(c) })
}

/// The JSON key of a row.
pub fn identity_row_key(label: &str) -> (r: String)
    ensures
        r@ == row_key(label@),
{
    let chars = crate::text::chars_of(label);
    let mut out = String::new();
    let mut k: usize = 0;
    while k < chars.len()
        invariant
            k <= chars@.len(),
            chars@ == label@,
            out@ == row_key(label@.take(k as int)),
        decreases chars@.len() - k,
    {
        let c = chars[k];
        if c == ' ' {
            push_char(&mut out, '_');
        } else {
            push_char(&mut out, crate::text::to_ascii_lowercase(c));
        }
        proof {
            assert(row_key(label@.take(k + 1)) =~= row_key(label@.take(k as int)).push(
                if c == ' ' { '_' } else { ascii_lower(c) }));
        }
        k = k + 1;
    }
    proof {
        assert(label@.take(label@.len() as int) =~= label@);
    }
    out
}

} // verus!
