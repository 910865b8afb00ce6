//! The text of the platform-detection audit: what was considered, how
//! confident the detections were, what the disk-format parser proved, and
//! which platforms changed. It only reports; nothing is written.
use vstd::prelude::*;
use crate::text::{chars_of, decimal, join, push_char, push_str, spec_decimal, spec_join, views};

verus! {

/// A name and how many times it was counted.
#[derive(Debug, Clone, PartialEq, Eq)]
pub struct CountRow {
    pub name: String,
    pub count: u64,
}

/// What the disk-format parser proved for one extension.
#[derive(Debug, Clone, PartialEq, Eq)]
pub struct DiskFormatRowView {
    pub extension: String,
    pub files: u64,
    pub structurally_valid: u64,
    pub malformed: u64,
    pub refused: u64,
    pub bytes_inspected: u64,
    /// Why files were refused, with how many each.
    pub refusals: Vec<CountRow>,
}

/// One file whose platform the audit reports.
#[derive(Debug, Clone, PartialEq, Eq)]
pub struct PlatformChangeView {
    pub path: String,
    pub before: Option<String>,
    pub after: Option<String>,
    /// The confidence's label.
    pub confidence: String,
    pub reason: String,
}

/// A platform-detection audit report.
#[derive(Debug, Clone, PartialEq, Eq)]
pub struct PlatformAuditView {
    pub root: String,
    pub files_considered: u64,
    pub directories_considered: u64,
    pub elapsed_milliseconds: u64,
    pub confirmed: u64,
    pub probable: u64,
    pub ambiguous: u64,
    pub unknown: u64,
    pub platform_counts: Vec<CountRow>,
    pub top_ambiguous_extensions: Vec<CountRow>,
    pub disk_format: Vec<DiskFormatRowView>,
    pub symlinks_seen: u64,
    pub symlinks_read: u64,
    pub symlinks_with_signature_evidence: u64,
    pub symlink_refusals: Vec<CountRow>,
    pub reclassified_total: u64,
    pub reclassified: Vec<PlatformChangeView>,
    pub newly_detected_total: u64,
    pub newly_detected: Vec<PlatformChangeView>,
    pub historical_misclassifications_total: u64,
    pub historical_misclassifications: Vec<PlatformChangeView>,
    pub requested_platforms_absent: Vec<String>,
}

/// A line: the text and a newline.
pub open spec fn ln(t: Seq<char>) -> Seq<char> {
    t + "\n"@
}

/// `s` padded on the left with spaces to at least `width` characters.
pub open spec fn pad_left(s: Seq<char>, width: nat) -> Seq<char> {
    if s.len() < width { Seq::new((width - s.len()) as nat, |i: int| ' ') + s } else { s }
}

/// Counted names, one per line: the lead, the count right-aligned in
/// `width`, two spaces, the prefix and the name.
pub open spec fn count_lines(lead: Seq<char>, width: nat, prefix: Seq<char>, v: Seq<CountRow>) -> Seq<char>
    decreases v.len(),
{
    if v.len() == 0 {
        Seq::empty()
    } else {
        count_lines(lead, width, prefix, v.drop_last())
            + ln(lead + pad_left(spec_decimal(v.last().count as nat), width) + "  "@ + prefix + v.last().name@)
    }
}

/// A platform that may be unknown.
pub open spec fn platform_text(p: Option<String>) -> Seq<char> {
    match p {
        Some(s) => s@,
        None => "Unknown"@,
    }
}

/// What was considered, and how long it took.
pub open spec fn considered_ln(r: PlatformAuditView) -> Seq<char> {
    ln("Considered: "@ + spec_decimal(r.files_considered as nat) + " files, "@
        + spec_decimal(r.directories_considered as nat) + " directories in "@
        + spec_decimal(r.elapsed_milliseconds as nat) + " ms"@)
}

/// The confidence counts.
pub open spec fn confidence_ln(r: PlatformAuditView) -> Seq<char> {
    ln("Confirmed: "@ + spec_decimal(r.confirmed as nat) + "  Probable: "@ + spec_decimal(r.probable as nat)
        + "  Ambiguous: "@ + spec_decimal(r.ambiguous as nat) + "  Unknown: "@ + spec_decimal(r.unknown as nat))
}

/// The first lines: the root, what was considered and the confidence
/// counts.
pub open spec fn audit_summary(r: PlatformAuditView) -> Seq<char> {
    ln("EmuWiz platform-detection audit (read-only)"@)
        + ln("Root: "@ + r.root@)
        + considered_ln(r)
        + ln(Seq::empty())
        + confidence_ln(r)
        + ln(Seq::empty())
}

/// The head: the summary, then the detections by platform.
pub open spec fn audit_head(r: PlatformAuditView) -> Seq<char> {
    audit_summary(r)
        + ln("Detections by platform ("@ + spec_decimal(r.platform_counts@.len()) + "):"@)
        + count_lines("  "@, 7, ""@, r.platform_counts@)
}

/// The unresolved extension groups, when there are any.
pub open spec fn ambiguous_section(v: Seq<CountRow>) -> Seq<char> {
    if v.len() == 0 {
        Seq::empty()
    } else {
        ln(Seq::empty()) + ln("Top unresolved extension groups:"@) + count_lines("  "@, 7, "."@, v)
    }
}

/// One disk-format row and its refusals.
pub open spec fn disk_row_text(d: DiskFormatRowView) -> Seq<char> {
    ln("  ."@ + d.extension@ + ": "@ + spec_decimal(d.files as nat) + " file(s), "@
        + spec_decimal(d.structurally_valid as nat) + " structurally valid, "@ + spec_decimal(d.malformed as nat)
        + " malformed, "@ + spec_decimal(d.refused as nat) + " refused, "@ + spec_decimal(d.bytes_inspected as nat)
        + " bytes read"@)
        + count_lines("      "@, 6, ""@, d.refusals@)
}

/// Every disk-format row.
pub open spec fn disk_rows(v: Seq<DiskFormatRowView>) -> Seq<char>
    decreases v.len(),
{
    if v.len() == 0 { Seq::empty() } else { disk_rows(v.drop_last()) + disk_row_text(v.last()) }
}

/// The disk-format section, when there are rows.
pub open spec fn disk_section(v: Seq<DiskFormatRowView>) -> Seq<char> {
    if v.len() == 0 {
        Seq::empty()
    } else {
        ln(Seq::empty()) + ln("Structural disk-format validation (what the parser proved):"@) + disk_rows(v)
    }
}

/// The symlink section.
pub open spec fn symlink_section(r: PlatformAuditView) -> Seq<char> {
    ln(Seq::empty())
        + ln("Symlinked files: "@ + spec_decimal(r.symlinks_seen as nat) + " seen, "@ + spec_decimal(r.symlinks_read as nat)
        + " readable under the trusted-root policy, "@ + spec_decimal(r.symlinks_with_signature_evidence as nat)
        + " produced signature evidence"@)
        + count_lines("  refused "@, 7, ""@, r.symlink_refusals@)
}

/// Reclassified files: the change and its reason.
pub open spec fn reclassified_lines(v: Seq<PlatformChangeView>) -> Seq<char>
    decreases v.len(),
{
    if v.len() == 0 {
        Seq::empty()
    } else {
        let c = v.last();
        reclassified_lines(v.drop_last()) + ln("  "@ + c.path@ + " : "@ + platform_text(c.before) + " -> "@
            + platform_text(c.after) + " ["@ + c.confidence@ + "]"@) + ln("      "@ + c.reason@)
    }
}

/// The reclassified section.
pub open spec fn reclassified_section(r: PlatformAuditView) -> Seq<char> {
    ln(Seq::empty())
        + ln("Reclassified - a platform was previously asserted and now differs: "@
        + spec_decimal(r.reclassified_total as nat) + " (showing "@ + spec_decimal(r.reclassified@.len()) + ")"@)
        + (if r.reclassified@.len() == 0 {
            ln("  none: every platform this build previously asserted still holds"@)
        } else {
            Seq::empty()
        })
        + reclassified_lines(r.reclassified@)
}

/// Newly detected files.
pub open spec fn newly_detected_lines(v: Seq<PlatformChangeView>) -> Seq<char>
    decreases v.len(),
{
    if v.len() == 0 {
        Seq::empty()
    } else {
        let c = v.last();
        newly_detected_lines(v.drop_last()) + ln("  "@ + c.path@ + " : -> "@ + platform_text(c.after) + " ["@
            + c.confidence@ + "]"@)
    }
}

/// The newly detected section.
pub open spec fn newly_detected_section(r: PlatformAuditView) -> Seq<char> {
    ln(Seq::empty())
        + ln("Newly detected - nothing was classified before: "@ + spec_decimal(r.newly_detected_total as nat)
        + " (showing "@ + spec_decimal(r.newly_detected@.len()) + ")"@)
        + newly_detected_lines(r.newly_detected@)
}

/// Files the old extension rule would have called Mega Drive ROMs.
pub open spec fn historical_lines(v: Seq<PlatformChangeView>) -> Seq<char>
    decreases v.len(),
{
    if v.len() == 0 {
        Seq::empty()
    } else {
        let c = v.last();
        historical_lines(v.drop_last()) + ln("  "@ + c.path@ + " : MegaDrive -> "@ + platform_text(c.after) + " ["@
            + c.confidence@ + "]"@) + ln("      "@ + c.reason@)
    }
}

/// The historical misclassification section.
pub open spec fn historical_section(r: PlatformAuditView) -> Seq<char> {
    ln(Seq::empty())
        + ln("Historical misclassifications - the old `.gen`/`.smd` extension rule would have called these Mega Drive ROMs: "@
        + spec_decimal(r.historical_misclassifications_total as nat) + " (showing "@
        + spec_decimal(r.historical_misclassifications@.len()) + ")"@)
        + historical_lines(r.historical_misclassifications@)
}

/// The requested platforms that were not detected, when there are any.
pub open spec fn absent_section(v: Seq<String>) -> Seq<char> {
    if v.len() == 0 {
        Seq::empty()
    } else {
        ln(Seq::empty()) + ln("Requested platforms with no detection in this sample ("@ + spec_decimal(v.len()) + "):"@)
            + ln("  "@ + spec_join(views(v), ", "@))
    }
}

/// The whole audit text.
pub open spec fn platform_audit_text(r: PlatformAuditView) -> Seq<char> {
    audit_head(r) + ambiguous_section(r.top_ambiguous_extensions@) + disk_section(r.disk_format@)
        + symlink_section(r) + reclassified_section(r) + newly_detected_section(r) + historical_section(r)
        + absent_section(r.requested_platforms_absent@)
        + ln(Seq::empty()) + ln("Nothing was written, corrected, mounted or extracted."@)
}

fn line(out: &mut String, t: &str)
    ensures
        final(out)@ == old(out)@ + ln(t@),
{
    push_str(out, t);
    push_str(out, "\n");
    proof {
        assert(final(out)@ =~= old(out)@ + ln(t@));
    }
}

fn blank(out: &mut String)
    ensures
        final(out)@ == old(out)@ + ln(Seq::empty()),
{
    push_str(out, "\n");
    proof {
        assert(final(out)@ =~= old(out)@ + ln(Seq::empty()));
    }
}

fn push_pad_left(out: &mut String, s: &str, width: usize)
    ensures
        final(out)@ == old(out)@ + pad_left(s@, width as nat),
{
    let len = chars_of(s).len();
    let ghost base = out@;
    let mut k = len;
    while k < width
        invariant
            len == s@.len(),
            len <= k,
            k <= width || k == len,
            out@ == base + Seq::new((k - len) as nat, |i: int| ' '),
        decreases width - k,
    {
        push_char(out, ' ');
        k = k + 1;
        proof {
            assert(out@ =~= base + Seq::new((k - len) as nat, |i: int| ' '));
        }
    }
    let ghost spaced = out@;
    push_str(out, s);
    proof {
        if len >= width {
            assert(spaced =~= base);
            assert(out@ =~= old(out)@ + s@);
        } else {
            assert(out@ =~= old(out)@ + (Seq::new((width - len) as nat, |i: int| ' ') + s@));
        }
    }
}

fn push_count_lines(out: &mut String, lead: &str, width: usize, prefix: &str, v: &Vec<CountRow>)
    ensures
        final(out)@ == old(out)@ + count_lines(lead@, width as nat, prefix@, v@),
{
    let ghost head = out@;
    let mut k: usize = 0;
    while k < v.len()
        invariant
            k <= v@.len(),
            out@ == head + count_lines(lead@, width as nat, prefix@, v@.take(k as int)),
        decreases v@.len() - k,
    {
        proof {
            assert(v@.take(k + 1).drop_last() =~= v@.take(k as int));
            assert(v@.take(k + 1).last() == v@[k as int]);
        }
        let ghost before = out@;
        push_str(out, lead);
        push_pad_left(out, decimal(v[k].count).as_str(), width);
        push_str(out, "  ");
        push_str(out, prefix);
        line(out, v[k].name.as_str());
        proof {
            let x = v@[k as int];
            assert(out@ =~= before + ln(lead@ + pad_left(spec_decimal(x.count as nat), width as nat) + "  "@ + prefix@ + x.name@));
        }
        k = k + 1;
    }
    proof {
        assert(v@.take(v@.len() as int) =~= v@);
    }
}

fn push_considered(out: &mut String, r: &PlatformAuditView)
    ensures
        final(out)@ == old(out)@ + considered_ln(*r),
{
    let ghost start = out@;
    push_str(out, "Considered: ");
    push_str(out, decimal(r.files_considered).as_str());
    push_str(out, " files, ");
    push_str(out, decimal(r.directories_considered).as_str());
    push_str(out, " directories in ");
    push_str(out, decimal(r.elapsed_milliseconds).as_str());
    line(out, " ms");
    proof {
        assert(out@ =~= start + considered_ln(*r));
    }
}

fn push_confidence(out: &mut String, r: &PlatformAuditView)
    ensures
        final(out)@ == old(out)@ + confidence_ln(*r),
{
    let ghost start = out@;
    push_str(out, "Confirmed: ");
    push_str(out, decimal(r.confirmed).as_str());
    push_str(out, "  Probable: ");
    push_str(out, decimal(r.probable).as_str());
    push_str(out, "  Ambiguous: ");
    push_str(out, decimal(r.ambiguous).as_str());
    push_str(out, "  Unknown: ");
    line(out, decimal(r.unknown).as_str());
    proof {
        assert(out@ =~= start + confidence_ln(*r));
    }
}

fn push_summary(out: &mut String, r: &PlatformAuditView)
    ensures
        final(out)@ == old(out)@ + audit_summary(*r),
{
    let ghost start = out@;
    line(out, "EmuWiz platform-detection audit (read-only)");
    push_str(out, "Root: ");
    line(out, r.root.as_str());
    push_considered(out, r);
    blank(out);
    push_confidence(out, r);
    blank(out);
    proof {
        assert(out@ =~= start + audit_summary(*r));
    }
}

fn push_head(out: &mut String, r: &PlatformAuditView)
    ensures
        final(out)@ == old(out)@ + audit_head(*r),
{
    let ghost start = out@;
    push_summary(out, r);
    push_str(out, "Detections by platform (");
    push_str(out, decimal(r.platform_counts.len() as u64).as_str());
    line(out, "):");
    push_count_lines(out, "  ", 7, "", &r.platform_counts);
    proof {
        assert(out@ =~= start + audit_head(*r));
    }
}

fn push_ambiguous(out: &mut String, v: &Vec<CountRow>)
    ensures
        final(out)@ == old(out)@ + ambiguous_section(v@),
{
    let ghost start = out@;
    if v.len() > 0 {
        blank(out);
        line(out, "Top unresolved extension groups:");
        push_count_lines(out, "  ", 7, ".", v);
    }
    proof {
        assert(out@ =~= start + ambiguous_section(v@));
    }
}

fn push_disk_row(out: &mut String, d: &DiskFormatRowView)
    ensures
        final(out)@ == old(out)@ + disk_row_text(*d),
{
    let ghost start = out@;
    push_str(out, "  .");
    push_str(out, d.extension.as_str());
    push_str(out, ": ");
    push_str(out, decimal(d.files).as_str());
    push_str(out, " file(s), ");
    push_str(out, decimal(d.structurally_valid).as_str());
    push_str(out, " structurally valid, ");
    push_str(out, decimal(d.malformed).as_str());
    push_str(out, " malformed, ");
    push_str(out, decimal(d.refused).as_str());
    push_str(out, " refused, ");
    push_str(out, decimal(d.bytes_inspected).as_str());
    line(out, " bytes read");
    push_count_lines(out, "      ", 6, "", &d.refusals);
    proof {
        assert(out@ =~= start + disk_row_text(*d));
    }
}

fn push_disk(out: &mut String, v: &Vec<DiskFormatRowView>)
    ensures
        final(out)@ == old(out)@ + disk_section(v@),
{
    let ghost start = out@;
    if v.len() > 0 {
        blank(out);
        line(out, "Structural disk-format validation (what the parser proved):");
        let ghost head = out@;
        let mut k: usize = 0;
        while k < v.len()
            invariant
                k <= v@.len(),
                out@ == head + disk_rows(v@.take(k as int)),
            decreases v@.len() - k,
        {
            proof {
                assert(v@.take(k + 1).drop_last() =~= v@.take(k as int));
                assert(v@.take(k + 1).last() == v@[k as int]);
            }
            push_disk_row(out, &v[k]);
            k = k + 1;
        }
        proof {
            assert(v@.take(v@.len() as int) =~= v@);
        }
    }
    proof {
        assert(out@ =~= start + disk_section(v@));
    }
}

fn push_symlinks(out: &mut String, r: &PlatformAuditView)
    ensures
        final(out)@ == old(out)@ + symlink_section(*r),
{
    let ghost start = out@;
    blank(out);
    push_str(out, "Symlinked files: ");
    push_str(out, decimal(r.symlinks_seen).as_str());
    push_str(out, " seen, ");
    push_str(out, decimal(r.symlinks_read).as_str());
    push_str(out, " readable under the trusted-root policy, ");
    push_str(out, decimal(r.symlinks_with_signature_evidence).as_str());
    line(out, " produced signature evidence");
    push_count_lines(out, "  refused ", 7, "", &r.symlink_refusals);
    proof {
        assert(out@ =~= start + symlink_section(*r));
    }
}

fn push_or_unknown(out: &mut String, p: &Option<String>)
    ensures
        final(out)@ == old(out)@ + platform_text(*p),
{
    match p {
        Some(s) => push_str(out, s.as_str()),
        None => push_str(out, "Unknown"),
    }
}

fn push_reclassified_lines(out: &mut String, v: &Vec<PlatformChangeView>)
    ensures
        final(out)@ == old(out)@ + reclassified_lines(v@),
{
    let ghost head = out@;
    let mut k: usize = 0;
    while k < v.len()
        invariant
            k <= v@.len(),
            out@ == head + reclassified_lines(v@.take(k as int)),
        decreases v@.len() - k,
    {
        proof {
            assert(v@.take(k + 1).drop_last() =~= v@.take(k as int));
            assert(v@.take(k + 1).last() == v@[k as int]);
        }
        let ghost before = out@;
        let c = &v[k];
        push_str(out, "  ");
        push_str(out, c.path.as_str());
        push_str(out, " : ");
        push_or_unknown(out, &c.before);
        push_str(out, " -> ");
        push_or_unknown(out, &c.after);
        push_str(out, " [");
        push_str(out, c.confidence.as_str());
        line(out, "]");
        push_str(out, "      ");
        line(out, c.reason.as_str());
        proof {
            assert(out@ =~= before + ln("  "@ + c.path@ + " : "@ + platform_text(c.before) + " -> "@
                + platform_text(c.after) + " ["@ + c.confidence@ + "]"@) + ln("      "@ + c.reason@));
        }
        k = k + 1;
    }
    proof {
        assert(v@.take(v@.len() as int) =~= v@);
    }
}

fn push_reclassified(out: &mut String, r: &PlatformAuditView)
    ensures
        final(out)@ == old(out)@ + reclassified_section(*r),
{
    let ghost start = out@;
    blank(out);
    push_str(out, "Reclassified - a platform was previously asserted and now differs: ");
    push_str(out, decimal(r.reclassified_total).as_str());
    push_str(out, " (showing ");
    push_str(out, decimal(r.reclassified.len() as u64).as_str());
    line(out, ")");
    if r.reclassified.len() == 0 {
        line(out, "  none: every platform this build previously asserted still holds");
    }
    push_reclassified_lines(out, &r.reclassified);
    proof {
        assert(out@ =~= start + reclassified_section(*r));
    }
}

fn push_newly_detected(out: &mut String, r: &PlatformAuditView)
    ensures
        final(out)@ == old(out)@ + newly_detected_section(*r),
{
    let ghost start = out@;
    blank(out);
    push_str(out, "Newly detected - nothing was classified before: ");
    push_str(out, decimal(r.newly_detected_total).as_str());
    push_str(out, " (showing ");
    push_str(out, decimal(r.newly_detected.len() as u64).as_str());
    line(out, ")");
    let v = &r.newly_detected;
    let ghost head = out@;
    let mut k: usize = 0;
    while k < v.len()
        invariant
            k <= v@.len(),
            out@ == head + newly_detected_lines(v@.take(k as int)),
        decreases v@.len() - k,
    {
        proof {
            assert(v@.take(k + 1).drop_last() =~= v@.take(k as int));
            assert(v@.take(k + 1).last() == v@[k as int]);
        }
        let ghost before = out@;
        let c = &v[k];
        push_str(out, "  ");
        push_str(out, c.path.as_str());
        push_str(out, " : -> ");
        push_or_unknown(out, &c.after);
        push_str(out, " [");
        push_str(out, c.confidence.as_str());
        line(out, "]");
        proof {
            assert(out@ =~= before + ln("  "@ + c.path@ + " : -> "@ + platform_text(c.after) + " ["@ + c.confidence@ + "]"@));
        }
        k = k + 1;
    }
    proof {
        assert(v@.take(v@.len() as int) =~= v@);
        assert(out@ =~= start + newly_detected_section(*r));
    }
}

fn push_historical(out: &mut String, r: &PlatformAuditView)
    ensures
        final(out)@ == old(out)@ + historical_section(*r),
{
    let ghost start = out@;
    blank(out);
    push_str(out, "Historical misclassifications - the old `.gen`/`.smd` extension rule would have called these Mega Drive ROMs: ");
    push_str(out, decimal(r.historical_misclassifications_total).as_str());
    push_str(out, " (showing ");
    push_str(out, decimal(r.historical_misclassifications.len() as u64).as_str());
    line(out, ")");
    let v = &r.historical_misclassifications;
    let ghost head = out@;
    let mut k: usize = 0;
    while k < v.len()
        invariant
            k <= v@.len(),
            out@ == head + historical_lines(v@.take(k as int)),
        decreases v@.len() - k,
    {
        proof {
            assert(v@.take(k + 1).drop_last() =~= v@.take(k as int));
            assert(v@.take(k + 1).last() == v@[k as int]);
        }
        let ghost before = out@;
        let c = &v[k];
        push_str(out, "  ");
        push_str(out, c.path.as_str());
        push_str(out, " : MegaDrive -> ");
        push_or_unknown(out, &c.after);
        push_str(out, " [");
        push_str(out, c.confidence.as_str());
        line(out, "]");
        push_str(out, "      ");
        line(out, c.reason.as_str());
        proof {
            assert(out@ =~= before + ln("  "@ + c.path@ + " : MegaDrive -> "@ + platform_text(c.after) + " ["@
                + c.confidence@ + "]"@) + ln("      "@ + c.reason@));
        }
        k = k + 1;
    }
    proof {
        assert(v@.take(v@.len() as int) =~= v@);
        assert(out@ =~= start + historical_section(*r));
    }
}

fn push_absent(out: &mut String, v: &Vec<String>)
    ensures
        final(out)@ == old(out)@ + absent_section(v@),
{
    let ghost start = out@;
    if v.len() > 0 {
        blank(out);
        push_str(out, "Requested platforms with no detection in this sample (");
        push_str(out, decimal(v.len() as u64).as_str());
        line(out, "):");
        push_str(out, "  ");
        line(out, join(v, ", ").as_str());
    }
    proof {
        assert(out@ =~= start + absent_section(v@));
    }
}

/// The platform-detection audit report: what was considered, the
/// confidence counts and detections by platform (counts right-aligned),
/// unresolved extensions, the disk-format parser's proofs, symlinks, and
/// the reclassified, newly detected and historically misclassified files.
pub fn format_platform_audit(report: &PlatformAuditView) -> (r: String)
    ensures
        r@ == platform_audit_text(*report),
{
    let mut out = String::new();
    push_head(&mut out, report);
    push_ambiguous(&mut out, &report.top_ambiguous_extensions);
    push_disk(&mut out, &report.disk_format);
    push_symlinks(&mut out, report);
    push_reclassified(&mut out, report);
    push_newly_detected(&mut out, report);
    push_historical(&mut out, report);
    push_absent(&mut out, &report.requested_platforms_absent);
    blank(&mut out);
    line(&mut out, "Nothing was written, corrected, mounted or extracted.");
    out
}

/// One piece of detection evidence.
#[derive(Debug, Clone, PartialEq, Eq)]
pub struct DetectionEvidenceView {
    /// The label of where the evidence came from.
    pub source_label: String,
    pub platform: String,
    pub detail: String,
}

/// What platform detection concluded for one file.
#[derive(Debug, Clone, PartialEq, Eq)]
pub struct PlatformDetectionView {
    /// The platform's identifier, when one was detected.
    pub platform: Option<String>,
    pub display_name: Option<String>,
    /// The confidence's label.
    pub confidence: String,
    /// The label of the evidence that decided, when any did.
    pub deciding_source: Option<String>,
    pub manually_assigned: bool,
    pub ambiguity_reason: Option<String>,
    /// The display names of the candidate platforms.
    pub candidates: Vec<String>,
    pub requires_confirmation: bool,
    /// The evidence, strongest first.
    pub evidence: Vec<DetectionEvidenceView>,
}

/// The platform lines: the platform, confidence, deciding source and how it
/// was assigned; or that it is unknown, with the confidence.
pub open spec fn detected_platform_lines(r: PlatformDetectionView) -> Seq<char> {
    match r.platform {
        Some(p) => known_platform_lines(p@, r),
        None => ln("Platform unknown"@) + ln("Confidence: "@ + r.confidence@),
    }
}

/// The lines of a detected platform.
pub open spec fn known_platform_lines(p: Seq<char>, r: PlatformDetectionView) -> Seq<char> {
    ln("Platform: "@ + (match r.display_name { Some(d) => d@, None => p }) + " ("@ + p + ")"@)
        + ln("Confidence: "@ + r.confidence@)
        + ln("Detected from: "@ + match r.deciding_source { Some(d) => d@, None => "no evidence"@ })
        + ln("Assignment: "@ + if r.manually_assigned { "Manually assigned"@ } else { "Automatically detected"@ })
}

/// The reason, the candidates for an unknown platform with the action to
/// take, and whether a person should confirm.
pub open spec fn detection_notes(r: PlatformDetectionView) -> Seq<char> {
    (match r.ambiguity_reason { Some(m) => ln("Reason: "@ + m@), None => Seq::empty() })
        + (if r.platform is None && r.candidates@.len() > 0 {
            ln("Possible candidates: "@ + spec_join(views(r.candidates@), ", "@)) + ln("Action: assign platform manually"@)
        } else {
            Seq::empty()
        })
        + if r.requires_confirmation {
            ln("Confirmation: a person should confirm this before it is relied on"@)
        } else {
            Seq::empty()
        }
}

/// The evidence lines.
pub open spec fn evidence_lines(v: Seq<DetectionEvidenceView>) -> Seq<char>
    decreases v.len(),
{
    if v.len() == 0 {
        Seq::empty()
    } else {
        evidence_lines(v.drop_last()) + ln("  ["@ + v.last().source_label@ + "] "@ + v.last().platform@ + " - "@
            + v.last().detail@)
    }
}

/// The whole detection text for one file.
pub open spec fn platform_detection_text(path: Seq<char>, root: Seq<char>, r: PlatformDetectionView) -> Seq<char> {
    ln("Path: "@ + path) + ln("Source root: "@ + root) + ln(Seq::empty())
        + detected_platform_lines(r)
        + detection_notes(r)
        + if r.evidence@.len() == 0 {
            Seq::empty()
        } else {
            ln(Seq::empty()) + ln("Evidence (strongest first):"@) + evidence_lines(r.evidence@)
        }
}

fn push_or(out: &mut String, v: &Option<String>, absent: &str)
    ensures
        final(out)@ == old(out)@ + match *v { Some(s) => s@, None => absent@ },
{
    match v {
        Some(s) => push_str(out, s.as_str()),
        None => push_str(out, absent),
    }
}

fn labelled_line(out: &mut String, label: &str, value: &str)
    ensures
        final(out)@ == old(out)@ + ln(label@ + value@),
{
    push_str(out, label);
    line(out, value);
    proof {
        assert(final(out)@ =~= old(out)@ + ln(label@ + value@));
    }
}

fn push_known_platform(out: &mut String, p: &str, r: &PlatformDetectionView)
    ensures
        final(out)@ == old(out)@ + known_platform_lines(p@, *r),
{
    let ghost start = out@;
    push_str(out, "Platform: ");
    push_or(out, &r.display_name, p);
    push_str(out, " (");
    push_str(out, p);
    line(out, ")");
    proof {
        assert(out@ =~= start + ln("Platform: "@ + (match r.display_name { Some(d) => d@, None => p@ }) + " ("@ + p@ + ")"@));
    }
    let ghost first = out@;
    labelled_line(out, "Confidence: ", r.confidence.as_str());
    push_str(out, "Detected from: ");
    push_or(out, &r.deciding_source, "no evidence");
    push_str(out, "\n");
    labelled_line(out, "Assignment: ", if r.manually_assigned { "Manually assigned" } else { "Automatically detected" });
    proof {
        assert(out@ =~= first + ln("Confidence: "@ + r.confidence@)
            + ln("Detected from: "@ + match r.deciding_source { Some(d) => d@, None => "no evidence"@ })
            + ln("Assignment: "@ + if r.manually_assigned { "Manually assigned"@ } else { "Automatically detected"@ }));
        assert(out@ =~= start + known_platform_lines(p@, *r));
    }
}

fn push_detected_platform(out: &mut String, r: &PlatformDetectionView)
    ensures
        final(out)@ == old(out)@ + detected_platform_lines(*r),
{
    let ghost start = out@;
    match &r.platform {
        Some(p) => push_known_platform(out, p.as_str(), r),
        None => {
            line(out, "Platform unknown");
            push_str(out, "Confidence: ");
            line(out, r.confidence.as_str());
        },
    }
    proof {
        assert(out@ =~= start + detected_platform_lines(*r));
    }
}

fn push_detection_notes(out: &mut String, r: &PlatformDetectionView)
    ensures
        final(out)@ == old(out)@ + detection_notes(*r),
{
    let ghost start = out@;
    match &r.ambiguity_reason {
        Some(m) => {
            push_str(out, "Reason: ");
            line(out, m.as_str());
        },
        None => {},
    }
    let ghost after_reason = out@;
    if r.platform.is_none() && r.candidates.len() > 0 {
        push_str(out, "Possible candidates: ");
        line(out, join(&r.candidates, ", ").as_str());
        line(out, "Action: assign platform manually");
    }
    let ghost after_candidates = out@;
    if r.requires_confirmation {
        line(out, "Confirmation: a person should confirm this before it is relied on");
    }
    proof {
        assert(after_reason =~= start + match r.ambiguity_reason { Some(m) => ln("Reason: "@ + m@), None => Seq::<char>::empty() });
        assert(after_candidates =~= after_reason + if r.platform is None && r.candidates@.len() > 0 {
            ln("Possible candidates: "@ + spec_join(views(r.candidates@), ", "@)) + ln("Action: assign platform manually"@)
        } else {
            Seq::<char>::empty()
        });
        assert(out@ =~= start + detection_notes(*r));
    }
}

/// The detection report for one file: its path and source root, the
/// platform with its confidence, deciding evidence and assignment (or that
/// it is unknown, with candidates and what to do), whether a person should
/// confirm it, and the evidence, strongest first.
pub fn format_platform_detection(path: &str, root: &str, report: &PlatformDetectionView) -> (r: String)
    ensures
        r@ == platform_detection_text(path@, root@, *report),
{
    let mut out = "Path: ".to_owned();
    line(&mut out, path);
    push_str(&mut out, "Source root: ");
    line(&mut out, root);
    blank(&mut out);
    push_detected_platform(&mut out, report);
    push_detection_notes(&mut out, report);
    let ghost before_evidence = out@;
    if report.evidence.len() > 0 {
        blank(&mut out);
        line(&mut out, "Evidence (strongest first):");
        let ghost head = out@;
        let v = &report.evidence;
        let mut k: usize = 0;
        while k < v.len()
            invariant
                k <= v@.len(),
                out@ == head + evidence_lines(v@.take(k as int)),
            decreases v@.len() - k,
        {
            proof {
                assert(v@.take(k + 1).drop_last() =~= v@.take(k as int));
                assert(v@.take(k + 1).last() == v@[k as int]);
            }
            let ghost before = out@;
            push_str(&mut out, "  [");
            push_str(&mut out, v[k].source_label.as_str());
            push_str(&mut out, "] ");
            push_str(&mut out, v[k].platform.as_str());
            push_str(&mut out, " - ");
            line(&mut out, v[k].detail.as_str());
            proof {
                let x = v@[k as int];
                assert(out@ =~= before + ln("  ["@ + x.source_label@ + "] "@ + x.platform@ + " - "@ + x.detail@));
            }
            k = k + 1;
        }
        proof {
            assert(v@.take(v@.len() as int) =~= v@);
        }
    }
    proof {
        assert(out@ =~= platform_detection_text(path@, root@, *report));
    }
    out
}

} // verus!
