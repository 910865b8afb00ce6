//! The text of the read-only Doctor scan: the findings grouped by category,
//! each with its explanation, evidence, measurements and the repair or
//! recovery it offers, then what was and was not checked.
use vstd::prelude::*;
use crate::text::{decimal, join, lowercase, push_str, spec_decimal, spec_join, text_lowercase, views};

verus! {

/// A resource a finding is about.
#[derive(Debug, Clone, PartialEq, Eq)]
pub struct AffectedView {
    pub display: String,
    /// Whether the display lost bytes that are not UTF-8.
    pub lossy: bool,
}

/// A repair that a finding offers.
#[derive(Debug, Clone, PartialEq, Eq)]
pub struct DoctorRepairView {
    pub id: String,
    pub title: String,
    pub invokes: String,
    pub expected_mutation: String,
    pub never_touches: String,
    pub performs_library_scan: bool,
    /// How the repair is undone, by its label.
    pub undo_label: String,
}

/// One finding.
#[derive(Debug, Clone, PartialEq, Eq)]
pub struct DoctorFindingView {
    /// The severity's label, as the core writes it.
    pub severity_label: String,
    pub id: String,
    pub title: String,
    pub explanation: String,
    pub affected: Option<AffectedView>,
    pub why_it_matters: Option<String>,
    pub next_step: Option<String>,
    pub evidence: Vec<String>,
    /// Measured values, as (key, value) text.
    pub measurements: Vec<(String, String)>,
    pub repair: Option<DoctorRepairView>,
    /// The recovery notice, where no repair is offered.
    pub recovery_notice: Option<String>,
    /// The label of the subsystem that reported it.
    pub subsystem_label: String,
}

/// The findings of one category.
#[derive(Debug, Clone, PartialEq, Eq)]
pub struct DoctorCategoryView {
    pub label: String,
    pub findings: Vec<DoctorFindingView>,
}

/// A subsystem that was checked, or could not be: its category and
/// subsystem labels, and the reason when it was unavailable.
#[derive(Debug, Clone, PartialEq, Eq)]
pub struct CoverageView {
    pub category_label: String,
    pub subsystem_label: String,
    pub reason: String,
}

/// A check that did not run, or is not implemented: its name, why, and
/// what to do next (empty for one not implemented).
#[derive(Debug, Clone, PartialEq, Eq)]
pub struct SkippedCheckView {
    pub name: String,
    pub reason: String,
    pub next_step: String,
}

/// A Doctor scan as the text shows it.
#[derive(Debug, Clone, PartialEq, Eq)]
pub struct DoctorScanView {
    pub healthy: bool,
    /// How many findings of each severity, by the severity's label.
    pub severity_counts: Vec<(String, u64)>,
    pub categories: Vec<DoctorCategoryView>,
    pub merged_duplicate_count: u64,
    pub checked: Vec<CoverageView>,
    pub unavailable: Vec<CoverageView>,
    pub not_checked: Vec<SkippedCheckView>,
    pub deferred: Vec<SkippedCheckView>,
}

/// A line: the text and a newline.
pub open spec fn ln(t: Seq<char>) -> Seq<char> {
    t + "\n"@
}

/// An optional line.
pub open spec fn optional_ln(label: Seq<char>, v: Option<String>) -> Seq<char> {
    match v {
        Some(s) => ln(label + s@),
        None => Seq::empty(),
    }
}

/// A severity count as `label: count`.
pub open spec fn severity_count_text(c: (String, u64)) -> Seq<char> {
    c.0@ + ": "@ + spec_decimal(c.1 as nat)
}

/// The head: what the scan is and either that it is healthy or the
/// severity counts.
pub open spec fn doctor_head(s: DoctorScanView) -> Seq<char> {
    ln("EmuWiz Doctor - read-only diagnostic scan"@)
        + ln("Nothing was changed, created, mounted, repaired or written."@)
        + ln(Seq::empty())
        + (if s.healthy {
            ln("No problems detected by the available read-only checks."@)
        } else {
            ln(spec_join(s.severity_counts@.map_values(|c: (String, u64)| severity_count_text(c)), "  "@))
        })
        + ln(Seq::empty())
}

/// Lines with a common label.
pub open spec fn labelled_lines(label: Seq<char>, v: Seq<String>) -> Seq<char>
    decreases v.len(),
{
    if v.len() == 0 { Seq::empty() } else { labelled_lines(label, v.drop_last()) + ln(label + v.last()@) }
}

/// Measured values.
pub open spec fn measurement_lines(v: Seq<(String, String)>) -> Seq<char>
    decreases v.len(),
{
    if v.len() == 0 {
        Seq::empty()
    } else {
        measurement_lines(v.drop_last()) + ln("      Measured: "@ + v.last().0@ + " = "@ + v.last().1@)
    }
}

/// The repair a finding offers.
pub open spec fn repair_lines(r: DoctorRepairView) -> Seq<char> {
    ln("      Repair available: "@ + r.title@ + " (--repair "@ + r.id@ + ")"@)
        + ln("      Repair calls: "@ + r.invokes@)
        + ln("      Will change: "@ + r.expected_mutation@)
        + ln("      Will not touch: "@ + r.never_touches@)
        + (if r.performs_library_scan {
            ln("      Note: this repair rescans every configured source folder."@)
        } else {
            Seq::empty()
        })
        + ln("      Undo: "@ + r.undo_label@)
        + ln("      Requires --confirm; add --dry-run to validate without changing anything."@)
}

/// The first lines of a finding: severity, id, title, explanation and the
/// affected resource.
pub open spec fn finding_head(f: DoctorFindingView) -> Seq<char> {
    ln("  ["@ + text_lowercase(f.severity_label@) + "] "@ + f.id@ + " - "@ + f.title@)
        + ln("      "@ + f.explanation@)
        + resource_text(f.affected)
}

/// The affected resource's line, where there is one.
pub open spec fn resource_text(affected: Option<AffectedView>) -> Seq<char> {
    match affected {
        Some(a) => ln("      Resource: "@ + a.display@
            + if a.lossy { " (path shown lossily; it contains non-UTF-8 bytes)"@ } else { Seq::empty() }),
        None => Seq::empty(),
    }
}

/// The rest of a finding: why it matters, the next step, evidence,
/// measurements, the repair or recovery, and who reported it.
pub open spec fn finding_tail(f: DoctorFindingView) -> Seq<char> {
    optional_ln("      Why it matters: "@, f.why_it_matters)
        + optional_ln("      Next step: "@, f.next_step)
        + labelled_lines("      Evidence: "@, f.evidence@)
        + measurement_lines(f.measurements@)
        + match f.repair {
            Some(r) => repair_lines(r),
            None => optional_ln("      "@, f.recovery_notice),
        }
        + ln("      Reported by: "@ + f.subsystem_label@)
}

/// Every finding of a category.
pub open spec fn finding_texts(v: Seq<DoctorFindingView>) -> Seq<char>
    decreases v.len(),
{
    if v.len() == 0 {
        Seq::empty()
    } else {
        finding_texts(v.drop_last()) + finding_head(v.last()) + finding_tail(v.last())
    }
}

/// One category: its label and count, its findings and a blank line.
pub open spec fn category_text(c: DoctorCategoryView) -> Seq<char> {
    ln(c.label@ + " ("@ + spec_decimal(c.findings@.len()) + ")"@) + finding_texts(c.findings@) + ln(Seq::empty())
}

/// Every category.
pub open spec fn category_texts(v: Seq<DoctorCategoryView>) -> Seq<char>
    decreases v.len(),
{
    if v.len() == 0 { Seq::empty() } else { category_texts(v.drop_last()) + category_text(v.last()) }
}

/// The merged duplicates line, when any were merged.
pub open spec fn merged_text(n: u64) -> Seq<char> {
    if n > 0 {
        ln(spec_decimal(n as nat) + " duplicate finding(s) were merged."@) + ln(Seq::empty())
    } else {
        Seq::empty()
    }
}

/// Checked subsystems.
pub open spec fn checked_lines(v: Seq<CoverageView>) -> Seq<char>
    decreases v.len(),
{
    if v.len() == 0 {
        Seq::empty()
    } else {
        checked_lines(v.drop_last()) + ln("  "@ + v.last().category_label@ + " ("@ + v.last().subsystem_label@ + ")"@)
    }
}

/// Subsystems that could not be checked, with why.
pub open spec fn unavailable_lines(v: Seq<CoverageView>) -> Seq<char>
    decreases v.len(),
{
    if v.len() == 0 {
        Seq::empty()
    } else {
        unavailable_lines(v.drop_last()) + ln("  "@ + v.last().category_label@ + " ("@ + v.last().subsystem_label@
            + ") - "@ + v.last().reason@)
    }
}

/// Checks that did not run, with the next step for each.
pub open spec fn not_checked_lines(v: Seq<SkippedCheckView>) -> Seq<char>
    decreases v.len(),
{
    if v.len() == 0 {
        Seq::empty()
    } else {
        not_checked_lines(v.drop_last()) + ln("  "@ + v.last().name@ + " - "@ + v.last().reason@)
            + ln("      Next step: "@ + v.last().next_step@)
    }
}

/// Checks not implemented yet.
pub open spec fn deferred_lines(v: Seq<SkippedCheckView>) -> Seq<char>
    decreases v.len(),
{
    if v.len() == 0 {
        Seq::empty()
    } else {
        deferred_lines(v.drop_last()) + ln("  "@ + v.last().name@ + " - "@ + v.last().reason@)
    }
}

/// What was and was not checked.
pub open spec fn coverage_text(s: DoctorScanView) -> Seq<char> {
    ln("Checked:"@) + checked_lines(s.checked@)
        + (if s.unavailable@.len() == 0 {
            Seq::empty()
        } else {
            ln(Seq::empty()) + ln("Not checked in this run:"@) + unavailable_lines(s.unavailable@)
        })
        + (if s.not_checked@.len() == 0 {
            Seq::empty()
        } else {
            ln(Seq::empty()) + ln("Checks that did not run:"@) + not_checked_lines(s.not_checked@)
        })
        + ln(Seq::empty())
        + ln("Not implemented yet, so not covered by any result above:"@)
        + deferred_lines(s.deferred@)
}

/// The whole Doctor scan text.
pub open spec fn doctor_scan_text(s: DoctorScanView) -> Seq<char> {
    doctor_head(s) + category_texts(s.categories@) + merged_text(s.merged_duplicate_count) + coverage_text(s)
}

fn line(out: &mut String, t: &str)
    ensures
        final(out)@ == old(out)@ + ln(t@),
{
    push_str(out, t);
    push_str(out, "\n");
    proof {
        assert(final(out)@ =~= old(out)@ + ln(t@));
    }
}

fn blank(out: &mut String)
    ensures
        final(out)@ == old(out)@ + ln(Seq::empty()),
{
    push_str(out, "\n");
    proof {
        assert(final(out)@ =~= old(out)@ + ln(Seq::empty()));
    }
}

fn push_optional(out: &mut String, label: &str, v: &Option<String>)
    ensures
        final(out)@ == old(out)@ + optional_ln(label@, *v),
{
    match v {
        Some(s) => {
            push_str(out, label);
            line(out, s.as_str());
            proof {
                assert(final(out)@ =~= old(out)@ + ln(label@ + s@));
            }
        },
        None => {
            proof {
                assert(out@ =~= out@ + Seq::<char>::empty());
            }
        },
    }
}

fn push_head(out: &mut String, s: &DoctorScanView)
    ensures
        final(out)@ == old(out)@ + doctor_head(*s),
{
    let ghost start = out@;
    line(out, "EmuWiz Doctor - read-only diagnostic scan");
    line(out, "Nothing was changed, created, mounted, repaired or written.");
    blank(out);
    let ghost before = out@;
    if s.healthy {
        line(out, "No problems detected by the available read-only checks.");
    } else {
        let v = &s.severity_counts;
        let mut texts: Vec<String> = Vec::new();
        let mut k: usize = 0;
        while k < v.len()
            invariant
                k <= v@.len(),
                views(texts@) == v@.take(k as int).map_values(|c: (String, u64)| severity_count_text(c)),
            decreases v@.len() - k,
        {
            let mut t = v[k].0.clone();
            push_str(&mut t, ": ");
            push_str(&mut t, decimal(v[k].1).as_str());
            let ghost prior = texts@;
            texts.push(t);
            proof {
                assert(views(texts@) =~= views(prior).push(severity_count_text(v@[k as int])));
                assert(v@.take(k + 1).map_values(|c: (String, u64)| severity_count_text(c))
                    =~= v@.take(k as int).map_values(|c: (String, u64)| severity_count_text(c)).push(severity_count_text(v@[k as int])));
            }
            k = k + 1;
        }
        proof {
            assert(v@.take(v@.len() as int) =~= v@);
        }
        line(out, join(&texts, "  ").as_str());
    }
    blank(out);
    proof {
        assert(out@ =~= start + doctor_head(*s));
    }
}

fn push_labelled(out: &mut String, label: &str, v: &Vec<String>)
    ensures
        final(out)@ == old(out)@ + labelled_lines(label@, v@),
{
    let ghost head = out@;
    let mut k: usize = 0;
    while k < v.len()
        invariant
            k <= v@.len(),
            out@ == head + labelled_lines(label@, v@.take(k as int)),
        decreases v@.len() - k,
    {
        proof {
            assert(v@.take(k + 1).drop_last() =~= v@.take(k as int));
            assert(v@.take(k + 1).last() == v@[k as int]);
        }
        let ghost before = out@;
        push_str(out, label);
        line(out, v[k].as_str());
        proof {
            assert(out@ =~= before + ln(label@ + v@[k as int]@));
        }
        k = k + 1;
    }
    proof {
        assert(v@.take(v@.len() as int) =~= v@);
    }
}

fn push_measurements(out: &mut String, v: &Vec<(String, String)>)
    ensures
        final(out)@ == old(out)@ + measurement_lines(v@),
{
    let ghost head = out@;
    let mut k: usize = 0;
    while k < v.len()
        invariant
            k <= v@.len(),
            out@ == head + measurement_lines(v@.take(k as int)),
        decreases v@.len() - k,
    {
        proof {
            assert(v@.take(k + 1).drop_last() =~= v@.take(k as int));
            assert(v@.take(k + 1).last() == v@[k as int]);
        }
        let ghost before = out@;
        push_str(out, "      Measured: ");
        push_str(out, v[k].0.as_str());
        push_str(out, " = ");
        line(out, v[k].1.as_str());
        proof {
            let x = v@[k as int];
            assert(out@ =~= before + ln("      Measured: "@ + x.0@ + " = "@ + x.1@));
        }
        k = k + 1;
    }
    proof {
        assert(v@.take(v@.len() as int) =~= v@);
    }
}

fn push_repair(out: &mut String, r: &DoctorRepairView)
    ensures
        final(out)@ == old(out)@ + repair_lines(*r),
{
    let ghost start = out@;
    push_str(out, "      Repair available: ");
    push_str(out, r.title.as_str());
    push_str(out, " (--repair ");
    push_str(out, r.id.as_str());
    line(out, ")");
    push_str(out, "      Repair calls: ");
    line(out, r.invokes.as_str());
    push_str(out, "      Will change: ");
    line(out, r.expected_mutation.as_str());
    push_str(out, "      Will not touch: ");
    line(out, r.never_touches.as_str());
    if r.performs_library_scan {
        line(out, "      Note: this repair rescans every configured source folder.");
    }
    push_str(out, "      Undo: ");
    line(out, r.undo_label.as_str());
    line(out, "      Requires --confirm; add --dry-run to validate without changing anything.");
    proof {
        assert(out@ =~= start + repair_lines(*r));
    }
}

fn push_resource(out: &mut String, affected: &Option<AffectedView>)
    ensures
        final(out)@ == old(out)@ + resource_text(*affected),
{
    let ghost start = out@;
    match affected {
        Some(a) => {
            push_str(out, "      Resource: ");
            push_str(out, a.display.as_str());
            if a.lossy {
                push_str(out, " (path shown lossily; it contains non-UTF-8 bytes)");
            }
            push_str(out, "\n");
        },
        None => {},
    }
    proof {
        assert(out@ =~= start + resource_text(*affected));
    }
}

fn push_finding_head(out: &mut String, f: &DoctorFindingView)
    ensures
        final(out)@ == old(out)@ + finding_head(*f),
{
    let ghost start = out@;
    push_str(out, "  [");
    push_str(out, lowercase(f.severity_label.as_str()).as_str());
    push_str(out, "] ");
    push_str(out, f.id.as_str());
    push_str(out, " - ");
    line(out, f.title.as_str());
    push_str(out, "      ");
    line(out, f.explanation.as_str());
    push_resource(out, &f.affected);
    proof {
        assert(out@ =~= start + finding_head(*f));
    }
}

fn push_finding_tail(out: &mut String, f: &DoctorFindingView)
    ensures
        final(out)@ == old(out)@ + finding_tail(*f),
{
    let ghost start = out@;
    push_optional(out, "      Why it matters: ", &f.why_it_matters);
    push_optional(out, "      Next step: ", &f.next_step);
    push_labelled(out, "      Evidence: ", &f.evidence);
    push_measurements(out, &f.measurements);
    match &f.repair {
        Some(r) => push_repair(out, r),
        None => push_optional(out, "      ", &f.recovery_notice),
    }
    push_str(out, "      Reported by: ");
    line(out, f.subsystem_label.as_str());
    proof {
        assert(out@ =~= start + finding_tail(*f));
    }
}

fn push_category(out: &mut String, c: &DoctorCategoryView)
    ensures
        final(out)@ == old(out)@ + category_text(*c),
{
    let ghost start = out@;
    push_str(out, c.label.as_str());
    push_str(out, " (");
    push_str(out, decimal(c.findings.len() as u64).as_str());
    line(out, ")");
    let ghost head = out@;
    let v = &c.findings;
    let mut k: usize = 0;
    while k < v.len()
        invariant
            k <= v@.len(),
            out@ == head + finding_texts(v@.take(k as int)),
        decreases v@.len() - k,
    {
        proof {
            assert(v@.take(k + 1).drop_last() =~= v@.take(k as int));
            assert(v@.take(k + 1).last() == v@[k as int]);
        }
        push_finding_head(out, &v[k]);
        push_finding_tail(out, &v[k]);
        proof {
            assert(out@ =~= head + finding_texts(v@.take(k + 1)));
        }
        k = k + 1;
    }
    proof {
        assert(v@.take(v@.len() as int) =~= v@);
    }
    blank(out);
    proof {
        assert(out@ =~= start + category_text(*c));
    }
}

fn push_coverage_lines(out: &mut String, v: &Vec<CoverageView>, with_reason: bool)
    ensures
        final(out)@ == old(out)@ + if with_reason { unavailable_lines(v@) } else { checked_lines(v@) },
{
    let ghost head = out@;
    let mut k: usize = 0;
    while k < v.len()
        invariant
            k <= v@.len(),
            out@ == head + if with_reason { unavailable_lines(v@.take(k as int)) } else { checked_lines(v@.take(k as int)) },
        decreases v@.len() - k,
    {
        proof {
            assert(v@.take(k + 1).drop_last() =~= v@.take(k as int));
            assert(v@.take(k + 1).last() == v@[k as int]);
        }
        let ghost before = out@;
        let c = &v[k];
        push_str(out, "  ");
        push_str(out, c.category_label.as_str());
        push_str(out, " (");
        push_str(out, c.subsystem_label.as_str());
        if with_reason {
            push_str(out, ") - ");
            line(out, c.reason.as_str());
            proof {
                assert(out@ =~= before + ln("  "@ + c.category_label@ + " ("@ + c.subsystem_label@ + ") - "@ + c.reason@));
            }
        } else {
            line(out, ")");
            proof {
                assert(out@ =~= before + ln("  "@ + c.category_label@ + " ("@ + c.subsystem_label@ + ")"@));
            }
        }
        k = k + 1;
    }
    proof {
        assert(v@.take(v@.len() as int) =~= v@);
    }
}

fn push_skipped_lines(out: &mut String, v: &Vec<SkippedCheckView>, with_next_step: bool)
    ensures
        final(out)@ == old(out)@ + if with_next_step { not_checked_lines(v@) } else { deferred_lines(v@) },
{
    let ghost head = out@;
    let mut k: usize = 0;
    while k < v.len()
        invariant
            k <= v@.len(),
            out@ == head + if with_next_step { not_checked_lines(v@.take(k as int)) } else { deferred_lines(v@.take(k as int)) },
        decreases v@.len() - k,
    {
        proof {
            assert(v@.take(k + 1).drop_last() =~= v@.take(k as int));
            assert(v@.take(k + 1).last() == v@[k as int]);
        }
        let ghost before = out@;
        let c = &v[k];
        push_str(out, "  ");
        push_str(out, c.name.as_str());
        push_str(out, " - ");
        line(out, c.reason.as_str());
        if with_next_step {
            push_str(out, "      Next step: ");
            line(out, c.next_step.as_str());
            proof {
                assert(out@ =~= before + ln("  "@ + c.name@ + " - "@ + c.reason@) + ln("      Next step: "@ + c.next_step@));
            }
        } else {
            proof {
                assert(out@ =~= before + ln("  "@ + c.name@ + " - "@ + c.reason@));
            }
        }
        k = k + 1;
    }
    proof {
        assert(v@.take(v@.len() as int) =~= v@);
    }
}

fn push_coverage(out: &mut String, s: &DoctorScanView)
    ensures
        final(out)@ == old(out)@ + coverage_text(*s),
{
    let ghost start = out@;
    line(out, "Checked:");
    push_coverage_lines(out, &s.checked, false);
    let ghost after_checked = out@;
    if s.unavailable.len() > 0 {
        blank(out);
        line(out, "Not checked in this run:");
        push_coverage_lines(out, &s.unavailable, true);
    }
    let ghost after_unavailable = out@;
    if s.not_checked.len() > 0 {
        blank(out);
        line(out, "Checks that did not run:");
        push_skipped_lines(out, &s.not_checked, true);
    }
    let ghost after_not_checked = out@;
    blank(out);
    line(out, "Not implemented yet, so not covered by any result above:");
    push_skipped_lines(out, &s.deferred, false);
    proof {
        assert(after_unavailable =~= after_checked + if s.unavailable@.len() == 0 {
            Seq::<char>::empty()
        } else {
            ln(Seq::empty()) + ln("Not checked in this run:"@) + unavailable_lines(s.unavailable@)
        });
        assert(after_not_checked =~= after_unavailable + if s.not_checked@.len() == 0 {
            Seq::<char>::empty()
        } else {
            ln(Seq::empty()) + ln("Checks that did not run:"@) + not_checked_lines(s.not_checked@)
        });
        assert(out@ =~= start + coverage_text(*s));
    }
}

/// The read-only Doctor scan report: whether anything was found, each
/// category with its findings (severity lower-cased, then explanation,
/// resource, evidence, measurements, and the repair or recovery offered),
/// how many duplicates were merged, and what was and was not checked.
pub fn format_doctor_scan(scan: &DoctorScanView) -> (r: String)
    ensures
        r@ == doctor_scan_text(*scan),
{
    let mut out = String::new();
    push_head(&mut out, scan);
    let ghost head = out@;
    let v = &scan.categories;
    let mut k: usize = 0;
    while k < v.len()
        invariant
            k <= v@.len(),
            out@ == head + category_texts(v@.take(k as int)),
        decreases v@.len() - k,
    {
        proof {
            assert(v@.take(k + 1).drop_last() =~= v@.take(k as int));
            assert(v@.take(k + 1).last() == v@[k as int]);
        }
        push_category(&mut out, &v[k]);
        k = k + 1;
    }
    proof {
        assert(v@.take(v@.len() as int) =~= v@);
    }
    let ghost before_merged = out@;
    if scan.merged_duplicate_count > 0 {
        push_str(&mut out, decimal(scan.merged_duplicate_count).as_str());
        line(&mut out, " duplicate finding(s) were merged.");
        blank(&mut out);
    }
    proof {
        assert(out@ =~= before_merged + merged_text(scan.merged_duplicate_count));
    }
    push_coverage(&mut out, scan);
    out
}

} // verus!
