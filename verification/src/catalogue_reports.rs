//! The texts of the catalogue's plain reports: the Doctor checks, filename
//! duplicates, one archive's details, the archive statistics, the health
//! issues, and the outcome of a Doctor repair.
use vstd::prelude::*;
use crate::format::{format_system_time, human_size, spec_human_size, system_time_text};
use crate::library::{counts_text, pad_right, push_counts};
use crate::text::{decimal, push_char, push_str, spec_decimal};

verus! {

/// A line: the text and a newline.
pub open spec fn ln(t: Seq<char>) -> Seq<char> {
    t + "\n"@
}

fn line(out: &mut String, t: &str)
    ensures
        final(out)@ == old(out)@ + ln(t@),
{
    push_str(out, t);
    push_str(out, "\n");
    proof {
        assert(final(out)@ =~= old(out)@ + ln(t@));
    }
}

fn labelled(out: &mut String, label: &str, value: &str)
    ensures
        final(out)@ == old(out)@ + ln(label@ + value@),
{
    push_str(out, label);
    line(out, value);
    proof {
        assert(final(out)@ =~= old(out)@ + ln(label@ + value@));
    }
}

fn push_padded(out: &mut String, s: &str, width: usize)
    ensures
        final(out)@ == old(out)@ + pad_right(s@, width as nat),
{
    push_str(out, s);
    let len = crate::text::chars_of(s).len();
    let ghost base = out@;
    let mut k = len;
    while k < width
        invariant
            len == s@.len(),
            len <= k,
            k <= width || k == len,
            out@ == base + Seq::new((k - len) as nat, |i: int| ' '),
        decreases width - k,
    {
        push_char(out, ' ');
        k = k + 1;
        proof {
            assert(out@ =~= base + Seq::new((k - len) as nat, |i: int| ' '));
        }
    }
    proof {
        if len >= width {
            assert(out@ =~= old(out)@ + s@);
        } else {
            assert(out@ =~= old(out)@ + (s@ + Seq::new((width - len) as nat, |i: int| ' ')));
        }
    }
}

/// One check of the Doctor.
#[derive(Debug, Clone, PartialEq, Eq)]
pub struct DoctorCheckView {
    pub name: String,
    /// The status as the report writes it (`PASS`, `WARN`, ...).
    pub status: String,
    pub detail: String,
}

/// The Doctor's report.
#[derive(Debug, Clone, PartialEq, Eq)]
pub struct DoctorReportView {
    pub config_path: String,
    pub checks: Vec<DoctorCheckView>,
    pub archives_found: u64,
    pub archives_with_platform: u64,
    pub archives_unknown_platform: u64,
    pub pending_archives: u64,
    pub mounted_archives: u64,
    /// Whether the installation is ready, as the Doctor decided.
    pub ready: bool,
    pub platform_counts: Vec<(String, usize)>,
    pub unknown_platform_examples: Vec<String>,
}

/// The check lines: status padded to four, name padded to sixteen.
pub open spec fn check_lines(v: Seq<DoctorCheckView>) -> Seq<char>
    decreases v.len(),
{
    if v.len() == 0 {
        Seq::empty()
    } else {
        check_lines(v.drop_last()) + ln("  ["@ + pad_right(v.last().status@, 4) + "] "@ + pad_right(v.last().name@, 16)
            + " "@ + v.last().detail@)
    }
}

/// The Doctor's summary lines.
pub open spec fn doctor_summary(r: DoctorReportView) -> Seq<char> {
    "\nSummary:\n"@
        + ln("  Archives found: "@ + spec_decimal(r.archives_found as nat))
        + ln("  Archives with detected platform: "@ + spec_decimal(r.archives_with_platform as nat))
        + ln("  Archives with unknown platform: "@ + spec_decimal(r.archives_unknown_platform as nat))
        + ln("  Pending archives: "@ + spec_decimal(r.pending_archives as nat))
        + ln("  Mounted archives: "@ + spec_decimal(r.mounted_archives as nat))
        + ln("  Ready: "@ + if r.ready { "yes"@ } else { "no"@ })
}

/// Indented lines, or `  none` when there are none.
pub open spec fn listed_or_none(v: Seq<String>) -> Seq<char> {
    if v.len() == 0 { "  none\n"@ } else { listed(v) }
}

/// Indented lines.
pub open spec fn listed(v: Seq<String>) -> Seq<char>
    decreases v.len(),
{
    if v.len() == 0 { Seq::empty() } else { listed(v.drop_last()) + ln("  "@ + v.last()@) }
}

/// The Doctor's report text.
pub open spec fn doctor_report_text(r: DoctorReportView) -> Seq<char> {
    "EmuWiz Doctor\n"@ + ln("Config: "@ + r.config_path@) + "\nChecks:\n"@ + check_lines(r.checks@)
        + doctor_summary(r)
        + "\nPlatforms:\n"@ + counts_text(r.platform_counts@)
        + "\nUnknown platform examples:\n"@ + listed_or_none(r.unknown_platform_examples@)
}

fn push_listed_or_none(out: &mut String, v: &Vec<String>)
    ensures
        final(out)@ == old(out)@ + listed_or_none(v@),
{
    if v.len() == 0 {
        push_str(out, "  none\n");
        return;
    }
    let ghost head = out@;
    let mut k: usize = 0;
    while k < v.len()
        invariant
            k <= v@.len(),
            out@ == head + listed(v@.take(k as int)),
        decreases v@.len() - k,
    {
        proof {
            assert(v@.take(k + 1).drop_last() =~= v@.take(k as int));
            assert(v@.take(k + 1).last() == v@[k as int]);
        }
        labelled(out, "  ", v[k].as_str());
        k = k + 1;
    }
    proof {
        assert(v@.take(v@.len() as int) =~= v@);
    }
}

fn push_doctor_summary(out: &mut String, r: &DoctorReportView)
    ensures
        final(out)@ == old(out)@ + doctor_summary(*r),
{
    let ghost start = out@;
    push_str(out, "\nSummary:\n");
    labelled(out, "  Archives found: ", decimal(r.archives_found).as_str());
    labelled(out, "  Archives with detected platform: ", decimal(r.archives_with_platform).as_str());
    labelled(out, "  Archives with unknown platform: ", decimal(r.archives_unknown_platform).as_str());
    labelled(out, "  Pending archives: ", decimal(r.pending_archives).as_str());
    labelled(out, "  Mounted archives: ", decimal(r.mounted_archives).as_str());
    labelled(out, "  Ready: ", if r.ready { "yes" } else { "no" });
    proof {
        assert(out@ =~= start + doctor_summary(*r));
    }
}

/// The Doctor's report: the configuration, each check with its status,
/// the archive counts and whether the installation is ready, the platform
/// counts and examples of archives whose platform is unknown.
pub fn format_doctor_report(report: &DoctorReportView) -> (r: String)
    ensures
        r@ == doctor_report_text(*report),
{
    let mut out = "EmuWiz Doctor\n".to_owned();
    labelled(&mut out, "Config: ", report.config_path.as_str());
    push_str(&mut out, "\nChecks:\n");
    let ghost head = out@;
    let v = &report.checks;
    let mut k: usize = 0;
    while k < v.len()
        invariant
            k <= v@.len(),
            out@ == head + check_lines(v@.take(k as int)),
        decreases v@.len() - k,
    {
        proof {
            assert(v@.take(k + 1).drop_last() =~= v@.take(k as int));
            assert(v@.take(k + 1).last() == v@[k as int]);
        }
        let ghost before = out@;
        push_str(&mut out, "  [");
        push_padded(&mut out, v[k].status.as_str(), 4);
        push_str(&mut out, "] ");
        push_padded(&mut out, v[k].name.as_str(), 16);
        push_str(&mut out, " ");
        line(&mut out, v[k].detail.as_str());
        proof {
            let c = v@[k as int];
            assert(out@ =~= before + ln("  ["@ + pad_right(c.status@, 4) + "] "@ + pad_right(c.name@, 16) + " "@ + c.detail@));
        }
        k = k + 1;
    }
    proof {
        assert(v@.take(v@.len() as int) =~= v@);
    }
    push_doctor_summary(&mut out, report);
    push_str(&mut out, "\nPlatforms:\n");
    push_counts(&mut out, &report.platform_counts);
    push_str(&mut out, "\nUnknown platform examples:\n");
    push_listed_or_none(&mut out, &report.unknown_platform_examples);
    out
}

/// One group of archives with duplicate names.
#[derive(Debug, Clone, PartialEq, Eq)]
pub struct DuplicateEntryView {
    pub platform: String,
    /// The severity as the report writes it.
    pub severity: String,
    pub reason: String,
    pub archive_paths: Vec<String>,
}

/// One duplicate group, numbered from one.
pub open spec fn duplicate_entry_text(number: nat, e: DuplicateEntryView) -> Seq<char> {
    ln("  Group "@ + spec_decimal(number) + ":"@)
        + ln("    Platform: "@ + e.platform@)
        + ln("    Severity: "@ + e.severity@)
        + ln("    Reason: "@ + e.reason@)
        + "    Archives:\n"@
        + archive_path_lines(e.archive_paths@)
}

/// The archives of a group.
pub open spec fn archive_path_lines(v: Seq<String>) -> Seq<char>
    decreases v.len(),
{
    if v.len() == 0 { Seq::empty() } else { archive_path_lines(v.drop_last()) + ln("      "@ + v.last()@) }
}

/// Every duplicate group, numbered from one.
pub open spec fn duplicate_entries(v: Seq<DuplicateEntryView>) -> Seq<char>
    decreases v.len(),
{
    if v.len() == 0 { Seq::empty() } else { duplicate_entries(v.drop_last()) + duplicate_entry_text(v.len(), v.last()) }
}

/// The duplicates report text.
pub open spec fn duplicate_report_text(checked: u64, v: Seq<DuplicateEntryView>) -> Seq<char> {
    "EmuWiz Duplicates\n\n"@ + "Summary:\n"@ + ln("  Records checked: "@ + spec_decimal(checked as nat))
        + ln("  Duplicate groups found: "@ + spec_decimal(v.len()))
        + if v.len() == 0 { "\nNo duplicate candidates found.\n"@ } else { "\nDuplicate groups:\n"@ + duplicate_entries(v) }
}

fn push_duplicate_entry(out: &mut String, number: u64, e: &DuplicateEntryView)
    ensures
        final(out)@ == old(out)@ + duplicate_entry_text(number as nat, *e),
{
    let ghost start = out@;
    push_str(out, "  Group ");
    push_str(out, decimal(number).as_str());
    line(out, ":");
    labelled(out, "    Platform: ", e.platform.as_str());
    labelled(out, "    Severity: ", e.severity.as_str());
    labelled(out, "    Reason: ", e.reason.as_str());
    push_str(out, "    Archives:\n");
    let ghost head = out@;
    let v = &e.archive_paths;
    let mut k: usize = 0;
    while k < v.len()
        invariant
            k <= v@.len(),
            out@ == head + archive_path_lines(v@.take(k as int)),
        decreases v@.len() - k,
    {
        proof {
            assert(v@.take(k + 1).drop_last() =~= v@.take(k as int));
            assert(v@.take(k + 1).last() == v@[k as int]);
        }
        labelled(out, "      ", v[k].as_str());
        k = k + 1;
    }
    proof {
        assert(v@.take(v@.len() as int) =~= v@);
        assert(out@ =~= start + duplicate_entry_text(number as nat, *e));
    }
}

/// The filename duplicates report: how many records were checked and how
/// many groups found, then each group numbered from one with its platform,
/// severity, reason and archives.
pub fn format_duplicate_report(archives_checked: u64, entries: &Vec<DuplicateEntryView>) -> (r: String)
    ensures
        r@ == duplicate_report_text(archives_checked, entries@),
{
    let mut out = "EmuWiz Duplicates\n\n".to_owned();
    push_str(&mut out, "Summary:\n");
    labelled(&mut out, "  Records checked: ", decimal(archives_checked).as_str());
    labelled(&mut out, "  Duplicate groups found: ", decimal(entries.len() as u64).as_str());
    if entries.len() == 0 {
        push_str(&mut out, "\nNo duplicate candidates found.\n");
        return out;
    }
    push_str(&mut out, "\nDuplicate groups:\n");
    let ghost head = out@;
    let mut k: usize = 0;
    while k < entries.len()
        invariant
            k <= entries@.len(),
            out@ == head + duplicate_entries(entries@.take(k as int)),
        decreases entries@.len() - k,
    {
        proof {
            assert(entries@.take(k + 1).drop_last() =~= entries@.take(k as int));
            assert(entries@.take(k + 1).last() == entries@[k as int]);
            assert(entries@.take(k + 1).len() == k + 1);
        }
        push_duplicate_entry(&mut out, (k + 1) as u64, &entries[k]);
        k = k + 1;
    }
    proof {
        assert(entries@.take(entries@.len() as int) =~= entries@);
    }
    out
}

/// What `info` shows of one archive.
#[derive(Debug, Clone, PartialEq, Eq)]
pub struct ArchiveInfoView {
    pub title: String,
    pub platform: Option<String>,
    pub archive_path: String,
    pub mount_path: String,
    pub extension: String,
    pub size_bytes: Option<u64>,
    /// The modification time against the Unix epoch: whole seconds after
    /// it, or before it.
    pub modified_time: Option<Result<u64, u64>>,
    /// The health as the report writes it.
    pub health: String,
    /// The mount state as the report writes it.
    pub mount_state: String,
    pub metadata_provider: String,
    pub health_provider: String,
}

/// The first detail lines of an archive.
pub open spec fn info_head(i: ArchiveInfoView) -> Seq<char> {
    "EmuWiz Info\n\n"@ + "Details:\n"@
        + ln("  Title: "@ + i.title@)
        + ln("  Platform: "@ + match i.platform { Some(p) => p@, None => "Unknown"@ })
        + ln("  Archive path: "@ + i.archive_path@)
        + ln("  Mount path: "@ + i.mount_path@)
        + ln("  Extension: "@ + i.extension@)
}

/// The remaining detail lines: size, time, health and providers.
pub open spec fn info_tail(i: ArchiveInfoView) -> Seq<char> {
    ln("  Archive size: "@ + match i.size_bytes { Some(n) => spec_human_size(n as nat), None => "unknown"@ })
        + ln("  Last modified: "@ + match i.modified_time { Some(t) => system_time_text(t), None => "unknown"@ })
        + ln("  Health: "@ + i.health@)
        + ln("  Mount state: "@ + i.mount_state@)
        + ln("  Metadata provider: "@ + i.metadata_provider@)
        + ln("  Health provider: "@ + i.health_provider@)
}

/// One archive's details: title, platform, paths, extension, size (in
/// binary units), last modification (UTC), health, mount state and the
/// providers that reported them.
pub fn format_archive_info(info: &ArchiveInfoView) -> (r: String)
    ensures
        r@ == info_head(*info) + info_tail(*info),
{
    let mut out = "EmuWiz Info\n\n".to_owned();
    push_str(&mut out, "Details:\n");
    labelled(&mut out, "  Title: ", info.title.as_str());
    match &info.platform {
        Some(p) => labelled(&mut out, "  Platform: ", p.as_str()),
        None => labelled(&mut out, "  Platform: ", "Unknown"),
    }
    labelled(&mut out, "  Archive path: ", info.archive_path.as_str());
    labelled(&mut out, "  Mount path: ", info.mount_path.as_str());
    labelled(&mut out, "  Extension: ", info.extension.as_str());
    proof {
        assert(out@ =~= info_head(*info));
    }
    let size = match info.size_bytes {
        Some(n) => human_size(n),
        None => "unknown".to_owned(),
    };
    labelled(&mut out, "  Archive size: ", size.as_str());
    let modified = match info.modified_time {
        Some(t) => format_system_time(t),
        None => "unknown".to_owned(),
    };
    labelled(&mut out, "  Last modified: ", modified.as_str());
    labelled(&mut out, "  Health: ", info.health.as_str());
    labelled(&mut out, "  Mount state: ", info.mount_state.as_str());
    labelled(&mut out, "  Metadata provider: ", info.metadata_provider.as_str());
    labelled(&mut out, "  Health provider: ", info.health_provider.as_str());
    proof {
        assert(out@ =~= info_head(*info) + info_tail(*info));
    }
    out
}

/// An archive and its size.
#[derive(Debug, Clone, PartialEq, Eq)]
pub struct ArchiveSizeView {
    pub archive_path: String,
    pub size_bytes: u64,
}

/// The archive statistics.
#[derive(Debug, Clone, PartialEq, Eq)]
pub struct ArchiveStatsView {
    pub total_archives: u64,
    pub mounted_count: u64,
    pub pending_count: u64,
    pub total_size_bytes: u64,
    pub platform_counts: Vec<(String, usize)>,
    pub extension_counts: Vec<(String, usize)>,
    pub largest_archive: Option<ArchiveSizeView>,
    pub smallest_archive: Option<ArchiveSizeView>,
}

/// An archive with its size, or `  none`.
pub open spec fn archive_size_text(a: Option<ArchiveSizeView>) -> Seq<char> {
    match a {
        Some(s) => ln("  "@ + s.archive_path@ + " ("@ + spec_human_size(s.size_bytes as nat) + ")"@),
        None => "  none\n"@,
    }
}

/// The statistics' summary lines.
pub open spec fn stats_summary(s: ArchiveStatsView) -> Seq<char> {
    "EmuWiz Stats\n\n"@ + "Summary:\n"@
        + ln("  Total archives: "@ + spec_decimal(s.total_archives as nat))
        + ln("  Mounted: "@ + spec_decimal(s.mounted_count as nat))
        + ln("  Pending: "@ + spec_decimal(s.pending_count as nat))
        + ln("  Total archive size: "@ + spec_human_size(s.total_size_bytes as nat))
}

/// The statistics text.
pub open spec fn stats_text(s: ArchiveStatsView) -> Seq<char> {
    stats_summary(s)
        + "\nPlatforms:\n"@ + counts_text(s.platform_counts@)
        + "\nArchive extensions:\n"@ + counts_text(s.extension_counts@)
        + "\nLargest archive:\n"@ + archive_size_text(s.largest_archive)
        + "\nSmallest archive:\n"@ + archive_size_text(s.smallest_archive)
}

fn push_archive_size(out: &mut String, a: &Option<ArchiveSizeView>)
    ensures
        final(out)@ == old(out)@ + archive_size_text(*a),
{
    match a {
        Some(s) => {
            let ghost start = out@;
            push_str(out, "  ");
            push_str(out, s.archive_path.as_str());
            push_str(out, " (");
            push_str(out, human_size(s.size_bytes).as_str());
            line(out, ")");
            proof {
                assert(out@ =~= start + ln("  "@ + s.archive_path@ + " ("@ + spec_human_size(s.size_bytes as nat) + ")"@));
            }
        },
        None => push_str(out, "  none\n"),
    }
}

/// The archive statistics: totals and total size, archives per platform
/// and per extension, and the largest and smallest archive.
pub fn format_archive_stats(stats: &ArchiveStatsView) -> (r: String)
    ensures
        r@ == stats_text(*stats),
{
    let mut out = "EmuWiz Stats\n\n".to_owned();
    push_str(&mut out, "Summary:\n");
    labelled(&mut out, "  Total archives: ", decimal(stats.total_archives).as_str());
    labelled(&mut out, "  Mounted: ", decimal(stats.mounted_count).as_str());
    labelled(&mut out, "  Pending: ", decimal(stats.pending_count).as_str());
    labelled(&mut out, "  Total archive size: ", human_size(stats.total_size_bytes).as_str());
    proof {
        assert(out@ =~= stats_summary(*stats));
    }
    push_str(&mut out, "\nPlatforms:\n");
    push_counts(&mut out, &stats.platform_counts);
    push_str(&mut out, "\nArchive extensions:\n");
    push_counts(&mut out, &stats.extension_counts);
    push_str(&mut out, "\nLargest archive:\n");
    push_archive_size(&mut out, &stats.largest_archive);
    push_str(&mut out, "\nSmallest archive:\n");
    push_archive_size(&mut out, &stats.smallest_archive);
    out
}

/// One archive with a health issue.
#[derive(Debug, Clone, PartialEq, Eq)]
pub struct HealthIssueView {
    /// The category's label.
    pub category: String,
    pub path: String,
    pub platform: Option<String>,
    pub reason: String,
}

/// The issue lines.
pub open spec fn issue_lines(v: Seq<HealthIssueView>) -> Seq<char>
    decreases v.len(),
{
    if v.len() == 0 {
        Seq::empty()
    } else {
        let i = v.last();
        issue_lines(v.drop_last()) + ln("  ["@ + i.category@ + "] "@ + i.path@ + " ("@
            + (match i.platform { Some(p) => p@, None => "Unknown"@ }) + ") - "@ + i.reason@)
    }
}

/// The health report text.
pub open spec fn health_report_text(checked: u64, missing: u64, unknown: u64, issues: Seq<HealthIssueView>) -> Seq<char> {
    "EmuWiz Health Report\n\n"@
        + ln("Archives checked: "@ + spec_decimal(checked as nat))
        + ln("Missing: "@ + spec_decimal(missing as nat))
        + ln("Unknown platform: "@ + spec_decimal(unknown as nat))
        + if issues.len() == 0 { "\nNo archive health issues were found.\n"@ } else { "\nIssues:\n"@ + issue_lines(issues) }
}

/// The catalogue health report: how many archives were checked, missing
/// and of unknown platform, then each issue with its category, path,
/// platform and reason, or that there were none.
pub fn format_health_report(archives_checked: u64, missing_count: u64, unknown_platform_count: u64,
    issues: &Vec<HealthIssueView>) -> (r: String)
    ensures
        r@ == health_report_text(archives_checked, missing_count, unknown_platform_count, issues@),
{
    let mut out = "EmuWiz Health Report\n\n".to_owned();
    labelled(&mut out, "Archives checked: ", decimal(archives_checked).as_str());
    labelled(&mut out, "Missing: ", decimal(missing_count).as_str());
    labelled(&mut out, "Unknown platform: ", decimal(unknown_platform_count).as_str());
    if issues.len() == 0 {
        push_str(&mut out, "\nNo archive health issues were found.\n");
        return out;
    }
    push_str(&mut out, "\nIssues:\n");
    let ghost head = out@;
    let mut k: usize = 0;
    while k < issues.len()
        invariant
            k <= issues@.len(),
            out@ == head + issue_lines(issues@.take(k as int)),
        decreases issues@.len() - k,
    {
        proof {
            assert(issues@.take(k + 1).drop_last() =~= issues@.take(k as int));
            assert(issues@.take(k + 1).last() == issues@[k as int]);
        }
        let ghost before = out@;
        let i = &issues[k];
        push_str(&mut out, "  [");
        push_str(&mut out, i.category.as_str());
        push_str(&mut out, "] ");
        push_str(&mut out, i.path.as_str());
        push_str(&mut out, " (");
        match &i.platform {
            Some(p) => push_str(&mut out, p.as_str()),
            None => push_str(&mut out, "Unknown"),
        }
        push_str(&mut out, ") - ");
        line(&mut out, i.reason.as_str());
        proof {
            assert(out@ =~= before + ln("  ["@ + i.category@ + "] "@ + i.path@ + " ("@
                + (match i.platform { Some(p) => p@, None => "Unknown"@ }) + ") - "@ + i.reason@));
        }
        k = k + 1;
    }
    proof {
        assert(issues@.take(issues@.len() as int) =~= issues@);
    }
    out
}

/// How a Doctor repair ended.
#[derive(Debug, Clone, Copy, PartialEq, Eq, Structural)]
pub enum DoctorRepairStatus {
    DryRun,
    Rejected,
    Succeeded,
    Failed,
}

/// How a repair's ending reads.
pub open spec fn repair_status_text(s: DoctorRepairStatus) -> Seq<char> {
    match s {
        DoctorRepairStatus::DryRun => "dry run - validated, nothing changed"@,
        DoctorRepairStatus::Rejected => "refused"@,
        DoctorRepairStatus::Succeeded => "completed"@,
        DoctorRepairStatus::Failed => "failed"@,
    }
}

/// A Doctor repair and its record.
#[derive(Debug, Clone, PartialEq, Eq)]
pub struct DoctorRepairView {
    pub title: String,
    pub id: String,
    pub invokes: String,
    pub finding_id: String,
    pub affected: Option<String>,
    pub confirmed: bool,
    pub dry_run: bool,
    pub status: DoctorRepairStatus,
    /// The verification's label.
    pub verification: String,
    /// The undo's label.
    pub undo: String,
    pub changed_paths: Vec<String>,
    pub error: Option<String>,
    pub summary: String,
}

/// The first lines of a repair's record.
pub open spec fn repair_head(r: DoctorRepairView) -> Seq<char> {
    ln("Repair: "@ + r.title@ + " ("@ + r.id@ + ")"@)
        + ln("Calls: "@ + r.invokes@)
        + ln("Finding: "@ + r.finding_id@)
        + match r.affected { Some(a) => ln("Resource: "@ + a@), None => Seq::empty() }
}

/// The outcome lines of a repair's record.
pub open spec fn repair_outcome(r: DoctorRepairView) -> Seq<char> {
    ln("Confirmed: "@ + (if r.confirmed { "true"@ } else { "false"@ }))
        + ln("Dry run: "@ + (if r.dry_run { "true"@ } else { "false"@ }))
        + ln("Result: "@ + repair_status_text(r.status))
        + ln("Verification: "@ + r.verification@)
        + ln("Undo: "@ + r.undo@)
}

/// The closing lines: the changed paths, the error and the summary.
pub open spec fn repair_tail(r: DoctorRepairView) -> Seq<char> {
    (if r.changed_paths@.len() == 0 { Seq::empty() } else { ln("Changed:"@) + listed(r.changed_paths@) })
        + (match r.error { Some(e) => ln("Error: "@ + e@), None => Seq::empty() })
        + ln(r.summary@)
}

fn push_repair_head(out: &mut String, r: &DoctorRepairView)
    ensures
        final(out)@ == old(out)@ + repair_head(*r),
{
    let ghost start = out@;
    push_str(out, "Repair: ");
    push_str(out, r.title.as_str());
    push_str(out, " (");
    push_str(out, r.id.as_str());
    line(out, ")");
    labelled(out, "Calls: ", r.invokes.as_str());
    labelled(out, "Finding: ", r.finding_id.as_str());
    match &r.affected {
        Some(a) => labelled(out, "Resource: ", a.as_str()),
        None => {},
    }
    proof {
        assert(out@ =~= start + repair_head(*r));
    }
}

fn push_repair_outcome(out: &mut String, r: &DoctorRepairView)
    ensures
        final(out)@ == old(out)@ + repair_outcome(*r),
{
    let ghost start = out@;
    labelled(out, "Confirmed: ", if r.confirmed { "true" } else { "false" });
    labelled(out, "Dry run: ", if r.dry_run { "true" } else { "false" });
    let result = match r.status {
        DoctorRepairStatus::DryRun => "dry run - validated, nothing changed",
        DoctorRepairStatus::Rejected => "refused",
        DoctorRepairStatus::Succeeded => "completed",
        DoctorRepairStatus::Failed => "failed",
    };
    labelled(out, "Result: ", result);
    labelled(out, "Verification: ", r.verification.as_str());
    labelled(out, "Undo: ", r.undo.as_str());
    proof {
        assert(out@ =~= start + repair_outcome(*r));
    }
}

fn push_listed(out: &mut String, v: &Vec<String>)
    ensures
        final(out)@ == old(out)@ + listed(v@),
{
    let ghost head = out@;
    let mut k: usize = 0;
    while k < v.len()
        invariant
            k <= v@.len(),
            out@ == head + listed(v@.take(k as int)),
        decreases v@.len() - k,
    {
        proof {
            assert(v@.take(k + 1).drop_last() =~= v@.take(k as int));
            assert(v@.take(k + 1).last() == v@[k as int]);
        }
        labelled(out, "  ", v[k].as_str());
        k = k + 1;
    }
    proof {
        assert(v@.take(v@.len() as int) =~= v@);
    }
}

/// The record of a Doctor repair: which repair for which finding and
/// resource, whether it was confirmed or a dry run, how it ended, how it
/// was verified and can be undone, what it changed, its error and summary.
pub fn format_doctor_repair(repair: &DoctorRepairView) -> (r: String)
    ensures
        r@ == repair_head(*repair) + repair_outcome(*repair) + repair_tail(*repair),
{
    let mut out = String::new();
    push_repair_head(&mut out, repair);
    push_repair_outcome(&mut out, repair);
    let ghost before_tail = out@;
    if repair.changed_paths.len() > 0 {
        line(&mut out, "Changed:");
        push_listed(&mut out, &repair.changed_paths);
    }
    let ghost after_changed = out@;
    match &repair.error {
        Some(e) => labelled(&mut out, "Error: ", e.as_str()),
        None => {},
    }
    let ghost after_error = out@;
    line(&mut out, repair.summary.as_str());
    proof {
        assert(after_changed =~= before_tail + if repair.changed_paths@.len() == 0 {
            Seq::<char>::empty()
        } else {
            ln("Changed:"@) + listed(repair.changed_paths@)
        });
        assert(after_error =~= after_changed + match repair.error { Some(e) => ln("Error: "@ + e@), None => Seq::<char>::empty() });
        assert(out@ =~= repair_head(*repair) + repair_outcome(*repair) + repair_tail(*repair));
    }
    out
}

} // verus!
