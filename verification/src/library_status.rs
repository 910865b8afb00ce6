//! The text of `library-status`: the catalogue database's health, then,
//! once it opens with a current schema, the archive counts and the last
//! completed scan. Where the database is missing, unreadable or on another
//! schema, the report stops there and says what to do.
use vstd::prelude::*;
use crate::text::{push_str, signed_decimal, signed_text};

verus! {

/// What a health check found of the catalogue database.
#[derive(Debug, Clone, PartialEq, Eq)]
pub struct DatabaseHealthView {
    pub resolved_path: String,
    pub database_exists: bool,
    pub database_opens: bool,
    pub error: Option<String>,
    pub schema_version: Option<i64>,
    pub migrations_current: bool,
    pub foreign_keys_enabled: bool,
}

/// The catalogue's archive counts.
#[derive(Debug, Clone, Copy, PartialEq, Eq, Structural)]
pub struct CatalogueStatsView {
    pub total_archives: i64,
    pub present_archives: i64,
    pub missing_archives: i64,
    pub archives_with_platform: i64,
    pub archives_unknown_platform: i64,
}

/// The last scan that ran to completion.
#[derive(Debug, Clone, PartialEq, Eq)]
pub struct CompletedScanView {
    pub started_at: String,
    pub finished_at: Option<String>,
    pub triggered_by: String,
    pub source_folders_scanned: i64,
    pub archives_seen: i64,
    pub archives_added: i64,
    pub archives_updated: i64,
    pub archives_missing: i64,
    pub errors_count: i64,
    pub error_message: Option<String>,
}

/// Everything `library-status` reports.
#[derive(Debug, Clone, PartialEq, Eq)]
pub struct LibraryStatusView {
    pub health: DatabaseHealthView,
    pub latest_known_schema_version: i64,
    pub stats: Option<CatalogueStatsView>,
    pub last_completed_scan: Option<CompletedScanView>,
}

/// A line: the text and a newline.
pub open spec fn ln(t: Seq<char>) -> Seq<char> {
    t + "\n"@
}

/// `yes` or `no`.
pub open spec fn yes_no(b: bool) -> Seq<char> {
    if b { "yes"@ } else { "no"@ }
}

/// A count as written.
pub open spec fn count_text(n: i64) -> Seq<char> {
    signed_decimal(n as int)
}

/// What is said of a database that does not exist yet.
pub open spec fn no_database_text() -> Seq<char> {
    "\nNo library database yet. Run: emuwiz-cli library-scan\n"@
}

/// What is said of a database that exists but does not open.
pub open spec fn unopenable_text() -> Seq<char> {
    "\nThe database file exists but could not be opened. It is always safe to delete it and run emuwiz-cli library-scan to rebuild it from your configured source folders.\n"@
}

/// What is said of a database whose schema is not current: newer than this
/// build supports, or outdated; nothing when its version is unknown.
pub open spec fn schema_advice(schema_version: Option<i64>, latest: i64) -> Seq<char> {
    match schema_version {
        Some(v) => if v > latest {
            "\nThis database's schema (version "@ + count_text(v) + ") is newer than this build of EmuWiz supports (version "@
                + count_text(latest) + "). Upgrade EmuWiz, or remove the database file to rebuild it with this version.\n"@
        } else {
            "\nThis database's schema is outdated. Run: emuwiz-cli library-scan to upgrade it.\n"@
        },
        None => Seq::empty(),
    }
}

/// The archive counts section.
pub open spec fn counts_text(stats: Option<CatalogueStatsView>) -> Seq<char> {
    "\nArchive counts:\n"@ + match stats {
        Some(s) => ln("  Total: "@ + count_text(s.total_archives))
            + ln("  Present: "@ + count_text(s.present_archives))
            + ln("  Missing: "@ + count_text(s.missing_archives))
            + ln("  Detected platform: "@ + count_text(s.archives_with_platform))
            + ln("  Unknown platform: "@ + count_text(s.archives_unknown_platform)),
        None => "  unavailable\n"@,
    }
}

/// When and why a completed scan ran.
pub open spec fn scan_head(s: CompletedScanView) -> Seq<char> {
    ln("  Started: "@ + s.started_at@)
        + ln("  Finished: "@ + match s.finished_at { Some(f) => f@, None => "unknown"@ })
        + ln("  Triggered by: "@ + s.triggered_by@)
}

/// What a completed scan counted, and its error when it had one.
pub open spec fn scan_counts(s: CompletedScanView) -> Seq<char> {
    ln("  Source folders scanned: "@ + count_text(s.source_folders_scanned))
        + ln("  Archives seen: "@ + count_text(s.archives_seen))
        + ln("  Archives added: "@ + count_text(s.archives_added))
        + ln("  Archives updated: "@ + count_text(s.archives_updated))
        + ln("  Archives missing: "@ + count_text(s.archives_missing))
        + ln("  Errors: "@ + count_text(s.errors_count))
        + match s.error_message { Some(m) => ln("  Error details: "@ + m@), None => Seq::empty() }
}

/// The lines of a completed scan.
pub open spec fn scan_lines(s: CompletedScanView) -> Seq<char> {
    scan_head(s) + scan_counts(s)
}

/// The last completed scan section.
pub open spec fn last_scan_text(scan: Option<CompletedScanView>) -> Seq<char> {
    "\nLast completed scan:\n"@ + match scan {
        Some(s) => scan_lines(s),
        None => "  none yet - run: emuwiz-cli library-scan\n"@,
    }
}

/// The schema lines of a database that opens.
pub open spec fn schema_lines(h: DatabaseHealthView) -> Seq<char> {
    ln("  Schema version: "@ + match h.schema_version { Some(v) => count_text(v), None => "unknown"@ })
        + ln("  Migrations current: "@ + yes_no(h.migrations_current))
        + ln("  Foreign keys enabled: "@ + yes_no(h.foreign_keys_enabled))
}

/// Everything after the `Opens` line and its error of a database that
/// opens.
pub open spec fn open_database_text(v: LibraryStatusView) -> Seq<char> {
    schema_lines(v.health) + if !v.health.migrations_current {
        schema_advice(v.health.schema_version, v.latest_known_schema_version)
    } else {
        counts_text(v.stats) + last_scan_text(v.last_completed_scan)
    }
}

/// The whole `library-status` report.
pub open spec fn library_status_text(v: LibraryStatusView) -> Seq<char> {
    let h = v.health;
    "EmuWiz Library Status\n\n"@ + ln("Database: "@ + h.resolved_path@) + ln("  Exists: "@ + yes_no(h.database_exists))
        + if !h.database_exists {
            no_database_text()
        } else {
            ln("  Opens: "@ + yes_no(h.database_opens))
                + match h.error { Some(e) => ln("  Error: "@ + e@), None => Seq::empty() }
                + if !h.database_opens { unopenable_text() } else { open_database_text(v) }
        }
}

fn line(out: &mut String, t: &str)
    ensures
        final(out)@ == old(out)@ + ln(t@),
{
    push_str(out, t);
    push_str(out, "\n");
    proof {
        assert(final(out)@ =~= old(out)@ + ln(t@));
    }
}

fn push_yes_no(out: &mut String, b: bool)
    ensures
        final(out)@ == old(out)@ + ln(yes_no(b)),
{
    line(out, if b { "yes" } else { "no" });
}

fn push_count_line(out: &mut String, label: &str, n: i64)
    ensures
        final(out)@ == old(out)@ + ln(label@ + count_text(n)),
{
    push_str(out, label);
    line(out, signed_text(n).as_str());
    proof {
        assert(final(out)@ =~= old(out)@ + ln(label@ + count_text(n)));
    }
}

fn push_schema_advice(out: &mut String, schema_version: Option<i64>, latest: i64)
    ensures
        final(out)@ == old(out)@ + schema_advice(schema_version, latest),
{
    let ghost start = out@;
    match schema_version {
        Some(v) => {
            if v > latest {
                push_str(out, "\nThis database's schema (version ");
                push_str(out, signed_text(v).as_str());
                push_str(out, ") is newer than this build of EmuWiz supports (version ");
                push_str(out, signed_text(latest).as_str());
                push_str(out, "). Upgrade EmuWiz, or remove the database file to rebuild it with this version.\n");
            } else {
                push_str(out, "\nThis database's schema is outdated. Run: emuwiz-cli library-scan to upgrade it.\n");
            }
        },
        None => {},
    }
    proof {
        assert(out@ =~= start + schema_advice(schema_version, latest));
    }
}

fn push_counts(out: &mut String, stats: &Option<CatalogueStatsView>)
    ensures
        final(out)@ == old(out)@ + counts_text(*stats),
{
    let ghost start = out@;
    push_str(out, "\nArchive counts:\n");
    match stats {
        Some(s) => {
            push_count_line(out, "  Total: ", s.total_archives);
            push_count_line(out, "  Present: ", s.present_archives);
            push_count_line(out, "  Missing: ", s.missing_archives);
            push_count_line(out, "  Detected platform: ", s.archives_with_platform);
            push_count_line(out, "  Unknown platform: ", s.archives_unknown_platform);
        },
        None => push_str(out, "  unavailable\n"),
    }
    proof {
        assert(out@ =~= start + counts_text(*stats));
    }
}

fn push_scan_head(out: &mut String, s: &CompletedScanView)
    ensures
        final(out)@ == old(out)@ + scan_head(*s),
{
    let ghost start = out@;
    push_str(out, "  Started: ");
    line(out, s.started_at.as_str());
    push_str(out, "  Finished: ");
    match &s.finished_at {
        Some(f) => line(out, f.as_str()),
        None => line(out, "unknown"),
    }
    push_str(out, "  Triggered by: ");
    line(out, s.triggered_by.as_str());
    proof {
        assert(out@ =~= start + scan_head(*s));
    }
}

fn push_scan_counts(out: &mut String, s: &CompletedScanView)
    ensures
        final(out)@ == old(out)@ + scan_counts(*s),
{
    let ghost start = out@;
    push_count_line(out, "  Source folders scanned: ", s.source_folders_scanned);
    push_count_line(out, "  Archives seen: ", s.archives_seen);
    push_count_line(out, "  Archives added: ", s.archives_added);
    push_count_line(out, "  Archives updated: ", s.archives_updated);
    push_count_line(out, "  Archives missing: ", s.archives_missing);
    push_count_line(out, "  Errors: ", s.errors_count);
    let ghost counted = out@;
    match &s.error_message {
        Some(m) => {
            push_str(out, "  Error details: ");
            line(out, m.as_str());
        },
        None => {},
    }
    proof {
        assert(out@ =~= counted + match s.error_message { Some(m) => ln("  Error details: "@ + m@), None => Seq::<char>::empty() });
        assert(out@ =~= start + scan_counts(*s));
    }
}

fn push_scan_lines(out: &mut String, s: &CompletedScanView)
    ensures
        final(out)@ == old(out)@ + scan_lines(*s),
{
    let ghost start = out@;
    push_scan_head(out, s);
    push_scan_counts(out, s);
    proof {
        assert(out@ =~= start + scan_lines(*s));
    }
}

fn push_last_scan(out: &mut String, scan: &Option<CompletedScanView>)
    ensures
        final(out)@ == old(out)@ + last_scan_text(*scan),
{
    let ghost start = out@;
    push_str(out, "\nLast completed scan:\n");
    match scan {
        Some(s) => push_scan_lines(out, s),
        None => push_str(out, "  none yet - run: emuwiz-cli library-scan\n"),
    }
    proof {
        assert(out@ =~= start + last_scan_text(*scan));
    }
}

fn push_schema_lines(out: &mut String, h: &DatabaseHealthView)
    ensures
        final(out)@ == old(out)@ + schema_lines(*h),
{
    let ghost start = out@;
    push_str(out, "  Schema version: ");
    match h.schema_version {
        Some(n) => line(out, signed_text(n).as_str()),
        None => line(out, "unknown"),
    }
    push_str(out, "  Migrations current: ");
    push_yes_no(out, h.migrations_current);
    push_str(out, "  Foreign keys enabled: ");
    push_yes_no(out, h.foreign_keys_enabled);
    proof {
        assert(out@ =~= start + schema_lines(*h));
    }
}

fn push_open_database(out: &mut String, v: &LibraryStatusView)
    ensures
        final(out)@ == old(out)@ + open_database_text(*v),
{
    let ghost start = out@;
    let h = &v.health;
    push_schema_lines(out, h);
    if !h.migrations_current {
        push_schema_advice(out, h.schema_version, v.latest_known_schema_version);
    } else {
        push_counts(out, &v.stats);
        push_last_scan(out, &v.last_completed_scan);
    }
    proof {
        assert(out@ =~= start + open_database_text(*v));
    }
}

/// The `library-status` report: where the database is and whether it
/// exists, opens and has a current schema, stopping with advice at the
/// first of these that fails; then the archive counts and the last
/// completed scan.
pub fn format_library_status(view: &LibraryStatusView) -> (r: String)
    ensures
        r@ == library_status_text(*view),
{
    let h = &view.health;
    let mut out = "EmuWiz Library Status\n\n".to_owned();
    push_str(&mut out, "Database: ");
    line(&mut out, h.resolved_path.as_str());
    push_str(&mut out, "  Exists: ");
    push_yes_no(&mut out, h.database_exists);
    let ghost head = out@;
    if !h.database_exists {
        push_str(&mut out, "\nNo library database yet. Run: emuwiz-cli library-scan\n");
        proof {
            assert(out@ =~= library_status_text(*view));
        }
        return out;
    }
    push_str(&mut out, "  Opens: ");
    push_yes_no(&mut out, h.database_opens);
    match &h.error {
        Some(e) => {
            push_str(&mut out, "  Error: ");
            line(&mut out, e.as_str());
        },
        None => {},
    }
    let ghost opened = out@;
    if !h.database_opens {
        push_str(&mut out, "\nThe database file exists but could not be opened. It is always safe to delete it and run emuwiz-cli library-scan to rebuild it from your configured source folders.\n");
    } else {
        push_open_database(&mut out, view);
    }
    proof {
        assert(opened =~= head + ln("  Opens: "@ + yes_no(h.database_opens))
            + match h.error { Some(e) => ln("  Error: "@ + e@), None => Seq::<char>::empty() });
        assert(out@ =~= library_status_text(*view));
    }
    out
}

} // verus!
