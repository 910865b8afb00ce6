//! The text of `sources`: every configured source folder with its id,
//! whether it is enabled and reachable, and its last scan.
use vstd::prelude::*;
use crate::text::{decimal, push_str, signed_decimal, signed_text, spec_decimal};

verus! {

/// Whether a source folder could be used at its last check.
#[derive(Debug, Clone, Copy, PartialEq, Eq, Structural)]
pub enum SourceAvailability {
    Available,
    Unavailable,
    PermissionDenied,
    Disabled,
    ScanFailed,
}

/// How an availability reads.
pub open spec fn availability_text(a: SourceAvailability) -> Seq<char> {
    match a {
        SourceAvailability::Available => "Available"@,
        SourceAvailability::Unavailable => "Unavailable"@,
        SourceAvailability::PermissionDenied => "Permission denied"@,
        SourceAvailability::Disabled => "Disabled"@,
        SourceAvailability::ScanFailed => "Scan failed"@,
    }
}

/// How an availability reads.
pub fn format_source_availability(availability: SourceAvailability) -> (r: &'static str)
    ensures
        r@ == availability_text(availability),
{
    match availability {
        SourceAvailability::Available => "Available",
        SourceAvailability::Unavailable => "Unavailable",
        SourceAvailability::PermissionDenied => "Permission denied",
        SourceAvailability::Disabled => "Disabled",
        SourceAvailability::ScanFailed => "Scan failed",
    }
}

/// A configured source folder.
#[derive(Debug, Clone, PartialEq, Eq)]
pub struct SourceFolderView {
    pub path: String,
    pub id: Option<i64>,
    pub enabled: bool,
    pub availability: SourceAvailability,
    pub last_archive_count: Option<u64>,
    pub last_scan_at: Option<String>,
    pub last_scan_error: Option<String>,
}

/// A line: the text and a newline.
pub open spec fn ln(t: Seq<char>) -> Seq<char> {
    t + "\n"@
}

/// The first lines of a source folder's block: path, id, enabled and
/// availability.
pub open spec fn block_head(v: SourceFolderView) -> Seq<char> {
    ln(v.path@)
        + ln("  Id:               "@ + match v.id { Some(id) => signed_decimal(id as int), None => "unknown"@ })
        + ln("  Enabled:          "@ + if v.enabled { "yes"@ } else { "no"@ })
        + ln("  Availability:     "@ + availability_text(v.availability))
}

/// The last scan's lines of a source folder's block.
pub open spec fn block_scan(v: SourceFolderView) -> Seq<char> {
    ln("  Last archive count: "@ + match v.last_archive_count {
        Some(n) => spec_decimal(n as nat),
        None => "never scanned"@,
    })
        + ln("  Last scan:        "@ + match v.last_scan_at { Some(t) => t@, None => "never"@ })
}

/// The last scan's error line, when it failed.
pub open spec fn block_error(v: SourceFolderView) -> Seq<char> {
    match v.last_scan_error { Some(e) => ln("  Last scan error:  "@ + e@), None => Seq::empty() }
}

/// One source folder's block, ending with a blank line.
pub open spec fn source_block(v: SourceFolderView) -> Seq<char> {
    block_head(v) + block_scan(v) + block_error(v) + ln(Seq::empty())
}

/// Every source folder's block.
pub open spec fn source_blocks(v: Seq<SourceFolderView>) -> Seq<char>
    decreases v.len(),
{
    if v.len() == 0 { Seq::empty() } else { source_blocks(v.drop_last()) + source_block(v.last()) }
}

/// The `sources` text: a block per folder, or how to add one when none is
/// configured.
pub open spec fn sources_text(v: Seq<SourceFolderView>) -> Seq<char> {
    "EmuWiz Sources\n\n"@ + if v.len() == 0 {
        "No source folders are configured.\n"@ + "Add one with: emuwiz-cli source add <path>\n"@
    } else {
        source_blocks(v)
    }
}

fn line(out: &mut String, t: &str)
    ensures
        final(out)@ == old(out)@ + ln(t@),
{
    push_str(out, t);
    push_str(out, "\n");
    proof {
        assert(final(out)@ =~= old(out)@ + ln(t@));
    }
}

fn push_block_head(out: &mut String, v: &SourceFolderView)
    ensures
        final(out)@ == old(out)@ + block_head(*v),
{
    let ghost start = out@;
    line(out, v.path.as_str());
    push_str(out, "  Id:               ");
    match v.id {
        Some(id) => line(out, signed_text(id).as_str()),
        None => line(out, "unknown"),
    }
    push_str(out, "  Enabled:          ");
    line(out, if v.enabled { "yes" } else { "no" });
    push_str(out, "  Availability:     ");
    line(out, format_source_availability(v.availability));
    proof {
        assert(out@ =~= start + block_head(*v));
    }
}

fn push_block_scan(out: &mut String, v: &SourceFolderView)
    ensures
        final(out)@ == old(out)@ + block_scan(*v),
{
    let ghost start = out@;
    push_str(out, "  Last archive count: ");
    match v.last_archive_count {
        Some(n) => line(out, decimal(n).as_str()),
        None => line(out, "never scanned"),
    }
    push_str(out, "  Last scan:        ");
    match &v.last_scan_at {
        Some(t) => line(out, t.as_str()),
        None => line(out, "never"),
    }
    proof {
        assert(out@ =~= start + block_scan(*v));
    }
}

fn push_block_error(out: &mut String, v: &SourceFolderView)
    ensures
        final(out)@ == old(out)@ + block_error(*v),
{
    let ghost start = out@;
    match &v.last_scan_error {
        Some(e) => {
            push_str(out, "  Last scan error:  ");
            line(out, e.as_str());
        },
        None => {},
    }
    proof {
        assert(out@ =~= start + block_error(*v));
    }
}

fn push_block(out: &mut String, v: &SourceFolderView)
    ensures
        final(out)@ == old(out)@ + source_block(*v),
{
    let ghost start = out@;
    push_block_head(out, v);
    push_block_scan(out, v);
    push_block_error(out, v);
    push_str(out, "\n");
    proof {
        assert(ln(Seq::<char>::empty()) =~= "\n"@);
        assert(out@ =~= start + source_block(*v));
    }
}

/// The `sources` report: each configured source folder with its id,
/// whether it is enabled, its availability and its last scan; or, when
/// none is configured, how to add one.
pub fn format_source_folder_views(views: &Vec<SourceFolderView>) -> (r: String)
    ensures
        r@ == sources_text(views@),
{
    let mut out = "EmuWiz Sources\n\n".to_owned();
    if views.len() == 0 {
        push_str(&mut out, "No source folders are configured.\n");
        push_str(&mut out, "Add one with: emuwiz-cli source add <path>\n");
        proof {
            assert(out@ =~= sources_text(views@));
        }
        return out;
    }
    let ghost head = out@;
    let mut k: usize = 0;
    while k < views.len()
        invariant
            k <= views@.len(),
            out@ == head + source_blocks(views@.take(k as int)),
        decreases views@.len() - k,
    {
        proof {
            assert(views@.take(k + 1).drop_last() =~= views@.take(k as int));
            assert(views@.take(k + 1).last() == views@[k as int]);
        }
        push_block(&mut out, &views[k]);
        k = k + 1;
    }
    proof {
        assert(views@.take(views@.len() as int) =~= views@);
        assert(out@ =~= sources_text(views@));
    }
    out
}

/// What `source add` prints once the folder is added.
pub open spec fn source_added_text(path: Seq<char>) -> Seq<char> {
    ln("Added source folder: "@ + path) + ln("Run 'emuwiz-cli source scan "@ + path + "' to scan it."@)
}

/// The confirmation of an added source folder.
pub fn format_source_added(path: &str) -> (r: String)
    ensures
        r@ == source_added_text(path@),
{
    let mut out = "Added source folder: ".to_owned();
    line(&mut out, path);
    push_str(&mut out, "Run 'emuwiz-cli source scan ");
    push_str(&mut out, path);
    line(&mut out, "' to scan it.");
    proof {
        assert(out@ =~= source_added_text(path@));
    }
    out
}

/// What `source enable` (`enabled`) or `source disable` prints.
pub open spec fn source_enabled_text(path: Seq<char>, enabled: bool) -> Seq<char> {
    if enabled {
        ln("Enabled source folder: "@ + path)
    } else {
        ln("Disabled source folder: "@ + path) + "Its catalogue entries are preserved and excluded from future scans.\n"@
    }
}

/// The confirmation of a source folder enabled or disabled.
pub fn format_source_enabled(path: &str, enabled: bool) -> (r: String)
    ensures
        r@ == source_enabled_text(path@, enabled),
{
    let mut out = if enabled { "Enabled source folder: ".to_owned() } else { "Disabled source folder: ".to_owned() };
    line(&mut out, path);
    if !enabled {
        push_str(&mut out, "Its catalogue entries are preserved and excluded from future scans.\n");
    }
    proof {
        assert(out@ =~= source_enabled_text(path@, enabled));
    }
    out
}

/// What `source remove` prints: the folder left the configuration, nothing
/// on disk was deleted, and how many catalogue entries went with it (one
/// `entry`, else `entries`) or that they were kept.
pub open spec fn source_removed_text(path: Seq<char>, rows_removed: Option<u64>) -> Seq<char> {
    ln("Removed source folder from configuration: "@ + path)
        + "EmuWiz did not delete the folder or any files inside it.\n"@
        + match rows_removed {
            Some(n) => ln("Removed "@ + spec_decimal(n as nat) + " catalogue entr"@ + if n == 1 { "y"@ } else { "ies"@ }
                + " for this source."@),
            None => "Catalogue entries for this source were kept.\n"@,
        }
}

/// The confirmation of a removed source folder.
pub fn format_source_removed(path: &str, rows_removed: Option<u64>) -> (r: String)
    ensures
        r@ == source_removed_text(path@, rows_removed),
{
    let mut out = "Removed source folder from configuration: ".to_owned();
    line(&mut out, path);
    push_str(&mut out, "EmuWiz did not delete the folder or any files inside it.\n");
    match rows_removed {
        Some(n) => {
            push_str(&mut out, "Removed ");
            push_str(&mut out, decimal(n).as_str());
            push_str(&mut out, " catalogue entr");
            push_str(&mut out, if n == 1 { "y" } else { "ies" });
            line(&mut out, " for this source.");
        },
        None => push_str(&mut out, "Catalogue entries for this source were kept.\n"),
    }
    proof {
        assert(out@ =~= source_removed_text(path@, rows_removed));
    }
    out
}

} // verus!
