//! The library catalogue as the command line shows it: matching archives
//! against a query, picking exactly one, and the text of listings, scans,
//! mount statuses and platform changes.
use vstd::prelude::*;
use crate::format::{human_size, format_unix_timestamp, spec_human_size, spec_unix_timestamp};
use crate::args::{extract_flag, occurs, without};
use crate::text::{same, ascii_lower, chars_of, concat, contains_text, decimal, has_substring, occurs_at, join, lowercase,
    lowercase_ascii, push_char, push_str, signed_decimal, signed_text, spec_decimal, spec_join, text_lowercase, views};

verus! {

/// One catalogued archive, as listings show it.
#[derive(Debug, Clone, PartialEq, Eq)]
pub struct LibraryArchiveView {
    pub id: i64,
    /// The archive's path, as displayed.
    pub path: String,
    pub platform: Option<String>,
    pub platform_source: Option<String>,
    pub present: bool,
    pub size_bytes: Option<u64>,
    pub modified_time_unix_seconds: Option<i64>,
}

fn copy_text(o: &Option<String>) -> (r: Option<String>)
    ensures
        r == *o,
{
    match o {
        Some(s) => Some(s.clone()),
        None => None,
    }
}

impl LibraryArchiveView {
    /// A copy of this view.
    pub fn duplicate(&self) -> (r: Self)
        ensures
            r == *self,
    {
        LibraryArchiveView {
            id: self.id,
            path: self.path.clone(),
            platform: copy_text(&self.platform),
            platform_source: copy_text(&self.platform_source),
            present: self.present,
            size_bytes: self.size_bytes,
            modified_time_unix_seconds: self.modified_time_unix_seconds,
        }
    }
}

/// The platform text a query is matched against: empty when none.
pub open spec fn platform_text(e: LibraryArchiveView) -> Seq<char> {
    match e.platform {
        Some(p) => p@,
        None => ""@,
    }
}

/// Whether an entry matches a lower-cased query: its path or its platform,
/// lower-cased, contains it.
pub open spec fn entry_matches(e: LibraryArchiveView, needle: Seq<char>) -> bool {
    has_substring(text_lowercase(e.path@), needle) || has_substring(text_lowercase(platform_text(e)), needle)
}

/// The entries that match, in order.
pub open spec fn matching(entries: Seq<LibraryArchiveView>, needle: Seq<char>) -> Seq<LibraryArchiveView>
    decreases entries.len(),
{
    if entries.len() == 0 {
        Seq::empty()
    } else if entry_matches(entries.last(), needle) {
        matching(entries.drop_last(), needle).push(entries.last())
    } else {
        matching(entries.drop_last(), needle)
    }
}

fn matches_query(e: &LibraryArchiveView, needle: &str) -> (r: bool)
    ensures
        r == entry_matches(*e, needle@),
{
    let path = lowercase(e.path.as_str());
    if contains_text(path.as_str(), needle) {
        return true;
    }
    let platform = match &e.platform {
        Some(p) => lowercase(p.as_str()),
        None => lowercase(""),
    };
    contains_text(platform.as_str(), needle)
}

/// The entries whose path or platform contains `query`, ignoring case.
pub fn filter_library_entries(entries: &Vec<LibraryArchiveView>, query: &str) -> (r: Vec<LibraryArchiveView>)
    ensures
        r@ == matching(entries@, text_lowercase(query@)),
{
    let needle = lowercase(query);
    let mut out: Vec<LibraryArchiveView> = Vec::new();
    let mut k: usize = 0;
    while k < entries.len()
        invariant
            k <= entries@.len(),
            needle@ == text_lowercase(query@),
            out@ == matching(entries@.take(k as int), needle@),
        decreases entries@.len() - k,
    {
        proof {
            assert(entries@.take(k + 1).drop_last() =~= entries@.take(k as int));
            assert(entries@.take(k + 1).last() == entries@[k as int]);
        }
        if matches_query(&entries[k], needle.as_str()) {
            out.push(entries[k].duplicate());
        }
        k = k + 1;
    }
    proof {
        assert(entries@.take(entries@.len() as int) =~= entries@);
    }
    out
}

/// An entry whose path or platform, lower-cased, holds `needle` at some
/// position.
pub open spec fn holds_at(e: LibraryArchiveView, needle: Seq<char>, on_platform: bool, i: int) -> bool {
    let hay = if on_platform {
        match e.platform {
            Some(p) => text_lowercase(p@),
            None => text_lowercase(""@),
        }
    } else {
        text_lowercase(e.path@)
    };
    0 <= i && i + needle.len() <= hay.len() && hay.subrange(i, i + needle.len()) == needle
}

/// What `library-find` finds: an entry is kept exactly when its path or its
/// platform, lower-cased, holds the lower-cased query somewhere, so a query
/// that is only part of a platform name (`"playstation"` in
/// `"PlayStation 2"`) finds it; what is kept comes from the entries, in
/// their order.
pub proof fn lemma_find_keeps_substring_matches(entries: Seq<LibraryArchiveView>, needle: Seq<char>, e: LibraryArchiveView)
    ensures
        matching(entries, needle).contains(e) <==> (entries.contains(e)
            && exists|on_platform: bool, i: int| holds_at(e, needle, on_platform, i)),
        matching(entries, needle).len() <= entries.len(),
    decreases entries.len(),
{
    if entries.len() > 0 {
        let rest = entries.drop_last();
        lemma_find_keeps_substring_matches(rest, needle, e);
        assert(entries =~= rest.push(entries.last()));
        let last = entries.last();
        if entry_matches(last, needle) {
            if has_substring(text_lowercase(last.path@), needle) {
                let i = choose|i: int| occurs_at(text_lowercase(last.path@), needle, i);
                assert(holds_at(last, needle, false, i));
            } else {
                let i = choose|i: int| occurs_at(text_lowercase(platform_text(last)), needle, i);
                assert(holds_at(last, needle, true, i));
            }
        }
        if e == last {
            if exists|on_platform: bool, i: int| holds_at(e, needle, on_platform, i) {
                let (on_platform, i) = choose|on_platform: bool, i: int| holds_at(e, needle, on_platform, i);
                if on_platform {
                    assert(occurs_at(text_lowercase(platform_text(e)), needle, i));
                } else {
                    assert(occurs_at(text_lowercase(e.path@), needle, i));
                }
            }
        }
        if entries.contains(e) && e != last {
            let k = choose|k: int| 0 <= k < entries.len() && entries[k] == e;
            assert(rest[k] == e);
        }
        if rest.contains(e) {
            let k = choose|k: int| 0 <= k < rest.len() && rest[k] == e;
            assert(entries[k] == e);
        }
        if matching(entries, needle).contains(e) && !matching(rest, needle).contains(e) {
            assert(matching(entries, needle) == matching(rest, needle).push(last));
            let k = choose|k: int| 0 <= k < matching(entries, needle).len() && matching(entries, needle)[k] == e;
            if k < matching(rest, needle).len() {
                assert(matching(rest, needle)[k] == e);
            }
        }
        if entry_matches(last, needle) {
            assert(matching(entries, needle)[matching(rest, needle).len() as int] == last);
            if matching(rest, needle).contains(e) {
                let k = choose|k: int| 0 <= k < matching(rest, needle).len() && matching(rest, needle)[k] == e;
                assert(matching(entries, needle)[k] == e);
            }
        }
        assert(entries[entries.len() - 1] == last);
    }
}

/// The candidate lines of an ambiguous match.
pub open spec fn candidate_lines(ms: Seq<LibraryArchiveView>) -> Seq<char>
    decreases ms.len(),
{
    if ms.len() == 0 {
        Seq::empty()
    } else {
        candidate_lines(ms.drop_last()) + "  [id "@ + signed_decimal(ms.last().id as int) + "] "@ + ms.last().path@ + "\n"@
    }
}

/// What picking one archive by `query` gives: the one match, or why not.
pub open spec fn spec_select_one(entries: Seq<LibraryArchiveView>, query: Seq<char>) -> Result<LibraryArchiveView, Seq<char>> {
    let ms = matching(entries, text_lowercase(query));
    if ms.len() == 0 {
        Err("no archive matched '"@ + query + "'"@)
    } else if ms.len() == 1 {
        Ok(ms[0])
    } else {
        Err("multiple archives matched '"@ + query + "':\n"@ + candidate_lines(ms)
            + "Re-run with --id <id> to select exactly one archive."@)
    }
}

/// Matches `query` as `filter_library_entries` does and requires exactly
/// one archive: no match and several matches are both errors, the latter
/// listing each candidate with its id.
pub fn select_one_library_entry(entries: &Vec<LibraryArchiveView>, query: &str) -> (r: Result<LibraryArchiveView, String>)
    ensures
        match spec_select_one(entries@, query@) {
            Ok(e) => r == Ok::<LibraryArchiveView, String>(e),
            Err(m) => r matches Err(s) && s@ == m,
        },
{
    let mut matches = filter_library_entries(entries, query);
    if matches.len() == 0 {
        let mut m = concat("no archive matched '", query);
        push_str(&mut m, "'");
        return Err(m);
    }
    if matches.len() == 1 {
        return Ok(matches.remove(0));
    }
    let mut m = concat("multiple archives matched '", query);
    push_str(&mut m, "':\n");
    let ghost head = m@;
    let mut k: usize = 0;
    while k < matches.len()
        invariant
            k <= matches@.len(),
            m@ == head + candidate_lines(matches@.take(k as int)),
        decreases matches@.len() - k,
    {
        proof {
            assert(matches@.take(k + 1).drop_last() =~= matches@.take(k as int));
            assert(matches@.take(k + 1).last() == matches@[k as int]);
        }
        let ghost before = m@;
        push_str(&mut m, "  [id ");
        push_str(&mut m, signed_text(matches[k].id).as_str());
        push_str(&mut m, "] ");
        push_str(&mut m, matches[k].path.as_str());
        push_str(&mut m, "\n");
        proof {
            let e = matches@[k as int];
            assert(m@ =~= head + (candidate_lines(matches@.take(k as int)) + "  [id "@ + signed_decimal(e.id as int) + "] "@ + e.path@ + "\n"@));
        }
        k = k + 1;
    }
    proof {
        assert(matches@.take(matches@.len() as int) =~= matches@);
    }
    push_str(&mut m, "Re-run with --id <id> to select exactly one archive.");
    Err(m)
}

/// "<platform> (<source>)" when both are known, otherwise "Unknown".
pub open spec fn platform_and_source(platform: Option<String>, source: Option<String>) -> Seq<char> {
    match (platform, source) {
        (Some(p), Some(s)) => p@ + " ("@ + s@ + ")"@,
        _ => "Unknown"@,
    }
}

/// The size line's value.
pub open spec fn size_text(size: Option<u64>) -> Seq<char> {
    match size {
        Some(b) => spec_human_size(b as nat),
        None => "unknown"@,
    }
}

/// The modified line's value: times before the epoch show as the epoch.
pub open spec fn modified_text(t: Option<i64>) -> Seq<char> {
    match t {
        Some(s) => spec_unix_timestamp(if s < 0 { 0nat } else { s as nat }),
        None => "unknown"@,
    }
}

/// One entry of a listing: id, path, platform, state, size, modification
/// time, then a blank line.
pub open spec fn entry_text(e: LibraryArchiveView) -> Seq<char> {
    entry_head(e) + entry_tail(e)
}

/// A listing: each entry in turn.
pub open spec fn entries_text(entries: Seq<LibraryArchiveView>) -> Seq<char>
    decreases entries.len(),
{
    if entries.len() == 0 {
        Seq::empty()
    } else {
        entries_text(entries.drop_last()) + entry_text(entries.last())
    }
}

fn push_platform_and_source(out: &mut String, platform: &Option<String>, source: &Option<String>)
    ensures
        final(out)@ == old(out)@ + platform_and_source(*platform, *source),
{
    match (platform, source) {
        (Some(p), Some(s)) => {
            push_str(out, p.as_str());
            push_str(out, " (");
            push_str(out, s.as_str());
            push_str(out, ")");
            proof {
                assert(final(out)@ =~= old(out)@ + (p@ + " ("@ + s@ + ")"@));
            }
        },
        _ => push_str(out, "Unknown"),
    }
}

fn push_size(out: &mut String, size: Option<u64>)
    ensures
        final(out)@ == old(out)@ + size_text(size),
{
    match size {
        Some(b) => push_str(out, human_size(b).as_str()),
        None => push_str(out, "unknown"),
    }
}

fn push_modified(out: &mut String, t: Option<i64>)
    ensures
        final(out)@ == old(out)@ + modified_text(t),
{
    match t {
        Some(s) => {
            let secs: u64 = if s < 0 { 0 } else { s as u64 };
            push_str(out, format_unix_timestamp(secs).as_str());
        },
        None => push_str(out, "unknown"),
    }
}

/// The first lines of an entry: id, path and platform.
pub open spec fn entry_head(e: LibraryArchiveView) -> Seq<char> {
    "  Id: "@ + signed_decimal(e.id as int) + "\n"@
        + "  Path: "@ + e.path@ + "\n"@
        + "  Platform: "@ + platform_and_source(e.platform, e.platform_source) + "\n"@
}

/// The last lines of an entry: state, size and modification time.
pub open spec fn entry_tail(e: LibraryArchiveView) -> Seq<char> {
    "  State: "@ + (if e.present { "Present"@ } else { "Missing"@ }) + "\n"@
        + "  Size: "@ + size_text(e.size_bytes) + "\n"@
        + "  Modified: "@ + modified_text(e.modified_time_unix_seconds) + "\n"@
        + "\n"@
}

fn push_entry_head(out: &mut String, e: &LibraryArchiveView)
    ensures
        final(out)@ == old(out)@ + entry_head(*e),
{
    push_str(out, "  Id: ");
    push_str(out, signed_text(e.id).as_str());
    push_str(out, "\n");
    push_str(out, "  Path: ");
    push_str(out, e.path.as_str());
    push_str(out, "\n");
    push_str(out, "  Platform: ");
    push_platform_and_source(out, &e.platform, &e.platform_source);
    push_str(out, "\n");
    proof {
        assert(final(out)@ =~= old(out)@ + entry_head(*e));
    }
}

fn push_entry_tail(out: &mut String, e: &LibraryArchiveView)
    ensures
        final(out)@ == old(out)@ + entry_tail(*e),
{
    push_str(out, "  State: ");
    push_str(out, if e.present { "Present" } else { "Missing" });
    push_str(out, "\n");
    push_str(out, "  Size: ");
    push_size(out, e.size_bytes);
    push_str(out, "\n");
    push_str(out, "  Modified: ");
    push_modified(out, e.modified_time_unix_seconds);
    push_str(out, "\n");
    push_str(out, "\n");
    proof {
        assert(final(out)@ =~= old(out)@ + entry_tail(*e));
    }
}

fn push_entry(out: &mut String, e: &LibraryArchiveView)
    ensures
        final(out)@ == old(out)@ + entry_text(*e),
{
    push_entry_head(out, e);
    push_entry_tail(out, e);
    proof {
        assert(final(out)@ =~= old(out)@ + entry_text(*e));
    }
}

/// The listing of `entries`: id, path, platform, state, size and
/// modification time of each, followed by a blank line.
pub fn format_library_entries(entries: &Vec<LibraryArchiveView>) -> (r: String)
    ensures
        r@ == entries_text(entries@),
{
    let mut out = String::new();
    let mut k: usize = 0;
    while k < entries.len()
        invariant
            k <= entries@.len(),
            out@ == entries_text(entries@.take(k as int)),
        decreases entries@.len() - k,
    {
        proof {
            assert(entries@.take(k + 1).drop_last() =~= entries@.take(k as int));
            assert(entries@.take(k + 1).last() == entries@[k as int]);
        }
        push_entry(&mut out, &entries[k]);
        k = k + 1;
    }
    proof {
        assert(entries@.take(entries@.len() as int) =~= entries@);
    }
    out
}

/// A source folder that failed to scan.
#[derive(Debug, Clone, PartialEq, Eq)]
pub struct FolderError {
    pub path: String,
    pub error: String,
}

/// The outcome of a library scan, with counts named for the reader.
#[derive(Debug, Clone, PartialEq, Eq)]
pub struct LibraryScanReport {
    pub scan_run_id: i64,
    pub source_folders_attempted: i64,
    pub source_folders_succeeded: i64,
    pub source_folders_failed: i64,
    pub archives_new: i64,
    pub archives_changed: i64,
    pub archives_restored: i64,
    pub archives_unchanged: i64,
    pub archives_missing: i64,
    pub folder_errors: Vec<FolderError>,
}

impl LibraryScanReport {
    /// The report of a scan: the folders that failed are those with an
    /// error, and the folders attempted are those scanned plus those.
    pub fn from_counts(scan_run_id: i64, source_folders_scanned: i64, archives_added: i64, archives_changed: i64,
        archives_restored: i64, archives_unchanged: i64, archives_missing: i64, folder_errors: Vec<FolderError>) -> (r: Self)
        requires
            folder_errors@.len() <= i64::MAX,
            source_folders_scanned + folder_errors@.len() <= i64::MAX,
        ensures
            r.scan_run_id == scan_run_id,
            r.source_folders_succeeded == source_folders_scanned,
            r.source_folders_failed == folder_errors@.len(),
            r.source_folders_attempted == source_folders_scanned + folder_errors@.len(),
            r.archives_new == archives_added,
            r.archives_changed == archives_changed,
            r.archives_restored == archives_restored,
            r.archives_unchanged == archives_unchanged,
            r.archives_missing == archives_missing,
            r.folder_errors == folder_errors,
    {
        let failed = folder_errors.len() as i64;
        LibraryScanReport {
            scan_run_id,
            source_folders_attempted: source_folders_scanned + failed,
            source_folders_succeeded: source_folders_scanned,
            source_folders_failed: failed,
            archives_new: archives_added,
            archives_changed,
            archives_restored,
            archives_unchanged,
            archives_missing,
            folder_errors,
        }
    }
}

/// The error lines of a scan report.
pub open spec fn folder_error_lines(errors: Seq<FolderError>) -> Seq<char>
    decreases errors.len(),
{
    if errors.len() == 0 {
        Seq::empty()
    } else {
        folder_error_lines(errors.drop_last()) + "  "@ + errors.last().path@ + ": "@ + errors.last().error@ + "\n"@
    }
}

/// The text of a scan report.
pub open spec fn scan_text(r: LibraryScanReport) -> Seq<char> {
    "EmuWiz Library Scan\n\n"@ + "Source folders:\n"@
        + "  Attempted: "@ + signed_decimal(r.source_folders_attempted as int) + "\n"@
        + "  Succeeded: "@ + signed_decimal(r.source_folders_succeeded as int) + "\n"@
        + "  Failed: "@ + signed_decimal(r.source_folders_failed as int) + "\n"@
        + "\nArchives:\n"@
        + "  New: "@ + signed_decimal(r.archives_new as int) + "\n"@
        + "  Changed: "@ + signed_decimal(r.archives_changed as int) + "\n"@
        + "  Restored: "@ + signed_decimal(r.archives_restored as int) + "\n"@
        + "  Unchanged: "@ + signed_decimal(r.archives_unchanged as int) + "\n"@
        + "  Missing: "@ + signed_decimal(r.archives_missing as int) + "\n"@
        + "\nErrors:\n"@
        + if r.folder_errors@.len() == 0 { "  none\n"@ } else { folder_error_lines(r.folder_errors@) }
}

fn push_count_line(out: &mut String, label: &str, n: i64)
    ensures
        final(out)@ == old(out)@ + label@ + signed_decimal(n as int) + "\n"@,
{
    push_str(out, label);
    push_str(out, signed_text(n).as_str());
    push_str(out, "\n");
}

/// The text of a library scan: folder counts, archive counts, then each
/// folder error (or "none").
pub fn format_library_scan(report: &LibraryScanReport) -> (r: String)
    ensures
        r@ == scan_text(*report),
{
    let mut out = "EmuWiz Library Scan\n\n".to_owned();
    push_str(&mut out, "Source folders:\n");
    push_count_line(&mut out, "  Attempted: ", report.source_folders_attempted);
    push_count_line(&mut out, "  Succeeded: ", report.source_folders_succeeded);
    push_count_line(&mut out, "  Failed: ", report.source_folders_failed);
    push_str(&mut out, "\nArchives:\n");
    push_count_line(&mut out, "  New: ", report.archives_new);
    push_count_line(&mut out, "  Changed: ", report.archives_changed);
    push_count_line(&mut out, "  Restored: ", report.archives_restored);
    push_count_line(&mut out, "  Unchanged: ", report.archives_unchanged);
    push_count_line(&mut out, "  Missing: ", report.archives_missing);
    push_str(&mut out, "\nErrors:\n");
    let ghost head = out@;
    if report.folder_errors.len() == 0 {
        push_str(&mut out, "  none\n");
    } else {
        let errors = &report.folder_errors;
        let mut k: usize = 0;
        while k < errors.len()
            invariant
                k <= errors@.len(),
                out@ == head + folder_error_lines(errors@.take(k as int)),
            decreases errors@.len() - k,
        {
            proof {
                assert(errors@.take(k + 1).drop_last() =~= errors@.take(k as int));
                assert(errors@.take(k + 1).last() == errors@[k as int]);
            }
            push_str(&mut out, "  ");
            push_str(&mut out, errors[k].path.as_str());
            push_str(&mut out, ": ");
            push_str(&mut out, errors[k].error.as_str());
            push_str(&mut out, "\n");
            proof {
                let e = errors@[k as int];
                assert(out@ =~= head + (folder_error_lines(errors@.take(k as int)) + "  "@ + e.path@ + ": "@ + e.error@ + "\n"@));
            }
            k = k + 1;
        }
        proof {
            assert(errors@.take(errors@.len() as int) =~= errors@);
        }
    }
    proof {
        assert(out@ =~= scan_text(*report));
    }
    out
}

/// Named counts, one per line, or "none".
pub open spec fn counts_text(counts: Seq<(String, usize)>) -> Seq<char> {
    if counts.len() == 0 { "  none\n"@ } else { count_lines(counts) }
}

/// One "  <name>: <count>" line per pair.
pub open spec fn count_lines(counts: Seq<(String, usize)>) -> Seq<char>
    decreases counts.len(),
{
    if counts.len() == 0 {
        Seq::empty()
    } else {
        count_lines(counts.drop_last()) + "  "@ + counts.last().0@ + ": "@ + spec_decimal(counts.last().1 as nat) + "\n"@
    }
}

/// Appends named counts, one per line, or "  none" when there are none.
pub fn push_counts(output: &mut String, counts: &Vec<(String, usize)>)
    ensures
        final(output)@ == old(output)@ + counts_text(counts@),
{
    if counts.len() == 0 {
        push_str(output, "  none\n");
        return;
    }
    let ghost head = output@;
    let mut k: usize = 0;
    while k < counts.len()
        invariant
            k <= counts@.len(),
            output@ == head + count_lines(counts@.take(k as int)),
        decreases counts@.len() - k,
    {
        proof {
            assert(counts@.take(k + 1).drop_last() =~= counts@.take(k as int));
            assert(counts@.take(k + 1).last() == counts@[k as int]);
        }
        let (name, count) = &counts[k];
        push_str(output, "  ");
        push_str(output, name.as_str());
        push_str(output, ": ");
        push_str(output, decimal(*count as u64).as_str());
        push_str(output, "\n");
        proof {
            let c = counts@[k as int];
            assert(output@ =~= head + (count_lines(counts@.take(k as int)) + "  "@ + c.0@ + ": "@ + spec_decimal(c.1 as nat) + "\n"@));
        }
        k = k + 1;
    }
    proof {
        assert(counts@.take(counts@.len() as int) =~= counts@);
    }
}

/// `s` padded on the right with spaces to at least `width` characters, as
/// `{:<width}` does.
pub open spec fn pad_right(s: Seq<char>, width: nat) -> Seq<char> {
    if s.len() < width { s + Seq::new((width - s.len()) as nat, |i: int| ' ') } else { s }
}

pub fn push_padded(out: &mut String, s: &str, width: usize)
    ensures
        final(out)@ == old(out)@ + pad_right(s@, width as nat),
{
    push_str(out, s);
    let len = chars_of(s).len();
    let ghost base = out@;
    let mut k = len;
    while k < width
        invariant
            len == s@.len(),
            len <= k,
            k <= width || k == len,
            out@ == base + Seq::new((k - len) as nat, |i: int| ' '),
        decreases width - k,
    {
        push_char(out, ' ');
        k = k + 1;
        proof {
            assert(out@ =~= base + Seq::new((k - len) as nat, |i: int| ' '));
        }
    }
    proof {
        if len >= width {
            assert(out@ =~= old(out)@ + s@);
        } else {
            assert(out@ =~= old(out)@ + (s@ + Seq::new((width - len) as nat, |i: int| ' ')));
        }
    }
}

/// One mounted archive's status.
#[derive(Debug, Clone, PartialEq, Eq)]
pub struct ArchiveStatusView {
    pub archive_path: String,
    pub mount_path: String,
    /// The mount state, as displayed.
    pub state: String,
}

/// The rows of the status table.
pub open spec fn status_rows(statuses: Seq<ArchiveStatusView>) -> Seq<char>
    decreases statuses.len(),
{
    if statuses.len() == 0 {
        Seq::empty()
    } else {
        let s = statuses.last();
        status_rows(statuses.drop_last()) + pad_right(s.archive_path@, 48) + "  "@ + pad_right(s.mount_path@, 48) + "  "@
            + s.state@ + "\n"@
    }
}

/// The status table: a heading, then one row per archive, the first two
/// columns padded to 48 characters.
pub open spec fn statuses_text(statuses: Seq<ArchiveStatusView>) -> Seq<char> {
    pad_right("Archive"@, 48) + "  "@ + pad_right("Mount"@, 48) + "  State\n"@ + status_rows(statuses)
}

/// The human-readable status table of mounted archives.
pub fn format_statuses(statuses: &Vec<ArchiveStatusView>) -> (r: String)
    ensures
        r@ == statuses_text(statuses@),
{
    let mut out = String::new();
    push_padded(&mut out, "Archive", 48);
    push_str(&mut out, "  ");
    push_padded(&mut out, "Mount", 48);
    push_str(&mut out, "  State\n");
    let ghost head = out@;
    proof {
        assert(head =~= pad_right("Archive"@, 48) + "  "@ + pad_right("Mount"@, 48) + "  State\n"@);
    }
    let mut k: usize = 0;
    while k < statuses.len()
        invariant
            k <= statuses@.len(),
            out@ == head + status_rows(statuses@.take(k as int)),
        decreases statuses@.len() - k,
    {
        proof {
            assert(statuses@.take(k + 1).drop_last() =~= statuses@.take(k as int));
            assert(statuses@.take(k + 1).last() == statuses@[k as int]);
        }
        let s = &statuses[k];
        push_padded(&mut out, s.archive_path.as_str(), 48);
        push_str(&mut out, "  ");
        push_padded(&mut out, s.mount_path.as_str(), 48);
        push_str(&mut out, "  ");
        push_str(&mut out, s.state.as_str());
        push_str(&mut out, "\n");
        proof {
            assert(out@ =~= head + (status_rows(statuses@.take(k as int)) + pad_right(s.archive_path@, 48) + "  "@
                + pad_right(s.mount_path@, 48) + "  "@ + s.state@ + "\n"@));
        }
        k = k + 1;
    }
    proof {
        assert(statuses@.take(statuses@.len() as int) =~= statuses@);
    }
    out
}

/// The report of removing missing catalogue entries.
pub open spec fn missing_removal_text(removed: usize) -> Seq<char> {
    "EmuWiz Library Remove Missing\nRemoved: "@ + spec_decimal(removed as nat) + " missing catalogue entr"@
        + (if removed == 1 { "y"@ } else { "ies"@ })
        + ".\nNo archive files or mounted contents were deleted.\n"@
}

/// The text reporting how many missing catalogue entries were removed.
pub fn format_missing_removal(removed: usize) -> (r: String)
    ensures
        r@ == missing_removal_text(removed),
{
    let mut out = "EmuWiz Library Remove Missing\nRemoved: ".to_owned();
    push_str(&mut out, decimal(removed as u64).as_str());
    push_str(&mut out, " missing catalogue entr");
    push_str(&mut out, if removed == 1 { "y" } else { "ies" });
    push_str(&mut out, ".\nNo archive files or mounted contents were deleted.\n");
    out
}

/// One archive's platform before and after a change.
#[derive(Debug, Clone, PartialEq, Eq)]
pub struct LibraryPlatformChangeView {
    pub path: String,
    pub old_platform: Option<String>,
    pub old_source: Option<String>,
    pub new_platform: Option<String>,
    pub new_source: Option<String>,
}

/// The text of a platform change.
pub open spec fn platform_change_text(action: Seq<char>, c: LibraryPlatformChangeView) -> Seq<char> {
    "EmuWiz Library "@ + action + "\n"@
        + "Path: "@ + c.path@ + "\n"@
        + "Old platform: "@ + platform_and_source(c.old_platform, c.old_source) + "\n"@
        + "New platform: "@ + platform_and_source(c.new_platform, c.new_source) + "\n"@
}

/// The lines reporting a platform set or cleared on one archive.
pub fn format_platform_change(action: &str, change: &LibraryPlatformChangeView) -> (r: String)
    ensures
        r@ == platform_change_text(action@, *change),
{
    let mut out = concat("EmuWiz Library ", action);
    push_str(&mut out, "\n");
    push_str(&mut out, "Path: ");
    push_str(&mut out, change.path.as_str());
    push_str(&mut out, "\n");
    push_str(&mut out, "Old platform: ");
    push_platform_and_source(&mut out, &change.old_platform, &change.old_source);
    push_str(&mut out, "\n");
    push_str(&mut out, "New platform: ");
    push_platform_and_source(&mut out, &change.new_platform, &change.new_source);
    push_str(&mut out, "\n");
    proof {
        assert(out@ =~= platform_change_text(action@, *change));
    }
    out
}

/// The ids of a list, in decimal.
pub open spec fn id_texts(ids: Seq<i64>) -> Seq<Seq<char>> {
    ids.map_values(|id: i64| signed_decimal(id as int))
}

/// The text of a bulk platform change.
pub open spec fn bulk_change_text(action: Seq<char>, requested: usize, changed: usize, unchanged: usize, missing: Seq<i64>) -> Seq<char> {
    "EmuWiz Library "@ + action + "\n"@
        + "Requested: "@ + spec_decimal(requested as nat) + "\n"@
        + "Changed: "@ + spec_decimal(changed as nat) + "\n"@
        + "Unchanged: "@ + spec_decimal(unchanged as nat) + "\n"@
        + "Missing: "@ + (if missing.len() == 0 { "none"@ } else { spec_join(id_texts(missing), ", "@) }) + "\n"@
}

/// The lines reporting a bulk platform set or clear: how many archives were
/// asked for, changed and left alone, and the ids not in the catalogue.
pub fn format_bulk_platform_change(action: &str, requested: usize, changed: usize, unchanged: usize, missing: &Vec<i64>) -> (r: String)
    ensures
        r@ == bulk_change_text(action@, requested, changed, unchanged, missing@),
{
    let mut out = concat("EmuWiz Library ", action);
    push_str(&mut out, "\n");
    push_str(&mut out, "Requested: ");
    push_str(&mut out, decimal(requested as u64).as_str());
    push_str(&mut out, "\n");
    push_str(&mut out, "Changed: ");
    push_str(&mut out, decimal(changed as u64).as_str());
    push_str(&mut out, "\n");
    push_str(&mut out, "Unchanged: ");
    push_str(&mut out, decimal(unchanged as u64).as_str());
    push_str(&mut out, "\n");
    push_str(&mut out, "Missing: ");
    let ghost head = out@;
    if missing.len() == 0 {
        push_str(&mut out, "none");
    } else {
        let mut texts: Vec<String> = Vec::new();
        let mut k: usize = 0;
        while k < missing.len()
            invariant
                k <= missing@.len(),
                views(texts@) == id_texts(missing@.take(k as int)),
            decreases missing@.len() - k,
        {
            let ghost before = texts@;
            texts.push(signed_text(missing[k]));
            proof {
                assert(views(texts@) =~= views(before).push(signed_decimal(missing@[k as int] as int)));
                assert(id_texts(missing@.take(k + 1)) =~= id_texts(missing@.take(k as int)).push(signed_decimal(missing@[k as int] as int)));
            }
            k = k + 1;
        }
        proof {
            assert(missing@.take(missing@.len() as int) =~= missing@);
        }
        push_str(&mut out, join(&texts, ", ").as_str());
    }
    proof {
        assert(out@ =~= head + (if missing@.len() == 0 { "none"@ } else { spec_join(id_texts(missing@), ", "@) }));
    }
    push_str(&mut out, "\n");
    proof {
        assert(out@ =~= bulk_change_text(action@, requested, changed, unchanged, missing@));
    }
    out
}

/// `s` with ASCII letters folded to lower case.
pub open spec fn ascii_fold(s: Seq<char>) -> Seq<char> {
    s.map_values(|c: char| ascii_lower(c))
}

/// The first name equal to `key` ignoring ASCII case.
pub open spec fn first_folded_match(names: Seq<String>, key: Seq<char>) -> Option<String>
    decreases names.len(),
{
    if names.len() == 0 {
        None
    } else {
        match first_folded_match(names.drop_last(), key) {
            Some(n) => Some(n),
            None => if ascii_fold(names.last()@) == ascii_fold(key) { Some(names.last()) } else { None },
        }
    }
}

/// The platform to store: as typed with `--custom`, otherwise the canonical
/// spelling it names ignoring ASCII case, or why it is refused.
pub open spec fn spec_resolve_platform(platform: String, custom: bool, canonical: Seq<String>) -> Result<String, Seq<char>> {
    if custom {
        Ok(platform)
    } else {
        match first_folded_match(canonical, platform@) {
            Some(n) => Ok(n),
            None => Err("unsupported platform '"@ + platform@ + "'. Must be one of: "@ + spec_join(views(canonical), ", "@)
                + ". Pass --custom to assign free-form platform text."@),
        }
    }
}

/// Resolves a `library-set-platform` platform argument against the
/// canonical platform names.
pub fn resolve_platform_argument(platform: String, custom: bool, canonical: &Vec<String>) -> (r: Result<String, String>)
    ensures
        match spec_resolve_platform(platform, custom, canonical@) {
            Ok(p) => r == Ok::<String, String>(p),
            Err(m) => r matches Err(s) && s@ == m,
        },
{
    if custom {
        return Ok(platform);
    }
    let key = lowercase_ascii(platform.as_str());
    let mut k: usize = 0;
    while k < canonical.len()
        invariant
            k <= canonical@.len(),
            !custom,
            key@ == ascii_fold(platform@),
            first_folded_match(canonical@.take(k as int), platform@) is None,
        decreases canonical@.len() - k,
    {
        proof {
            assert(canonical@.take(k + 1).drop_last() =~= canonical@.take(k as int));
            assert(canonical@.take(k + 1).last() == canonical@[k as int]);
        }
        let folded = lowercase_ascii(canonical[k].as_str());
        if folded == key {
            proof {
                assert(ascii_fold(canonical@[k as int]@) == ascii_fold(platform@));
                assert(first_folded_match(canonical@.take(k + 1), platform@) == Some(canonical@[k as int]));
                lemma_first_match_prefix(canonical@, k as int + 1, platform@);
            }
            let found = canonical[k].clone();
            return Ok(found);
        }
        k = k + 1;
    }
    proof {
        assert(canonical@.take(canonical@.len() as int) =~= canonical@);
    }
    let mut m = concat("unsupported platform '", platform.as_str());
    push_str(&mut m, "'. Must be one of: ");
    push_str(&mut m, join(canonical, ", ").as_str());
    push_str(&mut m, ". Pass --custom to assign free-form platform text.");
    Err(m)
}

/// A match found in a prefix is the match of the whole list.
proof fn lemma_first_match_prefix(names: Seq<String>, i: int, key: Seq<char>)
    requires
        0 <= i <= names.len(),
        first_folded_match(names.take(i), key) is Some,
    ensures
        first_folded_match(names, key) == first_folded_match(names.take(i), key),
    decreases names.len() - i,
{
    if i < names.len() {
        assert(names.take(i + 1).drop_last() =~= names.take(i));
        lemma_first_match_prefix(names, i + 1, key);
    } else {
        assert(names.take(i) =~= names);
    }
}


/// What `library-find <query...> [--unknown-only] [--json]` asks for:
/// `--unknown-only` anywhere, `--json` only as the last word, and the
/// other words joined by spaces as the query, which must not be empty.
pub open spec fn spec_find_args(s: Seq<String>) -> Result<(bool, bool, Seq<char>), Seq<char>> {
    if s.len() == 0 {
        Err("library-find requires a query"@)
    } else {
        let unknown_only = occurs(s, "--unknown-only"@);
        let t = without(s, "--unknown-only"@);
        let json = t.len() > 0 && t.last()@ == "--json"@;
        let words = if json { t.drop_last() } else { t };
        let query = spec_join(views(words), " "@);
        if query.len() == 0 { Err("library-find requires a query"@) } else { Ok((unknown_only, json, query)) }
    }
}

/// Reads the arguments of `library-find`.
pub fn parse_library_find_args(args: Vec<String>) -> (r: Result<(bool, bool, String), String>)
    ensures
        match spec_find_args(args@) {
            Ok((u, j, q)) => r matches Ok((u2, j2, q2)) && u2 == u && j2 == j && q2@ == q,
            Err(m) => r matches Err(e) && e@ == m,
        },
{
    if args.len() == 0 {
        return Err("library-find requires a query".to_owned());
    }
    let mut args = args;
    let unknown_only = extract_flag(&mut args, "--unknown-only");
    let ghost t = args@;
    let n = args.len();
    let json = n > 0 && same(&args[n - 1], "--json");
    if json {
        args.pop();
        proof {
            assert(args@ =~= t.drop_last());
        }
    }
    let query = join(&args, " ");
    if chars_of(query.as_str()).len() == 0 {
        return Err("library-find requires a query".to_owned());
    }
    Ok((unknown_only, json, query))
}

/// The `library-find` text: that nothing matched `query`, or the matches.
pub open spec fn find_results_text(query: Seq<char>, entries: Seq<LibraryArchiveView>) -> Seq<char> {
    if entries.len() == 0 {
        "No library matches found for '"@ + query + "'.\n"@
    } else {
        "EmuWiz Library Find\n"@ + "Query: "@ + query + "\n\n"@ + entries_text(entries)
    }
}

/// The `library-find` report of the archives that matched `query`.
pub fn format_library_find_results(query: &str, entries: &Vec<LibraryArchiveView>) -> (r: String)
    ensures
        r@ == find_results_text(query@, entries@),
{
    if entries.len() == 0 {
        let mut out = "No library matches found for '".to_owned();
        push_str(&mut out, query);
        push_str(&mut out, "'.\n");
        proof {
            assert(out@ =~= find_results_text(query@, entries@));
        }
        return out;
    }
    let mut out = "EmuWiz Library Find\n".to_owned();
    push_str(&mut out, "Query: ");
    push_str(&mut out, query);
    push_str(&mut out, "\n\n");
    let listing = format_library_entries(entries);
    push_str(&mut out, listing.as_str());
    proof {
        assert(out@ =~= find_results_text(query@, entries@));
    }
    out
}

/// A custom platform alias: a name that maps to a platform.
#[derive(Debug, Clone, PartialEq, Eq)]
pub struct PlatformAliasView {
    pub alias: String,
    pub platform: String,
}

/// One alias's block, ending with a blank line.
pub open spec fn alias_block(a: PlatformAliasView) -> Seq<char> {
    "  Alias: "@ + a.alias@ + "\n"@ + "  Platform: "@ + a.platform@ + "\n"@ + "\n"@
}

/// Every alias's block.
pub open spec fn alias_blocks(v: Seq<PlatformAliasView>) -> Seq<char>
    decreases v.len(),
{
    if v.len() == 0 { Seq::empty() } else { alias_blocks(v.drop_last()) + alias_block(v.last()) }
}

/// The `platform-alias list` text: that there are none, or each alias.
pub open spec fn aliases_text(v: Seq<PlatformAliasView>) -> Seq<char> {
    if v.len() == 0 {
        "No custom platform aliases defined.\n"@
    } else {
        "EmuWiz Platform Aliases\n\n"@ + alias_blocks(v)
    }
}

/// The `platform-alias list` report.
pub fn format_platform_aliases(aliases: &Vec<PlatformAliasView>) -> (r: String)
    ensures
        r@ == aliases_text(aliases@),
{
    if aliases.len() == 0 {
        return "No custom platform aliases defined.\n".to_owned();
    }
    let mut out = "EmuWiz Platform Aliases\n\n".to_owned();
    let ghost head = out@;
    let mut k: usize = 0;
    while k < aliases.len()
        invariant
            k <= aliases@.len(),
            out@ == head + alias_blocks(aliases@.take(k as int)),
        decreases aliases@.len() - k,
    {
        proof {
            assert(aliases@.take(k + 1).drop_last() =~= aliases@.take(k as int));
        }
        let ghost before = out@;
        push_str(&mut out, "  Alias: ");
        push_str(&mut out, aliases[k].alias.as_str());
        push_str(&mut out, "\n");
        push_str(&mut out, "  Platform: ");
        push_str(&mut out, aliases[k].platform.as_str());
        push_str(&mut out, "\n");
        push_str(&mut out, "\n");
        proof {
            assert(out@ =~= before + alias_block(aliases@[k as int]));
        }
        k = k + 1;
    }
    proof {
        assert(aliases@.take(aliases@.len() as int) =~= aliases@);
    }
    out
}

/// What `platform-alias add` prints once the alias is saved.
pub open spec fn alias_saved_text(a: PlatformAliasView) -> Seq<char> {
    "Saved platform alias '"@ + a.alias@ + "' -> "@ + a.platform@ + ".\n"@ + "Run a library scan to apply this change.\n"@
}

/// The confirmation of a saved platform alias.
pub fn format_platform_alias_saved(alias: &PlatformAliasView) -> (r: String)
    ensures
        r@ == alias_saved_text(*alias),
{
    let mut out = "Saved platform alias '".to_owned();
    push_str(&mut out, alias.alias.as_str());
    push_str(&mut out, "' -> ");
    push_str(&mut out, alias.platform.as_str());
    push_str(&mut out, ".\n");
    push_str(&mut out, "Run a library scan to apply this change.\n");
    proof {
        assert(out@ =~= alias_saved_text(*alias));
    }
    out
}

/// What `platform-alias-remove` says: that the alias was removed, or the
/// refusal when no alias matched.
pub open spec fn alias_removed_text(alias: Seq<char>, removed: bool) -> Result<Seq<char>, Seq<char>> {
    if removed {
        Ok("Removed platform alias '"@ + alias + "'. Run a library scan to apply this change.\n"@)
    } else {
        Err("no platform alias matches '"@ + alias + "'"@)
    }
}

/// The outcome of removing the alias `alias`.
pub fn format_alias_removed(alias: &str, removed: bool) -> (r: Result<String, String>)
    ensures
        match alias_removed_text(alias@, removed) {
            Ok(t) => r matches Ok(s) && s@ == t,
            Err(m) => r matches Err(e) && e@ == m,
        },
{
    if removed {
        let mut out = "Removed platform alias '".to_owned();
        push_str(&mut out, alias);
        push_str(&mut out, "'. Run a library scan to apply this change.\n");
        Ok(out)
    } else {
        let mut m = "no platform alias matches '".to_owned();
        push_str(&mut m, alias);
        push_str(&mut m, "'");
        Err(m)
    }
}

} // verus!
