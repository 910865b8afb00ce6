//! The texts of the archive index and mount commands: index matches, the
//! index summary, a watch rebuild, the staleness warnings, the cleaned
//! mount directories and a single mount or unmount.
use vstd::prelude::*;
use crate::text::{decimal, push_str, spec_decimal};

verus! {

/// A line: the text and a newline.
pub open spec fn ln(t: Seq<char>) -> Seq<char> {
    t + "\n"@
}

fn line(out: &mut String, t: &str)
    ensures
        final(out)@ == old(out)@ + ln(t@),
{
    push_str(out, t);
    push_str(out, "\n");
    proof {
        assert(final(out)@ =~= old(out)@ + ln(t@));
    }
}

fn labelled(out: &mut String, label: &str, value: &str)
    ensures
        final(out)@ == old(out)@ + ln(label@ + value@),
{
    push_str(out, label);
    line(out, value);
    proof {
        assert(final(out)@ =~= old(out)@ + ln(label@ + value@));
    }
}

/// An archive of the index as `index-find` shows it.
#[derive(Debug, Clone, PartialEq, Eq)]
pub struct IndexEntryView {
    pub platform: Option<String>,
    pub display_name: String,
    pub archive_path: String,
    pub mount_path: String,
    /// The archive's health, as the index words it.
    pub health: String,
    /// Its mount state, as the index words it.
    pub mount_state: String,
}

/// One match's block, ending with a blank line.
pub open spec fn match_block(e: IndexEntryView) -> Seq<char> {
    ln("  Platform: "@ + match e.platform { Some(p) => p@, None => "Unknown"@ })
        + ln("  Display: "@ + e.display_name@)
        + ln("  Archive: "@ + e.archive_path@)
        + ln("  Mount: "@ + e.mount_path@)
        + ln("  Health: "@ + e.health@)
        + ln("  State: "@ + e.mount_state@)
        + "\n"@
}

/// Every match's block.
pub open spec fn match_blocks(v: Seq<IndexEntryView>) -> Seq<char>
    decreases v.len(),
{
    if v.len() == 0 { Seq::empty() } else { match_blocks(v.drop_last()) + match_block(v.last()) }
}

/// The `index-find` text: that nothing matched, or each match.
pub open spec fn index_find_text(query: Seq<char>, v: Seq<IndexEntryView>) -> Seq<char> {
    if v.len() == 0 {
        ln("No index matches found for '"@ + query + "'."@)
    } else {
        "EmuWiz Index Find\n"@ + ln("Query: "@ + query) + "\nMatches:\n"@ + match_blocks(v)
    }
}

fn push_match_block(out: &mut String, e: &IndexEntryView)
    ensures
        final(out)@ == old(out)@ + match_block(*e),
{
    let ghost start = out@;
    match &e.platform {
        Some(p) => labelled(out, "  Platform: ", p.as_str()),
        None => labelled(out, "  Platform: ", "Unknown"),
    }
    labelled(out, "  Display: ", e.display_name.as_str());
    labelled(out, "  Archive: ", e.archive_path.as_str());
    labelled(out, "  Mount: ", e.mount_path.as_str());
    labelled(out, "  Health: ", e.health.as_str());
    labelled(out, "  State: ", e.mount_state.as_str());
    push_str(out, "\n");
    proof {
        reveal_strlit("Unknown");
        assert(out@ =~= start + match_block(*e));
    }
}

/// The `index-find` report for `query`.
pub fn format_index_find_results(query: &str, entries: &Vec<IndexEntryView>) -> (r: String)
    ensures
        r@ == index_find_text(query@, entries@),
{
    if entries.len() == 0 {
        let mut out = "No index matches found for '".to_owned();
        push_str(&mut out, query);
        line(&mut out, "'.");
        proof {
            assert(out@ =~= index_find_text(query@, entries@));
        }
        return out;
    }
    let mut out = "EmuWiz Index Find\n".to_owned();
    labelled(&mut out, "Query: ", query);
    push_str(&mut out, "\nMatches:\n");
    let ghost head = out@;
    let mut k: usize = 0;
    while k < entries.len()
        invariant
            k <= entries@.len(),
            out@ == head + match_blocks(entries@.take(k as int)),
        decreases entries@.len() - k,
    {
        proof {
            assert(entries@.take(k + 1).drop_last() =~= entries@.take(k as int));
        }
        push_match_block(&mut out, &entries[k]);
        k = k + 1;
    }
    proof {
        assert(entries@.take(entries@.len() as int) =~= entries@);
        assert(out@ =~= index_find_text(query@, entries@));
    }
    out
}

/// The platform lines of the index summary.
pub open spec fn platform_lines(v: Seq<(String, u64)>) -> Seq<char>
    decreases v.len(),
{
    if v.len() == 0 {
        Seq::empty()
    } else {
        platform_lines(v.drop_last()) + ln("  "@ + v.last().0@ + ": "@ + spec_decimal(v.last().1 as nat))
    }
}

/// The `index` text: the archive, mounted and pending counts, then the
/// archives per platform.
pub open spec fn index_summary_text(total: u64, mounted: u64, pending: u64, platforms: Seq<(String, u64)>) -> Seq<char> {
    "EmuWiz Index\n\nSummary:\n"@
        + ln("  Total archives: "@ + spec_decimal(total as nat))
        + ln("  Mounted: "@ + spec_decimal(mounted as nat))
        + ln("  Pending: "@ + spec_decimal(pending as nat))
        + "\nPlatforms:\n"@
        + if platforms.len() == 0 { "  none\n"@ } else { platform_lines(platforms) }
}

/// The `index` summary report.
pub fn format_index_summary(total: u64, mounted: u64, pending: u64, platforms: &Vec<(String, u64)>) -> (r: String)
    ensures
        r@ == index_summary_text(total, mounted, pending, platforms@),
{
    let mut out = "EmuWiz Index\n\nSummary:\n".to_owned();
    labelled(&mut out, "  Total archives: ", decimal(total).as_str());
    labelled(&mut out, "  Mounted: ", decimal(mounted).as_str());
    labelled(&mut out, "  Pending: ", decimal(pending).as_str());
    push_str(&mut out, "\nPlatforms:\n");
    let ghost head = out@;
    if platforms.len() == 0 {
        push_str(&mut out, "  none\n");
    } else {
        let mut k: usize = 0;
        while k < platforms.len()
            invariant
                k <= platforms@.len(),
                out@ == head + platform_lines(platforms@.take(k as int)),
            decreases platforms@.len() - k,
        {
            proof {
                assert(platforms@.take(k + 1).drop_last() =~= platforms@.take(k as int));
            }
            let ghost before = out@;
            push_str(&mut out, "  ");
            push_str(&mut out, platforms[k].0.as_str());
            push_str(&mut out, ": ");
            line(&mut out, decimal(platforms[k].1).as_str());
            proof {
                assert(out@ =~= before + ln("  "@ + platforms@[k as int].0@ + ": "@ + spec_decimal(platforms@[k as int].1 as nat)));
            }
            k = k + 1;
        }
        proof {
            assert(platforms@.take(platforms@.len() as int) =~= platforms@);
        }
    }
    proof {
        assert(out@ =~= index_summary_text(total, mounted, pending, platforms@));
    }
    out
}

/// An indented line per path.
pub open spec fn path_lines(v: Seq<String>, prefix: Seq<char>) -> Seq<char>
    decreases v.len(),
{
    if v.len() == 0 { Seq::empty() } else { path_lines(v.drop_last(), prefix) + ln(prefix + v.last()@) }
}

fn push_path_lines(out: &mut String, v: &Vec<String>, prefix: &str)
    ensures
        final(out)@ == old(out)@ + path_lines(v@, prefix@),
{
    let ghost start = out@;
    let mut k: usize = 0;
    while k < v.len()
        invariant
            k <= v@.len(),
            out@ == start + path_lines(v@.take(k as int), prefix@),
        decreases v@.len() - k,
    {
        proof {
            assert(v@.take(k + 1).drop_last() =~= v@.take(k as int));
        }
        labelled(out, prefix, v[k].as_str());
        k = k + 1;
    }
    proof {
        assert(v@.take(v@.len() as int) =~= v@);
    }
}

/// What `index-watch` prints after a rebuild: the archive count, how many
/// archive events caused it (one `event`, else `events`), and each changed
/// path.
pub open spec fn watch_rebuild_text(archives: u64, events: u64, changed: Seq<String>) -> Seq<char> {
    ln("Rebuilt index ("@ + spec_decimal(archives as nat) + " archives) after "@ + spec_decimal(events as nat)
        + " archive "@ + if events == 1 { "event"@ } else { "events"@ } + ":"@)
        + path_lines(changed, "  "@)
}

/// The text of one watch rebuild.
pub fn format_watch_rebuild(archives: u64, events: u64, changed: &Vec<String>) -> (r: String)
    ensures
        r@ == watch_rebuild_text(archives, events, changed@),
{
    let mut out = "Rebuilt index (".to_owned();
    push_str(&mut out, decimal(archives).as_str());
    push_str(&mut out, " archives) after ");
    push_str(&mut out, decimal(events).as_str());
    push_str(&mut out, " archive ");
    push_str(&mut out, if events == 1 { "event" } else { "events" });
    line(&mut out, ":");
    push_path_lines(&mut out, changed, "  ");
    proof {
        assert(out@ =~= watch_rebuild_text(archives, events, changed@));
    }
    out
}

/// The warnings printed before an index listing: one when the index names
/// archives that are gone, one when it may be stale.
pub open spec fn index_warnings_text(missing: bool, stale: bool) -> Seq<char> {
    (if missing { "Warning: index contains missing archive paths. Run emuwiz-cli index-build.\n"@ } else { Seq::empty() })
        + if stale { "Warning: index may be stale. Run emuwiz-cli index-build.\n"@ } else { Seq::empty() }
}

/// The index staleness warnings.
pub fn format_index_warnings(missing: bool, stale: bool) -> (r: String)
    ensures
        r@ == index_warnings_text(missing, stale),
{
    let mut out = String::new();
    if missing {
        push_str(&mut out, "Warning: index contains missing archive paths. Run emuwiz-cli index-build.\n");
    }
    if stale {
        push_str(&mut out, "Warning: index may be stale. Run emuwiz-cli index-build.\n");
    }
    proof {
        assert(out@ =~= index_warnings_text(missing, stale));
    }
    out
}

/// The hint printed when there is no index file yet.
pub open spec fn missing_index_text(index_path: Seq<char>) -> Seq<char> {
    ln("No archive index found at "@ + index_path + ". Run: emuwiz-cli index-build"@)
}

/// The hint for a missing index file at `index_path`.
pub fn format_missing_index(index_path: &str) -> (r: String)
    ensures
        r@ == missing_index_text(index_path@),
{
    let mut out = "No archive index found at ".to_owned();
    push_str(&mut out, index_path);
    line(&mut out, ". Run: emuwiz-cli index-build");
    proof {
        assert(out@ =~= missing_index_text(index_path@));
    }
    out
}

/// What `mount-clean` prints: each removed directory, then their count.
pub open spec fn cleaned_dirs_text(paths: Seq<String>) -> Seq<char> {
    path_lines(paths, "Removed: "@) + ln("Removed "@ + spec_decimal(paths.len()) + " empty directories."@)
}

/// The report of the empty mount directories removed.
pub fn format_cleaned_dirs(paths: &Vec<String>) -> (r: String)
    ensures
        r@ == cleaned_dirs_text(paths@),
{
    let mut out = String::new();
    push_path_lines(&mut out, paths, "Removed: ");
    push_str(&mut out, "Removed ");
    push_str(&mut out, decimal(paths.len() as u64).as_str());
    line(&mut out, " empty directories.");
    proof {
        assert(out@ =~= cleaned_dirs_text(paths@));
    }
    out
}

/// What `mount-one` (`mounted`) or `unmount-one` prints.
pub open spec fn mount_one_text(mounted: bool, archive: Seq<char>, mount: Seq<char>) -> Seq<char> {
    (if mounted { "Mounted:\n"@ } else { "Unmounted:\n"@ })
        + ln("  Archive: "@ + archive)
        + ln("  Mount:   "@ + mount)
}

/// The report of mounting (or unmounting) one archive at `mount`.
pub fn format_mount_one(mounted: bool, archive: &str, mount: &str) -> (r: String)
    ensures
        r@ == mount_one_text(mounted, archive@, mount@),
{
    let mut out = if mounted { "Mounted:\n".to_owned() } else { "Unmounted:\n".to_owned() };
    labelled(&mut out, "  Archive: ", archive);
    labelled(&mut out, "  Mount:   ", mount);
    proof {
        assert(out@ =~= mount_one_text(mounted, archive@, mount@));
    }
    out
}

/// What `index-build` prints once the index is written.
pub open spec fn index_written_text(index_path: Seq<char>, archives: u64) -> Seq<char> {
    ln("Wrote index: "@ + index_path + " ("@ + spec_decimal(archives as nat) + " archives)"@)
}

/// The confirmation of a written index.
pub fn format_index_written(index_path: &str, archives: u64) -> (r: String)
    ensures
        r@ == index_written_text(index_path@, archives),
{
    let mut out = "Wrote index: ".to_owned();
    push_str(&mut out, index_path);
    push_str(&mut out, " (");
    push_str(&mut out, decimal(archives).as_str());
    line(&mut out, " archives)");
    proof {
        assert(out@ =~= index_written_text(index_path@, archives));
    }
    out
}

} // verus!
