//! The texts of the library view commands: the configured views, a view's
//! preview plan, and what an apply or a removal did. The core plans and
//! maintains the symlinks; these functions word what it reports.
use vstd::prelude::*;
use crate::text::{decimal, join, push_str, spec_decimal, spec_join, views};

verus! {

/// A configured library view.
#[derive(Debug, Clone, PartialEq, Eq)]
pub struct LibraryViewSummary {
    pub id: String,
    pub name: String,
    pub enabled: bool,
    pub destination_root: String,
    /// The source folders the view draws from; none means all of them.
    pub source_folders: Vec<String>,
    /// The platforms the view shows; none means all known ones.
    pub platforms: Vec<String>,
    /// The layout template's label.
    pub layout_label: String,
}

/// A line: the text and a newline.
pub open spec fn ln(t: Seq<char>) -> Seq<char> {
    t + "\n"@
}

/// `"<name> (<id>)"`.
pub open spec fn view_title(name: Seq<char>, id: Seq<char>) -> Seq<char> {
    name + " ("@ + id + ")"@
}

/// The source folders line's value.
pub open spec fn sources_value(v: Seq<String>) -> Seq<char> {
    if v.len() == 0 { "all configured sources"@ } else { spec_join(views(v), ", "@) }
}

/// The platforms line's value.
pub open spec fn platforms_value(v: Seq<String>) -> Seq<char> {
    if v.len() == 0 { "all known platforms"@ } else { spec_join(views(v), ", "@) }
}

/// One view's block, ending with a blank line.
pub open spec fn view_block(v: LibraryViewSummary) -> Seq<char> {
    ln(view_title(v.name@, v.id@))
        + ln("  Enabled:        "@ + if v.enabled { "yes"@ } else { "no"@ })
        + ln("  Destination:    "@ + v.destination_root@)
        + ln("  Source folders: "@ + sources_value(v.source_folders@))
        + ln("  Platforms:      "@ + platforms_value(v.platforms@))
        + ln("  Layout:         "@ + v.layout_label@)
        + ln(Seq::empty())
}

/// Every view's block.
pub open spec fn view_blocks(v: Seq<LibraryViewSummary>) -> Seq<char>
    decreases v.len(),
{
    if v.len() == 0 { Seq::empty() } else { view_blocks(v.drop_last()) + view_block(v.last()) }
}

/// The `library-view list` text.
pub open spec fn library_views_text(v: Seq<LibraryViewSummary>) -> Seq<char> {
    "EmuWiz Library Views\n\n"@ + if v.len() == 0 {
        "No library views are configured.\n"@
    } else {
        view_blocks(v)
    }
}

fn line(out: &mut String, t: &str)
    ensures
        final(out)@ == old(out)@ + ln(t@),
{
    push_str(out, t);
    push_str(out, "\n");
    proof {
        assert(final(out)@ =~= old(out)@ + ln(t@));
    }
}

fn push_title(out: &mut String, name: &str, id: &str)
    ensures
        final(out)@ == old(out)@ + view_title(name@, id@),
{
    let ghost start = out@;
    push_str(out, name);
    push_str(out, " (");
    push_str(out, id);
    push_str(out, ")");
    proof {
        assert(out@ =~= start + view_title(name@, id@));
    }
}

/// The first half of a view's block.
pub open spec fn view_block_head(v: LibraryViewSummary) -> Seq<char> {
    ln(view_title(v.name@, v.id@))
        + ln("  Enabled:        "@ + if v.enabled { "yes"@ } else { "no"@ })
        + ln("  Destination:    "@ + v.destination_root@)
}

/// The second half of a view's block.
pub open spec fn view_block_tail(v: LibraryViewSummary) -> Seq<char> {
    ln("  Source folders: "@ + sources_value(v.source_folders@))
        + ln("  Platforms:      "@ + platforms_value(v.platforms@))
        + ln("  Layout:         "@ + v.layout_label@)
        + ln(Seq::empty())
}

fn push_view_head(out: &mut String, v: &LibraryViewSummary)
    ensures
        final(out)@ == old(out)@ + view_block_head(*v),
{
    let ghost start = out@;
    push_title(out, v.name.as_str(), v.id.as_str());
    push_str(out, "\n");
    push_str(out, "  Enabled:        ");
    line(out, if v.enabled { "yes" } else { "no" });
    push_str(out, "  Destination:    ");
    line(out, v.destination_root.as_str());
    proof {
        assert(out@ =~= start + view_block_head(*v));
    }
}

fn push_listed(out: &mut String, items: &Vec<String>, none: &str)
    ensures
        final(out)@ == old(out)@ + ln(if items@.len() == 0 { none@ } else { spec_join(views(items@), ", "@) }),
{
    if items.len() == 0 {
        line(out, none);
    } else {
        let joined = join(items, ", ");
        line(out, joined.as_str());
    }
}

fn push_view_tail(out: &mut String, v: &LibraryViewSummary)
    ensures
        final(out)@ == old(out)@ + view_block_tail(*v),
{
    let ghost start = out@;
    proof {
        reveal_strlit("all configured sources");
        reveal_strlit("all known platforms");
    }
    push_str(out, "  Source folders: ");
    push_listed(out, &v.source_folders, "all configured sources");
    push_str(out, "  Platforms:      ");
    push_listed(out, &v.platforms, "all known platforms");
    push_str(out, "  Layout:         ");
    line(out, v.layout_label.as_str());
    push_str(out, "\n");
    proof {
        assert(ln(Seq::<char>::empty()) =~= "\n"@);
        assert(out@ =~= start + view_block_tail(*v));
    }
}

fn push_view_block(out: &mut String, v: &LibraryViewSummary)
    ensures
        final(out)@ == old(out)@ + view_block(*v),
{
    let ghost start = out@;
    push_view_head(out, v);
    push_view_tail(out, v);
    proof {
        assert(out@ =~= start + view_block(*v));
    }
}

/// The `library-view list` report: each configured view with whether it is
/// enabled, its destination, its sources, platforms and layout; or that
/// none is configured.
pub fn format_library_views(v: &Vec<LibraryViewSummary>) -> (r: String)
    ensures
        r@ == library_views_text(v@),
{
    let mut out = "EmuWiz Library Views\n\n".to_owned();
    if v.len() == 0 {
        push_str(&mut out, "No library views are configured.\n");
        return out;
    }
    let ghost head = out@;
    let mut k: usize = 0;
    while k < v.len()
        invariant
            k <= v@.len(),
            out@ == head + view_blocks(v@.take(k as int)),
        decreases v@.len() - k,
    {
        proof {
            assert(v@.take(k + 1).drop_last() =~= v@.take(k as int));
        }
        push_view_block(&mut out, &v[k]);
        k = k + 1;
    }
    proof {
        assert(v@.take(v@.len() as int) =~= v@);
    }
    out
}

/// How many links of each kind a preview would create, correct, repair,
/// remove, refuse for a collision, or skip.
#[derive(Debug, Clone, Copy, PartialEq, Eq, Structural)]
pub struct PlanCounts {
    pub create: u64,
    pub correct: u64,
    pub repair: u64,
    pub remove: u64,
    pub collision: u64,
    pub skip: u64,
}

/// One planned link.
#[derive(Debug, Clone, PartialEq, Eq)]
pub struct PlanEntryView {
    /// The planned action, by name.
    pub action: String,
    /// Whether the link is already as planned (such entries are not listed).
    pub already_correct: bool,
    pub destination_path: Option<String>,
    pub archive_path: Option<String>,
    pub reason: Option<String>,
}

/// A view's preview plan.
#[derive(Debug, Clone, PartialEq, Eq)]
pub struct LibraryViewPlanView {
    pub destination_root: String,
    pub unsafe_root_error: Option<String>,
    pub profile_error: Option<String>,
    pub fingerprint_conflict: Option<String>,
    pub counts: PlanCounts,
    pub entries: Vec<PlanEntryView>,
}

/// The path a planned link is listed under: its destination, else its
/// archive, else `?`.
pub open spec fn entry_path(e: PlanEntryView) -> Seq<char> {
    match e.destination_path {
        Some(d) => d@,
        None => match e.archive_path {
            Some(a) => a@,
            None => "?"@,
        },
    }
}

/// A listed link's line.
pub open spec fn entry_line(e: PlanEntryView) -> Seq<char> {
    ln("  ["@ + e.action@ + "] "@ + entry_path(e) + match e.reason {
        Some(r) => " - "@ + r@,
        None => Seq::empty(),
    })
}

/// The lines of the links that are not already correct, in order.
pub open spec fn detail_lines(v: Seq<PlanEntryView>) -> Seq<char>
    decreases v.len(),
{
    if v.len() == 0 {
        Seq::empty()
    } else {
        detail_lines(v.drop_last()) + if v.last().already_correct { Seq::empty() } else { entry_line(v.last()) }
    }
}

/// How many links are not already correct.
pub open spec fn shown_count(v: Seq<PlanEntryView>) -> nat
    decreases v.len(),
{
    if v.len() == 0 {
        0
    } else {
        shown_count(v.drop_last()) + if v.last().already_correct { 0nat } else { 1nat }
    }
}

/// The counts block.
pub open spec fn counts_text(c: PlanCounts) -> Seq<char> {
    ln("Create:    "@ + spec_decimal(c.create as nat))
        + ln("Correct:   "@ + spec_decimal(c.correct as nat))
        + ln("Repair:    "@ + spec_decimal(c.repair as nat))
        + ln("Remove:    "@ + spec_decimal(c.remove as nat))
        + ln("Collision: "@ + spec_decimal(c.collision as nat))
        + ln("Skip:      "@ + spec_decimal(c.skip as nat))
}

/// The `library-view preview` text: the view and its destination; then the
/// refusal when the destination is unsafe, the profile is unsupported or a
/// fingerprint conflicts (checked in that order); else the counts and the
/// links that are not already correct.
pub open spec fn plan_text(name: Seq<char>, id: Seq<char>, p: LibraryViewPlanView) -> Seq<char> {
    let head = ln("Library View: "@ + view_title(name, id)) + ln("Destination:  "@ + p.destination_root@);
    match p.unsafe_root_error {
        Some(e) => head + "\n"@ + ln("UNSAFE - Apply is refused: "@ + e@),
        None => match p.profile_error {
            Some(e) => head + "\n"@ + ln("UNSUPPORTED PROFILE - Apply is refused: "@ + e@),
            None => match p.fingerprint_conflict {
                Some(e) => head + "\n"@ + ln("REVIEW NEEDED - Apply is refused: "@ + e@),
                None => head + "\n"@ + counts_text(p.counts) + if shown_count(p.entries@) == 0 {
                    Seq::empty()
                } else {
                    "\nDetails:\n"@ + detail_lines(p.entries@)
                },
            },
        },
    }
}

fn push_counts(out: &mut String, c: PlanCounts)
    ensures
        final(out)@ == old(out)@ + counts_text(c),
{
    let ghost start = out@;
    push_str(out, "Create:    ");
    line(out, decimal(c.create).as_str());
    push_str(out, "Correct:   ");
    line(out, decimal(c.correct).as_str());
    push_str(out, "Repair:    ");
    line(out, decimal(c.repair).as_str());
    push_str(out, "Remove:    ");
    line(out, decimal(c.remove).as_str());
    push_str(out, "Collision: ");
    line(out, decimal(c.collision).as_str());
    push_str(out, "Skip:      ");
    line(out, decimal(c.skip).as_str());
    proof {
        assert(out@ =~= start + counts_text(c));
    }
}

fn push_entry_line(out: &mut String, e: &PlanEntryView)
    ensures
        final(out)@ == old(out)@ + entry_line(*e),
{
    let ghost start = out@;
    push_str(out, "  [");
    push_str(out, e.action.as_str());
    push_str(out, "] ");
    match &e.destination_path {
        Some(d) => push_str(out, d.as_str()),
        None => match &e.archive_path {
            Some(a) => push_str(out, a.as_str()),
            None => push_str(out, "?"),
        },
    }
    match &e.reason {
        Some(r) => {
            push_str(out, " - ");
            push_str(out, r.as_str());
        },
        None => {},
    }
    push_str(out, "\n");
    proof {
        assert(out@ =~= start + entry_line(*e));
    }
}

/// The `library-view preview` report of the view `name` (`id`).
pub fn format_library_view_plan(name: &str, id: &str, plan: &LibraryViewPlanView) -> (r: String)
    ensures
        r@ == plan_text(name@, id@, *plan),
{
    let mut out = "Library View: ".to_owned();
    push_title(&mut out, name, id);
    push_str(&mut out, "\n");
    push_str(&mut out, "Destination:  ");
    line(&mut out, plan.destination_root.as_str());
    let ghost head = out@;
    proof {
        assert(head =~= ln("Library View: "@ + view_title(name@, id@)) + ln("Destination:  "@ + plan.destination_root@));
    }
    push_str(&mut out, "\n");
    if let Some(e) = &plan.unsafe_root_error {
        push_str(&mut out, "UNSAFE - Apply is refused: ");
        line(&mut out, e.as_str());
        proof {
            assert(out@ =~= plan_text(name@, id@, *plan));
        }
        return out;
    }
    if let Some(e) = &plan.profile_error {
        push_str(&mut out, "UNSUPPORTED PROFILE - Apply is refused: ");
        line(&mut out, e.as_str());
        proof {
            assert(out@ =~= plan_text(name@, id@, *plan));
        }
        return out;
    }
    if let Some(e) = &plan.fingerprint_conflict {
        push_str(&mut out, "REVIEW NEEDED - Apply is refused: ");
        line(&mut out, e.as_str());
        proof {
            assert(out@ =~= plan_text(name@, id@, *plan));
        }
        return out;
    }
    push_counts(&mut out, plan.counts);
    let ghost before = out@;
    let mut details = String::new();
    let mut any = false;
    let v = &plan.entries;
    let mut k: usize = 0;
    while k < v.len()
        invariant
            k <= v@.len(),
            details@ == detail_lines(v@.take(k as int)),
            any == (shown_count(v@.take(k as int)) > 0),
        decreases v@.len() - k,
    {
        proof {
            assert(v@.take(k + 1).drop_last() =~= v@.take(k as int));
        }
        if !v[k].already_correct {
            push_entry_line(&mut details, &v[k]);
            any = true;
        }
        proof {
            assert(details@ =~= detail_lines(v@.take(k + 1)));
        }
        k = k + 1;
    }
    proof {
        assert(v@.take(v@.len() as int) =~= v@);
    }
    if any {
        push_str(&mut out, "\nDetails:\n");
        push_str(&mut out, details.as_str());
    }
    proof {
        assert(out@ =~= plan_text(name@, id@, *plan));
    }
    out
}

/// One link an apply or a removal handled.
#[derive(Debug, Clone, PartialEq, Eq)]
pub struct ApplyResultView {
    pub relative_link_path: String,
    /// Whether handling the link failed.
    pub failed: bool,
    /// Whether the link was left as it was (it changed since the last apply).
    pub left_unchanged: bool,
    pub error: Option<String>,
}

/// What an apply, a repair or a removal did.
#[derive(Debug, Clone, PartialEq, Eq)]
pub struct ApplyReportView {
    pub created: u64,
    pub repaired: u64,
    pub removed: u64,
    pub unchanged: u64,
    pub failed: u64,
    pub results: Vec<ApplyResultView>,
}

/// The failure lines: each failed link with its error.
pub open spec fn failure_lines(v: Seq<ApplyResultView>) -> Seq<char>
    decreases v.len(),
{
    if v.len() == 0 {
        Seq::empty()
    } else {
        failure_lines(v.drop_last()) + if v.last().failed {
            ln("  "@ + v.last().relative_link_path@ + " - "@ + match v.last().error {
                Some(e) => e@,
                None => "unknown error"@,
            })
        } else {
            Seq::empty()
        }
    }
}

/// The `library-view apply` (or repair) text; `verb` names what was done.
pub open spec fn apply_text(name: Seq<char>, id: Seq<char>, r: ApplyReportView, verb: Seq<char>) -> Seq<char> {
    ln("Library View: "@ + view_title(name, id))
        + ln(verb + " complete:"@)
        + ln("  Created:   "@ + spec_decimal(r.created as nat))
        + ln("  Repaired:  "@ + spec_decimal(r.repaired as nat))
        + ln("  Removed:   "@ + spec_decimal(r.removed as nat))
        + ln("  Unchanged: "@ + spec_decimal(r.unchanged as nat))
        + ln("  Failed:    "@ + spec_decimal(r.failed as nat))
        + if r.failed > 0 { "\nFailures:\n"@ + failure_lines(r.results@) } else { Seq::empty() }
}

fn push_apply_counts(out: &mut String, r: &ApplyReportView)
    ensures
        final(out)@ == old(out)@
            + ln("  Created:   "@ + spec_decimal(r.created as nat))
            + ln("  Repaired:  "@ + spec_decimal(r.repaired as nat))
            + ln("  Removed:   "@ + spec_decimal(r.removed as nat))
            + ln("  Unchanged: "@ + spec_decimal(r.unchanged as nat))
            + ln("  Failed:    "@ + spec_decimal(r.failed as nat)),
{
    let ghost start = out@;
    push_str(out, "  Created:   ");
    line(out, decimal(r.created).as_str());
    push_str(out, "  Repaired:  ");
    line(out, decimal(r.repaired).as_str());
    push_str(out, "  Removed:   ");
    line(out, decimal(r.removed).as_str());
    push_str(out, "  Unchanged: ");
    line(out, decimal(r.unchanged).as_str());
    push_str(out, "  Failed:    ");
    line(out, decimal(r.failed).as_str());
    proof {
        assert(out@ =~= start
            + ln("  Created:   "@ + spec_decimal(r.created as nat))
            + ln("  Repaired:  "@ + spec_decimal(r.repaired as nat))
            + ln("  Removed:   "@ + spec_decimal(r.removed as nat))
            + ln("  Unchanged: "@ + spec_decimal(r.unchanged as nat))
            + ln("  Failed:    "@ + spec_decimal(r.failed as nat)));
    }
}

fn push_failures(out: &mut String, v: &Vec<ApplyResultView>)
    ensures
        final(out)@ == old(out)@ + failure_lines(v@),
{
    let ghost start = out@;
    let mut k: usize = 0;
    while k < v.len()
        invariant
            k <= v@.len(),
            out@ == start + failure_lines(v@.take(k as int)),
        decreases v@.len() - k,
    {
        proof {
            assert(v@.take(k + 1).drop_last() =~= v@.take(k as int));
        }
        let ghost before = out@;
        if v[k].failed {
            push_str(out, "  ");
            push_str(out, v[k].relative_link_path.as_str());
            push_str(out, " - ");
            match &v[k].error {
                Some(e) => line(out, e.as_str()),
                None => line(out, "unknown error"),
            }
        }
        proof {
            assert(out@ =~= start + failure_lines(v@.take(k + 1)));
        }
        k = k + 1;
    }
    proof {
        assert(v@.take(v@.len() as int) =~= v@);
    }
}

/// The report of applying (or repairing) the view `name` (`id`): the counts,
/// then each failed link when any failed.
pub fn format_library_view_apply_report(name: &str, id: &str, report: &ApplyReportView, verb: &str) -> (r: String)
    ensures
        r@ == apply_text(name@, id@, *report, verb@),
{
    let mut out = "Library View: ".to_owned();
    push_title(&mut out, name, id);
    push_str(&mut out, "\n");
    push_str(&mut out, verb);
    line(&mut out, " complete:");
    push_apply_counts(&mut out, report);
    if report.failed > 0 {
        push_str(&mut out, "\nFailures:\n");
        push_failures(&mut out, &report.results);
    }
    proof {
        assert(out@ =~= apply_text(name@, id@, *report, verb@));
    }
    out
}

/// The lines of the links left untouched.
pub open spec fn untouched_lines(v: Seq<ApplyResultView>) -> Seq<char>
    decreases v.len(),
{
    if v.len() == 0 {
        Seq::empty()
    } else {
        untouched_lines(v.drop_last()) + if v.last().left_unchanged {
            ln("  "@ + v.last().relative_link_path@)
        } else {
            Seq::empty()
        }
    }
}

/// How many links were left untouched.
pub open spec fn untouched_count(v: Seq<ApplyResultView>) -> nat
    decreases v.len(),
{
    if v.len() == 0 {
        0
    } else {
        untouched_count(v.drop_last()) + if v.last().left_unchanged { 1nat } else { 0nat }
    }
}

/// The `library-view remove` text: how many symlinks were removed, that no
/// archive was deleted, whether the definition was kept, and the links left
/// untouched.
pub open spec fn remove_text(name: Seq<char>, id: Seq<char>, r: ApplyReportView, kept_definition: bool) -> Seq<char> {
    ln("Library View: "@ + view_title(name, id))
        + ln("Removed "@ + spec_decimal(r.removed as nat) + " managed symlink(s)."@)
        + "EmuWiz did not delete any original archive files.\n"@
        + if kept_definition {
            "The view definition was kept - Preview/Apply will recreate its symlinks.\n"@
        } else {
            "The view definition was also removed from configuration.\n"@
        }
        + if untouched_count(r.results@) > 0 {
            "\nLeft untouched (changed since the last apply):\n"@ + untouched_lines(r.results@)
        } else {
            Seq::empty()
        }
}

/// The report of removing the view `name` (`id`)'s symlinks.
pub fn format_library_view_remove_report(name: &str, id: &str, report: &ApplyReportView, kept_definition: bool) -> (r: String)
    ensures
        r@ == remove_text(name@, id@, *report, kept_definition),
{
    let mut out = "Library View: ".to_owned();
    push_title(&mut out, name, id);
    push_str(&mut out, "\n");
    push_str(&mut out, "Removed ");
    push_str(&mut out, decimal(report.removed).as_str());
    line(&mut out, " managed symlink(s).");
    push_str(&mut out, "EmuWiz did not delete any original archive files.\n");
    if kept_definition {
        push_str(&mut out, "The view definition was kept - Preview/Apply will recreate its symlinks.\n");
    } else {
        push_str(&mut out, "The view definition was also removed from configuration.\n");
    }
    let ghost head = out@;
    let v = &report.results;
    let mut untouched = String::new();
    let mut any = false;
    let mut k: usize = 0;
    while k < v.len()
        invariant
            k <= v@.len(),
            untouched@ == untouched_lines(v@.take(k as int)),
            any == (untouched_count(v@.take(k as int)) > 0),
        decreases v@.len() - k,
    {
        proof {
            assert(v@.take(k + 1).drop_last() =~= v@.take(k as int));
        }
        if v[k].left_unchanged {
            push_str(&mut untouched, "  ");
            line(&mut untouched, v[k].relative_link_path.as_str());
            any = true;
        }
        proof {
            assert(untouched@ =~= untouched_lines(v@.take(k + 1)));
        }
        k = k + 1;
    }
    proof {
        assert(v@.take(v@.len() as int) =~= v@);
    }
    if any {
        push_str(&mut out, "\nLeft untouched (changed since the last apply):\n");
        push_str(&mut out, untouched.as_str());
    }
    proof {
        assert(out@ =~= remove_text(name@, id@, *report, kept_definition));
    }
    out
}

} // verus!
