//! `cheats reconcile`: the arguments of the read-only cross-source cheat
//! reconciliation report, the relationship filter, and the report's text.
//!
//! The core service decides identity and relationship safety; what is here
//! validates the command line and presents the groups it found.
use vstd::prelude::*;
use crate::args::{err_view, position, requires_value, spec_take_flag, spec_take_value, take_flag};
use crate::text::{ascii_lower, concat, debug_list, debug_str, decimal, indented_lines, lowercase_ascii,
    push_indented_lines, push_str, same, spec_debug_list, spec_decimal, str_debug, views};

verus! {

/// How the cheats of one reconciliation group relate to each other.
#[derive(Debug, Clone, Copy, PartialEq, Eq, Structural)]
pub enum Relationship {
    ExactSemanticDuplicate,
    ExactRawDuplicate,
    SameTitleDifferentCode,
    RelatedUnproven,
    Unique,
}

/// The input file may hold at most this many bytes (16 MiB).
pub const MAX_INPUT_BYTES: usize = 16777216;

/// Removes the first `flag` and the value after it, handing back the value:
/// an error when the flag is the last argument.
pub fn take_named(args: &mut Vec<String>, flag: &str) -> (r: Result<Option<String>, String>)
    ensures
        err_view(r) == spec_take_value(old(args)@, flag@).0,
        r is Ok ==> final(args)@ == spec_take_value(old(args)@, flag@).1,
{
    let f = flag.to_owned();
    match position(args, &f) {
        None => Ok(None),
        Some(i) => {
            let ghost s = args@;
            args.remove(i);
            if i >= args.len() {
                Err(requires_value(flag))
            } else {
                let v = args.remove(i);
                proof {
                    assert(args@ =~= s.subrange(0, i as int) + s.subrange(i + 2, s.len() as int));
                }
                Ok(Some(v))
            }
        },
    }
}

/// The spelling of a relationship as the filter and the JSON report name it.
pub open spec fn spec_relationship_name(r: Relationship) -> Seq<char> {
    match r {
        Relationship::ExactSemanticDuplicate => "ExactSemanticDuplicate"@,
        Relationship::ExactRawDuplicate => "ExactRawDuplicate"@,
        Relationship::SameTitleDifferentCode => "SameTitleDifferentCode"@,
        Relationship::RelatedUnproven => "RelatedUnproven"@,
        Relationship::Unique => "Unique"@,
    }
}

/// The relationship's name in the JSON report.
pub fn relationship_name(value: Relationship) -> (r: &'static str)
    ensures
        r@ == spec_relationship_name(value),
{
    match value {
        Relationship::ExactSemanticDuplicate => "ExactSemanticDuplicate",
        Relationship::ExactRawDuplicate => "ExactRawDuplicate",
        Relationship::SameTitleDifferentCode => "SameTitleDifferentCode",
        Relationship::RelatedUnproven => "RelatedUnproven",
        Relationship::Unique => "Unique",
    }
}

/// How a relationship reads in the text report.
pub open spec fn spec_relationship_label(r: Relationship) -> Seq<char> {
    match r {
        Relationship::ExactSemanticDuplicate => "Exact semantic duplicate"@,
        Relationship::ExactRawDuplicate => "Exact raw duplicate"@,
        Relationship::SameTitleDifferentCode => "Conflict: same title, different code"@,
        Relationship::RelatedUnproven => "Related, unproven"@,
        Relationship::Unique => "Unique"@,
    }
}

/// The relationship's label in the text report.
pub fn relationship_label(relationship: Relationship) -> (r: &'static str)
    ensures
        r@ == spec_relationship_label(relationship),
{
    match relationship {
        Relationship::ExactSemanticDuplicate => "Exact semantic duplicate",
        Relationship::ExactRawDuplicate => "Exact raw duplicate",
        Relationship::SameTitleDifferentCode => "Conflict: same title, different code",
        Relationship::RelatedUnproven => "Related, unproven",
        Relationship::Unique => "Unique",
    }
}

/// The relationship a `--relationship` value names, compared after ASCII
/// lower-casing; none when it names no relationship.
pub open spec fn relationship_named(lower: Seq<char>) -> Option<Relationship> {
    if lower == "duplicates"@ || lower == "exact"@ || lower == "exact-semantic-duplicate"@ {
        Some(Relationship::ExactSemanticDuplicate)
    } else if lower == "raw-duplicates"@ || lower == "exact-raw-duplicate"@ {
        Some(Relationship::ExactRawDuplicate)
    } else if lower == "conflicts"@ || lower == "same-title-different-code"@ {
        Some(Relationship::SameTitleDifferentCode)
    } else if lower == "related"@ || lower == "related-unproven"@ {
        Some(Relationship::RelatedUnproven)
    } else if lower == "unique"@ {
        Some(Relationship::Unique)
    } else {
        None
    }
}

/// The refusal for a `--relationship` value that names no relationship.
pub open spec fn unknown_relationship_message(value: Seq<char>) -> Seq<char> {
    "unknown relationship "@ + str_debug(value) + "; expected duplicates, conflicts, related, or unique"@
}

/// Parses a `--relationship` filter value, ignoring ASCII case.
pub fn parse_relationship(value: &str) -> (r: Result<Relationship, String>)
    ensures
        match relationship_named(value@.map_values(|c: char| ascii_lower(c))) {
            Some(rel) => r == Ok::<Relationship, String>(rel),
            None => r matches Err(m) && m@ == unknown_relationship_message(value@),
        },
{
    let lower = lowercase_ascii(value);
    if same(&lower, "duplicates") || same(&lower, "exact") || same(&lower, "exact-semantic-duplicate") {
        Ok(Relationship::ExactSemanticDuplicate)
    } else if same(&lower, "raw-duplicates") || same(&lower, "exact-raw-duplicate") {
        Ok(Relationship::ExactRawDuplicate)
    } else if same(&lower, "conflicts") || same(&lower, "same-title-different-code") {
        Ok(Relationship::SameTitleDifferentCode)
    } else if same(&lower, "related") || same(&lower, "related-unproven") {
        Ok(Relationship::RelatedUnproven)
    } else if same(&lower, "unique") {
        Ok(Relationship::Unique)
    } else {
        let mut m = concat("unknown relationship ", debug_str(value).as_str());
        push_str(&mut m, "; expected duplicates, conflicts, related, or unique");
        Err(m)
    }
}

/// What `cheats reconcile` was asked to do.
#[derive(Debug, Clone, PartialEq, Eq)]
pub struct ReconcileRequest {
    pub json: bool,
    /// The `--relationship` filter as given; it is parsed once the report
    /// is ready.
    pub relationship: Option<String>,
    /// The path of the JSON file of reconciliation entries.
    pub input: String,
}

/// Every argument left reads exactly `input`.
pub open spec fn all_are(s: Seq<String>, input: Seq<char>) -> bool {
    forall|k: int| 0 <= k < s.len() ==> #[trigger] s[k]@ == input
}

/// The request the arguments make: `--json` and `--relationship <v>` are
/// taken first, then `--input <path>`; without `--input` the first argument
/// left is the input, and every argument left must be that same path.
pub open spec fn spec_reconcile_run(s: Seq<String>) -> Result<ReconcileRequest, Seq<char>> {
    let (json, s1) = spec_take_flag(s, "--json"@);
    let (rel, s2) = spec_take_value(s1, "--relationship"@);
    let (inp, s3) = spec_take_value(s2, "--input"@);
    match (rel, inp) {
        (Err(m), _) => Err(m),
        (_, Err(m)) => Err(m),
        (Ok(relationship), Ok(given)) => {
            let input = match given {
                Some(v) => Some(v),
                None => if s3.len() > 0 { Some(s3[0]) } else { None },
            };
            match input {
                None => Err("cheats reconcile requires <entries.json> (or --input <path>)"@),
                Some(input) => if !all_are(s3, input@) {
                    Err("cheats reconcile does not accept "@ + spec_debug_list(s3))
                } else {
                    Ok(ReconcileRequest { json, relationship, input })
                },
            }
        },
    }
}

fn all_match(args: &Vec<String>, input: &String) -> (r: bool)
    ensures
        r == all_are(args@, input@),
{
    let mut k: usize = 0;
    while k < args.len()
        invariant
            k <= args@.len(),
            forall|j: int| 0 <= j < k ==> #[trigger] args@[j]@ == input@,
        decreases args@.len() - k,
    {
        if !(args[k] == *input) {
            proof {
                assert(!all_are(args@, input@)) by {
                    assert(args@[k as int]@ != input@);
                }
            }
            return false;
        }
        k = k + 1;
    }
    true
}

/// `cheats reconcile [--json] [--relationship <kind>] (<entries.json> |
/// --input <path>)`: the request, or the message the command fails with
/// before the input is read.
pub fn run(args: Vec<String>) -> (r: Result<ReconcileRequest, String>)
    ensures
        err_view(r) == spec_reconcile_run(args@),
{
    let mut args = args;
    let json = take_flag(&mut args, "--json");
    let relationship = take_named(&mut args, "--relationship")?;
    let given = take_named(&mut args, "--input")?;
    let input = match given {
        Some(v) => v,
        None => {
            if args.len() == 0 {
                return Err("cheats reconcile requires <entries.json> (or --input <path>)".to_owned());
            }
            args[0].clone()
        },
    };
    if !all_match(&args, &input) {
        let shown = debug_list(&args);
        return Err(concat("cheats reconcile does not accept ", shown.as_str()));
    }
    Ok(ReconcileRequest { json, relationship, input })
}

/// The refusal for an input file larger than `MAX_INPUT_BYTES`.
pub open spec fn too_large_message() -> Seq<char> {
    "reconciliation input exceeds the 16 MiB bound"@
}

/// Checks the size of the input file before it is parsed.
pub fn check_input_size(len: usize) -> (r: Result<(), String>)
    ensures
        len <= MAX_INPUT_BYTES ==> r is Ok,
        len > MAX_INPUT_BYTES ==> (r matches Err(m) && m@ == too_large_message()),
{
    if len > MAX_INPUT_BYTES {
        Err("reconciliation input exceeds the 16 MiB bound".to_owned())
    } else {
        Ok(())
    }
}

/// One reconciliation entry, as the report shows it.
#[derive(Debug, Clone, PartialEq, Eq)]
pub struct ReconcileEntry {
    pub title: String,
    pub source: String,
    pub provenance: Vec<String>,
}

/// One group of related entries, by their positions in the entry list.
#[derive(Debug, Clone, PartialEq, Eq)]
pub struct ReconcileGroup {
    pub relationship: Relationship,
    pub normalized_title: String,
    pub entry_indices: Vec<usize>,
    pub differences: Vec<String>,
}

/// How many groups have relationship `rel`.
pub open spec fn count_of(groups: Seq<ReconcileGroup>, rel: Relationship) -> nat
    decreases groups.len(),
{
    if groups.len() == 0 {
        0
    } else {
        count_of(groups.drop_last(), rel) + if groups.last().relationship == rel { 1nat } else { 0nat }
    }
}

/// Whether a group passes the filter.
pub open spec fn shown(g: ReconcileGroup, filter: Option<Relationship>) -> bool {
    match filter {
        None => true,
        Some(rel) => g.relationship == rel,
    }
}

/// A group's heading: the title of its first entry, or its normalised title
/// when that entry is not in the list.
pub open spec fn group_title(g: ReconcileGroup, entries: Seq<ReconcileEntry>) -> Seq<char> {
    let i = g.entry_indices@[0];
    if i < entries.len() { entries[i as int].title@ } else { g.normalized_title@ }
}

/// The source lines of the entries at `indices`; positions outside the
/// entry list are passed over.
pub open spec fn sources_text(indices: Seq<usize>, entries: Seq<ReconcileEntry>) -> Seq<char>
    decreases indices.len(),
{
    if indices.len() == 0 {
        Seq::empty()
    } else {
        let i = indices.last();
        sources_text(indices.drop_last(), entries) + if i < entries.len() {
            "    - "@ + entries[i as int].source@ + "\n"@ + indented_lines(views(entries[i as int].provenance@), "      "@)
        } else {
            Seq::empty()
        }
    }
}

/// The text of one group.
pub open spec fn group_text(g: ReconcileGroup, entries: Seq<ReconcileEntry>) -> Seq<char> {
    "\n"@ + group_title(g, entries) + "\n"@ + "  "@ + spec_relationship_label(g.relationship) + "\n"@
        + indented_lines(views(g.differences@), "  Difference: "@) + "  Sources:\n"@ + sources_text(g.entry_indices@, entries)
}

/// The text of the groups that pass the filter, in order.
pub open spec fn groups_text(groups: Seq<ReconcileGroup>, entries: Seq<ReconcileEntry>, filter: Option<Relationship>) -> Seq<char>
    decreases groups.len(),
{
    if groups.len() == 0 {
        Seq::empty()
    } else {
        groups_text(groups.drop_last(), entries, filter)
            + if shown(groups.last(), filter) { group_text(groups.last(), entries) } else { Seq::empty() }
    }
}

/// The report's head: the game, the platform, and the count of groups of
/// each kind over all groups (the filter does not change the counts).
pub open spec fn report_head(game: Seq<char>, platform: Seq<char>, groups: Seq<ReconcileGroup>) -> Seq<char> {
    "Game: "@ + game + "\n"@ + "Platform: "@ + platform + "\n"@ + "\n"@
        + "Exact duplicates: "@ + spec_decimal(count_of(groups, Relationship::ExactSemanticDuplicate)
            + count_of(groups, Relationship::ExactRawDuplicate)) + " groups\n"@
        + "Conflicts: "@ + spec_decimal(count_of(groups, Relationship::SameTitleDifferentCode)) + "\n"@
        + "Related/unproven: "@ + spec_decimal(count_of(groups, Relationship::RelatedUnproven)) + "\n"@
        + "Unique: "@ + spec_decimal(count_of(groups, Relationship::Unique)) + "\n"@
        + "\n"@ + "No auto-winner.\n"@
}

/// The whole text report.
pub open spec fn reconcile_report(game: Seq<char>, platform: Seq<char>, entries: Seq<ReconcileEntry>,
    groups: Seq<ReconcileGroup>, filter: Option<Relationship>) -> Seq<char> {
    report_head(game, platform, groups) + groups_text(groups, entries, filter)
}

/// Every group the filter shows names at least one entry.
pub open spec fn shown_groups_name_entries(groups: Seq<ReconcileGroup>, filter: Option<Relationship>) -> bool {
    forall|k: int| 0 <= k < groups.len() && shown(#[trigger] groups[k], filter) ==> groups[k].entry_indices@.len() > 0
}

/// The groups of each kind together are all the groups.
pub proof fn lemma_counts_cover_groups(groups: Seq<ReconcileGroup>)
    ensures
        count_of(groups, Relationship::ExactSemanticDuplicate) + count_of(groups, Relationship::ExactRawDuplicate)
            + count_of(groups, Relationship::SameTitleDifferentCode) + count_of(groups, Relationship::RelatedUnproven)
            + count_of(groups, Relationship::Unique) == groups.len(),
    decreases groups.len(),
{
    if groups.len() > 0 {
        lemma_counts_cover_groups(groups.drop_last());
    }
}

proof fn lemma_count_is_filter(groups: Seq<ReconcileGroup>, rel: Relationship, pred: spec_fn(ReconcileGroup) -> bool)
    requires
        forall|g: ReconcileGroup| #[trigger] pred(g) == (g.relationship == rel),
    ensures
        count_of(groups, rel) == groups.filter(pred).len(),
    decreases groups.len(),
{
    if groups.len() > 0 {
        lemma_count_is_filter(groups.drop_last(), rel, pred);
        assert(groups.drop_last().push(groups.last()) =~= groups);
        groups.drop_last().lemma_filter_push(groups.last(), pred);
    }
}

/// Each count in the report's head is the number of groups of that kind,
/// taken over all groups whatever the filter: exact duplicates are the
/// semantic and raw duplicate groups together, conflicts the groups with the
/// same title and different code, related/unproven the related groups, and
/// unique the unique ones.
pub proof fn lemma_report_counts_groups(game: Seq<char>, platform: Seq<char>, entries: Seq<ReconcileEntry>,
    groups: Seq<ReconcileGroup>, filter: Option<Relationship>)
    ensures
        reconcile_report(game, platform, entries, groups, filter) == "Game: "@ + game + "\n"@ + "Platform: "@ + platform
            + "\n"@ + "\n"@
            + "Exact duplicates: "@ + spec_decimal(
                groups.filter(|g: ReconcileGroup| g.relationship == Relationship::ExactSemanticDuplicate).len()
                + groups.filter(|g: ReconcileGroup| g.relationship == Relationship::ExactRawDuplicate).len()) + " groups\n"@
            + "Conflicts: "@ + spec_decimal(
                groups.filter(|g: ReconcileGroup| g.relationship == Relationship::SameTitleDifferentCode).len()) + "\n"@
            + "Related/unproven: "@ + spec_decimal(
                groups.filter(|g: ReconcileGroup| g.relationship == Relationship::RelatedUnproven).len()) + "\n"@
            + "Unique: "@ + spec_decimal(groups.filter(|g: ReconcileGroup| g.relationship == Relationship::Unique).len())
            + "\n"@ + "\n"@ + "No auto-winner.\n"@ + groups_text(groups, entries, filter),
{
    lemma_count_is_filter(groups, Relationship::ExactSemanticDuplicate,
        |g: ReconcileGroup| g.relationship == Relationship::ExactSemanticDuplicate);
    lemma_count_is_filter(groups, Relationship::ExactRawDuplicate,
        |g: ReconcileGroup| g.relationship == Relationship::ExactRawDuplicate);
    lemma_count_is_filter(groups, Relationship::SameTitleDifferentCode,
        |g: ReconcileGroup| g.relationship == Relationship::SameTitleDifferentCode);
    lemma_count_is_filter(groups, Relationship::RelatedUnproven,
        |g: ReconcileGroup| g.relationship == Relationship::RelatedUnproven);
    lemma_count_is_filter(groups, Relationship::Unique, |g: ReconcileGroup| g.relationship == Relationship::Unique);
}

fn push_sources(out: &mut String, indices: &Vec<usize>, entries: &Vec<ReconcileEntry>)
    ensures
        final(out)@ == old(out)@ + sources_text(indices@, entries@),
{
    let ghost start = out@;
    let mut k: usize = 0;
    while k < indices.len()
        invariant
            k <= indices@.len(),
            out@ == start + sources_text(indices@.take(k as int), entries@),
        decreases indices@.len() - k,
    {
        proof {
            assert(indices@.take(k + 1).drop_last() =~= indices@.take(k as int));
        }
        let i = indices[k];
        if i < entries.len() {
            let ghost before = out@;
            push_str(out, "    - ");
            push_str(out, entries[i].source.as_str());
            push_str(out, "\n");
            push_indented_lines(out, &entries[i].provenance, "      ");
            proof {
                let e = entries@[i as int];
                assert(out@ =~= before + ("    - "@ + e.source@ + "\n"@ + indented_lines(views(e.provenance@), "      "@)));
            }
        } else {
            proof {
                assert(out@ =~= out@ + Seq::<char>::empty());
            }
        }
        k = k + 1;
    }
    proof {
        assert(indices@.take(indices@.len() as int) =~= indices@);
    }
}

fn push_group(out: &mut String, group: &ReconcileGroup, entries: &Vec<ReconcileEntry>)
    requires
        group.entry_indices@.len() > 0,
    ensures
        final(out)@ == old(out)@ + group_text(*group, entries@),
{
    let first = group.entry_indices[0];
    push_str(out, "\n");
    if first < entries.len() {
        push_str(out, entries[first].title.as_str());
    } else {
        push_str(out, group.normalized_title.as_str());
    }
    push_str(out, "\n");
    push_str(out, "  ");
    push_str(out, relationship_label(group.relationship));
    push_str(out, "\n");
    push_indented_lines(out, &group.differences, "  Difference: ");
    push_str(out, "  Sources:\n");
    push_sources(out, &group.entry_indices, entries);
    proof {
        assert(final(out)@ =~= old(out)@ + group_text(*group, entries@));
    }
}

/// The text report of a reconciliation: the counts of each kind of group
/// over all groups, then each group the filter shows with its sources.
pub fn format_reconcile_report(game_identity: &str, platform: &str, entries: &Vec<ReconcileEntry>,
    groups: &Vec<ReconcileGroup>, filter: Option<Relationship>) -> (r: String)
    requires
        shown_groups_name_entries(groups@, filter),
    ensures
        r@ == reconcile_report(game_identity@, platform@, entries@, groups@, filter),
{
    let mut semantic: u64 = 0;
    let mut raw: u64 = 0;
    let mut conflicts: u64 = 0;
    let mut related: u64 = 0;
    let mut unique: u64 = 0;
    let mut k: usize = 0;
    while k < groups.len()
        invariant
            k <= groups@.len(),
            semantic == count_of(groups@.take(k as int), Relationship::ExactSemanticDuplicate),
            raw == count_of(groups@.take(k as int), Relationship::ExactRawDuplicate),
            conflicts == count_of(groups@.take(k as int), Relationship::SameTitleDifferentCode),
            related == count_of(groups@.take(k as int), Relationship::RelatedUnproven),
            unique == count_of(groups@.take(k as int), Relationship::Unique),
            semantic + raw + conflicts + related + unique == k,
        decreases groups@.len() - k,
    {
        proof {
            assert(groups@.take(k + 1).drop_last() =~= groups@.take(k as int));
        }
        match groups[k].relationship {
            Relationship::ExactSemanticDuplicate => semantic = semantic + 1,
            Relationship::ExactRawDuplicate => raw = raw + 1,
            Relationship::SameTitleDifferentCode => conflicts = conflicts + 1,
            Relationship::RelatedUnproven => related = related + 1,
            Relationship::Unique => unique = unique + 1,
        }
        k = k + 1;
    }
    proof {
        assert(groups@.take(groups@.len() as int) =~= groups@);
    }
    let mut out = concat("Game: ", game_identity);
    push_str(&mut out, "\n");
    push_str(&mut out, "Platform: ");
    push_str(&mut out, platform);
    push_str(&mut out, "\n");
    push_str(&mut out, "\n");
    push_str(&mut out, "Exact duplicates: ");
    push_str(&mut out, decimal(semantic + raw).as_str());
    push_str(&mut out, " groups\n");
    push_str(&mut out, "Conflicts: ");
    push_str(&mut out, decimal(conflicts).as_str());
    push_str(&mut out, "\n");
    push_str(&mut out, "Related/unproven: ");
    push_str(&mut out, decimal(related).as_str());
    push_str(&mut out, "\n");
    push_str(&mut out, "Unique: ");
    push_str(&mut out, decimal(unique).as_str());
    push_str(&mut out, "\n");
    push_str(&mut out, "\n");
    push_str(&mut out, "No auto-winner.\n");
    proof {
        assert(out@ =~= report_head(game_identity@, platform@, groups@));
    }
    let ghost head = out@;
    let mut g: usize = 0;
    while g < groups.len()
        invariant
            g <= groups@.len(),
            shown_groups_name_entries(groups@, filter),
            out@ == head + groups_text(groups@.take(g as int), entries@, filter),
        decreases groups@.len() - g,
    {
        proof {
            assert(groups@.take(g + 1).drop_last() =~= groups@.take(g as int));
        }
        let show = match filter {
            None => true,
            Some(rel) => groups[g].relationship == rel,
        };
        let ghost before = out@;
        if show {
            push_group(&mut out, &groups[g], entries);
        }
        proof {
            assert(out@ =~= before + if shown(groups@[g as int], filter) { group_text(groups@[g as int], entries@) } else { Seq::empty() });
            assert(out@ =~= head + groups_text(groups@.take(g + 1), entries@, filter));
        }
        g = g + 1;
    }
    proof {
        assert(groups@.take(groups@.len() as int) =~= groups@);
    }
    out
}

} // verus!
