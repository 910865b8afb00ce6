//! `repair <scan|plan|apply|history|rollback>`: argument handling, the
//! source id derived from a DAT path, and how a journaled transaction is
//! classified.
//!
//! Scanning, planning, applying and rolling back are done by the repair
//! engine; the functions here decide what is asked of it.
use vstd::prelude::*;
use crate::args::{collect_pairs, err_view, extract_flag, occurs, spec_unique_value, take_repeated_string_values, take_unique_flag_value, without, requires_value_message};
use crate::number::{parse_u64, parse_usize, spec_parse_int};
use crate::text::{split_on, ascii_lower, is_ascii_alnum, is_ascii_alphanumeric, to_ascii_lowercase, chars_of, concat, debug_list, push_char, push_str, same, spec_debug_list, string_of};

verus! {

/// What `repair` was asked to do.
#[derive(Debug, Clone, PartialEq, Eq)]
pub enum RepairCommand {
    /// `repair scan --root <dir> --dat <file> [--source-id <id>] [--profile <p>] [--plan-out <json>] [--json]`
    Scan { json: bool, root: String, dat: String, source_id: Option<String>, profile: Option<String>, plan_out: Option<String> },
    /// `repair plan --plan <json> [--json]`
    Plan { json: bool, plan: String },
    /// `repair apply --plan <json> --root <dir> --dat <file> --generation <n> [--journal-dir <dir>] [--proposal-id <id> ...] [--json]`
    Apply { json: bool, plan: String, root: String, dat: String, generation: u64, journal_dir: Option<String>, proposal_ids: Vec<String> },
    /// `repair history [--journal-dir <dir>] [--limit <n>] [--json]`
    History { json: bool, journal_dir: Option<String>, limit: Option<usize> },
    /// `repair rollback --transaction <id> --journal-dir <dir> [--json]`
    Rollback { json: bool, transaction: String, journal_dir: String },
}

/// A flag that must be given exactly once with a value; `missing` is the
/// message when it is absent.
pub open spec fn spec_required(s: Seq<String>, flag: Seq<char>, missing: Seq<char>) -> (Result<String, Seq<char>>, Seq<String>) {
    let (r, t) = spec_unique_value(s, flag);
    match r {
        Err(m) => (Err(m), t),
        Ok(None) => (Err(missing), t),
        Ok(Some(v)) => (Ok(v), t),
    }
}

fn take_required(args: &mut Vec<String>, flag: &str, missing: &str) -> (r: Result<String, String>)
    ensures
        (err_view(r), final(args)@) == spec_required(old(args)@, flag@, missing@),
{
    match take_unique_flag_value(args, flag)? {
        Some(v) => Ok(v),
        None => Err(missing.to_owned()),
    }
}

/// `"repair <command> does not accept <args:?>"`.
pub open spec fn leftover_message(command: Seq<char>, rest: Seq<String>) -> Seq<char> {
    "repair "@ + command + " does not accept "@ + spec_debug_list(rest)
}

fn reject_leftover(args: &Vec<String>, command: &str) -> (r: Result<(), String>)
    ensures
        args@.len() == 0 ==> r is Ok,
        args@.len() > 0 ==> (r matches Err(m) && m@ == leftover_message(command@, args@)),
{
    if args.len() == 0 {
        Ok(())
    } else {
        let mut m = concat("repair ", command);
        push_str(&mut m, " does not accept ");
        let shown = debug_list(args);
        push_str(&mut m, shown.as_str());
        Err(m)
    }
}

/// The request `repair scan` makes of its arguments.
pub open spec fn spec_scan(s: Seq<String>) -> Result<(bool, String, String, Option<String>, Option<String>, Option<String>), Seq<char>> {
    let json = occurs(s, "--json"@);
    let s1 = without(s, "--json"@);
    let (root, s2) = spec_required(s1, "--root"@, "repair scan requires --root <library directory>"@);
    let (dat, s3) = spec_required(s2, "--dat"@, "repair scan requires --dat <catalogue file>"@);
    let (source_id, s4) = spec_unique_value(s3, "--source-id"@);
    let (profile, s5) = spec_unique_value(s4, "--profile"@);
    let (plan_out, s6) = spec_unique_value(s5, "--plan-out"@);
    match (root, dat, source_id, profile, plan_out) {
        (Err(m), _, _, _, _) => Err(m),
        (_, Err(m), _, _, _) => Err(m),
        (_, _, Err(m), _, _) => Err(m),
        (_, _, _, Err(m), _) => Err(m),
        (_, _, _, _, Err(m)) => Err(m),
        (Ok(root), Ok(dat), Ok(source_id), Ok(profile), Ok(plan_out)) =>
            if s6.len() > 0 {
                Err(leftover_message("scan"@, s6))
            } else {
                Ok((json, root, dat, source_id, profile, plan_out))
            },
    }
}

fn scan_request(args: Vec<String>) -> (r: Result<RepairCommand, String>)
    ensures
        match spec_scan(args@) {
            Ok((json, root, dat, source_id, profile, plan_out)) =>
                r == Ok::<RepairCommand, String>(RepairCommand::Scan { json, root, dat, source_id, profile, plan_out }),
            Err(m) => r matches Err(e) && e@ == m,
        },
{
    let mut args = args;
    let json = extract_flag(&mut args, "--json");
    let root = take_required(&mut args, "--root", "repair scan requires --root <library directory>")?;
    let dat = take_required(&mut args, "--dat", "repair scan requires --dat <catalogue file>")?;
    let source_id = take_unique_flag_value(&mut args, "--source-id")?;
    let profile = take_unique_flag_value(&mut args, "--profile")?;
    let plan_out = take_unique_flag_value(&mut args, "--plan-out")?;
    reject_leftover(&args, "scan")?;
    Ok(RepairCommand::Scan { json, root, dat, source_id, profile, plan_out })
}

/// The request `repair plan` makes of its arguments.
pub open spec fn spec_plan(s: Seq<String>) -> Result<(bool, String), Seq<char>> {
    let json = occurs(s, "--json"@);
    let s1 = without(s, "--json"@);
    let (plan, s2) = spec_required(s1, "--plan"@, "repair plan requires --plan <plan file>"@);
    match plan {
        Err(m) => Err(m),
        Ok(plan) => if s2.len() > 0 { Err(leftover_message("plan"@, s2)) } else { Ok((json, plan)) },
    }
}

fn plan_request(args: Vec<String>) -> (r: Result<RepairCommand, String>)
    ensures
        match spec_plan(args@) {
            Ok((json, plan)) => r == Ok::<RepairCommand, String>(RepairCommand::Plan { json, plan }),
            Err(m) => r matches Err(e) && e@ == m,
        },
{
    let mut args = args;
    let json = extract_flag(&mut args, "--json");
    let plan = take_required(&mut args, "--plan", "repair plan requires --plan <plan file>")?;
    reject_leftover(&args, "plan")?;
    Ok(RepairCommand::Plan { json, plan })
}

/// `"<flag> value '<raw>' is not a valid generation number"`.
pub open spec fn generation_message(flag: Seq<char>, raw: Seq<char>) -> Seq<char> {
    flag + " value '"@ + raw + "' is not a valid generation number"@
}

/// A generation number given at most once.
pub open spec fn spec_u64_value(s: Seq<String>, flag: Seq<char>) -> (Result<Option<u64>, Seq<char>>, Seq<String>) {
    let (r, t) = spec_unique_value(s, flag);
    match r {
        Err(m) => (Err(m), t),
        Ok(None) => (Ok(None), t),
        Ok(Some(raw)) => match spec_parse_int(raw@, 0, u64::MAX as int) {
            Ok(n) => (Ok(Some(n as u64)), t),
            Err(_) => (Err(generation_message(flag, raw@)), t),
        },
    }
}

/// `flag <n>` at most once, as a generation number.
pub fn take_u64_value(args: &mut Vec<String>, flag: &str) -> (r: Result<Option<u64>, String>)
    ensures
        (err_view(r), final(args)@) == spec_u64_value(old(args)@, flag@),
{
    match take_unique_flag_value(args, flag)? {
        None => Ok(None),
        Some(raw) => match parse_u64(raw.as_str()) {
            Ok(n) => Ok(Some(n)),
            Err(_) => {
                let mut m = concat(flag, " value '");
                push_str(&mut m, raw.as_str());
                push_str(&mut m, "' is not a valid generation number");
                Err(m)
            },
        },
    }
}

/// The request `repair apply` makes of its arguments.
pub open spec fn spec_apply(s: Seq<String>) -> Result<(bool, String, String, String, u64, Option<String>, Seq<String>), Seq<char>> {
    let json = occurs(s, "--json"@);
    let s1 = without(s, "--json"@);
    let (plan, s2) = spec_required(s1, "--plan"@, "repair apply requires --plan <plan file>"@);
    let (root, s3) = spec_required(s2, "--root"@, "repair apply requires --root <library directory>"@);
    let (dat, s4) = spec_required(s3, "--dat"@, "repair apply requires --dat <catalogue file>"@);
    let (generation, s5) = spec_u64_value(s4, "--generation"@);
    let (journal_dir, s6) = spec_unique_value(s5, "--journal-dir"@);
    let ids = collect_pairs(s6, "--proposal-id"@, false);
    match (plan, root, dat, generation, journal_dir) {
        (Err(m), _, _, _, _) => Err(m),
        (_, Err(m), _, _, _) => Err(m),
        (_, _, Err(m), _, _) => Err(m),
        (_, _, _, Err(m), _) => Err(m),
        (_, _, _, Ok(None), _) => Err("repair apply requires --generation <n> (the current audit generation)"@),
        (_, _, _, _, Err(m)) => Err(m),
        (Ok(plan), Ok(root), Ok(dat), Ok(Some(generation)), Ok(journal_dir)) =>
            if ids.2 is Some {
                Err(requires_value_message("--proposal-id"@))
            } else if ids.1.len() > 0 {
                Err(leftover_message("apply"@, ids.1))
            } else {
                Ok((json, plan, root, dat, generation, journal_dir, ids.0))
            },
    }
}

fn apply_request(args: Vec<String>) -> (r: Result<RepairCommand, String>)
    ensures
        match spec_apply(args@) {
            Ok((json, plan, root, dat, generation, journal_dir, ids)) =>
                r matches Ok(RepairCommand::Apply { json: j, plan: p, root: t, dat: d, generation: g, journal_dir: jd, proposal_ids: pi })
                    && j == json && p == plan && t == root && d == dat && g == generation && jd == journal_dir && pi@ == ids,
            Err(m) => r matches Err(e) && e@ == m,
        },
{
    let mut args = args;
    let json = extract_flag(&mut args, "--json");
    let plan = take_required(&mut args, "--plan", "repair apply requires --plan <plan file>")?;
    let root = take_required(&mut args, "--root", "repair apply requires --root <library directory>")?;
    let dat = take_required(&mut args, "--dat", "repair apply requires --dat <catalogue file>")?;
    let generation = match take_u64_value(&mut args, "--generation")? {
        Some(g) => g,
        None => return Err("repair apply requires --generation <n> (the current audit generation)".to_owned()),
    };
    let journal_dir = take_unique_flag_value(&mut args, "--journal-dir")?;
    let proposal_ids = take_repeated_string_values(&mut args, "--proposal-id")?;
    reject_leftover(&args, "apply")?;
    Ok(RepairCommand::Apply { json, plan, root, dat, generation, journal_dir, proposal_ids })
}

/// The request `repair history` makes of its arguments.
pub open spec fn spec_history(s: Seq<String>) -> Result<(bool, Option<String>, Option<usize>), Seq<char>> {
    let json = occurs(s, "--json"@);
    let s1 = without(s, "--json"@);
    let (journal_dir, s2) = spec_unique_value(s1, "--journal-dir"@);
    let (limit, s3) = spec_unique_value(s2, "--limit"@);
    match (journal_dir, limit) {
        (Err(m), _) => Err(m),
        (_, Err(m)) => Err(m),
        (Ok(journal_dir), Ok(None)) =>
            if s3.len() > 0 { Err(leftover_message("history"@, s3)) } else { Ok((json, journal_dir, None)) },
        (Ok(journal_dir), Ok(Some(raw))) => match spec_parse_int(raw@, 0, usize::MAX as int) {
            Err(_) => Err("--limit value '"@ + raw@ + "' is not a valid number"@),
            Ok(n) => if s3.len() > 0 {
                Err(leftover_message("history"@, s3))
            } else {
                Ok((json, journal_dir, Some(n as usize)))
            },
        },
    }
}

fn history_request(args: Vec<String>) -> (r: Result<RepairCommand, String>)
    ensures
        match spec_history(args@) {
            Ok((json, journal_dir, limit)) => r == Ok::<RepairCommand, String>(RepairCommand::History { json, journal_dir, limit }),
            Err(m) => r matches Err(e) && e@ == m,
        },
{
    let mut args = args;
    let json = extract_flag(&mut args, "--json");
    let journal_dir = take_unique_flag_value(&mut args, "--journal-dir")?;
    let limit = match take_unique_flag_value(&mut args, "--limit")? {
        None => None,
        Some(raw) => match parse_usize(raw.as_str()) {
            Ok(n) => Some(n),
            Err(_) => {
                let mut m = concat("--limit value '", raw.as_str());
                push_str(&mut m, "' is not a valid number");
                return Err(m);
            },
        },
    };
    reject_leftover(&args, "history")?;
    Ok(RepairCommand::History { json, journal_dir, limit })
}

/// The request `repair rollback` makes of its arguments.
pub open spec fn spec_rollback(s: Seq<String>) -> Result<(bool, String, String), Seq<char>> {
    let json = occurs(s, "--json"@);
    let s1 = without(s, "--json"@);
    let (transaction, s2) = spec_required(s1, "--transaction"@, "repair rollback requires --transaction <id>"@);
    let (journal_dir, s3) = spec_required(s2, "--journal-dir"@, "repair rollback requires --journal-dir <path>"@);
    match (transaction, journal_dir) {
        (Err(m), _) => Err(m),
        (_, Err(m)) => Err(m),
        (Ok(transaction), Ok(journal_dir)) =>
            if s3.len() > 0 { Err(leftover_message("rollback"@, s3)) } else { Ok((json, transaction, journal_dir)) },
    }
}

fn rollback_request(args: Vec<String>) -> (r: Result<RepairCommand, String>)
    ensures
        match spec_rollback(args@) {
            Ok((json, transaction, journal_dir)) =>
                r == Ok::<RepairCommand, String>(RepairCommand::Rollback { json, transaction, journal_dir }),
            Err(m) => r matches Err(e) && e@ == m,
        },
{
    let mut args = args;
    let json = extract_flag(&mut args, "--json");
    let transaction = take_required(&mut args, "--transaction", "repair rollback requires --transaction <id>")?;
    let journal_dir = take_required(&mut args, "--journal-dir", "repair rollback requires --journal-dir <path>")?;
    reject_leftover(&args, "rollback")?;
    Ok(RepairCommand::Rollback { json, transaction, journal_dir })
}

/// `repair <sub-command> ...`: the request, or the message the command
/// fails with before anything is scanned or read.
pub fn run(args: Vec<String>) -> (r: Result<RepairCommand, String>)
    ensures
        args@.len() == 0 ==> (r matches Err(m)
            && m@ == "repair requires a sub-command: scan | plan | apply | history | rollback"@),
        args@.len() > 0 && args@[0]@ == "scan"@ ==> match spec_scan(args@.drop_first()) {
            Ok((json, root, dat, source_id, profile, plan_out)) =>
                r == Ok::<RepairCommand, String>(RepairCommand::Scan { json, root, dat, source_id, profile, plan_out }),
            Err(m) => r matches Err(e) && e@ == m,
        },
        args@.len() > 0 && args@[0]@ == "plan"@ ==> match spec_plan(args@.drop_first()) {
            Ok((json, plan)) => r == Ok::<RepairCommand, String>(RepairCommand::Plan { json, plan }),
            Err(m) => r matches Err(e) && e@ == m,
        },
        args@.len() > 0 && args@[0]@ == "apply"@ ==> match spec_apply(args@.drop_first()) {
            Ok((json, plan, root, dat, generation, journal_dir, ids)) =>
                r matches Ok(RepairCommand::Apply { json: j, plan: p, root: t, dat: d, generation: g, journal_dir: jd, proposal_ids: pi })
                    && j == json && p == plan && t == root && d == dat && g == generation && jd == journal_dir && pi@ == ids,
            Err(m) => r matches Err(e) && e@ == m,
        },
        args@.len() > 0 && args@[0]@ == "history"@ ==> match spec_history(args@.drop_first()) {
            Ok((json, journal_dir, limit)) => r == Ok::<RepairCommand, String>(RepairCommand::History { json, journal_dir, limit }),
            Err(m) => r matches Err(e) && e@ == m,
        },
        args@.len() > 0 && args@[0]@ == "rollback"@ ==> match spec_rollback(args@.drop_first()) {
            Ok((json, transaction, journal_dir)) =>
                r == Ok::<RepairCommand, String>(RepairCommand::Rollback { json, transaction, journal_dir }),
            Err(m) => r matches Err(e) && e@ == m,
        },
        args@.len() > 0 && args@[0]@ != "scan"@ && args@[0]@ != "plan"@ && args@[0]@ != "apply"@
            && args@[0]@ != "history"@ && args@[0]@ != "rollback"@ ==> (r matches Err(m) && m@ ==
                "unknown repair sub-command '"@ + args@[0]@ + "' (expected scan, plan, apply, history, or rollback)"@),
{
    proof {
        reveal_strlit("scan");
        reveal_strlit("plan");
        reveal_strlit("apply");
        reveal_strlit("history");
        reveal_strlit("rollback");
        assert("scan"@[0] == 's');
        assert("plan"@[0] == 'p');
        assert("apply"@[0] == 'a');
        assert("history"@[0] == 'h');
        assert("rollback"@[0] == 'r');
    }
    let mut args = args;
    if args.len() == 0 {
        return Err("repair requires a sub-command: scan | plan | apply | history | rollback".to_owned());
    }
    let command = args.remove(0);
    if same(&command, "scan") {
        scan_request(args)
    } else if same(&command, "plan") {
        plan_request(args)
    } else if same(&command, "apply") {
        apply_request(args)
    } else if same(&command, "history") {
        history_request(args)
    } else if same(&command, "rollback") {
        rollback_request(args)
    } else {
        let mut m = concat("unknown repair sub-command '", command.as_str());
        push_str(&mut m, "' (expected scan, plan, apply, history, or rollback)");
        Err(m)
    }
}

/// The pieces of `p` between `/` separators.
pub fn path_pieces(p: &str) -> (r: Vec<String>)
    ensures
        crate::text::views(r@) == split_on(p@, '/'),
{
    crate::text::pieces(p, '/')
}

/// The name of the directory that duplicate quarantine moves files into.
pub open spec fn quarantine_directory() -> Seq<char> {
    ".emuwiz-quarantine"@
}

/// A path runs through the quarantine directory when one of its components
/// is that directory's name.
pub open spec fn goes_through_quarantine(p: Seq<char>) -> bool {
    split_on(p, '/').contains(quarantine_directory())
}

/// Whether `p` has the quarantine directory among its components.
pub fn is_quarantine_path(p: &str) -> (r: bool)
    ensures
        r == goes_through_quarantine(p@),
{
    let pieces = path_pieces(p);
    let mut k: usize = 0;
    while k < pieces.len()
        invariant
            k <= pieces@.len(),
            crate::text::views(pieces@) == split_on(p@, '/'),
            forall|j: int| 0 <= j < k ==> #[trigger] pieces@[j]@ != quarantine_directory(),
        decreases pieces@.len() - k,
    {
        if same(&pieces[k], ".emuwiz-quarantine") {
            proof {
                assert(pieces@[k as int]@ == ".emuwiz-quarantine"@);
                assert(pieces@[k as int]@ == quarantine_directory());
                assert(crate::text::views(pieces@)[k as int] == pieces@[k as int]@);
                assert(split_on(p@, '/')[k as int] == quarantine_directory());
                assert(0 <= k < split_on(p@, '/').len());
            }
            return true;
        }
        k = k + 1;
    }
    proof {
        if split_on(p@, '/').contains(quarantine_directory()) {
            let j = choose|j: int| 0 <= j < split_on(p@, '/').len() && split_on(p@, '/')[j] == quarantine_directory();
            assert(crate::text::views(pieces@)[j] == pieces@[j]@);
        }
    }
    false
}

/// What kind of repair a journaled transaction was, read from where its
/// entries went.
#[derive(Debug, Clone, Copy, PartialEq, Eq, Structural)]
pub enum TransactionKind {
    DuplicateQuarantine,
    MoveRename,
    Unknown,
}

impl TransactionKind {
    /// The label in the text report.
    pub fn label(self) -> (r: &'static str)
        ensures
            r@ == match self {
                TransactionKind::DuplicateQuarantine => "Duplicate quarantine"@,
                TransactionKind::MoveRename => "Move/Rename transaction"@,
                TransactionKind::Unknown => "UNKNOWN"@,
            },
    {
        match self {
            TransactionKind::DuplicateQuarantine => "Duplicate quarantine",
            TransactionKind::MoveRename => "Move/Rename transaction",
            TransactionKind::Unknown => "UNKNOWN",
        }
    }

    /// The tag in the JSON report.
    pub fn json_tag(self) -> (r: &'static str)
        ensures
            r@ == match self {
                TransactionKind::DuplicateQuarantine => "duplicate_quarantine"@,
                TransactionKind::MoveRename => "move_rename"@,
                TransactionKind::Unknown => "unknown"@,
            },
    {
        match self {
            TransactionKind::DuplicateQuarantine => "duplicate_quarantine",
            TransactionKind::MoveRename => "move_rename",
            TransactionKind::Unknown => "unknown",
        }
    }
}

/// The kind of a transaction from its entries' destinations: quarantine
/// when every destination runs through the quarantine directory, move or
/// rename when none does, and unknown when there are no entries or they
/// disagree.
pub open spec fn spec_transaction_kind(destinations: Seq<String>) -> TransactionKind {
    if destinations.len() == 0 {
        TransactionKind::Unknown
    } else if forall|i: int| 0 <= i < destinations.len() ==> goes_through_quarantine(#[trigger] destinations[i]@) {
        TransactionKind::DuplicateQuarantine
    } else if forall|i: int| 0 <= i < destinations.len() ==> !goes_through_quarantine(#[trigger] destinations[i]@) {
        TransactionKind::MoveRename
    } else {
        TransactionKind::Unknown
    }
}

/// Classifies a transaction by its entries' destination paths.
pub fn classify_transaction_kind(destinations: &Vec<String>) -> (r: TransactionKind)
    ensures
        r == spec_transaction_kind(destinations@),
{
    if destinations.len() == 0 {
        return TransactionKind::Unknown;
    }
    let mut all = true;
    let mut none = true;
    let mut k: usize = 0;
    while k < destinations.len()
        invariant
            k <= destinations@.len(),
            all == forall|i: int| 0 <= i < k ==> goes_through_quarantine(#[trigger] destinations@[i]@),
            none == forall|i: int| 0 <= i < k ==> !goes_through_quarantine(#[trigger] destinations@[i]@),
        decreases destinations@.len() - k,
    {
        let q = is_quarantine_path(destinations[k].as_str());
        if q {
            none = false;
        } else {
            all = false;
        }
        k = k + 1;
    }
    if all {
        TransactionKind::DuplicateQuarantine
    } else if none {
        TransactionKind::MoveRename
    } else {
        TransactionKind::Unknown
    }
}

/// The path components that name something: empty pieces and `.` dropped.
pub open spec fn normal_pieces(s: Seq<Seq<char>>) -> Seq<Seq<char>>
    decreases s.len(),
{
    if s.len() == 0 {
        s
    } else if s.last() == Seq::<char>::empty() || s.last() == "."@ {
        normal_pieces(s.drop_last())
    } else {
        normal_pieces(s.drop_last()).push(s.last())
    }
}

/// The final component of a path, unless the path ends in `..` or has none
/// (a Unix path's `file_name`).
pub open spec fn spec_file_name(p: Seq<char>) -> Option<Seq<char>> {
    let n = normal_pieces(split_on(p, '/'));
    if n.len() == 0 || n.last() == ".."@ { None } else { Some(n.last()) }
}

/// The position of the last `.` in `s`, or -1.
pub open spec fn last_dot(s: Seq<char>) -> int
    decreases s.len(),
{
    if s.len() == 0 {
        -1
    } else if s.last() == '.' {
        s.len() - 1
    } else {
        last_dot(s.drop_last())
    }
}

/// A file name without its extension: everything before the last `.`,
/// unless that `.` starts the name or there is none.
pub open spec fn spec_stem(name: Seq<char>) -> Seq<char> {
    let i = last_dot(name);
    if i <= 0 { name } else { name.take(i) }
}

/// A Unix path's `file_stem`.
pub open spec fn spec_file_stem(p: Seq<char>) -> Option<Seq<char>> {
    match spec_file_name(p) {
        Some(n) => Some(spec_stem(n)),
        None => None,
    }
}

proof fn lemma_last_dot_range(s: Seq<char>)
    ensures
        -1 <= last_dot(s) < s.len(),
        last_dot(s) >= 0 ==> s[last_dot(s)] == '.',
    decreases s.len(),
{
    if s.len() > 0 && s.last() != '.' {
        lemma_last_dot_range(s.drop_last());
    }
}

/// The final component of a path that names something.
pub fn file_name(p: &str) -> (r: Option<String>)
    ensures
        match spec_file_name(p@) {
            Some(n) => r matches Some(s) && s@ == n,
            None => r is None,
        },
{
    let pieces = path_pieces(p);
    let ghost v = crate::text::views(pieces@);
    let mut last: Option<usize> = None;
    let mut k: usize = 0;
    proof {
        reveal_strlit("");
        assert(""@ =~= Seq::<char>::empty());
    }
    while k < pieces.len()
        invariant
            k <= pieces@.len(),
            v == crate::text::views(pieces@),
            ""@ == Seq::<char>::empty(),
            last is None <==> normal_pieces(v.take(k as int)).len() == 0,
            last matches Some(i) ==> i < pieces@.len() && normal_pieces(v.take(k as int)).last() == pieces@[i as int]@,
        decreases pieces@.len() - k,
    {
        proof {
            assert(v.take(k + 1).drop_last() =~= v.take(k as int));
            assert(v.take(k + 1).last() == pieces@[k as int]@);
        }
        if !(same(&pieces[k], "") || same(&pieces[k], ".")) {
            last = Some(k);
        }
        k = k + 1;
    }
    proof {
        assert(v.take(pieces@.len() as int) =~= v);
    }
    match last {
        None => None,
        Some(i) => {
            if same(&pieces[i], "..") {
                None
            } else {
                Some(pieces[i].clone())
            }
        },
    }
}

/// The final component of a path without its extension.
pub fn file_stem(p: &str) -> (r: Option<String>)
    ensures
        match spec_file_stem(p@) {
            Some(n) => r matches Some(s) && s@ == n,
            None => r is None,
        },
{
    match file_name(p) {
        None => None,
        Some(name) => {
            let cs = chars_of(name.as_str());
            let mut k = cs.len();
            let mut dot: Option<usize> = None;
            proof {
                assert(cs@.take(cs@.len() as int) =~= cs@);
            }
            while k > 0
                invariant_except_break
                    dot is None,
                invariant
                    k <= cs@.len(),
                    last_dot(cs@) == last_dot(cs@.take(k as int)),
                ensures
                    dot is None ==> k == 0,
                    dot matches Some(i) ==> last_dot(cs@) == i,
                decreases k,
            {
                proof {
                    assert(cs@.take(k as int).drop_last() =~= cs@.take(k - 1));
                    assert(cs@.take(k as int).last() == cs@[k - 1]);
                }
                if cs[k - 1] == '.' {
                    proof {
                        assert(last_dot(cs@.take(k as int)) == k - 1);
                    }
                    dot = Some(k - 1);
                    break;
                }
                k = k - 1;
            }
            proof {
                assert(cs@.take(cs@.len() as int) =~= cs@);
                if dot is None {
                    assert(cs@.take(0) =~= Seq::<char>::empty());
                }
            }
            proof {
                lemma_last_dot_range(cs@);
            }
            match dot {
                Some(i) => {
                    if i == 0 {
                        Some(name)
                    } else {
                        let mut prefix: Vec<char> = Vec::new();
                        let mut j: usize = 0;
                        while j < i
                            invariant
                                j <= i,
                                i < cs@.len(),
                                prefix@ == cs@.take(j as int),
                            decreases i - j,
                        {
                            prefix.push(cs[j]);
                            proof {
                                assert(prefix@ =~= cs@.take(j + 1));
                            }
                            j = j + 1;
                        }
                        Some(string_of(&prefix))
                    }
                },
                None => Some(name),
            }
        },
    }
}

/// A name reduced to lower-case ASCII letters and digits, every other run of
/// characters replaced by one `-`.
pub open spec fn dashed(s: Seq<char>) -> Seq<char>
    decreases s.len(),
{
    if s.len() == 0 {
        Seq::empty()
    } else {
        let o = dashed(s.drop_last());
        let c = s.last();
        if is_ascii_alnum(c) {
            o.push(ascii_lower(c))
        } else if o.len() > 0 && o.last() == '-' {
            o
        } else {
            o.push('-')
        }
    }
}

/// `s` without its leading dashes.
pub open spec fn trim_leading_dashes(s: Seq<char>) -> Seq<char>
    decreases s.len(),
{
    if s.len() > 0 && s[0] == '-' { trim_leading_dashes(s.drop_first()) } else { s }
}

/// `s` without its trailing dashes.
pub open spec fn trim_trailing_dashes(s: Seq<char>) -> Seq<char>
    decreases s.len(),
{
    if s.len() > 0 && s.last() == '-' { trim_trailing_dashes(s.drop_last()) } else { s }
}

/// The source id derived from a DAT path: its file stem (or "dat") reduced
/// by `dashed`, trimmed of dashes, and "dat" when nothing is left.
pub open spec fn spec_slug(path: Seq<char>) -> Seq<char> {
    let stem = match spec_file_stem(path) {
        Some(s) => s,
        None => "dat"@,
    };
    let t = trim_trailing_dashes(trim_leading_dashes(dashed(stem)));
    if t.len() == 0 { "dat"@ } else { t }
}

/// A short, safe source id derived from the DAT path's stem.
pub fn slug(path: &str) -> (r: String)
    ensures
        r@ == spec_slug(path@),
{
    let stem = match file_stem(path) {
        Some(s) => s,
        None => "dat".to_owned(),
    };
    let cs = chars_of(stem.as_str());
    let mut out: Vec<char> = Vec::new();
    let mut k: usize = 0;
    while k < cs.len()
        invariant
            k <= cs@.len(),
            out@ == dashed(cs@.take(k as int)),
        decreases cs@.len() - k,
    {
        proof {
            assert(cs@.take(k + 1).drop_last() =~= cs@.take(k as int));
            assert(cs@.take(k + 1).last() == cs@[k as int]);
        }
        let c = cs[k];
        if is_ascii_alphanumeric(c) {
            out.push(to_ascii_lowercase(c));
        } else {
            let n = out.len();
            if !(n > 0 && out[n - 1] == '-') {
                out.push('-');
            }
        }
        k = k + 1;
    }
    proof {
        assert(cs@.take(cs@.len() as int) =~= cs@);
    }
    let ghost d = out@;
    while out.len() > 0 && out[0] == '-'
        invariant
            trim_leading_dashes(d) == trim_leading_dashes(out@),
        decreases out@.len(),
    {
        out.remove(0);
    }
    let ghost l = out@;
    proof {
        assert(trim_leading_dashes(l) == l);
    }
    while out.len() > 0 && out[out.len() - 1] == '-'
        invariant
            trim_trailing_dashes(l) == trim_trailing_dashes(out@),
        decreases out@.len(),
    {
        out.pop();
    }
    proof {
        assert(trim_trailing_dashes(out@) == out@);
    }
    if out.len() == 0 {
        "dat".to_owned()
    } else {
        string_of(&out)
    }
}

/// A character a source id may hold.
pub open spec fn is_slug_char(c: char) -> bool {
    ('a' <= c && c <= 'z') || ('0' <= c && c <= '9') || c == '-'
}

/// Only id characters, and never two dashes in a row.
pub open spec fn is_dash_separated(s: Seq<char>) -> bool {
    &&& forall|i: int| 0 <= i < s.len() ==> is_slug_char(#[trigger] s[i])
    &&& forall|i: int| 0 <= i < s.len() - 1 ==> !(#[trigger] s[i] == '-' && s[i + 1] == '-')
}

proof fn lemma_dashed_separated(s: Seq<char>)
    ensures
        is_dash_separated(dashed(s)),
    decreases s.len(),
{
    if s.len() > 0 {
        lemma_dashed_separated(s.drop_last());
        let o = dashed(s.drop_last());
        let c = s.last();
        if is_ascii_alnum(c) {
            assert(is_slug_char(ascii_lower(c)));
            assert(ascii_lower(c) != '-');
            assert forall|i: int| 0 <= i < o.push(ascii_lower(c)).len() - 1 implies
                !(#[trigger] o.push(ascii_lower(c))[i] == '-' && o.push(ascii_lower(c))[i + 1] == '-') by {
                if i < o.len() - 1 {
                    assert(o.push(ascii_lower(c))[i] == o[i]);
                    assert(o.push(ascii_lower(c))[i + 1] == o[i + 1]);
                }
            }
        } else if !(o.len() > 0 && o.last() == '-') {
            assert forall|i: int| 0 <= i < o.push('-').len() - 1 implies
                !(#[trigger] o.push('-')[i] == '-' && o.push('-')[i + 1] == '-') by {
                if i < o.len() - 1 {
                    assert(o.push('-')[i] == o[i]);
                    assert(o.push('-')[i + 1] == o[i + 1]);
                }
            }
        }
    }
}

proof fn lemma_trim_leading(s: Seq<char>)
    requires
        is_dash_separated(s),
    ensures
        is_dash_separated(trim_leading_dashes(s)),
        trim_leading_dashes(s).len() > 0 ==> trim_leading_dashes(s)[0] != '-',
        trim_leading_dashes(s).len() > 0 && s.len() > 0 && s.last() != '-'
            ==> trim_leading_dashes(s).last() != '-',
    decreases s.len(),
{
    if s.len() > 0 && s[0] == '-' {
        let t = s.drop_first();
        assert forall|i: int| 0 <= i < t.len() - 1 implies !(#[trigger] t[i] == '-' && t[i + 1] == '-') by {
            assert(t[i] == s[i + 1]);
            assert(t[i + 1] == s[i + 2]);
        }
        lemma_trim_leading(t);
    }
}

proof fn lemma_trim_trailing(s: Seq<char>)
    requires
        is_dash_separated(s),
        s.len() > 0 ==> s[0] != '-',
    ensures
        is_dash_separated(trim_trailing_dashes(s)),
        trim_trailing_dashes(s).len() > 0 ==> trim_trailing_dashes(s)[0] != '-',
        trim_trailing_dashes(s).len() > 0 ==> trim_trailing_dashes(s).last() != '-',
    decreases s.len(),
{
    if s.len() > 0 && s.last() == '-' {
        let t = s.drop_last();
        assert forall|i: int| 0 <= i < t.len() - 1 implies !(#[trigger] t[i] == '-' && t[i + 1] == '-') by {
            assert(t[i] == s[i]);
            assert(t[i + 1] == s[i + 1]);
        }
        lemma_trim_trailing(t);
    }
}

/// A source id is never empty, holds only lower-case ASCII letters, digits
/// and single dashes, and neither starts nor ends with a dash.
pub proof fn lemma_slug_is_safe(path: Seq<char>)
    ensures
        spec_slug(path).len() > 0,
        is_dash_separated(spec_slug(path)),
        spec_slug(path)[0] != '-',
        spec_slug(path).last() != '-',
{
    let stem = match spec_file_stem(path) {
        Some(s) => s,
        None => "dat"@,
    };
    lemma_dashed_separated(stem);
    lemma_trim_leading(dashed(stem));
    lemma_trim_trailing(trim_leading_dashes(dashed(stem)));
    let t = trim_trailing_dashes(trim_leading_dashes(dashed(stem)));
    if t.len() == 0 {
        reveal_strlit("dat");
        assert("dat"@[0] == 'd');
        assert("dat"@[1] == 'a');
        assert("dat"@[2] == 't');
    }
}

} // verus!
