//! The top-level command line: global flags, the command word, and the
//! argument helpers and selectors shared by the library commands.
use vstd::prelude::*;
use crate::args::{drop_pair, first_index, occurs, spec_flag_value, take_flag_value, FlagValue, requires_value, requires_value_message, take_unique_flag_value};
use crate::number::{parse_i64, parse_u64, spec_parse_int, IntErrorKind};
use crate::text::{concat, debug_str, join, push_str, same, spec_join, str_debug, views};

verus! {

/// How much the process logs, ordered from silent to most verbose.
#[derive(Debug, Clone, Copy, PartialEq, Eq, Structural)]
pub enum LogLevel {
    Off,
    Error,
    Warn,
    Info,
    Debug,
    Trace,
}

impl LogLevel {
    /// The position of the level in the order Off < Error < Warn < Info < Debug < Trace.
    pub open spec fn rank(self) -> int {
        match self {
            LogLevel::Off => 0,
            LogLevel::Error => 1,
            LogLevel::Warn => 2,
            LogLevel::Info => 3,
            LogLevel::Debug => 4,
            LogLevel::Trace => 5,
        }
    }

    /// Whether `self` is less verbose than `other`.
    pub fn less_than(self, other: LogLevel) -> (r: bool)
        ensures
            r == (self.rank() < other.rank()),
    {
        let a: u8 = match self {
            LogLevel::Off => 0,
            LogLevel::Error => 1,
            LogLevel::Warn => 2,
            LogLevel::Info => 3,
            LogLevel::Debug => 4,
            LogLevel::Trace => 5,
        };
        let b: u8 = match other {
            LogLevel::Off => 0,
            LogLevel::Error => 1,
            LogLevel::Warn => 2,
            LogLevel::Info => 3,
            LogLevel::Debug => 4,
            LogLevel::Trace => 5,
        };
        a < b
    }
}

/// The parsed command line: the log level chosen by the global flags, the
/// command word, and the arguments after it.
#[derive(Debug, Clone, PartialEq, Eq)]
pub struct CliArgs {
    pub log_level: LogLevel,
    pub command: String,
    pub args: Vec<String>,
}

/// A global flag, recognised only before the command word.
pub open spec fn is_global_flag(a: Seq<char>) -> bool {
    a == "--debug"@ || a == "--verbose"@ || a == "-v"@
}

/// Reads the leading global flags of `s` starting from `level`: `--debug`
/// sets Debug, `--verbose`/`-v` raise the level to at least Info.
pub open spec fn read_globals(s: Seq<String>, level: LogLevel) -> (LogLevel, Seq<String>)
    decreases s.len(),
{
    if s.len() > 0 && s[0]@ == "--debug"@ {
        read_globals(s.drop_first(), LogLevel::Debug)
    } else if s.len() > 0 && (s[0]@ == "--verbose"@ || s[0]@ == "-v"@) {
        read_globals(s.drop_first(), if level.rank() < LogLevel::Info.rank() { LogLevel::Info } else { level })
    } else {
        (level, s)
    }
}

/// The command word: the first argument after the global flags, or "help".
pub open spec fn spec_command(rest: Seq<String>) -> Seq<char> {
    if rest.len() == 0 { "help"@ } else { rest[0]@ }
}

/// The arguments after the command word.
pub open spec fn spec_command_args(rest: Seq<String>) -> Seq<String> {
    if rest.len() == 0 { rest } else { rest.drop_first() }
}

/// Splits the process arguments (without the program name) into the log
/// level set by the leading global flags, the command word (defaulting to
/// "help"), and the rest. Flags after the command word are left to it.
pub fn parse_cli_args(args: Vec<String>) -> (r: CliArgs)
    ensures
        r.log_level == read_globals(args@, LogLevel::Off).0,
        r.command@ == spec_command(read_globals(args@, LogLevel::Off).1),
        r.args@ == spec_command_args(read_globals(args@, LogLevel::Off).1),
{
    let ghost s = args@;
    let mut rest = args;
    let mut log_level = LogLevel::Off;
    while rest.len() > 0
        invariant
            read_globals(s, LogLevel::Off) == read_globals(rest@, log_level),
        ensures
            read_globals(s, LogLevel::Off) == (log_level, rest@),
        decreases rest@.len(),
    {
        if same(&rest[0], "--debug") {
            log_level = LogLevel::Debug;
            rest.remove(0);
        } else if same(&rest[0], "--verbose") || same(&rest[0], "-v") {
            if log_level.less_than(LogLevel::Info) {
                log_level = LogLevel::Info;
            }
            rest.remove(0);
        } else {
            break;
        }
    }
    let command = if rest.len() == 0 {
        "help".to_owned()
    } else {
        rest.remove(0)
    };
    CliArgs { log_level, command, args: rest }
}

/// `source remove` needs exactly one of `--keep-catalogue` and
/// `--remove-catalogue`: true to keep, false to remove.
pub fn resolve_keep_catalogue_flag(keep_catalogue: bool, remove_catalogue: bool) -> (r: Result<bool, String>)
    ensures
        keep_catalogue && !remove_catalogue ==> r == Ok::<bool, String>(true),
        !keep_catalogue && remove_catalogue ==> r == Ok::<bool, String>(false),
        !keep_catalogue && !remove_catalogue ==> (r matches Err(m)
            && m@ == "source remove requires exactly one of --keep-catalogue or --remove-catalogue"@),
        keep_catalogue && remove_catalogue ==> (r matches Err(m)
            && m@ == "source remove cannot take both --keep-catalogue and --remove-catalogue"@),
{
    if keep_catalogue && !remove_catalogue {
        Ok(true)
    } else if !keep_catalogue && remove_catalogue {
        Ok(false)
    } else if !keep_catalogue {
        Err("source remove requires exactly one of --keep-catalogue or --remove-catalogue".to_owned())
    } else {
        Err("source remove cannot take both --keep-catalogue and --remove-catalogue".to_owned())
    }
}

/// Removes `--id <value>` (its first occurrence) and parses the value as
/// an archive id. The arguments are untouched when `--id` is absent or has no
/// value; an unparsable value is an error after the pair is removed.
pub fn extract_id_flag(args: &mut Vec<String>) -> (r: Result<Option<i64>, String>)
    ensures
        match spec_flag_value(old(args)@, "--id"@) {
            None => r matches Ok(None) && final(args)@ == old(args)@,
            Some(None) => (r matches Err(m) && m@ == requires_value_message("--id"@))
                && final(args)@ == old(args)@,
            Some(Some(v)) => final(args)@ == drop_pair(old(args)@, first_index(old(args)@, "--id"@))
                && match spec_parse_int(v@, i64::MIN as int, i64::MAX as int) {
                    Ok(n) => r matches Ok(Some(id)) && id as int == n,
                    Err(_) => r matches Err(m) && m@ == crate::args::invalid_id_message(v@),
                },
        },
{
    match take_flag_value(args, "--id") {
        FlagValue::Absent => Ok(None),
        FlagValue::MissingValue => Err(requires_value("--id")),
        FlagValue::Value(value) => match parse_i64(value.as_str()) {
            Ok(id) => Ok(Some(id)),
            Err(_) => {
                let mut m = concat("--id value '", value.as_str());
                push_str(&mut m, "' is not a valid archive id");
                Err(m)
            },
        },
    }
}

/// Removes `flag <value>` (its first occurrence), handing back the value
/// unchanged; an error when the flag is the last argument.
fn extract_first_value(args: &mut Vec<String>, flag: &str) -> (r: Result<Option<String>, String>)
    ensures
        match spec_flag_value(old(args)@, flag@) {
            None => r matches Ok(None) && final(args)@ == old(args)@,
            Some(None) => (r matches Err(m) && m@ == requires_value_message(flag@))
                && final(args)@ == old(args)@,
            Some(Some(v)) => (r matches Ok(Some(w)) && w == v)
                && final(args)@ == drop_pair(old(args)@, first_index(old(args)@, flag@)),
        },
{
    match take_flag_value(args, flag) {
        FlagValue::Absent => Ok(None),
        FlagValue::MissingValue => Err(requires_value(flag)),
        FlagValue::Value(value) => Ok(Some(value)),
    }
}

/// Removes `--path <value>` (its first occurrence); the exact-path
/// alternative to an id or a query.
pub fn extract_path_flag(args: &mut Vec<String>) -> (r: Result<Option<String>, String>)
    ensures
        match spec_flag_value(old(args)@, "--path"@) {
            None => r matches Ok(None) && final(args)@ == old(args)@,
            Some(None) => (r matches Err(m) && m@ == requires_value_message("--path"@))
                && final(args)@ == old(args)@,
            Some(Some(v)) => (r matches Ok(Some(w)) && w == v)
                && final(args)@ == drop_pair(old(args)@, first_index(old(args)@, "--path"@)),
        },
{
    extract_first_value(args, "--path")
}

/// Removes `--cheat-destination-root <path>` (its first occurrence).
pub fn extract_cheat_destination_root_flag(args: &mut Vec<String>) -> (r: Result<Option<String>, String>)
    ensures
        match spec_flag_value(old(args)@, "--cheat-destination-root"@) {
            None => r matches Ok(None) && final(args)@ == old(args)@,
            Some(None) => (r matches Err(m) && m@ == requires_value_message("--cheat-destination-root"@))
                && final(args)@ == old(args)@,
            Some(Some(v)) => (r matches Ok(Some(w)) && w == v)
                && final(args)@ == drop_pair(old(args)@, first_index(old(args)@, "--cheat-destination-root"@)),
        },
{
    extract_first_value(args, "--cheat-destination-root")
}

/// A flag given at most once with a value (`extract_named_string_flag`,
/// `extract_named_path_flag` and `extract_named_flag` of the command line).
pub open spec fn unique_flag_ensures(s: Seq<String>, f: Seq<String>, flag: Seq<char>, r: Result<Option<String>, String>) -> bool {
    &&& crate::args::occurs_twice(s, flag) ==> (r matches Err(m) && m@ == crate::args::unique_message(flag))
        && f == s
    &&& !crate::args::occurs_twice(s, flag) ==> match spec_flag_value(s, flag) {
        None => r matches Ok(None) && f == s,
        Some(None) => (r matches Err(m) && m@ == requires_value_message(flag)) && f == s,
        Some(Some(v)) => (r matches Ok(Some(w)) && w == v) && f == drop_pair(s, first_index(s, flag)),
    }
}

/// `flag <value>`, allowed at most once; the value is returned as given.
pub fn extract_named_string_flag(args: &mut Vec<String>, flag: &str) -> (r: Result<Option<String>, String>)
    ensures
        unique_flag_ensures(old(args)@, final(args)@, flag@, r),
{
    take_unique_flag_value(args, flag)
}

/// `flag <path>`, allowed at most once; the path is returned as given.
pub fn extract_named_path_flag(args: &mut Vec<String>, flag: &str) -> (r: Result<Option<String>, String>)
    ensures
        unique_flag_ensures(old(args)@, final(args)@, flag@, r),
{
    take_unique_flag_value(args, flag)
}

/// `flag <value>`, allowed at most once.
pub fn extract_named_flag(args: &mut Vec<String>, flag: &str) -> (r: Result<Option<String>, String>)
    ensures
        unique_flag_ensures(old(args)@, final(args)@, flag@, r),
{
    take_unique_flag_value(args, flag)
}

/// The message for a value that is not a non-negative integer.
pub open spec fn not_u64_message(flag: Seq<char>, value: Seq<char>) -> Seq<char> {
    flag + " requires a non-negative integer, got "@ + str_debug(value)
}

/// `flag <n>`, allowed at most once, parsed as a `u64`.
pub fn extract_named_u64_flag(args: &mut Vec<String>, flag: &str) -> (r: Result<Option<u64>, String>)
    ensures
        ({
            let s = old(args)@;
            &&& crate::args::occurs_twice(s, flag@) ==> (r matches Err(m) && m@ == crate::args::unique_message(flag@))
                && final(args)@ == s
            &&& !crate::args::occurs_twice(s, flag@) ==> match spec_flag_value(s, flag@) {
                None => r matches Ok(None) && final(args)@ == s,
                Some(None) => (r matches Err(m) && m@ == requires_value_message(flag@)) && final(args)@ == s,
                Some(Some(v)) => final(args)@ == drop_pair(s, first_index(s, flag@))
                    && match spec_parse_int(v@, 0, u64::MAX as int) {
                        Ok(n) => r matches Ok(Some(k)) && k as int == n,
                        Err(_) => r matches Err(m) && m@ == not_u64_message(flag@, v@),
                    },
            }
        }),
{
    match take_unique_flag_value(args, flag) {
        Err(m) => Err(m),
        Ok(None) => Ok(None),
        Ok(Some(value)) => match parse_u64(value.as_str()) {
            Ok(n) => Ok(Some(n)),
            Err(_) => {
                let mut m = concat(flag, " requires a non-negative integer, got ");
                let shown = debug_str(value.as_str());
                push_str(&mut m, shown.as_str());
                Err(m)
            },
        },
    }
}

/// Bulk commands need at least one `--id` or `--path`.
pub fn require_at_least_one_bulk_selector(command: &str, ids: &Vec<i64>, paths: &Vec<String>) -> (r: Result<(), String>)
    ensures
        ids@.len() == 0 && paths@.len() == 0 ==> (r matches Err(m)
            && m@ == command@ + " requires at least one --id or --path"@),
        ids@.len() > 0 || paths@.len() > 0 ==> r is Ok,
{
    if ids.len() == 0 && paths.len() == 0 {
        Err(concat(command, " requires at least one --id or --path"))
    } else {
        Ok(())
    }
}

/// How `library-set-platform`/`library-clear-platform` pick their archive.
#[derive(Debug, Clone, PartialEq, Eq)]
pub enum LibraryTargetSelector {
    /// The persisted archive id.
    Id(i64),
    /// The archive's exact absolute path.
    Path(String),
    /// A free-text query, matched like `library-find`.
    Query(String),
}

/// Exactly one of `--id`, `--path` or a query selects the archive.
pub fn resolve_target_selector(command: &str, id: Option<i64>, path: Option<String>, remaining_query_args: Vec<String>) -> (r: Result<LibraryTargetSelector, String>)
    ensures
        match (id, path) {
            (Some(_), Some(_)) => r matches Err(m) && m@ == "--id and --path cannot both be given"@,
            (Some(i), None) => if remaining_query_args@.len() == 0 {
                r == Ok::<LibraryTargetSelector, String>(LibraryTargetSelector::Id(i))
            } else {
                r matches Err(m) && m@ == command@ + " --id <id> takes no additional query arguments"@
            },
            (None, Some(p)) => if remaining_query_args@.len() == 0 {
                r matches Ok(LibraryTargetSelector::Path(q)) && q == p
            } else {
                r matches Err(m) && m@ == command@ + " --path <path> takes no additional query arguments"@
            },
            (None, None) => if remaining_query_args@.len() == 0 {
                r matches Err(m) && m@ == command@ + " requires a query, --id <id>, or --path <path>"@
            } else {
                r matches Ok(LibraryTargetSelector::Query(q)) && q@ == spec_join(views(remaining_query_args@), " "@)
            },
        },
{
    match (id, path) {
        (Some(_), Some(_)) => Err("--id and --path cannot both be given".to_owned()),
        (Some(id), None) => {
            if remaining_query_args.len() == 0 {
                Ok(LibraryTargetSelector::Id(id))
            } else {
                Err(concat(command, " --id <id> takes no additional query arguments"))
            }
        },
        (None, Some(path)) => {
            if remaining_query_args.len() == 0 {
                Ok(LibraryTargetSelector::Path(path))
            } else {
                Err(concat(command, " --path <path> takes no additional query arguments"))
            }
        },
        (None, None) => {
            if remaining_query_args.len() == 0 {
                Err(concat(command, " requires a query, --id <id>, or --path <path>"))
            } else {
                Ok(LibraryTargetSelector::Query(join(&remaining_query_args, " ")))
            }
        },
    }
}

/// `platform-alias-add [--json] <alias> <platform>`: exactly two positional
/// arguments once every `--json` is taken out.
pub fn parse_platform_alias_add_args(args: Vec<String>) -> (r: Result<(bool, String, String), String>)
    ensures
        ({
            let rest = crate::args::without(args@, "--json"@);
            &&& rest.len() == 2 ==> (r matches Ok((json, alias, platform))
                && json == occurs(args@, "--json"@) && alias == rest[0] && platform == rest[1])
            &&& rest.len() != 2 ==> (r matches Err(m) && m@ ==
                "platform-alias-add requires exactly an alias and a platform, e.g. emuwiz-cli platform-alias-add gc GameCube"@)
        }),
{
    let mut args = args;
    let json = crate::args::extract_flag(&mut args, "--json");
    if args.len() == 2 {
        let platform = args.remove(1);
        let alias = args.remove(0);
        Ok((json, alias, platform))
    } else {
        Err("platform-alias-add requires exactly an alias and a platform, e.g. emuwiz-cli platform-alias-add gc GameCube".to_owned())
    }
}

/// "yes" or "no".
pub fn yes_no(value: bool) -> (r: &'static str)
    ensures
        r@ == if value { "yes"@ } else { "no"@ },
{
    if value { "yes" } else { "no" }
}

/// "<platform> (<source>)" when both are known, otherwise "Unknown".
pub fn format_platform_and_source(platform: Option<&str>, source: Option<&str>) -> (r: String)
    ensures
        match (platform, source) {
            (Some(p), Some(s)) => r@ == p@ + " ("@ + s@ + ")"@,
            _ => r@ == "Unknown"@,
        },
{
    match (platform, source) {
        (Some(platform), Some(source)) => {
            let mut r = concat(platform, " (");
            push_str(&mut r, source);
            push_str(&mut r, ")");
            r
        },
        _ => "Unknown".to_owned(),
    }
}

} // verus!
