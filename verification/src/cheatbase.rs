//! `cheats source cheatbase <command>`: what each command asks of the local
//! CheatBase source. The catalogue does the work; nothing here installs or
//! downloads anything on its own.
use vstd::prelude::*;
use crate::args::{err_view, spec_take_flag, spec_take_number, spec_take_value, take_flag, take_i64, take_value};
use crate::bsfree::{PageArgs, page_options};
use crate::number::{int_error_message, parse_i64, spec_parse_int};
use crate::text::{concat, debug_list, debug_str, push_str, same, spec_debug_list, str_debug};

verus! {

/// What a CheatBase command asks for.
#[derive(Debug, Clone, PartialEq, Eq)]
pub enum CheatBaseRequest {
    Status,
    Validate,
    Download,
    ImportLocal { path: String },
    SetEnabled { enabled: bool },
    Remove { confirmed: bool },
    Systems { page: PageArgs },
    Devices { page: PageArgs },
    Search {
        platform_id: Option<String>,
        /// The title to search for; none means the empty title.
        title: Option<String>,
        region: Option<String>,
        upstream_release_id: Option<i64>,
        page: PageArgs,
    },
    LookupHash {
        /// The algorithm's name as given; the catalogue parses it.
        algorithm: String,
        hash: String,
        platform: Option<String>,
        page: PageArgs,
    },
    LookupSerial {
        serial: String,
        platform: String,
        region: Option<String>,
        page: PageArgs,
    },
    Game { release_id: i64, page: PageArgs },
}

/// A whole `cheats source cheatbase` command line.
#[derive(Debug, Clone, PartialEq, Eq)]
pub struct CheatBaseCommandLine {
    pub json: bool,
    pub root: Option<String>,
    pub request: CheatBaseRequest,
}

/// `"CheatBase <command> does not accept <args:?>"`.
pub open spec fn cheatbase_rejected(command: Seq<char>, rest: Seq<String>) -> Seq<char> {
    "CheatBase "@ + command + " does not accept "@ + spec_debug_list(rest)
}

/// No arguments may be left over.
pub fn reject_extra(args: &Vec<String>, command: &str) -> (r: Result<(), String>)
    ensures
        args@.len() == 0 ==> r is Ok,
        args@.len() > 0 ==> (r matches Err(m) && m@ == cheatbase_rejected(command@, args@)),
{
    if args.len() == 0 {
        Ok(())
    } else {
        let mut m = concat("CheatBase ", command);
        push_str(&mut m, " does not accept ");
        let shown = debug_list(args);
        push_str(&mut m, shown.as_str());
        Err(m)
    }
}

/// `--offset <u32>` then `--limit <u16>`, then nothing else.
pub open spec fn spec_cheatbase_page(s: Seq<String>, command: Seq<char>) -> Result<PageArgs, Seq<char>> {
    let (offset, s1) = spec_take_number(s, "--offset"@, 0, u32::MAX as int);
    let (limit, s2) = spec_take_number(s1, "--limit"@, 0, u16::MAX as int);
    match (offset, limit) {
        (Err(m), _) => Err(m),
        (_, Err(m)) => Err(m),
        (Ok(offset), Ok(limit)) => if s2.len() > 0 {
            Err(cheatbase_rejected(command, s2))
        } else {
            Ok(PageArgs {
                offset: match offset { Some(n) => n as u32, None => 0u32 },
                limit: match limit { Some(n) => Some(n as u16), None => None },
            })
        },
    }
}

fn page_then_reject(args: Vec<String>, command: &str) -> (r: Result<PageArgs, String>)
    ensures
        err_view(r) == spec_cheatbase_page(args@, command@),
{
    let mut args = args;
    let page = page_options(&mut args)?;
    reject_extra(&args, command)?;
    Ok(page)
}

/// A value that must be present.
pub open spec fn required(r: Result<Option<String>, Seq<char>>, missing: Seq<char>) -> Result<String, Seq<char>> {
    match r {
        Err(m) => Err(m),
        Ok(None) => Err(missing),
        Ok(Some(v)) => Ok(v),
    }
}

fn required_value(args: &mut Vec<String>, flag: &str, missing: &str) -> (r: Result<String, String>)
    ensures
        err_view(r) == required(spec_take_value(old(args)@, flag@).0, missing@),
        final(args)@ == spec_take_value(old(args)@, flag@).1,
{
    match take_value(args, flag)? {
        Some(v) => Ok(v),
        None => Err(missing.to_owned()),
    }
}

/// The `search` request the arguments make.
pub open spec fn spec_search(s: Seq<String>) -> Result<CheatBaseRequest, Seq<char>> {
    let (pl, s1) = spec_take_value(s, "--platform"@);
    let (ti, s2) = spec_take_value(s1, "--title"@);
    let (re, s3) = spec_take_value(s2, "--region"@);
    let (ri, s4) = spec_take_number(s3, "--release-id"@, i64::MIN as int, i64::MAX as int);
    match (pl, ti, re, ri) {
        (Err(m), _, _, _) => Err(m),
        (_, Err(m), _, _) => Err(m),
        (_, _, Err(m), _) => Err(m),
        (_, _, _, Err(m)) => Err(m),
        (Ok(platform_id), Ok(title), Ok(region), Ok(release)) =>
            match spec_cheatbase_page(s4, "search"@) {
                Err(m) => Err(m),
                Ok(page) => Ok(CheatBaseRequest::Search {
                    platform_id,
                    title,
                    region,
                    upstream_release_id: match release { Some(n) => Some(n as i64), None => None },
                    page,
                }),
            },
    }
}

fn search_args(args: Vec<String>) -> (r: Result<CheatBaseRequest, String>)
    ensures
        err_view(r) == spec_search(args@),
{
    let mut args = args;
    let platform_id = take_value(&mut args, "--platform")?;
    let title = take_value(&mut args, "--title")?;
    let region = take_value(&mut args, "--region")?;
    let upstream_release_id = take_i64(&mut args, "--release-id")?;
    let page = page_then_reject(args, "search")?;
    Ok(CheatBaseRequest::Search { platform_id, title, region, upstream_release_id, page })
}

/// The `lookup-hash` request the arguments make.
pub open spec fn spec_lookup_hash(s: Seq<String>) -> Result<CheatBaseRequest, Seq<char>> {
    let (al, s1) = spec_take_value(s, "--algorithm"@);
    let (ha, s2) = spec_take_value(s1, "--hash"@);
    let (pl, s3) = spec_take_value(s2, "--platform"@);
    match (required(al, "lookup-hash requires --algorithm"@), required(ha, "lookup-hash requires --hash"@), pl) {
        (Err(m), _, _) => Err(m),
        (_, Err(m), _) => Err(m),
        (_, _, Err(m)) => Err(m),
        (Ok(algorithm), Ok(hash), Ok(platform)) => match spec_cheatbase_page(s3, "lookup-hash"@) {
            Err(m) => Err(m),
            Ok(page) => Ok(CheatBaseRequest::LookupHash { algorithm, hash, platform, page }),
        },
    }
}

fn lookup_hash_args(args: Vec<String>) -> (r: Result<CheatBaseRequest, String>)
    ensures
        err_view(r) == spec_lookup_hash(args@),
{
    let mut args = args;
    let algorithm = required_value(&mut args, "--algorithm", "lookup-hash requires --algorithm")?;
    let hash = required_value(&mut args, "--hash", "lookup-hash requires --hash")?;
    let platform = take_value(&mut args, "--platform")?;
    let page = page_then_reject(args, "lookup-hash")?;
    Ok(CheatBaseRequest::LookupHash { algorithm, hash, platform, page })
}

/// The `lookup-serial` request the arguments make.
pub open spec fn spec_lookup_serial(s: Seq<String>) -> Result<CheatBaseRequest, Seq<char>> {
    let (se, s1) = spec_take_value(s, "--serial"@);
    let (pl, s2) = spec_take_value(s1, "--platform"@);
    let (re, s3) = spec_take_value(s2, "--region"@);
    match (required(se, "lookup-serial requires --serial"@), required(pl, "lookup-serial requires --platform"@), re) {
        (Err(m), _, _) => Err(m),
        (_, Err(m), _) => Err(m),
        (_, _, Err(m)) => Err(m),
        (Ok(serial), Ok(platform), Ok(region)) => match spec_cheatbase_page(s3, "lookup-serial"@) {
            Err(m) => Err(m),
            Ok(page) => Ok(CheatBaseRequest::LookupSerial { serial, platform, region, page }),
        },
    }
}

fn lookup_serial_args(args: Vec<String>) -> (r: Result<CheatBaseRequest, String>)
    ensures
        err_view(r) == spec_lookup_serial(args@),
{
    let mut args = args;
    let serial = required_value(&mut args, "--serial", "lookup-serial requires --serial")?;
    let platform = required_value(&mut args, "--platform", "lookup-serial requires --platform")?;
    let region = take_value(&mut args, "--region")?;
    let page = page_then_reject(args, "lookup-serial")?;
    Ok(CheatBaseRequest::LookupSerial { serial, platform, region, page })
}

/// The `game <release-id>` request the arguments make.
pub open spec fn spec_game(s: Seq<String>) -> Result<CheatBaseRequest, Seq<char>> {
    if s.len() == 0 {
        Err("game requires an upstream release ID"@)
    } else {
        match spec_parse_int(s[0]@, i64::MIN as int, i64::MAX as int) {
            Err(kind) => Err(int_error_message(kind)),
            Ok(id) => match spec_cheatbase_page(s.drop_first(), "game"@) {
                Err(m) => Err(m),
                Ok(page) => Ok(CheatBaseRequest::Game { release_id: id as i64, page }),
            },
        }
    }
}

fn game_args(args: Vec<String>) -> (r: Result<CheatBaseRequest, String>)
    ensures
        err_view(r) == spec_game(args@),
{
    let mut args = args;
    if args.len() == 0 {
        return Err("game requires an upstream release ID".to_owned());
    }
    let first = args.remove(0);
    let release_id = match parse_i64(first.as_str()) {
        Ok(n) => n,
        Err(kind) => return Err(kind.message()),
    };
    let page = page_then_reject(args, "game")?;
    Ok(CheatBaseRequest::Game { release_id, page })
}

/// Nothing may follow the command word.
pub open spec fn spec_bare(s: Seq<String>, command: Seq<char>, request: CheatBaseRequest) -> Result<CheatBaseRequest, Seq<char>> {
    if s.len() > 0 { Err(cheatbase_rejected(command, s)) } else { Ok(request) }
}

/// What the command word `command` with arguments `s` asks for.
pub open spec fn spec_cheatbase_request(command: Seq<char>, s: Seq<String>) -> Result<CheatBaseRequest, Seq<char>> {
    if command == "status"@ {
        spec_bare(s, "status"@, CheatBaseRequest::Status)
    } else if command == "validate"@ {
        spec_bare(s, "validate"@, CheatBaseRequest::Validate)
    } else if command == "download"@ {
        spec_bare(s, "download"@, CheatBaseRequest::Download)
    } else if command == "import-local"@ {
        if s.len() != 1 {
            Err("import-local requires exactly one SQLite path"@)
        } else {
            Ok(CheatBaseRequest::ImportLocal { path: s[0] })
        }
    } else if command == "enable"@ || command == "disable"@ {
        spec_bare(s, command, CheatBaseRequest::SetEnabled { enabled: command == "enable"@ })
    } else if command == "remove"@ {
        let (confirmed, t) = spec_take_flag(s, "--confirm"@);
        spec_bare(t, "remove"@, CheatBaseRequest::Remove { confirmed })
    } else if command == "systems"@ {
        match spec_cheatbase_page(s, "systems"@) {
            Err(m) => Err(m),
            Ok(page) => Ok(CheatBaseRequest::Systems { page }),
        }
    } else if command == "devices"@ {
        match spec_cheatbase_page(s, "devices"@) {
            Err(m) => Err(m),
            Ok(page) => Ok(CheatBaseRequest::Devices { page }),
        }
    } else if command == "search"@ {
        spec_search(s)
    } else if command == "lookup-hash"@ {
        spec_lookup_hash(s)
    } else if command == "lookup-serial"@ {
        spec_lookup_serial(s)
    } else if command == "game"@ {
        spec_game(s)
    } else {
        Err("unknown CheatBase command "@ + str_debug(command))
    }
}

fn bare(args: &Vec<String>, command: &str, request: CheatBaseRequest) -> (r: Result<CheatBaseRequest, String>)
    ensures
        err_view(r) == spec_bare(args@, command@, request),
{
    reject_extra(args, command)?;
    Ok(request)
}

/// What the command word asks for, given the arguments after it.
pub fn cheatbase_request(command: &String, args: Vec<String>) -> (r: Result<CheatBaseRequest, String>)
    ensures
        err_view(r) == spec_cheatbase_request(command@, args@),
{
    let mut args = args;
    if same(command, "status") {
        bare(&args, "status", CheatBaseRequest::Status)
    } else if same(command, "validate") {
        bare(&args, "validate", CheatBaseRequest::Validate)
    } else if same(command, "download") {
        bare(&args, "download", CheatBaseRequest::Download)
    } else if same(command, "import-local") {
        if args.len() != 1 {
            Err("import-local requires exactly one SQLite path".to_owned())
        } else {
            Ok(CheatBaseRequest::ImportLocal { path: args.remove(0) })
        }
    } else if same(command, "enable") || same(command, "disable") {
        let enabled = same(command, "enable");
        bare(&args, command.as_str(), CheatBaseRequest::SetEnabled { enabled })
    } else if same(command, "remove") {
        let confirmed = take_flag(&mut args, "--confirm");
        bare(&args, "remove", CheatBaseRequest::Remove { confirmed })
    } else if same(command, "systems") {
        let page = page_then_reject(args, "systems")?;
        Ok(CheatBaseRequest::Systems { page })
    } else if same(command, "devices") {
        let page = page_then_reject(args, "devices")?;
        Ok(CheatBaseRequest::Devices { page })
    } else if same(command, "search") {
        search_args(args)
    } else if same(command, "lookup-hash") {
        lookup_hash_args(args)
    } else if same(command, "lookup-serial") {
        lookup_serial_args(args)
    } else if same(command, "game") {
        game_args(args)
    } else {
        let shown = debug_str(command.as_str());
        Err(concat("unknown CheatBase command ", shown.as_str()))
    }
}

/// The whole command line: `--json` (first occurrence) and `--root <path>`
/// are taken first, then the command word and its arguments.
pub open spec fn spec_cheatbase_run(s: Seq<String>) -> Result<CheatBaseCommandLine, Seq<char>> {
    let (json, s1) = spec_take_flag(s, "--json"@);
    let (root, s2) = spec_take_value(s1, "--root"@);
    match root {
        Err(m) => Err(m),
        Ok(root) => if s2.len() == 0 {
            Err("cheats source cheatbase requires a command"@)
        } else {
            match spec_cheatbase_request(s2[0]@, s2.drop_first()) {
                Err(m) => Err(m),
                Ok(request) => Ok(CheatBaseCommandLine { json, root, request }),
            }
        },
    }
}

/// `cheats source cheatbase [--json] [--root <dir>] <command> ...`: the
/// request, or the message the command fails with before the source is
/// touched.
pub fn run(args: Vec<String>) -> (r: Result<CheatBaseCommandLine, String>)
    ensures
        err_view(r) == spec_cheatbase_run(args@),
{
    let mut args = args;
    let json = take_flag(&mut args, "--json");
    let root = take_value(&mut args, "--root")?;
    if args.len() == 0 {
        return Err("cheats source cheatbase requires a command".to_owned());
    }
    let command = args.remove(0);
    let request = cheatbase_request(&command, args)?;
    Ok(CheatBaseCommandLine { json, root, request })
}

} // verus!
