//! `cheats source bsfree <command>`: what each command asks of the BSFree
//! Archive source, the Dolphin install guards, and how a cheat's install
//! capability is described.
//!
//! The catalogue, the Dolphin adapter and the shared transaction layer do
//! the work; the functions here decide what is asked of them.
use vstd::prelude::*;
use crate::args::{err_view, number_view, spec_take_flag, spec_take_number, spec_take_value, take_flag, take_i64, take_u16, take_u32, take_value};
use crate::number::{int_error_message, parse_i64, spec_parse_int};
use crate::text::{is_alphanumeric, pieces, push_char, split_on, to_lowercase, trim, trim_end_ws, trim_start_ws, unicode_alphanumeric, unicode_lowercase, views, chars_of, concat, debug_list, debug_str, push_str, same, spec_debug_list, str_debug, signed_decimal, signed_text};

verus! {

/// The arguments of a listing page: an offset and, when given, a limit.
#[derive(Debug, Clone, Copy, PartialEq, Eq, Structural)]
pub struct PageArgs {
    pub offset: u32,
    pub limit: Option<u16>,
}

/// Which Dolphin platform an install command is for.
#[derive(Debug, Clone, Copy, PartialEq, Eq, Structural)]
pub enum DolphinPlatform {
    GameCube,
    Wii,
}

/// The arguments of `gamecube-preview`, `gamecube-apply`, `wii-preview` and
/// `wii-apply`.
#[derive(Debug, Clone, PartialEq, Eq)]
pub struct InstallArgs {
    pub archive: String,
    pub game_id: String,
    pub revision: Option<u16>,
    pub configuration_path: String,
    pub upstream_uid: i64,
    pub staging_root: String,
    pub history_root: String,
    pub backup_root: String,
    pub select: Option<String>,
    pub select_all: bool,
    pub confirmed: bool,
    pub title: Option<String>,
}

/// What a BSFree command asks for.
#[derive(Debug, Clone, PartialEq, Eq)]
pub enum BsFreeRequest {
    Status,
    Validate,
    Download,
    ImportLocal { path: String },
    SetEnabled { enabled: bool },
    Remove { confirmed: bool },
    Systems { page: PageArgs },
    Devices { page: PageArgs },
    Search {
        platform_id: Option<String>,
        /// The title to search for; none means the empty title.
        title: Option<String>,
        version: Option<String>,
        device_id: Option<i64>,
        upstream_game_id: Option<i64>,
        page: PageArgs,
    },
    Game { upstream_uid: i64, page: PageArgs },
    Install { platform: DolphinPlatform, apply: bool, args: InstallArgs },
    Rollback {
        journal: String,
        configuration_path: String,
        backup_root: String,
        history_root: String,
        confirmed: bool,
    },
}

/// A whole `cheats source bsfree` command line.
#[derive(Debug, Clone, PartialEq, Eq)]
pub struct BsFreeCommandLine {
    pub json: bool,
    pub root: String,
    pub request: BsFreeRequest,
}

/// Where the default folders are, as looked up before the command line is
/// read: the BSFree source folder and the shared install history and backup
/// folders, each the folder or the message its lookup failed with. A command
/// uses one only where its flag is absent, at the point the flag is read.
#[derive(Debug, PartialEq, Eq)]
pub struct DefaultRoots {
    pub source_root: Result<String, String>,
    pub history_root: Result<String, String>,
    pub backup_root: Result<String, String>,
}

/// A folder given by a flag, else the default, else the default's failure.
pub open spec fn spec_resolve(given: Option<String>, default: Result<String, String>) -> Result<String, Seq<char>> {
    match given {
        Some(p) => Ok(p),
        None => err_view(default),
    }
}

fn resolve_root(given: Option<String>, default: Result<String, String>) -> (r: Result<String, String>)
    ensures
        err_view(r) == spec_resolve(given, default),
{
    match given {
        Some(p) => Ok(p),
        None => default,
    }
}

/// `"BSFree <command> does not accept <args:?>"`.
pub open spec fn rejected_message(command: Seq<char>, rest: Seq<String>) -> Seq<char> {
    "BSFree "@ + command + " does not accept "@ + spec_debug_list(rest)
}

/// No arguments may be left over.
pub fn reject_extra(args: &Vec<String>, command: &str) -> (r: Result<(), String>)
    ensures
        args@.len() == 0 ==> r is Ok,
        args@.len() > 0 ==> (r matches Err(m) && m@ == rejected_message(command@, args@)),
{
    if args.len() == 0 {
        Ok(())
    } else {
        let mut m = concat("BSFree ", command);
        push_str(&mut m, " does not accept ");
        let shown = debug_list(args);
        push_str(&mut m, shown.as_str());
        Err(m)
    }
}

/// A value that must be present.
pub open spec fn need(r: Result<Option<String>, Seq<char>>, missing: Seq<char>) -> Result<String, Seq<char>> {
    match r {
        Err(m) => Err(m),
        Ok(None) => Err(missing),
        Ok(Some(v)) => Ok(v),
    }
}

/// `--offset <u32>` then `--limit <u16>`, then nothing else.
pub open spec fn spec_page_then_reject(s: Seq<String>, command: Seq<char>) -> Result<PageArgs, Seq<char>> {
    let (offset, s1) = spec_take_number(s, "--offset"@, 0, u32::MAX as int);
    let (limit, s2) = spec_take_number(s1, "--limit"@, 0, u16::MAX as int);
    match (offset, limit) {
        (Err(m), _) => Err(m),
        (_, Err(m)) => Err(m),
        (Ok(offset), Ok(limit)) => if s2.len() > 0 {
            Err(rejected_message(command, s2))
        } else {
            Ok(PageArgs {
                offset: match offset { Some(n) => n as u32, None => 0u32 },
                limit: match limit { Some(n) => Some(n as u16), None => None },
            })
        },
    }
}

/// Takes the page arguments and the rest of the arguments.
pub fn page_options(args: &mut Vec<String>) -> (r: Result<PageArgs, String>)
    ensures
        ({
            let (offset, s1) = spec_take_number(old(args)@, "--offset"@, 0, u32::MAX as int);
            let (limit, s2) = spec_take_number(s1, "--limit"@, 0, u16::MAX as int);
            &&& offset is Err ==> (r matches Err(m) && offset == Err::<Option<int>, Seq<char>>(m@))
            &&& offset is Ok ==> (limit is Err ==> (r matches Err(m) && limit == Err::<Option<int>, Seq<char>>(m@)))
            &&& (offset is Ok && limit is Ok) ==> final(args)@ == s2 && (r matches Ok(p)
                && p.offset == match offset { Ok(Some(n)) => n as u32, _ => 0u32 }
                && p.limit == match limit { Ok(Some(n)) => Some(n as u16), _ => None::<u16> })
        }),
{
    let offset = match take_u32(args, "--offset")? {
        Some(n) => n,
        None => 0,
    };
    let limit = take_u16(args, "--limit")?;
    Ok(PageArgs { offset, limit })
}

fn page_then_reject(args: Vec<String>, command: &str) -> (r: Result<PageArgs, String>)
    ensures
        err_view(r) == spec_page_then_reject(args@, command@),
{
    let mut args = args;
    let page = page_options(&mut args)?;
    reject_extra(&args, command)?;
    Ok(page)
}

/// A Dolphin Game ID: exactly six ASCII upper-case letters or digits.
pub open spec fn is_dolphin_game_id(g: Seq<char>) -> bool {
    g.len() == 6 && forall|i: int| 0 <= i < 6 ==> ('A' <= #[trigger] g[i] && g[i] <= 'Z') || ('0' <= g[i] && g[i] <= '9')
}

/// Whether `game_id` is an exact six-character Dolphin Game ID.
pub fn is_valid_game_id(game_id: &str) -> (r: bool)
    ensures
        r == is_dolphin_game_id(game_id@),
{
    let cs = chars_of(game_id);
    if cs.len() != 6 {
        return false;
    }
    let mut k: usize = 0;
    while k < 6
        invariant
            k <= 6,
            cs@.len() == 6,
            cs@ == game_id@,
            forall|i: int| 0 <= i < k ==> ('A' <= #[trigger] cs@[i] && cs@[i] <= 'Z') || ('0' <= cs@[i] && cs@[i] <= '9'),
        decreases 6 - k,
    {
        let c = cs[k];
        if !(('A' <= c && c <= 'Z') || ('0' <= c && c <= '9')) {
            return false;
        }
        k = k + 1;
    }
    true
}

/// The word install messages start with: "gamecube" or "wii".
pub open spec fn platform_word(p: DolphinPlatform) -> Seq<char> {
    match p {
        DolphinPlatform::GameCube => "gamecube"@,
        DolphinPlatform::Wii => "wii"@,
    }
}

/// The name of an install command.
pub open spec fn install_command(p: DolphinPlatform, apply: bool) -> Seq<char> {
    match (p, apply) {
        (DolphinPlatform::GameCube, true) => "gamecube-apply"@,
        (DolphinPlatform::GameCube, false) => "gamecube-preview"@,
        (DolphinPlatform::Wii, true) => "wii-apply"@,
        (DolphinPlatform::Wii, false) => "wii-preview"@,
    }
}

/// An install message: the platform word, then the rest of the text.
pub open spec fn install_missing(p: DolphinPlatform, rest: Seq<char>) -> Seq<char> {
    platform_word(p) + rest
}

/// A number that must be present.
pub open spec fn need_number(r: Result<Option<int>, Seq<char>>, missing: Seq<char>) -> Result<int, Seq<char>> {
    match r {
        Err(m) => Err(m),
        Ok(None) => Err(missing),
        Ok(Some(v)) => Ok(v),
    }
}

/// The required install arguments, in the order they are taken, and the
/// arguments they leave.
pub open spec fn spec_install_head(s: Seq<String>, p: DolphinPlatform) -> Result<(String, String, Option<int>, String, int, String, Seq<String>), Seq<char>> {
    let (a, s1) = spec_take_value(s, "--archive"@);
    let (g, s2) = spec_take_value(s1, "--game-id"@);
    let (rv, s3) = spec_take_number(s2, "--revision"@, 0, u16::MAX as int);
    let (c, s4) = spec_take_value(s3, "--configuration-path"@);
    let (u, s5) = spec_take_number(s4, "--bsfree-game"@, i64::MIN as int, i64::MAX as int);
    let (st, s6) = spec_take_value(s5, "--staging-root"@);
    let na = need(a, install_missing(p, " preview/apply requires --archive <selected-game-path>"@));
    let ng = need(g, install_missing(p, " preview/apply requires --game-id <six-character Game ID>"@));
    let nc = need(c, install_missing(p, " preview/apply requires --configuration-path <dolphin-profile-config>"@));
    let nu = need_number(u, install_missing(p, " preview/apply requires --bsfree-game <upstream UID>"@));
    let ns = need(st, install_missing(p, " preview/apply requires --staging-root <managed-staging-dir>"@));
    match (na, ng, rv, nc, nu, ns) {
        (Err(m), _, _, _, _, _) => Err(m),
        (_, Err(m), _, _, _, _) => Err(m),
        (_, _, Err(m), _, _, _) => Err(m),
        (_, _, _, Err(m), _, _) => Err(m),
        (_, _, _, _, Err(m), _) => Err(m),
        (_, _, _, _, _, Err(m)) => Err(m),
        (Ok(archive), Ok(game_id), Ok(revision), Ok(config), Ok(uid), Ok(staging)) =>
            Ok((archive, game_id, revision, config, uid, staging, s6)),
    }
}

/// The optional install arguments taken from what the required ones leave;
/// each root falls back to its default as soon as its flag is found absent.
pub open spec fn spec_install_tail(s6: Seq<String>, hd: Result<String, String>, bd: Result<String, String>) -> Result<(String, String, Option<String>, bool, bool, Option<String>, Seq<String>), Seq<char>> {
    let (h, s7) = spec_take_value(s6, "--history-root"@);
    match h {
        Err(m) => Err(m),
        Ok(h) => match spec_resolve(h, hd) {
            Err(m) => Err(m),
            Ok(history_root) => {
                let (b, s8) = spec_take_value(s7, "--backup-root"@);
                match b {
                    Err(m) => Err(m),
                    Ok(b) => match spec_resolve(b, bd) {
                        Err(m) => Err(m),
                        Ok(backup_root) => {
                            let (se, s9) = spec_take_value(s8, "--select"@);
                            let (sa, s10) = spec_take_flag(s9, "--select-all"@);
                            let (cf, s11) = spec_take_flag(s10, "--confirm"@);
                            let (t, s12) = spec_take_value(s11, "--title"@);
                            match (se, t) {
                                (Err(m), _) => Err(m),
                                (_, Err(m)) => Err(m),
                                (Ok(select), Ok(title)) => Ok((history_root, backup_root, select, sa, cf, title, s12)),
                            }
                        },
                    },
                }
            },
        },
    }
}

/// The install request the arguments make: each flag taken in turn (the
/// first occurrence of each), nothing may be left, and the Game ID must be
/// a Dolphin Game ID.
pub open spec fn spec_install_args(s: Seq<String>, p: DolphinPlatform, apply: bool, hd: Result<String, String>, bd: Result<String, String>) -> Result<InstallArgs, Seq<char>> {
    match spec_install_head(s, p) {
        Err(m) => Err(m),
        Ok((archive, game_id, revision, configuration_path, upstream_uid, staging_root, s6)) =>
            match spec_install_tail(s6, hd, bd) {
                Err(m) => Err(m),
                Ok((history_root, backup_root, select, select_all, confirmed, title, s12)) =>
                    if s12.len() > 0 {
                        Err(rejected_message(install_command(p, apply), s12))
                    } else if !is_dolphin_game_id(game_id@) {
                        Err("game-id must be an exact six-character Dolphin Game ID"@)
                    } else {
                        Ok(InstallArgs {
                            archive,
                            game_id,
                            revision: match revision { Some(n) => Some(n as u16), None => None },
                            configuration_path,
                            upstream_uid: upstream_uid as i64,
                            staging_root,
                            history_root,
                            backup_root,
                            select,
                            select_all,
                            confirmed,
                            title,
                        })
                    },
            },
    }
}

fn required_value(args: &mut Vec<String>, flag: &str, missing: &str) -> (r: Result<String, String>)
    ensures
        err_view(r) == need(spec_take_value(old(args)@, flag@).0, missing@),
        final(args)@ == spec_take_value(old(args)@, flag@).1,
{
    match take_value(args, flag)? {
        Some(v) => Ok(v),
        None => Err(missing.to_owned()),
    }
}

/// Takes the install arguments for `platform`; `apply` selects the command
/// name used when arguments are left over.
pub fn install_args(
    args: Vec<String>,
    platform: DolphinPlatform,
    apply: bool,
    history_default: Result<String, String>,
    backup_default: Result<String, String>,
) -> (r: Result<InstallArgs, String>)
    ensures
        err_view(r) == spec_install_args(args@, platform, apply, history_default, backup_default),
{
    proof {
        reveal_strlit("gamecube");
        reveal_strlit("wii");
    }
    let mut args = args;
    let word = match platform {
        DolphinPlatform::GameCube => "gamecube",
        DolphinPlatform::Wii => "wii",
    };
    let archive = required_value(&mut args, "--archive", concat(word, " preview/apply requires --archive <selected-game-path>").as_str())?;
    let game_id = required_value(&mut args, "--game-id", concat(word, " preview/apply requires --game-id <six-character Game ID>").as_str())?;
    let revision = take_u16(&mut args, "--revision")?;
    let configuration_path = required_value(&mut args, "--configuration-path",
        concat(word, " preview/apply requires --configuration-path <dolphin-profile-config>").as_str())?;
    let upstream_uid = match take_i64(&mut args, "--bsfree-game")? {
        Some(n) => n,
        None => return Err(concat(word, " preview/apply requires --bsfree-game <upstream UID>")),
    };
    let staging_root = required_value(&mut args, "--staging-root", concat(word, " preview/apply requires --staging-root <managed-staging-dir>").as_str())?;
    let history_root = resolve_root(take_value(&mut args, "--history-root")?, history_default)?;
    let backup_root = resolve_root(take_value(&mut args, "--backup-root")?, backup_default)?;
    let select = take_value(&mut args, "--select")?;
    let select_all = take_flag(&mut args, "--select-all");
    let confirmed = take_flag(&mut args, "--confirm");
    let title = take_value(&mut args, "--title")?;
    let command = match (platform, apply) {
        (DolphinPlatform::GameCube, true) => "gamecube-apply",
        (DolphinPlatform::GameCube, false) => "gamecube-preview",
        (DolphinPlatform::Wii, true) => "wii-apply",
        (DolphinPlatform::Wii, false) => "wii-preview",
    };
    reject_extra(&args, command)?;
    if !is_valid_game_id(game_id.as_str()) {
        return Err("game-id must be an exact six-character Dolphin Game ID".to_owned());
    }
    Ok(InstallArgs {
        archive,
        game_id,
        revision,
        configuration_path,
        upstream_uid,
        staging_root,
        history_root,
        backup_root,
        select,
        select_all,
        confirmed,
        title,
    })
}

/// The rollback request the arguments make; the backup root, then the
/// history root, falls back to its default as soon as its flag is found
/// absent.
pub open spec fn spec_rollback_args(s: Seq<String>, bd: Result<String, String>, hd: Result<String, String>) -> Result<BsFreeRequest, Seq<char>> {
    let (j, s1) = spec_take_value(s, "--journal"@);
    match need(j, "bsfree-rollback requires --journal <operation-journal-json>"@) {
        Err(m) => Err(m),
        Ok(journal) => {
            let (c, s2) = spec_take_value(s1, "--configuration-path"@);
            match need(c, "bsfree-rollback requires --configuration-path <dolphin-profile-config>"@) {
                Err(m) => Err(m),
                Ok(configuration_path) => {
                    let (b, s3) = spec_take_value(s2, "--backup-root"@);
                    match b {
                        Err(m) => Err(m),
                        Ok(b) => match spec_resolve(b, bd) {
                            Err(m) => Err(m),
                            Ok(backup_root) => {
                                let (h, s4) = spec_take_value(s3, "--history-root"@);
                                match h {
                                    Err(m) => Err(m),
                                    Ok(h) => match spec_resolve(h, hd) {
                                        Err(m) => Err(m),
                                        Ok(history_root) => {
                                            let (cf, s5) = spec_take_flag(s4, "--confirm"@);
                                            if s5.len() > 0 {
                                                Err(rejected_message("bsfree-rollback"@, s5))
                                            } else {
                                                Ok(BsFreeRequest::Rollback { journal, configuration_path, backup_root, history_root, confirmed: cf })
                                            }
                                        },
                                    },
                                }
                            },
                        },
                    }
                },
            }
        },
    }
}

fn rollback_args(args: Vec<String>, backup_default: Result<String, String>, history_default: Result<String, String>) -> (r: Result<BsFreeRequest, String>)
    ensures
        err_view(r) == spec_rollback_args(args@, backup_default, history_default),
{
    let mut args = args;
    let journal = required_value(&mut args, "--journal", "bsfree-rollback requires --journal <operation-journal-json>")?;
    let configuration_path = required_value(&mut args, "--configuration-path",
        "bsfree-rollback requires --configuration-path <dolphin-profile-config>")?;
    let backup_root = resolve_root(take_value(&mut args, "--backup-root")?, backup_default)?;
    let history_root = resolve_root(take_value(&mut args, "--history-root")?, history_default)?;
    let confirmed = take_flag(&mut args, "--confirm");
    reject_extra(&args, "bsfree-rollback")?;
    Ok(BsFreeRequest::Rollback { journal, configuration_path, backup_root, history_root, confirmed })
}

/// The search request the arguments make.
pub open spec fn spec_search_args(s: Seq<String>) -> Result<BsFreeRequest, Seq<char>> {
    let (pl, s1) = spec_take_value(s, "--platform"@);
    let (ti, s2) = spec_take_value(s1, "--title"@);
    let (ve, s3) = spec_take_value(s2, "--version"@);
    let (de, s4) = spec_take_number(s3, "--device"@, i64::MIN as int, i64::MAX as int);
    let (gi, s5) = spec_take_number(s4, "--game-id"@, i64::MIN as int, i64::MAX as int);
    match (pl, ti, ve, de, gi) {
        (Err(m), _, _, _, _) => Err(m),
        (_, Err(m), _, _, _) => Err(m),
        (_, _, Err(m), _, _) => Err(m),
        (_, _, _, Err(m), _) => Err(m),
        (_, _, _, _, Err(m)) => Err(m),
        (Ok(platform_id), Ok(title), Ok(version), Ok(device), Ok(game)) =>
            match spec_page_then_reject(s5, "search"@) {
                Err(m) => Err(m),
                Ok(page) => Ok(BsFreeRequest::Search {
                    platform_id,
                    title,
                    version,
                    device_id: match device { Some(n) => Some(n as i64), None => None },
                    upstream_game_id: match game { Some(n) => Some(n as i64), None => None },
                    page,
                }),
            },
    }
}

fn search_args(args: Vec<String>) -> (r: Result<BsFreeRequest, String>)
    ensures
        err_view(r) == spec_search_args(args@),
{
    let mut args = args;
    let platform_id = take_value(&mut args, "--platform")?;
    let title = take_value(&mut args, "--title")?;
    let version = take_value(&mut args, "--version")?;
    let device_id = take_i64(&mut args, "--device")?;
    let upstream_game_id = take_i64(&mut args, "--game-id")?;
    let page = page_then_reject(args, "search")?;
    Ok(BsFreeRequest::Search { platform_id, title, version, device_id, upstream_game_id, page })
}

/// The `game <uid>` request the arguments make.
pub open spec fn spec_game_args(s: Seq<String>) -> Result<BsFreeRequest, Seq<char>> {
    if s.len() == 0 {
        Err("game requires an upstream UID"@)
    } else {
        match spec_parse_int(s[0]@, i64::MIN as int, i64::MAX as int) {
            Err(kind) => Err(int_error_message(kind)),
            Ok(uid) => match spec_page_then_reject(s.drop_first(), "game"@) {
                Err(m) => Err(m),
                Ok(page) => Ok(BsFreeRequest::Game { upstream_uid: uid as i64, page }),
            },
        }
    }
}

fn game_args(args: Vec<String>) -> (r: Result<BsFreeRequest, String>)
    ensures
        err_view(r) == spec_game_args(args@),
{
    let mut args = args;
    if args.len() == 0 {
        return Err("game requires an upstream UID".to_owned());
    }
    let first = args.remove(0);
    let upstream_uid = match parse_i64(first.as_str()) {
        Ok(n) => n,
        Err(kind) => return Err(kind.message()),
    };
    let page = page_then_reject(args, "game")?;
    Ok(BsFreeRequest::Game { upstream_uid, page })
}

/// Nothing may follow the command word.
pub open spec fn spec_no_args(s: Seq<String>, command: Seq<char>, request: BsFreeRequest) -> Result<BsFreeRequest, Seq<char>> {
    if s.len() > 0 { Err(rejected_message(command, s)) } else { Ok(request) }
}

/// What the command word `command` with arguments `s` asks for, given where
/// the default install history and backup folders are.
pub open spec fn spec_request(command: Seq<char>, s: Seq<String>, hd: Result<String, String>, bd: Result<String, String>) -> Result<BsFreeRequest, Seq<char>> {
    if command == "status"@ {
        spec_no_args(s, "status"@, BsFreeRequest::Status)
    } else if command == "validate"@ {
        spec_no_args(s, "validate"@, BsFreeRequest::Validate)
    } else if command == "download"@ {
        spec_no_args(s, "download"@, BsFreeRequest::Download)
    } else if command == "import-local"@ {
        if s.len() != 1 {
            Err("import-local requires exactly one database path"@)
        } else {
            Ok(BsFreeRequest::ImportLocal { path: s[0] })
        }
    } else if command == "enable"@ || command == "disable"@ {
        spec_no_args(s, command, BsFreeRequest::SetEnabled { enabled: command == "enable"@ })
    } else if command == "remove"@ {
        let (confirmed, t) = spec_take_flag(s, "--confirm"@);
        spec_no_args(t, "remove"@, BsFreeRequest::Remove { confirmed })
    } else if command == "systems"@ {
        match spec_page_then_reject(s, "systems"@) {
            Err(m) => Err(m),
            Ok(page) => Ok(BsFreeRequest::Systems { page }),
        }
    } else if command == "devices"@ {
        match spec_page_then_reject(s, "devices"@) {
            Err(m) => Err(m),
            Ok(page) => Ok(BsFreeRequest::Devices { page }),
        }
    } else if command == "search"@ {
        spec_search_args(s)
    } else if command == "game"@ {
        spec_game_args(s)
    } else if command == "gamecube-preview"@ || command == "gamecube-apply"@
        || command == "wii-preview"@ || command == "wii-apply"@ {
        let platform = if command == "gamecube-preview"@ || command == "gamecube-apply"@ {
            DolphinPlatform::GameCube
        } else {
            DolphinPlatform::Wii
        };
        let apply = command == "gamecube-apply"@ || command == "wii-apply"@;
        match spec_install_args(s, platform, apply, hd, bd) {
            Err(m) => Err(m),
            Ok(args) => Ok(BsFreeRequest::Install { platform, apply, args }),
        }
    } else if command == "gamecube-rollback"@ || command == "wii-rollback"@ {
        spec_rollback_args(s, bd, hd)
    } else {
        Err("unknown BSFree command "@ + str_debug(command))
    }
}

fn no_args(args: &Vec<String>, command: &str, request: BsFreeRequest) -> (r: Result<BsFreeRequest, String>)
    ensures
        err_view(r) == spec_no_args(args@, command@, request),
{
    reject_extra(args, command)?;
    Ok(request)
}

/// What the command word asks for, given the arguments after it.
pub fn request(
    command: &String,
    args: Vec<String>,
    history_default: Result<String, String>,
    backup_default: Result<String, String>,
) -> (r: Result<BsFreeRequest, String>)
    ensures
        err_view(r) == spec_request(command@, args@, history_default, backup_default),
{
    let mut args = args;
    if same(command, "status") {
        no_args(&args, "status", BsFreeRequest::Status)
    } else if same(command, "validate") {
        no_args(&args, "validate", BsFreeRequest::Validate)
    } else if same(command, "download") {
        no_args(&args, "download", BsFreeRequest::Download)
    } else if same(command, "import-local") {
        if args.len() != 1 {
            Err("import-local requires exactly one database path".to_owned())
        } else {
            Ok(BsFreeRequest::ImportLocal { path: args.remove(0) })
        }
    } else if same(command, "enable") || same(command, "disable") {
        let enabled = same(command, "enable");
        no_args(&args, command.as_str(), BsFreeRequest::SetEnabled { enabled })
    } else if same(command, "remove") {
        let confirmed = take_flag(&mut args, "--confirm");
        no_args(&args, "remove", BsFreeRequest::Remove { confirmed })
    } else if same(command, "systems") {
        let page = page_then_reject(args, "systems")?;
        Ok(BsFreeRequest::Systems { page })
    } else if same(command, "devices") {
        let page = page_then_reject(args, "devices")?;
        Ok(BsFreeRequest::Devices { page })
    } else if same(command, "search") {
        search_args(args)
    } else if same(command, "game") {
        game_args(args)
    } else if same(command, "gamecube-preview") || same(command, "gamecube-apply")
        || same(command, "wii-preview") || same(command, "wii-apply") {
        let platform = if same(command, "gamecube-preview") || same(command, "gamecube-apply") {
            DolphinPlatform::GameCube
        } else {
            DolphinPlatform::Wii
        };
        let apply = same(command, "gamecube-apply") || same(command, "wii-apply");
        let parsed = install_args(args, platform, apply, history_default, backup_default)?;
        Ok(BsFreeRequest::Install { platform, apply, args: parsed })
    } else if same(command, "gamecube-rollback") || same(command, "wii-rollback") {
        rollback_args(args, backup_default, history_default)
    } else {
        let shown = debug_str(command.as_str());
        Err(concat("unknown BSFree command ", shown.as_str()))
    }
}

/// The whole command line: `--json` (first occurrence) and `--root <path>`
/// are taken first and the source folder settled (the default is looked up
/// whether or not `--root` is given, so its failure stops the command
/// either way), then the command word and its arguments.
pub open spec fn spec_run(s: Seq<String>, d: DefaultRoots) -> Result<BsFreeCommandLine, Seq<char>> {
    let (json, s1) = spec_take_flag(s, "--json"@);
    let (root, s2) = spec_take_value(s1, "--root"@);
    match root {
        Err(m) => Err(m),
        Ok(root) => match d.source_root {
            Err(m) => Err(m@),
            Ok(default) => if s2.len() == 0 {
                Err("cheats source bsfree requires a command"@)
            } else {
                match spec_request(s2[0]@, s2.drop_first(), d.history_root, d.backup_root) {
                    Err(m) => Err(m),
                    Ok(request) => Ok(BsFreeCommandLine {
                        json,
                        root: match root { Some(r) => r, None => default },
                        request,
                    }),
                }
            },
        },
    }
}

/// `cheats source bsfree [--json] [--root <dir>] <command> ...`: the request,
/// or the message the command fails with before the source is touched.
pub fn run(args: Vec<String>, defaults: DefaultRoots) -> (r: Result<BsFreeCommandLine, String>)
    ensures
        err_view(r) == spec_run(args@, defaults),
{
    let mut args = args;
    let json = take_flag(&mut args, "--json");
    let given = take_value(&mut args, "--root")?;
    let DefaultRoots { source_root, history_root, backup_root } = defaults;
    let default = source_root?;
    let root = match given {
        Some(r) => r,
        None => default,
    };
    if args.len() == 0 {
        return Err("cheats source bsfree requires a command".to_owned());
    }
    let command = args.remove(0);
    let request = request(&command, args, history_root, backup_root)?;
    Ok(BsFreeCommandLine { json, root, request })
}

/// Drops the text inside parentheses and square brackets (region and
/// edition markers), tracking the nesting depth as a saturating `u8`;
/// returns what is kept and the final depth.
pub open spec fn strip_markers(s: Seq<char>) -> (Seq<char>, nat)
    decreases s.len(),
{
    if s.len() == 0 {
        (Seq::empty(), 0)
    } else {
        let (o, d) = strip_markers(s.drop_last());
        let c = s.last();
        if c == '(' || c == '[' {
            (o, if d < 255 { d + 1 } else { 255 })
        } else if c == ')' || c == ']' {
            (o, if d > 0 { (d - 1) as nat } else { 0 })
        } else if d == 0 {
            (o.push(c), d)
        } else {
            (o, d)
        }
    }
}

/// The alphanumeric characters of `s`, each lower-cased.
pub open spec fn fold_title(s: Seq<char>) -> Seq<char>
    decreases s.len(),
{
    if s.len() == 0 {
        Seq::empty()
    } else {
        fold_title(s.drop_last()) + if unicode_alphanumeric(s.last()) { unicode_lowercase(s.last()) } else { Seq::empty() }
    }
}

/// A title as compared by the wrong-game guard: markers dropped, then only
/// its alphanumeric characters, lower-cased.
pub open spec fn spec_normalize_title(value: Seq<char>) -> Seq<char> {
    fold_title(strip_markers(value).0)
}

proof fn lemma_depth_bound(s: Seq<char>)
    ensures
        strip_markers(s).1 <= 255,
    decreases s.len(),
{
    if s.len() > 0 {
        lemma_depth_bound(s.drop_last());
    }
}

/// The characters that open or close a marker.
pub open spec fn is_marker_char(c: char) -> bool {
    c == '(' || c == '[' || c == ')' || c == ']'
}

/// Inside an opened marker, text without marker characters is dropped: the
/// state after the opening character and that text is the state before it,
/// one level deeper.
proof fn lemma_strip_inside_marker(a: Seq<char>, open: char, inner: Seq<char>)
    requires
        open == '(' || open == '[',
        strip_markers(a).1 < 255,
        forall|i: int| 0 <= i < inner.len() ==> !is_marker_char(#[trigger] inner[i]),
    ensures
        strip_markers(a.push(open) + inner) == (strip_markers(a).0, strip_markers(a).1 + 1),
    decreases inner.len(),
{
    if inner.len() == 0 {
        assert(a.push(open) + inner =~= a.push(open));
        assert(a.push(open).drop_last() =~= a);
    } else {
        lemma_strip_inside_marker(a, open, inner.drop_last());
        assert((a.push(open) + inner).drop_last() =~= a.push(open) + inner.drop_last());
        assert((a.push(open) + inner).last() == inner[inner.len() - 1]);
    }
}

/// Two prefixes that leave the same state go on to the same state.
proof fn lemma_strip_same_state(p: Seq<char>, q: Seq<char>, b: Seq<char>)
    requires
        strip_markers(p) == strip_markers(q),
    ensures
        strip_markers(p + b) == strip_markers(q + b),
    decreases b.len(),
{
    if b.len() == 0 {
        assert(p + b =~= p);
        assert(q + b =~= q);
    } else {
        lemma_strip_same_state(p, q, b.drop_last());
        assert((p + b).drop_last() =~= p + b.drop_last());
        assert((q + b).drop_last() =~= q + b.drop_last());
        assert((p + b).last() == b.last());
        assert((q + b).last() == b.last());
    }
}

/// Region and edition markers never reach the compared title: text in
/// parentheses or in square brackets (holding no further markers) leaves
/// the normalised title as if it were not there, wherever it stands, so long
/// as fewer than 255 markers are open before it.
pub proof fn lemma_markers_are_ignored(a: Seq<char>, open: char, inner: Seq<char>, close: char, b: Seq<char>)
    requires
        (open == '(' && close == ')') || (open == '[' && close == ']'),
        strip_markers(a).1 < 255,
        forall|i: int| 0 <= i < inner.len() ==> !is_marker_char(#[trigger] inner[i]),
    ensures
        spec_normalize_title(a + seq![open] + inner + seq![close] + b) == spec_normalize_title(a + b),
{
    lemma_strip_inside_marker(a, open, inner);
    let p = a.push(open) + inner;
    let q = p.push(close);
    assert(q.drop_last() =~= p);
    assert(strip_markers(q) == strip_markers(a));
    assert(a + seq![open] + inner + seq![close] =~= q);
    lemma_strip_same_state(q, a, b);
    assert(a + seq![open] + inner + seq![close] + b =~= q + b);
}

/// With no markers at all, the compared title is every letter and digit of
/// the text, lower-cased, in order.
pub proof fn lemma_plain_title_is_folded(s: Seq<char>)
    requires
        forall|i: int| 0 <= i < s.len() ==> !is_marker_char(#[trigger] s[i]),
    ensures
        spec_normalize_title(s) == fold_title(s),
        strip_markers(s) == (s, 0nat),
    decreases s.len(),
{
    if s.len() > 0 {
        lemma_plain_title_is_folded(s.drop_last());
        assert(s.drop_last().push(s.last()) =~= s);
    }
}

/// Normalises a title for the wrong-game guard.
pub fn normalize_cli_title(value: &str) -> (r: String)
    ensures
        r@ == spec_normalize_title(value@),
{
    let cs = chars_of(value);
    let mut without_markers: Vec<char> = Vec::new();
    let mut depth: u8 = 0;
    let mut k: usize = 0;
    while k < cs.len()
        invariant
            k <= cs@.len(),
            (without_markers@, depth as nat) == strip_markers(cs@.take(k as int)),
        decreases cs@.len() - k,
    {
        proof {
            assert(cs@.take(k + 1).drop_last() =~= cs@.take(k as int));
            assert(cs@.take(k + 1).last() == cs@[k as int]);
        }
        let c = cs[k];
        if c == '(' || c == '[' {
            depth = if depth < 255 { depth + 1 } else { 255 };
        } else if c == ')' || c == ']' {
            depth = if depth > 0 { depth - 1 } else { 0 };
        } else if depth == 0 {
            without_markers.push(c);
        }
        k = k + 1;
    }
    proof {
        assert(cs@.take(cs@.len() as int) =~= cs@);
    }
    let mut out = String::new();
    let mut j: usize = 0;
    while j < without_markers.len()
        invariant
            j <= without_markers@.len(),
            out@ == fold_title(without_markers@.take(j as int)),
        decreases without_markers@.len() - j,
    {
        proof {
            assert(without_markers@.take(j + 1).drop_last() =~= without_markers@.take(j as int));
            assert(without_markers@.take(j + 1).last() == without_markers@[j as int]);
        }
        let c = without_markers[j];
        if is_alphanumeric(c) {
            let lower = to_lowercase(c);
            push_str(&mut out, lower.as_str());
        } else {
            proof {
                assert(out@ + Seq::<char>::empty() =~= out@);
            }
        }
        j = j + 1;
    }
    proof {
        assert(without_markers@.take(without_markers@.len() as int) =~= without_markers@);
    }
    out
}

/// The wrong-game guard refuses when a title was given whose normalised
/// form is not empty and differs from the game's.
pub open spec fn spec_title_refused(title: Option<String>, game_name: Seq<char>) -> bool {
    match title {
        Some(t) => spec_normalize_title(t@).len() > 0 && spec_normalize_title(t@) != spec_normalize_title(game_name),
        None => false,
    }
}

/// Whether the archive title contradicts the selected BSFree game.
pub fn title_guard_refuses(title: &Option<String>, game_name: &str) -> (r: bool)
    ensures
        r == spec_title_refused(*title, game_name@),
{
    match title {
        None => false,
        Some(t) => {
            let a = normalize_cli_title(t.as_str());
            let b = normalize_cli_title(game_name);
            chars_of(a.as_str()).len() > 0 && !(a == b)
        },
    }
}

/// The refusal for a title that contradicts the selected game.
pub open spec fn title_mismatch_message(game_name: Seq<char>, title: Seq<char>) -> Seq<char> {
    "selected BSFree game "@ + str_debug(game_name) + " does not match the archive title "@ + str_debug(title)
        + "; refusing to apply cheats for the wrong game. Review the search candidates and pick the exact BSFree game"@
}

/// The message refusing a title that contradicts the selected game.
pub fn title_mismatch(game_name: &str, title: &str) -> (r: String)
    ensures
        r@ == title_mismatch_message(game_name@, title@),
{
    let mut m = "selected BSFree game ".to_owned();
    push_str(&mut m, debug_str(game_name).as_str());
    push_str(&mut m, " does not match the archive title ");
    push_str(&mut m, debug_str(title).as_str());
    push_str(&mut m, "; refusing to apply cheats for the wrong game. Review the search candidates and pick the exact BSFree game");
    m
}

/// The platform id a game must have for an install on `platform`.
pub open spec fn platform_id_of(platform: DolphinPlatform) -> Seq<char> {
    match platform {
        DolphinPlatform::GameCube => "GameCube"@,
        DolphinPlatform::Wii => "Wii"@,
    }
}

/// Whether a game's platform id allows an install on `platform`.
pub fn platform_matches(platform: DolphinPlatform, platform_id: &Option<String>) -> (r: bool)
    ensures
        r == (platform_id matches Some(p) && p@ == platform_id_of(platform)),
{
    match platform_id {
        None => false,
        Some(p) => match platform {
            DolphinPlatform::GameCube => same(p, "GameCube"),
            DolphinPlatform::Wii => same(p, "Wii"),
        },
    }
}

/// The refusal for a game of another platform.
pub open spec fn wrong_platform_message(platform: DolphinPlatform, game_name: Seq<char>, system_name: Seq<char>) -> Seq<char> {
    match platform {
        DolphinPlatform::GameCube => "BSFree game "@ + str_debug(game_name) + " is not a GameCube game (system "@
            + str_debug(system_name) + "); only GameCube codes can be installed via Dolphin, and this game is browse-only"@,
        DolphinPlatform::Wii => "BSFree game "@ + str_debug(game_name) + " is not a Wii game (system "@
            + str_debug(system_name) + "); only verified Wii codes can be installed via Dolphin, and this game is browse-only"@,
    }
}

/// The message refusing a game of another platform.
pub fn wrong_platform(platform: DolphinPlatform, game_name: &str, system_name: &str) -> (r: String)
    ensures
        r@ == wrong_platform_message(platform, game_name@, system_name@),
{
    let mut m = "BSFree game ".to_owned();
    push_str(&mut m, debug_str(game_name).as_str());
    match platform {
        DolphinPlatform::GameCube => push_str(&mut m, " is not a GameCube game (system "),
        DolphinPlatform::Wii => push_str(&mut m, " is not a Wii game (system "),
    }
    push_str(&mut m, debug_str(system_name).as_str());
    match platform {
        DolphinPlatform::GameCube => push_str(&mut m, "); only GameCube codes can be installed via Dolphin, and this game is browse-only"),
        DolphinPlatform::Wii => push_str(&mut m, "); only verified Wii codes can be installed via Dolphin, and this game is browse-only"),
    }
    m
}

/// The trimmed, non-empty comma-separated tokens of a `--select` value.
pub open spec fn select_token_list(pieces: Seq<Seq<char>>) -> Seq<Seq<char>>
    decreases pieces.len(),
{
    if pieces.len() == 0 {
        Seq::empty()
    } else {
        let t = trim_end_ws(trim_start_ws(pieces.last()));
        if t.len() == 0 {
            select_token_list(pieces.drop_last())
        } else {
            select_token_list(pieces.drop_last()).push(t)
        }
    }
}

/// The code ids named by a `--select` value, as text, in order.
pub fn select_tokens(select: &str) -> (r: Vec<String>)
    ensures
        views(r@) == select_token_list(split_on(select@, ',')),
{
    let parts = pieces(select, ',');
    let ghost v = views(parts@);
    let mut tokens: Vec<String> = Vec::new();
    let mut k: usize = 0;
    while k < parts.len()
        invariant
            k <= parts@.len(),
            v == views(parts@),
            views(tokens@) == select_token_list(v.take(k as int)),
        decreases parts@.len() - k,
    {
        proof {
            assert(v.take(k + 1).drop_last() =~= v.take(k as int));
            assert(v.take(k + 1).last() == parts@[k as int]@);
        }
        let t = trim(parts[k].as_str());
        if chars_of(t.as_str()).len() > 0 {
            let ghost before = tokens@;
            tokens.push(t);
            proof {
                assert(views(tokens@) =~= views(before).push(t@));
            }
        }
        k = k + 1;
    }
    proof {
        assert(v.take(parts@.len() as int) =~= v);
    }
    tokens
}

/// The refusal for a `--select` token that is not a code id.
pub open spec fn select_token_message(token: Seq<char>, kind: crate::number::IntErrorKind) -> Seq<char> {
    "--select value "@ + str_debug(token) + " is not a numeric code ID: "@ + int_error_message(kind)
}

/// One `--select` token as a code id.
pub fn parse_select_token(token: &str) -> (r: Result<i64, String>)
    ensures
        match spec_parse_int(token@, i64::MIN as int, i64::MAX as int) {
            Ok(n) => r matches Ok(id) && id as int == n,
            Err(kind) => r matches Err(m) && m@ == select_token_message(token@, kind),
        },
{
    match parse_i64(token) {
        Ok(id) => Ok(id),
        Err(kind) => {
            let mut m = "--select value ".to_owned();
            push_str(&mut m, debug_str(token).as_str());
            push_str(&mut m, " is not a numeric code ID: ");
            push_str(&mut m, kind.message().as_str());
            Err(m)
        },
    }
}


/// How a BSFree cheat's code was classified for Dolphin.
#[derive(Debug, Clone, Copy, PartialEq, Eq, Structural)]
pub enum CodeFormat {
    /// A Gecko code, byte-identical to what Dolphin runs.
    GeckoEquivalent,
    /// An Action Replay code Dolphin runs verbatim.
    ActionReplayNative,
    /// An Action Replay command Dolphin refuses to run.
    Unsupported,
    /// Not a well-formed hex-pair code, or from an unverified device.
    Malformed,
}

impl CodeFormat {
    /// Whether Dolphin can install a code of this format.
    pub open spec fn installable(self) -> bool {
        self is GeckoEquivalent || self is ActionReplayNative
    }

    /// Whether Dolphin can install a code of this format.
    pub fn is_installable(&self) -> (r: bool)
        ensures
            r == self.installable(),
    {
        match self {
            CodeFormat::GeckoEquivalent | CodeFormat::ActionReplayNative => true,
            CodeFormat::Unsupported | CodeFormat::Malformed => false,
        }
    }
}

/// One cheat's install capability, stated from its classified format (none
/// for a platform no adapter installs on).
#[derive(Debug, Clone, PartialEq, Eq)]
pub struct CheatCapability {
    pub upstream_id: i64,
    pub name: String,
    pub format: Option<CodeFormat>,
    pub installable: bool,
    pub capability: String,
}

/// The capability text for a classified format.
pub open spec fn capability_text(format: Option<CodeFormat>) -> Seq<char> {
    match format {
        Some(CodeFormat::GeckoEquivalent) => "installable via Dolphin (Gecko, byte-identical)"@,
        Some(CodeFormat::ActionReplayNative) => "installable via Dolphin (Action Replay, verbatim)"@,
        Some(CodeFormat::Unsupported) => "browse-only: contains an Action Replay command Dolphin refuses to run"@,
        Some(CodeFormat::Malformed) => "browse-only: not a well-formed hex-pair code (or unverified device)"@,
        None => "reference only: no EmuWiz adapter for this platform/format"@,
    }
}

/// Whether a classified format can be installed.
pub open spec fn format_installable(format: Option<CodeFormat>) -> bool {
    match format {
        Some(f) => f.installable(),
        None => false,
    }
}

/// A cheat's install capability, given the format the platform's classifier
/// found (none when the game is neither GameCube nor Wii).
pub fn cheat_capability(upstream_id: i64, name: String, format: Option<CodeFormat>) -> (r: CheatCapability)
    ensures
        r.upstream_id == upstream_id,
        r.name == name,
        r.format == format,
        r.installable == format_installable(format),
        r.capability@ == capability_text(format),
{
    let installable = match format {
        Some(f) => f.is_installable(),
        None => false,
    };
    let capability = match format {
        Some(CodeFormat::GeckoEquivalent) => "installable via Dolphin (Gecko, byte-identical)",
        Some(CodeFormat::ActionReplayNative) => "installable via Dolphin (Action Replay, verbatim)",
        Some(CodeFormat::Unsupported) => "browse-only: contains an Action Replay command Dolphin refuses to run",
        Some(CodeFormat::Malformed) => "browse-only: not a well-formed hex-pair code (or unverified device)",
        None => "reference only: no EmuWiz adapter for this platform/format",
    };
    CheatCapability { upstream_id, name, format, installable, capability: capability.to_owned() }
}

/// How many of the classified formats can be installed.
pub open spec fn installable_count(formats: Seq<Option<CodeFormat>>) -> nat
    decreases formats.len(),
{
    if formats.len() == 0 {
        0
    } else {
        installable_count(formats.drop_last()) + if format_installable(formats.last()) { 1nat } else { 0nat }
    }
}

/// Counts the cheats whose classified format can be installed.
pub fn count_installable(formats: &Vec<Option<CodeFormat>>) -> (r: usize)
    ensures
        r == installable_count(formats@),
        r <= formats@.len(),
{
    let mut count: usize = 0;
    let mut k: usize = 0;
    while k < formats.len()
        invariant
            k <= formats@.len(),
            count == installable_count(formats@.take(k as int)),
            count <= k,
        decreases formats@.len() - k,
    {
        proof {
            assert(formats@.take(k + 1).drop_last() =~= formats@.take(k as int));
        }
        let ok = match formats[k] {
            Some(f) => f.is_installable(),
            None => false,
        };
        if ok {
            count = count + 1;
        }
        k = k + 1;
    }
    proof {
        assert(formats@.take(formats@.len() as int) =~= formats@);
    }
    count
}

/// What a game's listing says about installing its codes.
pub open spec fn spec_install_capability(gamecube: bool, wii: bool) -> Seq<char> {
    if gamecube {
        "Some GameCube codes can be installed via Dolphin (Gecko or Action Replay); unsupported formats remain browse-only"@
    } else if wii {
        "Some Wii codes can be installed via Dolphin (Gecko or Action Replay); unsupported formats remain browse-only"@
    } else {
        "No EmuWiz adapter can install codes for this platform; browse-only"@
    }
}

/// The listing's statement of what can be installed for the game's platform.
pub fn install_capability(gamecube: bool, wii: bool) -> (r: String)
    ensures
        r@ == spec_install_capability(gamecube, wii),
{
    if gamecube {
        "Some GameCube codes can be installed via Dolphin (Gecko or Action Replay); unsupported formats remain browse-only".to_owned()
    } else if wii {
        "Some Wii codes can be installed via Dolphin (Gecko or Action Replay); unsupported formats remain browse-only".to_owned()
    } else {
        "No EmuWiz adapter can install codes for this platform; browse-only".to_owned()
    }
}

/// The first position of `id` among the cheat ids, or -1.
pub open spec fn index_of(ids: Seq<i64>, id: int) -> int
    decreases ids.len(),
{
    if ids.len() == 0 {
        -1
    } else if index_of(ids.drop_last(), id) >= 0 {
        index_of(ids.drop_last(), id)
    } else if ids.last() == id {
        ids.len() - 1
    } else {
        -1
    }
}

proof fn lemma_index_of(ids: Seq<i64>, id: int)
    ensures
        -1 <= index_of(ids, id) < ids.len(),
        index_of(ids, id) >= 0 ==> ids[index_of(ids, id)] == id
            && forall|j: int| 0 <= j < index_of(ids, id) ==> ids[j] != id,
        index_of(ids, id) == -1 ==> forall|j: int| 0 <= j < ids.len() ==> ids[j] != id,
    decreases ids.len(),
{
    if ids.len() > 0 {
        let t = ids.drop_last();
        lemma_index_of(t, id);
        assert forall|j: int| 0 <= j < t.len() implies #[trigger] ids[j] == t[j] by {}
    }
}

proof fn lemma_error_persists(tokens: Seq<Seq<char>>, i: int, ids: Seq<i64>, selectable: Seq<bool>)
    requires
        0 <= i <= tokens.len(),
        chosen_positions(tokens.take(i), ids, selectable) is Err,
    ensures
        chosen_positions(tokens, ids, selectable) == chosen_positions(tokens.take(i), ids, selectable),
    decreases tokens.len() - i,
{
    if i < tokens.len() {
        assert(tokens.take(i + 1).drop_last() =~= tokens.take(i));
        lemma_error_persists(tokens, i + 1, ids, selectable);
    } else {
        assert(tokens.take(i) =~= tokens);
    }
}

/// Which cheats a preview or apply installs.
#[derive(Debug, Clone, PartialEq, Eq)]
pub enum CheatSelection {
    /// Every installable cheat (`--select-all`).
    All,
    /// The cheats at these positions, in the order they were named.
    Chosen(Vec<usize>),
}

/// The positions the `--select` tokens name, in order: each token must be a
/// code id, name a cheat of the list (its first position), and that cheat
/// must be selectable.
pub open spec fn chosen_positions(tokens: Seq<Seq<char>>, ids: Seq<i64>, selectable: Seq<bool>) -> Result<Seq<int>, Seq<char>>
    decreases tokens.len(),
{
    if tokens.len() == 0 {
        Ok(Seq::empty())
    } else {
        match chosen_positions(tokens.drop_last(), ids, selectable) {
            Err(m) => Err(m),
            Ok(chosen) => match spec_parse_int(tokens.last(), i64::MIN as int, i64::MAX as int) {
                Err(kind) => Err(select_token_message(tokens.last(), kind)),
                Ok(id) => if index_of(ids, id) < 0 {
                    Err("selected BSFree code ID "@ + signed_decimal(id) + " is not in this game's cheat list"@)
                } else if !selectable[index_of(ids, id)] {
                    Err("selected BSFree code ID "@ + signed_decimal(id) + " is not installable (browse-only format)"@)
                } else {
                    Ok(chosen.push(index_of(ids, id)))
                },
            },
        }
    }
}

/// The selection `--select-all` or `--select` asks for; `--select-all` wins.
pub open spec fn spec_choose_cheats(platform: DolphinPlatform, ids: Seq<i64>, selectable: Seq<bool>,
    select: Option<String>, select_all: bool) -> Result<Seq<int>, Seq<char>> {
    if select_all {
        Ok(Seq::empty())
    } else {
        match select {
            None => Err(platform_word(platform) + " preview/apply requires --select <id,id,...> or --select-all"@),
            Some(v) => chosen_positions(select_token_list(split_on(v@, ',')), ids, selectable),
        }
    }
}

/// Picks the cheats to install from `--select-all` or the `--select` list,
/// given the cheats' ids and whether the selection accepts each of them.
pub fn choose_cheats(platform: DolphinPlatform, ids: &Vec<i64>, selectable: &Vec<bool>, select: &Option<String>,
    select_all: bool) -> (r: Result<CheatSelection, String>)
    requires
        ids@.len() == selectable@.len(),
    ensures
        select_all ==> r == Ok::<CheatSelection, String>(CheatSelection::All),
        !select_all ==> match spec_choose_cheats(platform, ids@, selectable@, *select, select_all) {
            Err(e) => r matches Err(m) && m@ == e,
            Ok(chosen) => r matches Ok(CheatSelection::Chosen(v)) && v@.map_values(|i: usize| i as int) == chosen,
        },
{
    if select_all {
        return Ok(CheatSelection::All);
    }
    let text = match select {
        None => {
            proof {
                reveal_strlit("gamecube");
                reveal_strlit("wii");
            }
            let word = match platform {
                DolphinPlatform::GameCube => "gamecube",
                DolphinPlatform::Wii => "wii",
            };
            return Err(concat(word, " preview/apply requires --select <id,id,...> or --select-all"));
        },
        Some(t) => t,
    };
    let tokens = select_tokens(text.as_str());
    let ghost tv = views(tokens@);
    let mut chosen: Vec<usize> = Vec::new();
    let mut k: usize = 0;
    proof {
        assert(tv.take(0) =~= Seq::<Seq<char>>::empty());
        assert(chosen@.map_values(|i: usize| i as int) =~= Seq::<int>::empty());
    }
    while k < tokens.len()
        invariant
            k <= tokens@.len(),
            tv == views(tokens@),
            !select_all,
            *select == Some(*text),
            tv == select_token_list(split_on(text@, ',')),
            ids@.len() == selectable@.len(),
            chosen_positions(tv.take(k as int), ids@, selectable@)
                == Ok::<Seq<int>, Seq<char>>(chosen@.map_values(|i: usize| i as int)),
        decreases tokens@.len() - k,
    {
        proof {
            assert(tv.take(k + 1).drop_last() =~= tv.take(k as int));
            assert(tv.take(k + 1).last() == tokens@[k as int]@);
        }
        let id = match parse_select_token(tokens[k].as_str()) {
            Ok(id) => id,
            Err(m) => {
                proof {
                    lemma_error_persists(tv, k + 1, ids@, selectable@);
                }
                return Err(m);
            },
        };
        let mut j: usize = 0;
        let mut found: Option<usize> = None;
        while j < ids.len()
            invariant
                j <= ids@.len(),
                found is None ==> forall|i: int| 0 <= i < j ==> ids@[i] != id,
                found matches Some(p) ==> p < ids@.len() && ids@[p as int] == id
                    && forall|i: int| 0 <= i < p ==> ids@[i] != id,
            decreases ids@.len() - j,
        {
            if found.is_none() && ids[j] == id {
                found = Some(j);
            }
            j = j + 1;
        }
        proof {
            lemma_index_of(ids@, id as int);
        }
        match found {
            None => {
                let mut m = concat("selected BSFree code ID ", signed_text(id).as_str());
                push_str(&mut m, " is not in this game's cheat list");
                proof {
                    lemma_error_persists(tv, k + 1, ids@, selectable@);
                }
                return Err(m);
            },
            Some(p) => {
                proof {
                    if index_of(ids@, id as int) != p as int {
                        if index_of(ids@, id as int) < p as int {
                            assert(ids@[index_of(ids@, id as int)] == id);
                        } else {
                            assert(ids@[p as int] == id);
                        }
                    }
                }
                if !selectable[p] {
                    let mut m = concat("selected BSFree code ID ", signed_text(id).as_str());
                    push_str(&mut m, " is not installable (browse-only format)");
                    proof {
                        lemma_error_persists(tv, k + 1, ids@, selectable@);
                    }
                    return Err(m);
                }
                let ghost before = chosen@;
                chosen.push(p);
                proof {
                    assert(chosen@.map_values(|i: usize| i as int)
                        =~= before.map_values(|i: usize| i as int).push(p as int));
                }
            },
        }
        k = k + 1;
    }
    proof {
        assert(tv.take(tokens@.len() as int) =~= tv);
    }
    Ok(CheatSelection::Chosen(chosen))
}

/// An apply happens only for an apply command that was confirmed; anything
/// else is a dry run.
pub open spec fn spec_will_apply(apply: bool, confirmed: bool) -> bool {
    apply && confirmed
}

/// Whether a preview/apply command writes, and the operation it reports.
pub fn operation_of(apply: bool, confirmed: bool) -> (r: (bool, &'static str))
    ensures
        r.0 == spec_will_apply(apply, confirmed),
        r.1@ == if spec_will_apply(apply, confirmed) { "apply"@ } else { "preview"@ },
{
    let will_apply = apply && confirmed;
    (will_apply, if will_apply { "apply" } else { "preview" })
}

/// The refusal of a rollback that is not available and was not confirmed.
pub open spec fn rollback_unavailable_message() -> Seq<char> {
    "rollback is not available for this journal (already rolled back, destination changed, or a backup is missing); use --confirm only after reviewing the preview"@
}

/// A rollback is refused when its preview says it is unavailable, unless it
/// was confirmed.
pub fn check_rollback(available: bool, confirmed: bool) -> (r: Result<(), String>)
    ensures
        (!available && !confirmed) ==> (r matches Err(m) && m@ == rollback_unavailable_message()),
        (available || confirmed) ==> r is Ok,
{
    if !available && !confirmed {
        Err("rollback is not available for this journal (already rolled back, destination changed, or a backup is missing); use --confirm only after reviewing the preview".to_owned())
    } else {
        Ok(())
    }
}

/// The status a rollback that was only previewed reports.
pub open spec fn unconfirmed_rollback_status() -> Seq<char> {
    "preview (not approved); re-run with --confirm to roll back"@
}

/// The status shown for a rollback that was not confirmed.
pub fn rollback_preview_status() -> (r: String)
    ensures
        r@ == unconfirmed_rollback_status(),
{
    "preview (not approved); re-run with --confirm to roll back".to_owned()
}

} // verus!
