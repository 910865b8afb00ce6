//! What each top-level command asks for, read from its arguments: the
//! flags it takes, the values it needs, and the message it fails with
//! before anything is opened, read or written.
use vstd::prelude::*;
use crate::args::{collect_pairs, err_view, extract_flag, extract_repeated_id_flags, invalid_id_message, occurs, requires_value_message, spec_take_value, spec_unique_value, take_unique_flag_value, take_value, without};
use crate::cli::{extract_named_u64_flag, not_u64_message, resolve_keep_catalogue_flag};
use crate::number::{int_error_message, parse_usize, IntErrorKind};
use crate::number::spec_parse_int;
use crate::text::{concat, debug_list, debug_str, join, push_str, same, spec_debug_list, spec_join, str_debug, views};

verus! {

/// `"<command> does not accept <args:?>"`.
pub open spec fn not_accepted(command: Seq<char>, rest: Seq<String>) -> Seq<char> {
    command + " does not accept "@ + spec_debug_list(rest)
}

fn refuse_extra(command: &str, rest: &Vec<String>) -> (m: String)
    ensures
        m@ == not_accepted(command@, rest@),
{
    let mut m = concat(command, " does not accept ");
    let shown = debug_list(rest);
    push_str(&mut m, shown.as_str());
    m
}

/// What taking a `u64` flag that may be given at most once hands back, and
/// the arguments it leaves.
pub open spec fn spec_unique_u64(s: Seq<String>, flag: Seq<char>) -> (Result<Option<u64>, Seq<char>>, Seq<String>) {
    match spec_unique_value(s, flag) {
        (Err(m), t) => (Err(m), t),
        (Ok(None), t) => (Ok(None), t),
        (Ok(Some(v)), t) => match spec_parse_int(v@, 0, u64::MAX as int) {
            Ok(n) => (Ok(Some(n as u64)), t),
            Err(_) => (Err(not_u64_message(flag, v@)), t),
        },
    }
}

fn take_u64(args: &mut Vec<String>, flag: &str) -> (r: Result<Option<u64>, String>)
    ensures
        (err_view(r), final(args)@) == spec_unique_u64(old(args)@, flag@),
{
    extract_named_u64_flag(args, flag)
}

fn take_named(args: &mut Vec<String>, flag: &str) -> (r: Result<Option<String>, String>)
    ensures
        (err_view(r), final(args)@) == spec_unique_value(old(args)@, flag@),
{
    take_unique_flag_value(args, flag)
}

/// The words after a command, joined by single spaces; `missing` when there
/// are none.
pub open spec fn spec_joined(s: Seq<String>, missing: Seq<char>) -> Result<Seq<char>, Seq<char>> {
    if s.len() == 0 { Err(missing) } else { Ok(spec_join(views(s), " "@)) }
}

/// The input of `mount-one`, `unmount-one` and `index-find`: every word
/// after the command, joined by single spaces.
pub fn joined_input(args: &Vec<String>, missing: &str) -> (r: Result<String, String>)
    ensures
        match spec_joined(args@, missing@) {
            Ok(input) => r matches Ok(i) && i@ == input,
            Err(m) => r matches Err(e) && e@ == m,
        },
{
    if args.len() == 0 {
        return Err(missing.to_owned());
    }
    Ok(join(args, " "))
}

/// `info <archive...> [--json]`: a trailing `--json` asks for JSON; the
/// other words name the archive.
pub open spec fn spec_info(s: Seq<String>) -> Result<(Seq<char>, bool), Seq<char>> {
    let missing = "info requires an archive path or name"@;
    if s.len() == 0 {
        Err(missing)
    } else {
        let json = s.last()@ == "--json"@;
        let words = if json { s.drop_last() } else { s };
        let input = spec_join(views(words), " "@);
        if input.len() == 0 { Err(missing) } else { Ok((input, json)) }
    }
}

/// The archive `info` asks about, and whether it asks for JSON.
pub fn info_args(args: Vec<String>) -> (r: Result<(String, bool), String>)
    ensures
        match spec_info(args@) {
            Ok((input, json)) => r matches Ok((i, j)) && i@ == input && j == json,
            Err(m) => r matches Err(e) && e@ == m,
        },
{
    proof {
        reveal_strlit("--json");
    }
    let mut args = args;
    if args.len() == 0 {
        return Err("info requires an archive path or name".to_owned());
    }
    let n = args.len();
    let json = same(&args[n - 1], "--json");
    let ghost s = args@;
    if json {
        args.pop();
        proof {
            assert(args@ =~= s.drop_last());
        }
    }
    let input = join(&args, " ");
    if input.as_str().is_empty() {
        return Err("info requires an archive path or name".to_owned());
    }
    Ok((input, json))
}

/// A command that takes only `--json`.
pub open spec fn spec_json_only(command: Seq<char>, s: Seq<String>) -> Result<bool, Seq<char>> {
    if without(s, "--json"@).len() > 0 { Err(command + " accepts only --json"@) } else { Ok(occurs(s, "--json"@)) }
}

/// Whether a command that takes only `--json` asks for JSON.
pub fn json_only(command: &str, args: Vec<String>) -> (r: Result<bool, String>)
    ensures
        err_view(r) == spec_json_only(command@, args@),
{
    let mut args = args;
    let json = extract_flag(&mut args, "--json");
    if args.len() > 0 {
        return Err(concat(command, " accepts only --json"));
    }
    Ok(json)
}

/// The arguments of the GameHacking index refreshes.
#[derive(Debug, Clone, PartialEq, Eq)]
pub struct IndexRefreshArgs {
    pub json: bool,
    pub cache_root: Option<String>,
}

/// `<command> [--json] [--resume] [--cache-root <dir>]`: `--resume` is
/// accepted and has no effect (a refresh always reuses its cache).
pub open spec fn spec_index_refresh(command: Seq<char>, s: Seq<String>) -> Result<IndexRefreshArgs, Seq<char>> {
    let s1 = without(s, "--json"@);
    let s2 = without(s1, "--resume"@);
    match spec_unique_value(s2, "--cache-root"@) {
        (Err(m), _) => Err(m),
        (Ok(cache_root), s3) => if s3.len() > 0 {
            Err(not_accepted(command, s3))
        } else {
            Ok(IndexRefreshArgs { json: occurs(s, "--json"@), cache_root })
        },
    }
}

/// The arguments of `gamehacking-<platform>-index-refresh`.
pub fn index_refresh_args(command: &str, args: Vec<String>) -> (r: Result<IndexRefreshArgs, String>)
    ensures
        err_view(r) == spec_index_refresh(command@, args@),
{
    let mut args = args;
    let json = extract_flag(&mut args, "--json");
    let _resume = extract_flag(&mut args, "--resume");
    let cache_root = take_named(&mut args, "--cache-root")?;
    if args.len() > 0 {
        return Err(refuse_extra(command, &args));
    }
    Ok(IndexRefreshArgs { json, cache_root })
}

/// A named value that must be given: the flag's own error, else `missing`.
pub open spec fn need(r: Result<Option<String>, Seq<char>>, missing: Seq<char>) -> Result<String, Seq<char>> {
    match r {
        Err(m) => Err(m),
        Ok(None) => Err(missing),
        Ok(Some(v)) => Ok(v),
    }
}

/// A `u64` that must be given: the flag's own error, else `missing`.
pub open spec fn need_u64(r: Result<Option<u64>, Seq<char>>, missing: Seq<char>) -> Result<u64, Seq<char>> {
    match r {
        Err(m) => Err(m),
        Ok(None) => Err(missing),
        Ok(Some(v)) => Ok(v),
    }
}

fn needed(args: &mut Vec<String>, flag: &str, missing: &str) -> (r: Result<String, String>)
    ensures
        err_view(r) == need(spec_unique_value(old(args)@, flag@).0, missing@),
        final(args)@ == spec_unique_value(old(args)@, flag@).1,
{
    match take_named(args, flag)? {
        Some(v) => Ok(v),
        None => Err(missing.to_owned()),
    }
}

fn needed_u64(args: &mut Vec<String>, flag: &str, missing: &str) -> (r: Result<u64, String>)
    ensures
        err_view(r) == need_u64(spec_unique_u64(old(args)@, flag@).0, missing@),
        final(args)@ == spec_unique_u64(old(args)@, flag@).1,
{
    match take_u64(args, flag)? {
        Some(v) => Ok(v),
        None => Err(missing.to_owned()),
    }
}

/// The arguments of `game-identity-inspect`.
#[derive(Debug, Clone, PartialEq, Eq)]
pub struct IdentityInspectArgs {
    pub json: bool,
    pub path: String,
    pub platform: Option<String>,
}

/// `game-identity-inspect --path <image> [--platform <p>] [--json]`.
pub open spec fn spec_identity_inspect(s: Seq<String>) -> Result<IdentityInspectArgs, Seq<char>> {
    let s1 = without(s, "--json"@);
    match need(spec_unique_value(s1, "--path"@).0, "game-identity-inspect requires --path <image>"@) {
        Err(m) => Err(m),
        Ok(path) => match spec_unique_value(spec_unique_value(s1, "--path"@).1, "--platform"@) {
            (Err(m), _) => Err(m),
            (Ok(platform), s3) => if s3.len() > 0 {
                Err(not_accepted("game-identity-inspect"@, s3))
            } else {
                Ok(IdentityInspectArgs { json: occurs(s, "--json"@), path, platform })
            },
        },
    }
}

/// The arguments of `game-identity-inspect`.
pub fn identity_inspect_args(args: Vec<String>) -> (r: Result<IdentityInspectArgs, String>)
    ensures
        err_view(r) == spec_identity_inspect(args@),
{
    proof {
        reveal_strlit("game-identity-inspect");
    }
    let mut args = args;
    let json = extract_flag(&mut args, "--json");
    let path = needed(&mut args, "--path", "game-identity-inspect requires --path <image>")?;
    let platform = take_named(&mut args, "--platform")?;
    if args.len() > 0 {
        return Err(refuse_extra("game-identity-inspect", &args));
    }
    Ok(IdentityInspectArgs { json, path, platform })
}

/// The arguments of `gamehacking-wii-import-page`.
#[derive(Debug, Clone, PartialEq, Eq)]
pub struct WiiImportArgs {
    pub json: bool,
    pub game_id: u64,
    pub image: String,
    pub file: String,
    pub cache_root: Option<String>,
}

/// What is left to read of `gamehacking-wii-import-page` once the game id
/// is known: the image, the saved page, the cache root.
pub open spec fn spec_wii_import_rest(json: bool, game_id: u64, s: Seq<String>) -> Result<WiiImportArgs, Seq<char>> {
    let (ri, s3) = spec_unique_value(s, "--image"@);
    match need(ri, "gamehacking-wii-import-page requires --image <path>"@) {
        Err(m) => Err(m),
        Ok(image) => {
            let (rf, s4) = spec_unique_value(s3, "--file"@);
            match need(rf, "gamehacking-wii-import-page requires --file <saved-page.html>"@) {
                Err(m) => Err(m),
                Ok(file) => match spec_unique_value(s4, "--cache-root"@) {
                    (Err(m), _) => Err(m),
                    (Ok(cache_root), s5) => if s5.len() > 0 {
                        Err(not_accepted("gamehacking-wii-import-page"@, s5))
                    } else {
                        Ok(WiiImportArgs { json, game_id, image, file, cache_root })
                    },
                },
            }
        },
    }
}

/// `gamehacking-wii-import-page --game-id <id> --image <path> --file
/// <saved-page.html> [--cache-root <dir>] [--json]`.
pub open spec fn spec_wii_import(s: Seq<String>) -> Result<WiiImportArgs, Seq<char>> {
    let s1 = without(s, "--json"@);
    let (rg, s2) = spec_unique_u64(s1, "--game-id"@);
    match need_u64(rg, "gamehacking-wii-import-page requires --game-id <id>"@) {
        Err(m) => Err(m),
        Ok(game_id) => spec_wii_import_rest(occurs(s, "--json"@), game_id, s2),
    }
}

/// The arguments of `gamehacking-wii-import-page`.
pub fn wii_import_args(args: Vec<String>) -> (r: Result<WiiImportArgs, String>)
    ensures
        err_view(r) == spec_wii_import(args@),
{
    proof {
        reveal_strlit("gamehacking-wii-import-page");
    }
    let mut args = args;
    let json = extract_flag(&mut args, "--json");
    let game_id = needed_u64(&mut args, "--game-id", "gamehacking-wii-import-page requires --game-id <id>")?;
    let image = needed(&mut args, "--image", "gamehacking-wii-import-page requires --image <path>")?;
    let file = needed(&mut args, "--file", "gamehacking-wii-import-page requires --file <saved-page.html>")?;
    let cache_root = take_named(&mut args, "--cache-root")?;
    if args.len() > 0 {
        return Err(refuse_extra("gamehacking-wii-import-page", &args));
    }
    Ok(WiiImportArgs { json, game_id, image, file, cache_root })
}

/// The arguments of the GameCube GameHacking diagnostics.
#[derive(Debug, Clone, PartialEq, Eq)]
pub struct GameCubeDiagnosticArgs {
    pub json: bool,
    pub game_id: u64,
    /// Whether the page is fetched and parsed too (`--verify-fetch`; only
    /// the sysid diagnostic takes it).
    pub verify_fetch: bool,
    pub cache_root: Option<String>,
}

/// `gamehacking-gamecube-sysid-diagnostic --game-id <id> [--verify-fetch]
/// [--cache-root <dir>] [--json]`, or, without `with_fetch`,
/// `gamehacking-gamecube-code-format-audit --game-id <id> [--cache-root
/// <dir>] [--json]`.
pub open spec fn spec_gamecube_diagnostic(command: Seq<char>, with_fetch: bool, s: Seq<String>) -> Result<GameCubeDiagnosticArgs, Seq<char>> {
    let s1 = without(s, "--json"@);
    let (rg, s2) = spec_unique_u64(s1, "--game-id"@);
    match need_u64(rg, command + " requires --game-id <id>"@) {
        Err(m) => Err(m),
        Ok(game_id) => {
            let verify_fetch = with_fetch && occurs(s2, "--verify-fetch"@);
            let s3 = if with_fetch { without(s2, "--verify-fetch"@) } else { s2 };
            match spec_unique_value(s3, "--cache-root"@) {
                (Err(m), _) => Err(m),
                (Ok(cache_root), s4) => if s4.len() > 0 {
                    Err(not_accepted(command, s4))
                } else {
                    Ok(GameCubeDiagnosticArgs { json: occurs(s, "--json"@), game_id, verify_fetch, cache_root })
                },
            }
        },
    }
}

/// The arguments of a GameCube GameHacking diagnostic; `with_fetch` says
/// whether the command takes `--verify-fetch`.
pub fn gamecube_diagnostic_args(command: &str, with_fetch: bool, args: Vec<String>) -> (r: Result<GameCubeDiagnosticArgs, String>)
    ensures
        err_view(r) == spec_gamecube_diagnostic(command@, with_fetch, args@),
{
    let mut args = args;
    let json = extract_flag(&mut args, "--json");
    let missing = concat(command, " requires --game-id <id>");
    let game_id = needed_u64(&mut args, "--game-id", missing.as_str())?;
    let verify_fetch = if with_fetch { extract_flag(&mut args, "--verify-fetch") } else { false };
    let cache_root = take_named(&mut args, "--cache-root")?;
    if args.len() > 0 {
        return Err(refuse_extra(command, &args));
    }
    Ok(GameCubeDiagnosticArgs { json, game_id, verify_fetch, cache_root })
}

/// The arguments of `retroarch-cheat-catalogue`.
#[derive(Debug, Clone, PartialEq, Eq)]
pub struct CheatCatalogueArgs {
    pub json: bool,
    pub destination_root: Option<String>,
    pub catalogue: String,
}

/// `retroarch-cheat-catalogue <catalogue> [--json]
/// [--cheat-destination-root <path>]`.
pub open spec fn spec_cheat_catalogue(s: Seq<String>) -> Result<CheatCatalogueArgs, Seq<char>> {
    let s1 = without(s, "--json"@);
    match spec_take_value(s1, "--cheat-destination-root"@) {
        (Err(m), _) => Err(m),
        (Ok(destination_root), s2) => if s2.len() == 0 {
            Err("retroarch-cheat-catalogue requires a local catalogue path"@)
        } else if s2.len() > 1 {
            Err("retroarch-cheat-catalogue accepts one local catalogue path, --json, and --cheat-destination-root <path>"@)
        } else {
            Ok(CheatCatalogueArgs { json: occurs(s, "--json"@), destination_root, catalogue: s2[0] })
        },
    }
}

/// The arguments of `retroarch-cheat-catalogue`.
pub fn cheat_catalogue_args(args: Vec<String>) -> (r: Result<CheatCatalogueArgs, String>)
    ensures
        err_view(r) == spec_cheat_catalogue(args@),
{
    let mut args = args;
    let json = extract_flag(&mut args, "--json");
    let destination_root = take_value(&mut args, "--cheat-destination-root")?;
    if args.len() == 0 {
        return Err("retroarch-cheat-catalogue requires a local catalogue path".to_owned());
    }
    if args.len() > 1 {
        return Err("retroarch-cheat-catalogue accepts one local catalogue path, --json, and --cheat-destination-root <path>".to_owned());
    }
    let catalogue = args.remove(0);
    Ok(CheatCatalogueArgs { json, destination_root, catalogue })
}

/// The arguments of `retroarch-cheat-install`.
#[derive(Debug, Clone, PartialEq, Eq)]
pub struct CheatInstallArgs {
    pub json: bool,
    pub dry_run: bool,
    /// `--yes`: writing was approved.
    pub confirmed: bool,
    pub allow_replace_different: bool,
    pub destination_root: String,
    pub catalogue: String,
}

/// `retroarch-cheat-install <catalogue> --cheat-destination-root <path>
/// [--dry-run] [--yes] [--replace-different] [--json]`.
pub open spec fn spec_cheat_install(s: Seq<String>) -> Result<CheatInstallArgs, Seq<char>> {
    let s1 = without(s, "--json"@);
    let s2 = without(s1, "--dry-run"@);
    let s3 = without(s2, "--yes"@);
    let s4 = without(s3, "--replace-different"@);
    let (rd, s5) = spec_take_value(s4, "--cheat-destination-root"@);
    match need(rd, "retroarch-cheat-install requires --cheat-destination-root <path>"@) {
        Err(m) => Err(m),
        Ok(destination_root) => if s5.len() == 0 {
            Err("retroarch-cheat-install requires a local catalogue path"@)
        } else if s5.len() > 1 {
            Err("retroarch-cheat-install accepts one local catalogue path, --cheat-destination-root <path>, --dry-run, --yes, --replace-different, and --json"@)
        } else {
            Ok(CheatInstallArgs {
                json: occurs(s, "--json"@),
                dry_run: occurs(s1, "--dry-run"@),
                confirmed: occurs(s2, "--yes"@),
                allow_replace_different: occurs(s3, "--replace-different"@),
                destination_root,
                catalogue: s5[0],
            })
        },
    }
}

fn needed_first(args: &mut Vec<String>, flag: &str, missing: &str) -> (r: Result<String, String>)
    ensures
        err_view(r) == need(spec_take_value(old(args)@, flag@).0, missing@),
        final(args)@ == spec_take_value(old(args)@, flag@).1,
{
    match take_value(args, flag)? {
        Some(v) => Ok(v),
        None => Err(missing.to_owned()),
    }
}

/// The arguments of `retroarch-cheat-install`.
pub fn cheat_install_args(args: Vec<String>) -> (r: Result<CheatInstallArgs, String>)
    ensures
        err_view(r) == spec_cheat_install(args@),
{
    let mut args = args;
    let json = extract_flag(&mut args, "--json");
    let dry_run = extract_flag(&mut args, "--dry-run");
    let confirmed = extract_flag(&mut args, "--yes");
    let allow_replace_different = extract_flag(&mut args, "--replace-different");
    let destination_root = needed_first(&mut args, "--cheat-destination-root",
        "retroarch-cheat-install requires --cheat-destination-root <path>")?;
    if args.len() == 0 {
        return Err("retroarch-cheat-install requires a local catalogue path".to_owned());
    }
    if args.len() > 1 {
        return Err("retroarch-cheat-install accepts one local catalogue path, --cheat-destination-root <path>, --dry-run, --yes, --replace-different, and --json".to_owned());
    }
    let catalogue = args.remove(0);
    Ok(CheatInstallArgs { json, dry_run, confirmed, allow_replace_different, destination_root, catalogue })
}

/// `retroarch-cheat-history [--journal-root <path>] [--json]`: whether JSON
/// is asked for, and the journal root given.
pub open spec fn spec_cheat_history(s: Seq<String>) -> Result<(bool, Option<String>), Seq<char>> {
    match spec_unique_value(without(s, "--json"@), "--journal-root"@) {
        (Err(m), _) => Err(m),
        (Ok(root), s2) => if s2.len() > 0 {
            Err("retroarch-cheat-history accepts only --journal-root <path> and --json"@)
        } else {
            Ok((occurs(s, "--json"@), root))
        },
    }
}

/// The arguments of `retroarch-cheat-history`.
pub fn cheat_history_args(args: Vec<String>) -> (r: Result<(bool, Option<String>), String>)
    ensures
        err_view(r) == spec_cheat_history(args@),
{
    let mut args = args;
    let json = extract_flag(&mut args, "--json");
    let root = take_named(&mut args, "--journal-root")?;
    if args.len() > 0 {
        return Err("retroarch-cheat-history accepts only --journal-root <path> and --json".to_owned());
    }
    Ok((json, root))
}

/// `retroarch-cheat-inspect <journal> [--json]`: whether JSON is asked for,
/// and the journal.
pub open spec fn spec_cheat_inspect(s: Seq<String>) -> Result<(bool, String), Seq<char>> {
    let s1 = without(s, "--json"@);
    if s1.len() != 1 {
        Err("retroarch-cheat-inspect requires one journal path and optionally --json"@)
    } else {
        Ok((occurs(s, "--json"@), s1[0]))
    }
}

/// The arguments of `retroarch-cheat-inspect`.
pub fn cheat_inspect_args(args: Vec<String>) -> (r: Result<(bool, String), String>)
    ensures
        err_view(r) == spec_cheat_inspect(args@),
{
    let mut args = args;
    let json = extract_flag(&mut args, "--json");
    if args.len() != 1 {
        return Err("retroarch-cheat-inspect requires one journal path and optionally --json".to_owned());
    }
    let journal = args.remove(0);
    Ok((json, journal))
}

/// The arguments of `retroarch-cheat-rollback`.
#[derive(Debug, Clone, PartialEq, Eq)]
pub struct CheatRollbackArgs {
    pub json: bool,
    pub dry_run: bool,
    /// `--yes`: the rollback was approved.
    pub confirmed: bool,
    pub destination_root: String,
    pub journal: String,
}

/// `retroarch-cheat-rollback <journal> --cheat-destination-root <path>
/// [--dry-run] [--yes] [--json]`.
pub open spec fn spec_cheat_rollback(s: Seq<String>) -> Result<CheatRollbackArgs, Seq<char>> {
    let s1 = without(s, "--json"@);
    let s2 = without(s1, "--dry-run"@);
    let s3 = without(s2, "--yes"@);
    let (rd, s4) = spec_take_value(s3, "--cheat-destination-root"@);
    match need(rd, "retroarch-cheat-rollback requires --cheat-destination-root <path>"@) {
        Err(m) => Err(m),
        Ok(destination_root) => if s4.len() != 1 {
            Err("retroarch-cheat-rollback requires one journal path, --cheat-destination-root <path>, --dry-run, --yes, and --json"@)
        } else {
            Ok(CheatRollbackArgs {
                json: occurs(s, "--json"@),
                dry_run: occurs(s1, "--dry-run"@),
                confirmed: occurs(s2, "--yes"@),
                destination_root,
                journal: s4[0],
            })
        },
    }
}

/// The arguments of `retroarch-cheat-rollback`.
pub fn cheat_rollback_args(args: Vec<String>) -> (r: Result<CheatRollbackArgs, String>)
    ensures
        err_view(r) == spec_cheat_rollback(args@),
{
    let mut args = args;
    let json = extract_flag(&mut args, "--json");
    let dry_run = extract_flag(&mut args, "--dry-run");
    let confirmed = extract_flag(&mut args, "--yes");
    let destination_root = needed_first(&mut args, "--cheat-destination-root",
        "retroarch-cheat-rollback requires --cheat-destination-root <path>")?;
    if args.len() != 1 {
        return Err("retroarch-cheat-rollback requires one journal path, --cheat-destination-root <path>, --dry-run, --yes, and --json".to_owned());
    }
    let journal = args.remove(0);
    Ok(CheatRollbackArgs { json, dry_run, confirmed, destination_root, journal })
}

/// At most this many archives are covered in one `cheat-provider-coverage`
/// run.
pub const MAX_COVERAGE_IDS: usize = 32;

/// The arguments of `cheat-provider-coverage`.
#[derive(Debug, Clone, PartialEq, Eq)]
pub struct ProviderCoverageArgs {
    pub json: bool,
    pub archive_ids: Vec<i64>,
    pub dolphin_cache_root: Option<String>,
    pub retroarch_catalogue: Option<String>,
}

/// The archive ids given, each `--id` value as an integer.
pub open spec fn parsed_ids(values: Seq<String>) -> Seq<int> {
    values.map_values(|v: String| match spec_parse_int(v@, i64::MIN as int, i64::MAX as int) {
        Ok(n) => n,
        Err(_) => 0,
    })
}

/// `cheat-provider-coverage --id <archive-id>... [--dolphin-cache-root
/// <dir>] [--retroarch-catalogue <dir>] [--json]`: whether JSON is asked
/// for, the ids in order, and the two roots; every id must parse, nothing
/// else may be given, and there must be between one and `MAX_COVERAGE_IDS`
/// ids.
pub open spec fn spec_provider_coverage(s: Seq<String>)
    -> Result<(bool, Seq<int>, Option<String>, Option<String>), Seq<char>> {
    let s1 = without(s, "--json"@);
    let c = collect_pairs(s1, "--id"@, true);
    match c.2 {
        Some(None) => Err(requires_value_message("--id"@)),
        Some(Some(v)) => Err(invalid_id_message(v@)),
        None => match spec_unique_value(c.1, "--dolphin-cache-root"@) {
            (Err(m), _) => Err(m),
            (Ok(dolphin), s3) => match spec_unique_value(s3, "--retroarch-catalogue"@) {
                (Err(m), _) => Err(m),
                (Ok(retroarch), s4) => if s4.len() > 0 {
                    Err(not_accepted("cheat-provider-coverage"@, s4))
                } else if c.0.len() == 0 {
                    Err("cheat-provider-coverage requires at least one exact --id <archive-id>"@)
                } else if c.0.len() > MAX_COVERAGE_IDS {
                    Err("cheat-provider-coverage accepts at most 32 archive IDs per bounded run"@)
                } else {
                    Ok((occurs(s, "--json"@), parsed_ids(c.0), dolphin, retroarch))
                },
            },
        },
    }
}

/// The arguments of `cheat-provider-coverage`.
pub fn provider_coverage_args(args: Vec<String>) -> (r: Result<ProviderCoverageArgs, String>)
    ensures
        match spec_provider_coverage(args@) {
            Ok((json, ids, dolphin, retroarch)) => r matches Ok(a) && a.json == json
                && a.archive_ids@.map_values(|i: i64| i as int) == ids
                && a.dolphin_cache_root == dolphin && a.retroarch_catalogue == retroarch,
            Err(m) => r matches Err(e) && e@ == m,
        },
{
    proof {
        reveal_strlit("cheat-provider-coverage");
    }
    let mut args = args;
    let json = extract_flag(&mut args, "--json");
    let ghost s1 = args@;
    let archive_ids = extract_repeated_id_flags(&mut args)?;
    let ghost c = collect_pairs(s1, "--id"@, true);
    proof {
        assert(archive_ids@.map_values(|i: i64| i as int) =~= parsed_ids(c.0));
    }
    let dolphin_cache_root = take_named(&mut args, "--dolphin-cache-root")?;
    let retroarch_catalogue = take_named(&mut args, "--retroarch-catalogue")?;
    if args.len() > 0 {
        return Err(refuse_extra("cheat-provider-coverage", &args));
    }
    if archive_ids.len() == 0 {
        return Err("cheat-provider-coverage requires at least one exact --id <archive-id>".to_owned());
    }
    if archive_ids.len() > MAX_COVERAGE_IDS {
        return Err("cheat-provider-coverage accepts at most 32 archive IDs per bounded run".to_owned());
    }
    Ok(ProviderCoverageArgs { json, archive_ids, dolphin_cache_root, retroarch_catalogue })
}

/// What `doctor` was asked to do.
#[derive(Debug, Clone, PartialEq, Eq)]
pub enum DoctorRequest {
    /// The classic report.
    Report { json: bool },
    /// The read-only findings model (`--findings`).
    Findings { json: bool },
    /// One repair action for one finding (`--repair <action>`).
    Repair {
        action: String,
        finding: String,
        resource: Option<String>,
        confirm: bool,
        dry_run: bool,
        json: bool,
    },
}

/// The refusal of a repair action that is not one of `known`.
pub open spec fn unknown_action_message(action: Seq<char>, known: Seq<String>) -> Seq<char> {
    "unknown repair action "@ + str_debug(action) + "; expected one of: "@ + spec_join(views(known), ", "@)
}

/// Whether `action` is one of `known`.
pub open spec fn is_known(action: Seq<char>, known: Seq<String>) -> bool {
    exists|k: int| 0 <= k < known.len() && #[trigger] known[k]@ == action
}

/// What is left to read of `doctor --repair <action>`.
pub open spec fn spec_doctor_repair(action: String, json: bool, s: Seq<String>) -> Result<DoctorRequest, Seq<char>> {
    let (rf, s3) = spec_unique_value(s, "--finding"@);
    match need(rf, "doctor --repair requires --finding <finding-id>"@) {
        Err(m) => Err(m),
        Ok(finding) => match spec_unique_value(s3, "--resource"@) {
            (Err(m), _) => Err(m),
            (Ok(resource), s4) => {
                let s5 = without(s4, "--confirm"@);
                let s6 = without(s5, "--dry-run"@);
                let s7 = without(s6, "--json"@);
                if s7.len() > 0 {
                    Err(not_accepted("doctor --repair"@, s7))
                } else {
                    Ok(DoctorRequest::Repair {
                        action,
                        finding,
                        resource,
                        confirm: occurs(s4, "--confirm"@),
                        dry_run: occurs(s5, "--dry-run"@),
                        json: occurs(s6, "--json"@) || json,
                    })
                }
            },
        },
    }
}

/// `doctor [--json] [--findings | --repair <action> --finding <id>
/// [--resource <r>] [--confirm] [--dry-run]]`; `known` holds the repair
/// actions there are.
pub open spec fn spec_doctor(s: Seq<String>, known: Seq<String>) -> Result<DoctorRequest, Seq<char>> {
    let json = occurs(s, "--json"@);
    match spec_unique_value(s, "--repair"@) {
        (Err(m), _) => Err(m),
        (Ok(Some(action)), s2) => if !is_known(action@, known) {
            Err(unknown_action_message(action@, known))
        } else {
            spec_doctor_repair(action, json, s2)
        },
        (Ok(None), s2) => if occurs(s2, "--findings"@) {
            Ok(DoctorRequest::Findings { json })
        } else {
            Ok(DoctorRequest::Report { json })
        },
    }
}

fn known_action(action: &String, known: &Vec<String>) -> (r: bool)
    ensures
        r == is_known(action@, known@),
{
    let mut k: usize = 0;
    while k < known.len()
        invariant
            k <= known@.len(),
            forall|j: int| 0 <= j < k ==> #[trigger] known@[j]@ != action@,
        decreases known@.len() - k,
    {
        if known[k] == *action {
            return true;
        }
        k = k + 1;
    }
    false
}

/// What `doctor` was asked to do; `known` holds the repair actions there
/// are, in the order the refusal lists them.
pub fn doctor_args(args: Vec<String>, known: &Vec<String>) -> (r: Result<DoctorRequest, String>)
    ensures
        err_view(r) == spec_doctor(args@, known@),
{
    proof {
        reveal_strlit("doctor --repair");
    }
    let mut args = args;
    let json = crate::args::position(&args, &"--json".to_owned()).is_some();
    let repair = take_named(&mut args, "--repair")?;
    match repair {
        Some(action) => {
            if !known_action(&action, known) {
                let mut m = "unknown repair action ".to_owned();
                push_str(&mut m, debug_str(action.as_str()).as_str());
                push_str(&mut m, "; expected one of: ");
                push_str(&mut m, join(known, ", ").as_str());
                return Err(m);
            }
            let finding = needed(&mut args, "--finding", "doctor --repair requires --finding <finding-id>")?;
            let resource = take_named(&mut args, "--resource")?;
            let confirm = extract_flag(&mut args, "--confirm");
            let dry_run = extract_flag(&mut args, "--dry-run");
            let json_again = extract_flag(&mut args, "--json");
            if args.len() > 0 {
                return Err(refuse_extra("doctor --repair", &args));
            }
            Ok(DoctorRequest::Repair { action, finding, resource, confirm, dry_run, json: json_again || json })
        },
        None => {
            if crate::args::position(&args, &"--findings".to_owned()).is_some() {
                Ok(DoctorRequest::Findings { json })
            } else {
                Ok(DoctorRequest::Report { json })
            }
        },
    }
}

/// What `platform-detect` was asked to do.
#[derive(Debug, Clone, PartialEq, Eq)]
pub enum DetectRequest {
    /// Audit every file under `root` (`--audit`), up to `limit` files.
    Audit { json: bool, manual: Option<String>, root: String, limit: Option<usize> },
    /// Detect the platform of one file, under `root` when given.
    Detect { json: bool, manual: Option<String>, root: Option<String>, target: String },
}

/// What is left to read of `platform-detect --audit`.
pub open spec fn spec_detect_audit(json: bool, manual: Option<String>, root: Option<String>, s: Seq<String>) -> Result<DetectRequest, Seq<char>> {
    match root {
        None => Err("platform-detect --audit requires --root <directory>"@),
        Some(root) => match spec_unique_value(s, "--limit"@) {
            (Err(m), _) => Err(m),
            (Ok(raw), s5) => {
                let limit: Result<Option<usize>, Seq<char>> = match raw {
                    None => Ok(None),
                    Some(v) => match spec_parse_int(v@, 0, usize::MAX as int) {
                        Ok(n) => Ok(Some(n as usize)),
                        Err(kind) => Err("--limit must be a number: "@ + int_error_message(kind)),
                    },
                };
                match limit {
                    Err(m) => Err(m),
                    Ok(limit) => if s5.len() > 0 {
                        Err(not_accepted("platform-detect"@, s5))
                    } else {
                        Ok(DetectRequest::Audit { json, manual, root, limit })
                    },
                }
            },
        },
    }
}

/// `platform-detect <file> [--root <dir>] [--assume-manual <platform>]
/// [--json]`, or `platform-detect --audit --root <dir> [--limit <n>]
/// [--assume-manual <platform>] [--json]`.
pub open spec fn spec_platform_detect(s: Seq<String>) -> Result<DetectRequest, Seq<char>> {
    let s1 = without(s, "--json"@);
    let s2 = without(s1, "--audit"@);
    let json = occurs(s, "--json"@);
    match spec_unique_value(s2, "--assume-manual"@) {
        (Err(m), _) => Err(m),
        (Ok(manual), s3) => match spec_unique_value(s3, "--root"@) {
            (Err(m), _) => Err(m),
            (Ok(root), s4) => if occurs(s1, "--audit"@) {
                spec_detect_audit(json, manual, root, s4)
            } else if s4.len() == 0 {
                Err("platform-detect requires a path, e.g. emuwiz-cli platform-detect /roms/scummvm/laurabow2/RESOURCE.GEN"@)
            } else if s4.len() > 1 {
                Err(not_accepted("platform-detect"@, s4.drop_first()))
            } else {
                Ok(DetectRequest::Detect { json, manual, root, target: s4[0] })
            },
        },
    }
}

fn detect_audit(json: bool, manual: Option<String>, root: Option<String>, args: Vec<String>) -> (r: Result<DetectRequest, String>)
    ensures
        err_view(r) == spec_detect_audit(json, manual, root, args@),
{
    proof {
        reveal_strlit("platform-detect");
    }
    let mut args = args;
    let root = match root {
        None => return Err("platform-detect --audit requires --root <directory>".to_owned()),
        Some(root) => root,
    };
    let raw = take_named(&mut args, "--limit")?;
    let limit = match raw {
        None => None,
        Some(v) => match parse_usize(v.as_str()) {
            Ok(n) => Some(n),
            Err(kind) => {
                let mut m = "--limit must be a number: ".to_owned();
                push_str(&mut m, kind.message().as_str());
                return Err(m);
            },
        },
    };
    if args.len() > 0 {
        return Err(refuse_extra("platform-detect", &args));
    }
    Ok(DetectRequest::Audit { json, manual, root, limit })
}

/// What `platform-detect` was asked to do.
pub fn platform_detect_args(args: Vec<String>) -> (r: Result<DetectRequest, String>)
    ensures
        err_view(r) == spec_platform_detect(args@),
{
    proof {
        reveal_strlit("platform-detect");
    }
    let mut args = args;
    let json = extract_flag(&mut args, "--json");
    let audit = extract_flag(&mut args, "--audit");
    let manual = take_named(&mut args, "--assume-manual")?;
    let root = take_named(&mut args, "--root")?;
    if audit {
        return detect_audit(json, manual, root, args);
    }
    if args.len() == 0 {
        return Err("platform-detect requires a path, e.g. emuwiz-cli platform-detect /roms/scummvm/laurabow2/RESOURCE.GEN".to_owned());
    }
    let ghost s4 = args@;
    let target = args.remove(0);
    proof {
        assert(args@ =~= s4.drop_first());
    }
    if args.len() > 0 {
        return Err(refuse_extra("platform-detect", &args));
    }
    Ok(DetectRequest::Detect { json, manual, root, target })
}

/// What `source` was asked to do.
#[derive(Debug, Clone, PartialEq, Eq)]
pub enum SourceRequest {
    Add { path: String, json: bool },
    SetEnabled { identifier: String, enabled: bool, json: bool },
    Scan { identifier: String, json: bool },
    Remove { identifier: String, keep_catalogue: bool, json: bool },
}

/// The usage text for a missing `source` sub-command.
pub open spec fn source_usage() -> Seq<char> {
    "source requires a sub-command: add <path> | enable <id-or-path> | disable <id-or-path> | scan <id-or-path> | remove <id-or-path> (--keep-catalogue | --remove-catalogue)"@
}

/// How `source remove` settles the catalogue: exactly one of the two flags.
pub open spec fn spec_keep(keep: bool, remove: bool) -> Result<bool, Seq<char>> {
    if keep && !remove {
        Ok(true)
    } else if !keep && remove {
        Ok(false)
    } else if !keep {
        Err("source remove requires exactly one of --keep-catalogue or --remove-catalogue"@)
    } else {
        Err("source remove cannot take both --keep-catalogue and --remove-catalogue"@)
    }
}

/// `source <sub-command> ...`: the identifier is the first argument left
/// once `--json` is taken out.
pub open spec fn spec_source(s: Seq<String>) -> Result<SourceRequest, Seq<char>> {
    if s.len() == 0 {
        Err(source_usage())
    } else {
        let sub = s[0]@;
        let rest = s.drop_first();
        let json = occurs(rest, "--json"@);
        let r1 = without(rest, "--json"@);
        if sub == "add"@ {
            if r1.len() == 0 {
                Err("source add requires a path, e.g. emuwiz-cli source add /mnt/roms"@)
            } else {
                Ok(SourceRequest::Add { path: r1[0], json })
            }
        } else if sub == "enable"@ || sub == "disable"@ {
            if r1.len() == 0 {
                Err("source "@ + sub + " requires an id or path"@)
            } else {
                Ok(SourceRequest::SetEnabled { identifier: r1[0], enabled: sub == "enable"@, json })
            }
        } else if sub == "scan"@ {
            if r1.len() == 0 {
                Err("source scan requires an id or path"@)
            } else {
                Ok(SourceRequest::Scan { identifier: r1[0], json })
            }
        } else if sub == "remove"@ {
            if r1.len() == 0 {
                Err("source remove requires an id or path"@)
            } else {
                let keep = occurs(r1, "--keep-catalogue"@);
                let remove = occurs(without(r1, "--keep-catalogue"@), "--remove-catalogue"@);
                match spec_keep(keep, remove) {
                    Err(m) => Err(m),
                    Ok(keep_catalogue) => Ok(SourceRequest::Remove { identifier: r1[0], keep_catalogue, json }),
                }
            }
        } else {
            Err("unknown 'source' sub-command '"@ + sub + "' (expected add, enable, disable, scan, or remove)"@)
        }
    }
}

/// What `source` was asked to do.
pub fn source_args(args: Vec<String>) -> (r: Result<SourceRequest, String>)
    ensures
        err_view(r) == spec_source(args@),
{
    proof {
        reveal_strlit("add");
        reveal_strlit("enable");
        reveal_strlit("disable");
        reveal_strlit("scan");
        reveal_strlit("remove");
    }
    let mut args = args;
    if args.len() == 0 {
        return Err("source requires a sub-command: add <path> | enable <id-or-path> | disable <id-or-path> | scan <id-or-path> | remove <id-or-path> (--keep-catalogue | --remove-catalogue)".to_owned());
    }
    let ghost s = args@;
    let sub = args.remove(0);
    proof {
        assert(args@ =~= s.drop_first());
    }
    let json = extract_flag(&mut args, "--json");
    if same(&sub, "add") {
        if args.len() == 0 {
            return Err("source add requires a path, e.g. emuwiz-cli source add /mnt/roms".to_owned());
        }
        Ok(SourceRequest::Add { path: args.remove(0), json })
    } else if same(&sub, "enable") || same(&sub, "disable") {
        if args.len() == 0 {
            let mut m = concat("source ", sub.as_str());
            push_str(&mut m, " requires an id or path");
            return Err(m);
        }
        let enabled = same(&sub, "enable");
        Ok(SourceRequest::SetEnabled { identifier: args.remove(0), enabled, json })
    } else if same(&sub, "scan") {
        if args.len() == 0 {
            return Err("source scan requires an id or path".to_owned());
        }
        Ok(SourceRequest::Scan { identifier: args.remove(0), json })
    } else if same(&sub, "remove") {
        if args.len() == 0 {
            return Err("source remove requires an id or path".to_owned());
        }
        let identifier = args[0].clone();
        let keep = extract_flag(&mut args, "--keep-catalogue");
        let remove = extract_flag(&mut args, "--remove-catalogue");
        let keep_catalogue = resolve_keep_catalogue_flag(keep, remove)?;
        Ok(SourceRequest::Remove { identifier, keep_catalogue, json })
    } else {
        let mut m = concat("unknown 'source' sub-command '", sub.as_str());
        push_str(&mut m, "' (expected add, enable, disable, scan, or remove)");
        Err(m)
    }
}

/// What `view` was asked to do.
#[derive(Debug, Clone, PartialEq, Eq)]
pub enum ViewRequest {
    List { json: bool },
    Preview { identifier: String, json: bool },
    Apply { identifier: String, json: bool },
    Repair { identifier: String, json: bool },
    Remove { identifier: String, keep_definition: bool, json: bool },
}

/// The usage text for a missing `view` sub-command.
pub open spec fn view_usage() -> Seq<char> {
    "view requires a sub-command: list | preview <name> | apply <name> | repair <name> | remove <name> [--keep-definition]"@
}

/// `view <sub-command> ...`.
pub open spec fn spec_view(s: Seq<String>) -> Result<ViewRequest, Seq<char>> {
    if s.len() == 0 {
        Err(view_usage())
    } else {
        let sub = s[0]@;
        let rest = s.drop_first();
        let json = occurs(rest, "--json"@);
        let r1 = without(rest, "--json"@);
        if sub == "list"@ {
            Ok(ViewRequest::List { json })
        } else if sub == "preview"@ || sub == "apply"@ || sub == "repair"@ {
            if r1.len() == 0 {
                Err("view "@ + sub + " requires a view id or name"@)
            } else if sub == "preview"@ {
                Ok(ViewRequest::Preview { identifier: r1[0], json })
            } else if sub == "apply"@ {
                Ok(ViewRequest::Apply { identifier: r1[0], json })
            } else {
                Ok(ViewRequest::Repair { identifier: r1[0], json })
            }
        } else if sub == "remove"@ {
            let r2 = without(r1, "--keep-definition"@);
            if r2.len() == 0 {
                Err("view remove requires a view id or name"@)
            } else {
                Ok(ViewRequest::Remove { identifier: r2[0], keep_definition: occurs(r1, "--keep-definition"@), json })
            }
        } else {
            Err("unknown 'view' sub-command '"@ + sub + "' (expected list, preview, apply, repair, or remove)"@)
        }
    }
}

/// What `view` was asked to do.
pub fn view_args(args: Vec<String>) -> (r: Result<ViewRequest, String>)
    ensures
        err_view(r) == spec_view(args@),
{
    proof {
        reveal_strlit("list");
        reveal_strlit("preview");
        reveal_strlit("apply");
        reveal_strlit("repair");
        reveal_strlit("remove");
    }
    let mut args = args;
    if args.len() == 0 {
        return Err("view requires a sub-command: list | preview <name> | apply <name> | repair <name> | remove <name> [--keep-definition]".to_owned());
    }
    let ghost s = args@;
    let sub = args.remove(0);
    proof {
        assert(args@ =~= s.drop_first());
    }
    let json = extract_flag(&mut args, "--json");
    if same(&sub, "list") {
        Ok(ViewRequest::List { json })
    } else if same(&sub, "preview") || same(&sub, "apply") || same(&sub, "repair") {
        if args.len() == 0 {
            let mut m = concat("view ", sub.as_str());
            push_str(&mut m, " requires a view id or name");
            return Err(m);
        }
        let identifier = args.remove(0);
        if same(&sub, "preview") {
            Ok(ViewRequest::Preview { identifier, json })
        } else if same(&sub, "apply") {
            Ok(ViewRequest::Apply { identifier, json })
        } else {
            Ok(ViewRequest::Repair { identifier, json })
        }
    } else if same(&sub, "remove") {
        let keep_definition = extract_flag(&mut args, "--keep-definition");
        if args.len() == 0 {
            return Err("view remove requires a view id or name".to_owned());
        }
        Ok(ViewRequest::Remove { identifier: args.remove(0), keep_definition, json })
    } else {
        let mut m = concat("unknown 'view' sub-command '", sub.as_str());
        push_str(&mut m, "' (expected list, preview, apply, repair, or remove)");
        Err(m)
    }
}

/// `sources [--json]` lists the source folders; `sources scan-all [--json]`
/// scans every enabled one. Returns whether it is a scan, and whether JSON
/// is asked for.
pub open spec fn spec_sources(s: Seq<String>) -> (bool, bool) {
    if s.len() > 0 && s[0]@ == "scan-all"@ {
        (true, occurs(s.drop_first(), "--json"@))
    } else {
        (false, occurs(s, "--json"@))
    }
}

/// What `sources` was asked to do: a scan of every enabled folder, or the
/// listing; and whether JSON is asked for.
pub fn sources_args(args: Vec<String>) -> (r: (bool, bool))
    ensures
        r == spec_sources(args@),
{
    let mut args = args;
    if args.len() > 0 && same(&args[0], "scan-all") {
        let ghost s = args@;
        args.remove(0);
        proof {
            assert(args@ =~= s.drop_first());
        }
        (true, extract_flag(&mut args, "--json"))
    } else {
        (false, extract_flag(&mut args, "--json"))
    }
}

/// `identity source romm <command> ...`: the arguments after `source romm`.
pub open spec fn spec_identity(s: Seq<String>) -> Result<Seq<String>, Seq<char>> {
    if s.len() >= 2 && s[0]@ == "source"@ && s[1]@ == "romm"@ {
        Ok(s.subrange(2, s.len() as int))
    } else {
        Err("identity currently supports only `source romm <command>`"@)
    }
}

/// The arguments `identity` hands to its only source.
pub fn identity_args(args: Vec<String>) -> (r: Result<Vec<String>, String>)
    ensures
        match spec_identity(args@) {
            Ok(rest) => r matches Ok(v) && v@ == rest,
            Err(m) => r matches Err(e) && e@ == m,
        },
{
    let mut args = args;
    if args.len() >= 2 && same(&args[0], "source") && same(&args[1], "romm") {
        let ghost s = args@;
        args.remove(0);
        args.remove(0);
        proof {
            assert(args@ =~= s.subrange(2, s.len() as int));
        }
        Ok(args)
    } else {
        Err("identity currently supports only `source romm <command>`".to_owned())
    }
}

/// `platform-alias-remove <alias>`: the alias.
pub open spec fn spec_alias_remove(s: Seq<String>) -> Result<String, Seq<char>> {
    if s.len() == 0 {
        Err("platform-alias-remove requires an alias, e.g. emuwiz-cli platform-alias-remove gc"@)
    } else {
        Ok(s[0])
    }
}

/// The alias `platform-alias-remove` is asked to remove.
pub fn alias_remove_args(args: Vec<String>) -> (r: Result<String, String>)
    ensures
        err_view(r) == spec_alias_remove(args@),
{
    let mut args = args;
    if args.len() == 0 {
        return Err("platform-alias-remove requires an alias, e.g. emuwiz-cli platform-alias-remove gc".to_owned());
    }
    Ok(args.remove(0))
}

} // verus!
