//! `media-set <inspect|explain|plan>`: the command line of the read-only
//! media-set diagnostics and the bounds they keep on their input.
use vstd::prelude::*;
use crate::args::err_view;
use crate::number::{int_error_message, parse_u64, spec_parse_int};
use crate::text::{chars_of, concat, same};

verus! {

/// The diagnostic asked for.
#[derive(Debug, Clone, Copy, PartialEq, Eq, Structural)]
pub enum MediaOperation {
    Inspect,
    Explain,
    Plan,
}

/// The options of a diagnostic run.
#[derive(Debug, Clone, PartialEq, Eq)]
pub struct MediaSetOptions {
    pub operation: MediaOperation,
    pub paths: Vec<String>,
    pub platform: Option<String>,
    pub catalogue: Option<String>,
    /// The path of the media profile JSON, read before the run.
    pub profile: Option<String>,
    pub max_files: Option<u64>,
    pub max_read_bytes: Option<u64>,
    pub native_optical: bool,
}

/// What a `media-set` command asks for.
#[derive(Debug, Clone, PartialEq, Eq)]
pub enum MediaSetRequest {
    Help,
    Run(MediaSetOptions),
}

/// The options read so far: paths, platform, catalogue, profile, file
/// limit, read limit, native optical inspection.
pub type MediaScan = (Seq<String>, Option<String>, Option<String>, Option<String>, Option<int>, Option<int>, bool);

/// An argument that reads as an option.
pub open spec fn looks_like_option(a: Seq<char>) -> bool {
    a.len() > 0 && a[0] == '-'
}

/// Reads the arguments after the operation, left to right. Options that
/// take a value fail when they are last; `--` makes every later argument a
/// path; any other argument starting with `-` is refused; the rest are
/// paths.
pub open spec fn scan_media(s: Seq<String>, o: MediaScan) -> Result<MediaScan, Seq<char>>
    decreases s.len(),
{
    if s.len() == 0 {
        Ok(o)
    } else {
        let a = s[0]@;
        let rest = s.subrange(2, s.len() as int);
        if a == "--platform"@ {
            if s.len() < 2 { Err("--platform requires a name"@) } else { scan_media(rest, (o.0, Some(s[1]), o.2, o.3, o.4, o.5, o.6)) }
        } else if a == "--catalogue"@ {
            if s.len() < 2 { Err("--catalogue requires a path"@) } else { scan_media(rest, (o.0, o.1, Some(s[1]), o.3, o.4, o.5, o.6)) }
        } else if a == "--profile"@ {
            if s.len() < 2 { Err("--profile requires a path"@) } else { scan_media(rest, (o.0, o.1, o.2, Some(s[1]), o.4, o.5, o.6)) }
        } else if a == "--max-files"@ {
            if s.len() < 2 {
                Err("--max-files requires a count"@)
            } else {
                match spec_parse_int(s[1]@, 0, u64::MAX as int) {
                    Err(kind) => Err(int_error_message(kind)),
                    Ok(n) => scan_media(rest, (o.0, o.1, o.2, o.3, Some(n), o.5, o.6)),
                }
            }
        } else if a == "--max-read-bytes"@ {
            if s.len() < 2 {
                Err("--max-read-bytes requires a count"@)
            } else {
                match spec_parse_int(s[1]@, 0, u64::MAX as int) {
                    Err(kind) => Err(int_error_message(kind)),
                    Ok(n) => scan_media(rest, (o.0, o.1, o.2, o.3, o.4, Some(n), o.6)),
                }
            }
        } else if a == "--no-optical-native"@ {
            scan_media(s.drop_first(), (o.0, o.1, o.2, o.3, o.4, o.5, false))
        } else if a == "--json"@ {
            scan_media(s.drop_first(), o)
        } else if a == "--"@ {
            Ok((o.0 + s.drop_first(), o.1, o.2, o.3, o.4, o.5, o.6))
        } else if looks_like_option(a) {
            Err("Unknown option "@ + a)
        } else {
            scan_media(s.drop_first(), (o.0.push(s[0]), o.1, o.2, o.3, o.4, o.5, o.6))
        }
    }
}

/// The operation a word names.
pub open spec fn operation_named(word: Seq<char>) -> Option<MediaOperation> {
    if word == "inspect"@ {
        Some(MediaOperation::Inspect)
    } else if word == "explain"@ {
        Some(MediaOperation::Explain)
    } else if word == "plan"@ {
        Some(MediaOperation::Plan)
    } else {
        None
    }
}

/// A help word.
pub open spec fn is_help_word(word: Seq<char>) -> bool {
    word == "help"@ || word == "--help"@ || word == "-h"@
}

/// An optional number by value.
pub open spec fn opt_int(o: Option<u64>) -> Option<int> {
    match o {
        Some(n) => Some(n as int),
        None => None,
    }
}

/// The options `o` hold the operation `op` and the scanned values `m`.
pub open spec fn options_are(o: MediaSetOptions, op: MediaOperation, m: MediaScan) -> bool {
    &&& o.operation == op
    &&& o.paths@ == m.0
    &&& o.platform == m.1
    &&& o.catalogue == m.2
    &&& o.profile == m.3
    &&& opt_int(o.max_files) == m.4
    &&& opt_int(o.max_read_bytes) == m.5
    &&& o.native_optical == m.6
}

/// Whether the command is refused before anything is read, and with what:
/// none when `r` is what the arguments ask for.
pub open spec fn media_set_outcome(s: Seq<String>, r: Result<MediaSetRequest, String>) -> bool {
    let word = if s.len() == 0 { "help"@ } else { s[0]@ };
    if is_help_word(word) {
        r matches Ok(MediaSetRequest::Help)
    } else {
        match operation_named(word) {
            None => r matches Err(m) && m@ == "Unknown media-set command"@,
            Some(op) => match scan_media(s.drop_first(), (Seq::empty(), None, None, None, None, None, true)) {
                Err(e) => r matches Err(m) && m@ == e,
                Ok(scan) => if op == MediaOperation::Explain && scan.0.len() != 1 {
                    r matches Err(m) && m@ == "media-set explain requires exactly one path, optionally with --catalogue"@
                } else if scan.0.len() == 0 && scan.2 is None {
                    r matches Err(m) && m@ == "Supply explicit media paths or --catalogue"@
                } else {
                    r matches Ok(MediaSetRequest::Run(o)) && options_are(o, op, scan)
                },
            },
        }
    }
}

fn starts_with_dash(a: &String) -> (r: bool)
    ensures
        r == looks_like_option(a@),
{
    let cs = chars_of(a.as_str());
    cs.len() > 0 && cs[0] == '-'
}

fn count_value(args: &Vec<String>, k: usize, missing: &str) -> (r: Result<u64, String>)
    requires
        k < args@.len(),
    ensures
        k + 1 >= args@.len() ==> (r matches Err(m) && m@ == missing@),
        k + 1 < args@.len() ==> match spec_parse_int(args@[k + 1]@, 0, u64::MAX as int) {
            Err(kind) => r matches Err(m) && m@ == int_error_message(kind),
            Ok(n) => r matches Ok(v) && v as int == n,
        },
{
    let n = args.len();
    if k + 1 >= n {
        return Err(missing.to_owned());
    }
    match parse_u64(args[k + 1].as_str()) {
        Ok(n) => Ok(n),
        Err(kind) => Err(kind.message()),
    }
}

fn scan_options(args: &Vec<String>, op: MediaOperation) -> (r: Result<MediaSetOptions, String>)
    requires
        args@.len() > 0,
    ensures
        match scan_media(args@.drop_first(), (Seq::empty(), None, None, None, None, None, true)) {
            Err(e) => r matches Err(m) && m@ == e,
            Ok(scan) => r matches Ok(o) && options_are(o, op, scan),
        },
{
    let ghost s = args@.drop_first();
    let mut paths: Vec<String> = Vec::new();
    let mut platform: Option<String> = None;
    let mut catalogue: Option<String> = None;
    let mut profile: Option<String> = None;
    let mut max_files: Option<u64> = None;
    let mut max_read_bytes: Option<u64> = None;
    let mut native_optical = true;
    let n = args.len();
    let mut k: usize = 1;
    while k < n
        invariant
            1 <= k <= n,
            n == args@.len(),
            s == args@.drop_first(),
            scan_media(s, (Seq::empty(), None, None, None, None, None, true))
                == scan_media(args@.subrange(k as int, n as int),
                    (paths@, platform, catalogue, profile, opt_int(max_files), opt_int(max_read_bytes), native_optical)),
        decreases n - k,
    {
        let ghost rest = args@.subrange(k as int, n as int);
        proof {
            assert(rest[0] == args@[k as int]);
            assert(rest.drop_first() =~= args@.subrange(k + 1, n as int));
            if k + 1 < n {
                assert(rest[1] == args@[k + 1]);
                assert(rest.subrange(2, rest.len() as int) =~= args@.subrange(k + 2, n as int));
            }
        }
        let arg = &args[k];
        if same(arg, "--platform") {
            if k + 1 >= n {
                return Err("--platform requires a name".to_owned());
            }
            platform = Some(args[k + 1].clone());
            k = k + 2;
        } else if same(arg, "--catalogue") {
            if k + 1 >= n {
                return Err("--catalogue requires a path".to_owned());
            }
            catalogue = Some(args[k + 1].clone());
            k = k + 2;
        } else if same(arg, "--profile") {
            if k + 1 >= n {
                return Err("--profile requires a path".to_owned());
            }
            profile = Some(args[k + 1].clone());
            k = k + 2;
        } else if same(arg, "--max-files") {
            let v = count_value(args, k, "--max-files requires a count")?;
            max_files = Some(v);
            k = k + 2;
        } else if same(arg, "--max-read-bytes") {
            let v = count_value(args, k, "--max-read-bytes requires a count")?;
            max_read_bytes = Some(v);
            k = k + 2;
        } else if same(arg, "--no-optical-native") {
            native_optical = false;
            k = k + 1;
        } else if same(arg, "--json") {
            k = k + 1;
        } else if same(arg, "--") {
            let ghost base = paths@;
            let mut j = k + 1;
            while j < n
                invariant
                    k + 1 <= j <= n,
                    n == args@.len(),
                    paths@ == base + args@.subrange(k + 1, j as int),
                decreases n - j,
            {
                paths.push(args[j].clone());
                proof {
                    assert(paths@ =~= base + args@.subrange(k + 1, j + 1));
                }
                j = j + 1;
            }
            proof {
                assert(args@.subrange(n as int, n as int) =~= Seq::<String>::empty());
            }
            k = n;
        } else if starts_with_dash(arg) {
            return Err(concat("Unknown option ", arg.as_str()));
        } else {
            paths.push(arg.clone());
            k = k + 1;
        }
    }
    proof {
        assert(args@.subrange(n as int, n as int) =~= Seq::<String>::empty());
    }
    Ok(MediaSetOptions { operation: op, paths, platform, catalogue, profile, max_files, max_read_bytes, native_optical })
}

/// `media-set <inspect|explain|plan> <paths...> [options]`: the request, or
/// the message the command fails with before anything is read. No
/// operation, `help`, `--help` or `-h` ask for the usage text.
pub fn run(args: Vec<String>) -> (r: Result<MediaSetRequest, String>)
    ensures
        media_set_outcome(args@, r),
{
    if args.len() == 0 || same(&args[0], "help") || same(&args[0], "--help") || same(&args[0], "-h") {
        proof {
            reveal_strlit("help");
        }
        return Ok(MediaSetRequest::Help);
    }
    let op = if same(&args[0], "inspect") {
        MediaOperation::Inspect
    } else if same(&args[0], "explain") {
        MediaOperation::Explain
    } else if same(&args[0], "plan") {
        MediaOperation::Plan
    } else {
        return Err("Unknown media-set command".to_owned());
    };
    let options = scan_options(&args, op)?;
    if op == MediaOperation::Explain && options.paths.len() != 1 {
        return Err("media-set explain requires exactly one path, optionally with --catalogue".to_owned());
    }
    if options.paths.len() == 0 && options.catalogue.is_none() {
        return Err("Supply explicit media paths or --catalogue".to_owned());
    }
    Ok(MediaSetRequest::Run(options))
}

/// At most this many records are diagnosed in one run.
pub const MAX_RECORDS: usize = 100000;

/// Refuses a record list longer than `MAX_RECORDS`.
pub fn check_record_count(count: usize) -> (r: Result<(), String>)
    ensures
        count <= MAX_RECORDS ==> r is Ok,
        count > MAX_RECORDS ==> (r matches Err(m)
            && m@ == "Diagnostic input exceeds 100,000 records; use the core API for larger catalogues"@),
{
    if count > MAX_RECORDS {
        Err("Diagnostic input exceeds 100,000 records; use the core API for larger catalogues".to_owned())
    } else {
        Ok(())
    }
}

/// A diagnostic JSON file may hold at most this many bytes (128 MiB).
pub const MAX_JSON_BYTES: u64 = 134217728;

/// Refuses a diagnostic JSON file larger than `MAX_JSON_BYTES`.
pub fn check_json_size(len: u64) -> (r: Result<(), String>)
    ensures
        len <= MAX_JSON_BYTES ==> r is Ok,
        len > MAX_JSON_BYTES ==> (r matches Err(m) && m@ == "Diagnostic JSON exceeds 128 MiB"@),
{
    if len > MAX_JSON_BYTES {
        Err("Diagnostic JSON exceeds 128 MiB".to_owned())
    } else {
        Ok(())
    }
}

} // verus!
