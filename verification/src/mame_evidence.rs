//! `mame evidence <refresh|status>`: the manual, incremental refresh of MAME
//! physical-member evidence. What is here reads the command line and words
//! the refresh's notice and summary; the database work happens elsewhere.
use vstd::prelude::*;
use crate::args::err_view;
use crate::text::{concat, decimal, push_str, same, spec_decimal};

verus! {

/// What a `mame` command asks for.
#[derive(Debug, Clone, PartialEq, Eq)]
pub enum MameRequest {
    /// Refresh the member evidence under `root` against the DAT at `dat`,
    /// for one family when `set` is given.
    Refresh { root: String, dat: String, set: Option<String>, json: bool },
    /// Show the stored evidence status.
    Status,
}

/// The usage line every malformed `mame` command fails with.
pub open spec fn mame_usage() -> Seq<char> {
    "mame evidence <refresh|status> ..."@
}

/// The options of `refresh` read so far: root, DAT, family, `--json`.
pub type RefreshOptions = (Option<String>, Option<String>, Option<String>, bool);

/// The argument after position 0, if any.
pub open spec fn next_value(s: Seq<String>) -> Option<String> {
    if s.len() > 1 { Some(s[1]) } else { None }
}

/// What is left after an option and its value.
pub open spec fn after_value(s: Seq<String>) -> Seq<String> {
    if s.len() > 1 { s.subrange(2, s.len() as int) } else { Seq::empty() }
}

/// Reads the `refresh` options left to right. `--root`, `--dat` and `--set`
/// each take the next argument (none when they are last; a later one wins);
/// `--json` is a switch; anything else is refused.
pub open spec fn scan_refresh(s: Seq<String>, o: RefreshOptions) -> Result<RefreshOptions, Seq<char>>
    decreases s.len(),
{
    if s.len() == 0 {
        Ok(o)
    } else if s[0]@ == "--root"@ {
        scan_refresh(after_value(s), (next_value(s), o.1, o.2, o.3))
    } else if s[0]@ == "--dat"@ {
        scan_refresh(after_value(s), (o.0, next_value(s), o.2, o.3))
    } else if s[0]@ == "--set"@ {
        scan_refresh(after_value(s), (o.0, o.1, next_value(s), o.3))
    } else if s[0]@ == "--json"@ {
        scan_refresh(s.drop_first(), (o.0, o.1, o.2, true))
    } else {
        Err("unknown mame evidence refresh option: "@ + s[0]@)
    }
}

/// The refresh request the arguments make.
pub open spec fn spec_refresh(s: Seq<String>) -> Result<MameRequest, Seq<char>> {
    match scan_refresh(s, (None, None, None, false)) {
        Err(m) => Err(m),
        Ok((root, dat, set, json)) => match (root, dat) {
            (None, _) => Err("mame evidence refresh requires --root <path>"@),
            (_, None) => Err("mame evidence refresh requires --dat <path>"@),
            (Some(root), Some(dat)) => Ok(MameRequest::Refresh { root, dat, set, json }),
        },
    }
}

/// What `mame <args>` asks for: `evidence refresh <options>` or
/// `evidence status`.
pub open spec fn spec_mame_run(s: Seq<String>) -> Result<MameRequest, Seq<char>> {
    if s.len() == 0 || s[0]@ != "evidence"@ {
        Err(mame_usage())
    } else if s.len() > 1 && s[1]@ == "refresh"@ {
        spec_refresh(s.subrange(2, s.len() as int))
    } else if s.len() > 1 && s[1]@ == "status"@ {
        Ok(MameRequest::Status)
    } else {
        Err(mame_usage())
    }
}

fn refresh(args: &Vec<String>, from: usize) -> (r: Result<MameRequest, String>)
    requires
        from <= args@.len(),
    ensures
        err_view(r) == spec_refresh(args@.subrange(from as int, args@.len() as int)),
{
    let ghost s = args@.subrange(from as int, args@.len() as int);
    let mut root: Option<String> = None;
    let mut dat: Option<String> = None;
    let mut set: Option<String> = None;
    let mut json = false;
    let mut k = from;
    while k < args.len()
        invariant
            from <= k <= args@.len(),
            s == args@.subrange(from as int, args@.len() as int),
            scan_refresh(s, (None, None, None, false))
                == scan_refresh(args@.subrange(k as int, args@.len() as int), (root, dat, set, json)),
        decreases args@.len() - k,
    {
        let ghost rest = args@.subrange(k as int, args@.len() as int);
        let arg = &args[k];
        let n = args.len();
        let value = if k + 1 < n { Some(args[k + 1].clone()) } else { None };
        proof {
            assert(rest[0] == args@[k as int]);
            if k + 1 < n {
                assert(rest[1] == args@[k + 1]);
                assert(after_value(rest) =~= args@.subrange(k + 2, args@.len() as int));
            } else {
                assert(after_value(rest) =~= args@.subrange(n as int, args@.len() as int));
            }
            assert(rest.drop_first() =~= args@.subrange(k + 1, args@.len() as int));
        }
        if same(arg, "--root") {
            root = value;
            k = if k + 1 < n { k + 2 } else { n };
        } else if same(arg, "--dat") {
            dat = value;
            k = if k + 1 < n { k + 2 } else { n };
        } else if same(arg, "--set") {
            set = value;
            k = if k + 1 < n { k + 2 } else { n };
        } else if same(arg, "--json") {
            json = true;
            k = k + 1;
        } else {
            return Err(concat("unknown mame evidence refresh option: ", arg.as_str()));
        }
    }
    proof {
        assert(args@.subrange(k as int, args@.len() as int) =~= Seq::<String>::empty());
    }
    let root = match root {
        Some(r) => r,
        None => return Err("mame evidence refresh requires --root <path>".to_owned()),
    };
    let dat = match dat {
        Some(d) => d,
        None => return Err("mame evidence refresh requires --dat <path>".to_owned()),
    };
    Ok(MameRequest::Refresh { root, dat, set, json })
}

/// `mame evidence <refresh|status> ...`: the request, or the message the
/// command fails with before anything is opened.
pub fn run(args: Vec<String>) -> (r: Result<MameRequest, String>)
    ensures
        err_view(r) == spec_mame_run(args@),
{
    if args.len() == 0 || !same(&args[0], "evidence") {
        return Err("mame evidence <refresh|status> ...".to_owned());
    }
    evidence(&args)
}

/// The `evidence` sub-command: `args[0]` is "evidence".
pub fn evidence(args: &Vec<String>) -> (r: Result<MameRequest, String>)
    requires
        args@.len() > 0,
        args@[0]@ == "evidence"@,
    ensures
        err_view(r) == spec_mame_run(args@),
{
    if args.len() > 1 && same(&args[1], "refresh") {
        refresh(args, 2)
    } else if args.len() > 1 && same(&args[1], "status") {
        Ok(MameRequest::Status)
    } else {
        Err("mame evidence <refresh|status> ...".to_owned())
    }
}

/// The counts a refresh reports.
#[derive(Debug, Clone, Copy, PartialEq, Eq, Structural)]
pub struct RefreshCounts {
    pub sets_published: u64,
    pub members_seen: u64,
    pub members_reused: u64,
    pub members_rehashed: u64,
    pub members_actionable: u64,
    pub members_failed: u64,
    pub cache_rows_published: u64,
}

/// The one-line summary of a refresh.
pub open spec fn spec_refresh_summary(c: RefreshCounts) -> Seq<char> {
    "published "@ + spec_decimal(c.sets_published as nat) + " sets; "@
        + spec_decimal(c.members_seen as nat) + " members seen; "@
        + spec_decimal(c.members_reused as nat) + " reused; "@
        + spec_decimal(c.members_rehashed as nat) + " rehashed; "@
        + spec_decimal(c.members_actionable as nat) + " actionable; "@
        + spec_decimal(c.members_failed as nat) + " failed; "@
        + spec_decimal(c.cache_rows_published as nat) + " cache rows published"@
}

/// The summary line printed after a refresh.
pub fn refresh_summary(counts: &RefreshCounts) -> (r: String)
    ensures
        r@ == spec_refresh_summary(*counts),
{
    let mut out = concat("published ", decimal(counts.sets_published).as_str());
    push_str(&mut out, " sets; ");
    push_str(&mut out, decimal(counts.members_seen).as_str());
    push_str(&mut out, " members seen; ");
    push_str(&mut out, decimal(counts.members_reused).as_str());
    push_str(&mut out, " reused; ");
    push_str(&mut out, decimal(counts.members_rehashed).as_str());
    push_str(&mut out, " rehashed; ");
    push_str(&mut out, decimal(counts.members_actionable).as_str());
    push_str(&mut out, " actionable; ");
    push_str(&mut out, decimal(counts.members_failed).as_str());
    push_str(&mut out, " failed; ");
    push_str(&mut out, decimal(counts.cache_rows_published).as_str());
    push_str(&mut out, " cache rows published");
    out
}

/// The notice printed before a refresh starts.
pub open spec fn spec_refresh_notice(root: Seq<char>, set: Option<String>) -> Seq<char> {
    "Refreshing MAME member evidence under "@ + root
        + match set { Some(name) => " for family "@ + name@, None => Seq::empty() }
        + "; unchanged members reuse exact path/size/mtime cache rows."@
}

/// The notice naming what is refreshed.
pub fn refresh_notice(root: &str, set: &Option<String>) -> (r: String)
    ensures
        r@ == spec_refresh_notice(root@, *set),
{
    let mut out = concat("Refreshing MAME member evidence under ", root);
    match set {
        Some(name) => {
            push_str(&mut out, " for family ");
            push_str(&mut out, name.as_str());
        },
        None => {},
    }
    push_str(&mut out, "; unchanged members reuse exact path/size/mtime cache rows.");
    proof {
        assert(out@ =~= spec_refresh_notice(root@, *set));
    }
    out
}

} // verus!
