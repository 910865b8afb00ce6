//! The `config-check` report, and the first-run hint added to a failure to
//! load a configuration file that does not exist yet.
use vstd::prelude::*;
use crate::library::{pad_right, push_padded};
use crate::text::{decimal, push_str, spec_decimal};

verus! {

/// How a configuration check came out.
#[derive(Debug, Clone, Copy, PartialEq, Eq, Structural)]
pub enum CheckOutcome {
    Passed,
    Warn,
    Error,
}

/// One configuration check.
#[derive(Debug, Clone, PartialEq, Eq)]
pub struct ConfigCheckView {
    pub outcome: CheckOutcome,
    /// The outcome as the check report words it.
    pub status_label: String,
    pub name: String,
    pub detail: String,
}

/// A line: the text and a newline.
pub open spec fn ln(t: Seq<char>) -> Seq<char> {
    t + "\n"@
}

fn line(out: &mut String, t: &str)
    ensures
        final(out)@ == old(out)@ + ln(t@),
{
    push_str(out, t);
    push_str(out, "\n");
    proof {
        assert(final(out)@ =~= old(out)@ + ln(t@));
    }
}

/// A check's row: its status padded to 5 and its name to 28 characters.
pub open spec fn check_row(c: ConfigCheckView) -> Seq<char> {
    ln("  ["@ + pad_right(c.status_label@, 5) + "] "@ + pad_right(c.name@, 28) + " "@ + c.detail@)
}

/// Every check's row.
pub open spec fn check_rows(v: Seq<ConfigCheckView>) -> Seq<char>
    decreases v.len(),
{
    if v.len() == 0 { Seq::empty() } else { check_rows(v.drop_last()) + check_row(v.last()) }
}

/// The `name: detail` lines of the checks with outcome `o`.
pub open spec fn outcome_lines(v: Seq<ConfigCheckView>, o: CheckOutcome) -> Seq<char>
    decreases v.len(),
{
    if v.len() == 0 {
        Seq::empty()
    } else {
        outcome_lines(v.drop_last(), o) + if v.last().outcome == o {
            ln("  "@ + v.last().name@ + ": "@ + v.last().detail@)
        } else {
            Seq::empty()
        }
    }
}

/// How many checks have outcome `o`.
pub open spec fn outcome_count(v: Seq<ConfigCheckView>, o: CheckOutcome) -> nat
    decreases v.len(),
{
    if v.len() == 0 {
        0
    } else {
        outcome_count(v.drop_last(), o) + if v.last().outcome == o { 1nat } else { 0nat }
    }
}

/// A section listing the checks with outcome `o`, or `none`.
pub open spec fn outcome_section(heading: Seq<char>, v: Seq<ConfigCheckView>, o: CheckOutcome) -> Seq<char> {
    "\n"@ + ln(heading) + if outcome_count(v, o) == 0 { "  none\n"@ } else { outcome_lines(v, o) }
}

/// The `config-check` text: the file checked, a row per check, the
/// warnings, the errors, and the summary the check report gives.
pub open spec fn config_check_text(config_path: Seq<char>, checks: Seq<ConfigCheckView>, error_count: u64,
    warning_count: u64, ok: bool) -> Seq<char> {
    "EmuWiz Config Check\n"@ + ln("Config: "@ + config_path) + "\nChecks:\n"@ + check_rows(checks)
        + outcome_section("Warnings:"@, checks, CheckOutcome::Warn)
        + outcome_section("Errors:"@, checks, CheckOutcome::Error)
        + "\nSummary:\n"@
        + ln("  Errors: "@ + spec_decimal(error_count as nat))
        + ln("  Warnings: "@ + spec_decimal(warning_count as nat))
        + ln("  Status: "@ + if ok { "OK"@ } else { "Needs attention"@ })
}

fn push_check_row(out: &mut String, c: &ConfigCheckView)
    ensures
        final(out)@ == old(out)@ + check_row(*c),
{
    let ghost start = out@;
    push_str(out, "  [");
    push_padded(out, c.status_label.as_str(), 5);
    push_str(out, "] ");
    push_padded(out, c.name.as_str(), 28);
    push_str(out, " ");
    line(out, c.detail.as_str());
    proof {
        assert(out@ =~= start + check_row(*c));
    }
}

fn push_section(out: &mut String, heading: &str, v: &Vec<ConfigCheckView>, o: CheckOutcome)
    ensures
        final(out)@ == old(out)@ + outcome_section(heading@, v@, o),
{
    let ghost start = out@;
    push_str(out, "\n");
    line(out, heading);
    let ghost head = out@;
    let mut lines = String::new();
    let mut any = false;
    let mut k: usize = 0;
    while k < v.len()
        invariant
            k <= v@.len(),
            lines@ == outcome_lines(v@.take(k as int), o),
            any == (outcome_count(v@.take(k as int), o) > 0),
        decreases v@.len() - k,
    {
        proof {
            assert(v@.take(k + 1).drop_last() =~= v@.take(k as int));
        }
        let ghost before = lines@;
        if v[k].outcome == o {
            push_str(&mut lines, "  ");
            push_str(&mut lines, v[k].name.as_str());
            push_str(&mut lines, ": ");
            line(&mut lines, v[k].detail.as_str());
            any = true;
        }
        proof {
            assert(lines@ =~= outcome_lines(v@.take(k + 1), o));
        }
        k = k + 1;
    }
    proof {
        assert(v@.take(v@.len() as int) =~= v@);
    }
    if any {
        push_str(out, lines.as_str());
    } else {
        push_str(out, "  none\n");
    }
    proof {
        assert(out@ =~= start + outcome_section(heading@, v@, o));
    }
}

/// The `config-check` report of `config_path`; the counts and the verdict
/// are those of the check report.
pub fn format_config_check_report(config_path: &str, checks: &Vec<ConfigCheckView>, error_count: u64,
    warning_count: u64, ok: bool) -> (r: String)
    ensures
        r@ == config_check_text(config_path@, checks@, error_count, warning_count, ok),
{
    let mut out = "EmuWiz Config Check\n".to_owned();
    push_str(&mut out, "Config: ");
    line(&mut out, config_path);
    push_str(&mut out, "\nChecks:\n");
    let ghost head = out@;
    let mut k: usize = 0;
    while k < checks.len()
        invariant
            k <= checks@.len(),
            out@ == head + check_rows(checks@.take(k as int)),
        decreases checks@.len() - k,
    {
        proof {
            assert(checks@.take(k + 1).drop_last() =~= checks@.take(k as int));
        }
        push_check_row(&mut out, &checks[k]);
        k = k + 1;
    }
    proof {
        assert(checks@.take(checks@.len() as int) =~= checks@);
        reveal_strlit("Warnings:");
        reveal_strlit("Errors:");
    }
    push_section(&mut out, "Warnings:", checks, CheckOutcome::Warn);
    push_section(&mut out, "Errors:", checks, CheckOutcome::Error);
    push_str(&mut out, "\nSummary:\n");
    push_str(&mut out, "  Errors: ");
    line(&mut out, decimal(error_count).as_str());
    push_str(&mut out, "  Warnings: ");
    line(&mut out, decimal(warning_count).as_str());
    push_str(&mut out, "  Status: ");
    line(&mut out, if ok { "OK" } else { "Needs attention" });
    proof {
        assert(out@ =~= config_check_text(config_path@, checks@, error_count, warning_count, ok));
    }
    out
}

/// The message a failure to load the configuration ends with: the error,
/// and, only when the file was not found and is confirmed missing, how to
/// get started.
pub open spec fn config_load_message(error: Seq<char>, not_found: bool, confirmed_missing: bool, path: Seq<char>) -> Seq<char> {
    if not_found && confirmed_missing {
        error + "\nNo configuration file yet - this is normal for a new install. Run `emuwiz-cli config-check` to see what's needed, or copy config.toml.example to "@
            + path + " to get started."@
    } else {
        error
    }
}

/// Explains a failure to load the configuration at `path`: `not_found`
/// says the error was a missing file, `confirmed_missing` that nothing (not
/// even a dangling link) stands at `path`.
pub fn explain_config_load_error(error: &str, not_found: bool, confirmed_missing: bool, path: &str) -> (r: String)
    ensures
        r@ == config_load_message(error@, not_found, confirmed_missing, path@),
{
    let mut out = error.to_owned();
    if not_found && confirmed_missing {
        push_str(&mut out, "\nNo configuration file yet - this is normal for a new install. Run `emuwiz-cli config-check` to see what's needed, or copy config.toml.example to ");
        push_str(&mut out, path);
        push_str(&mut out, " to get started.");
    }
    proof {
        assert(out@ =~= config_load_message(error@, not_found, confirmed_missing, path@));
    }
    out
}

} // verus!
