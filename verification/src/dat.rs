//! `dat <inspect|validate|audit>`: argument handling, the severity split of
//! parser diagnostics, the validity verdict and the text reports.
//!
//! Parsing a DAT file is done by the catalogue engine; the report functions
//! here take what it found as plain values.
use vstd::prelude::*;
use crate::args::{collect_pairs, extract_flag, occurs, take_repeated_string_values, without};
use crate::text::{concat, debug_list, decimal, push_str, same, spec_debug_list, spec_decimal, spec_join};

verus! {

/// What `dat` was asked to do.
#[derive(Debug, Clone, PartialEq, Eq)]
pub enum DatCommand {
    /// `dat inspect <path> [--json]`
    Inspect { json: bool, path: String },
    /// `dat validate <path> [--json]`
    Validate { json: bool, path: String },
    /// `dat audit <path> [--json] [--file <path> ...]`; the files are compared
    /// by name only.
    Audit { json: bool, path: String, files: Vec<String> },
}

/// The usage text for a missing sub-command.
pub open spec fn dat_usage() -> Seq<char> {
    "dat requires a sub-command: inspect <path> | validate <path> | audit <path> [--json] [--file <path> ...]\n  --file compares the given name against the DAT. It does not open,\n  read or hash the file."@
}

/// `"<command> does not accept <args:?>"`.
pub open spec fn rejected_message(command: Seq<char>, extra: Seq<String>) -> Seq<char> {
    command + " does not accept "@ + spec_debug_list(extra)
}

/// No arguments may be left over.
pub fn reject_extra(args: &Vec<String>, command: &str) -> (r: Result<(), String>)
    ensures
        args@.len() == 0 ==> r is Ok,
        args@.len() > 0 ==> (r matches Err(m) && m@ == rejected_message(command@, args@)),
{
    if args.len() == 0 {
        Ok(())
    } else {
        let mut m = concat(command, " does not accept ");
        let shown = debug_list(args);
        push_str(&mut m, shown.as_str());
        Err(m)
    }
}

/// Takes the first argument as the DAT path, or fails with `usage`.
pub fn take_first_path(args: &mut Vec<String>, usage: &str) -> (r: Result<String, String>)
    ensures
        old(args)@.len() == 0 ==> (r matches Err(m) && m@ == usage@) && final(args)@ == old(args)@,
        old(args)@.len() > 0 ==> (r matches Ok(p) && p == old(args)@[0]) && final(args)@ == old(args)@.drop_first(),
{
    if args.len() == 0 {
        return Err(usage.to_owned());
    }
    Ok(args.remove(0))
}

/// The request a sub-command's arguments make: `--json` anywhere, the first
/// remaining argument as the path, nothing else.
pub open spec fn spec_simple_request(rest: Seq<String>, usage: Seq<char>, command: Seq<char>) -> Result<(bool, String), Seq<char>> {
    let left = without(rest, "--json"@);
    if left.len() == 0 {
        Err(usage)
    } else if left.len() > 1 {
        Err(rejected_message(command, left.drop_first()))
    } else {
        Ok((occurs(rest, "--json"@), left[0]))
    }
}

fn simple_request(rest: Vec<String>, usage: &str, command: &str) -> (r: Result<(bool, String), String>)
    ensures
        match spec_simple_request(rest@, usage@, command@) {
            Ok(v) => r == Ok::<(bool, String), String>(v),
            Err(m) => r matches Err(e) && e@ == m,
        },
{
    let mut args = rest;
    let json = extract_flag(&mut args, "--json");
    let path = take_first_path(&mut args, usage)?;
    reject_extra(&args, command)?;
    Ok((json, path))
}

/// The request `dat audit` makes: `--json` anywhere, the first remaining
/// argument as the path, then every `--file <path>` pair, nothing else.
pub open spec fn spec_audit_request(rest: Seq<String>) -> Result<(bool, String, Seq<String>), Seq<char>> {
    let left = without(rest, "--json"@);
    if left.len() == 0 {
        Err("dat audit requires a DAT file path"@)
    } else {
        let files = collect_pairs(left.drop_first(), "--file"@, false);
        if files.2 is Some {
            Err("--file requires a path"@)
        } else if files.1.len() > 0 {
            Err(rejected_message("dat audit"@, files.1))
        } else {
            Ok((occurs(rest, "--json"@), left[0], files.0))
        }
    }
}

fn audit_request(rest: Vec<String>) -> (r: Result<DatCommand, String>)
    ensures
        match spec_audit_request(rest@) {
            Ok((json, path, files)) => r matches Ok(DatCommand::Audit { json: j, path: p, files: f })
                && j == json && p == path && f@ == files,
            Err(m) => r matches Err(e) && e@ == m,
        },
{
    let mut args = rest;
    let json = extract_flag(&mut args, "--json");
    let path = take_first_path(&mut args, "dat audit requires a DAT file path")?;
    let files = match take_repeated_string_values(&mut args, "--file") {
        Ok(files) => files,
        Err(_) => return Err("--file requires a path".to_owned()),
    };
    reject_extra(&args, "dat audit")?;
    Ok(DatCommand::Audit { json, path, files })
}

/// `dat <sub-command> ...`: the request, or the message the command fails
/// with before any file is read.
pub fn run(args: Vec<String>) -> (r: Result<DatCommand, String>)
    ensures
        args@.len() == 0 ==> (r matches Err(m) && m@ == dat_usage()),
        args@.len() > 0 && args@[0]@ == "inspect"@ ==> match spec_simple_request(args@.drop_first(),
            "dat inspect requires a DAT file path"@, "dat inspect"@) {
            Ok((json, path)) => r == Ok::<DatCommand, String>(DatCommand::Inspect { json, path }),
            Err(m) => r matches Err(e) && e@ == m,
        },
        args@.len() > 0 && args@[0]@ == "validate"@ ==> match spec_simple_request(args@.drop_first(),
            "dat validate requires a DAT file path"@, "dat validate"@) {
            Ok((json, path)) => r == Ok::<DatCommand, String>(DatCommand::Validate { json, path }),
            Err(m) => r matches Err(e) && e@ == m,
        },
        args@.len() > 0 && args@[0]@ == "audit"@ ==> match spec_audit_request(args@.drop_first()) {
            Ok((json, path, files)) => r matches Ok(DatCommand::Audit { json: j, path: p, files: f })
                && j == json && p == path && f@ == files,
            Err(m) => r matches Err(e) && e@ == m,
        },
        args@.len() > 0 && args@[0]@ != "inspect"@ && args@[0]@ != "validate"@ && args@[0]@ != "audit"@
            ==> (r matches Err(m) && m@ == "unknown dat sub-command '"@ + args@[0]@
                + "' (expected inspect, validate, or audit)"@),
{
    proof {
        reveal_strlit("inspect");
        reveal_strlit("validate");
        reveal_strlit("audit");
        assert("inspect"@[0] == 'i');
        assert("validate"@[0] == 'v');
        assert("audit"@[0] == 'a');
    }
    let mut args = args;
    if args.len() == 0 {
        return Err("dat requires a sub-command: inspect <path> | validate <path> | audit <path> [--json] [--file <path> ...]\n  --file compares the given name against the DAT. It does not open,\n  read or hash the file.".to_owned());
    }
    let command = args.remove(0);
    if same(&command, "inspect") {
        let (json, path) = simple_request(args, "dat inspect requires a DAT file path", "dat inspect")?;
        Ok(DatCommand::Inspect { json, path })
    } else if same(&command, "validate") {
        let (json, path) = simple_request(args, "dat validate requires a DAT file path", "dat validate")?;
        Ok(DatCommand::Validate { json, path })
    } else if same(&command, "audit") {
        audit_request(args)
    } else {
        let mut m = concat("unknown dat sub-command '", command.as_str());
        push_str(&mut m, "' (expected inspect, validate, or audit)");
        Err(m)
    }
}

/// How serious a parser diagnostic is.
#[derive(Debug, Clone, Copy, PartialEq, Eq, Structural)]
pub enum Severity {
    /// Makes the DAT invalid.
    Error,
    /// Worth a look; the DAT stays valid.
    Warning,
    /// Expected parser behaviour, never shown as a warning.
    Note,
}

/// One parser diagnostic: its severity and its display text.
#[derive(Debug, PartialEq, Eq)]
pub struct Diagnostic {
    pub severity: Severity,
    pub text: String,
}

impl Diagnostic {
    /// A copy of the diagnostic.
    pub fn duplicate(&self) -> (r: Diagnostic)
        ensures
            r == *self,
    {
        Diagnostic { severity: self.severity, text: self.text.clone() }
    }
}

/// The diagnostics of one severity, in their original order.
pub open spec fn of_severity(s: Seq<Diagnostic>, severity: Severity) -> Seq<Diagnostic>
    decreases s.len(),
{
    if s.len() == 0 {
        Seq::empty()
    } else if s.last().severity == severity {
        of_severity(s.drop_last(), severity).push(s.last())
    } else {
        of_severity(s.drop_last(), severity)
    }
}

/// Splits diagnostics into (errors, warnings, notes) by severity, keeping
/// the parser's order within each list.
pub fn partition_diagnostics(warnings: &Vec<Diagnostic>) -> (r: (Vec<Diagnostic>, Vec<Diagnostic>, Vec<Diagnostic>))
    ensures
        r.0@ == of_severity(warnings@, Severity::Error),
        r.1@ == of_severity(warnings@, Severity::Warning),
        r.2@ == of_severity(warnings@, Severity::Note),
{
    let mut errors: Vec<Diagnostic> = Vec::new();
    let mut real_warnings: Vec<Diagnostic> = Vec::new();
    let mut notes: Vec<Diagnostic> = Vec::new();
    let mut k: usize = 0;
    while k < warnings.len()
        invariant
            k <= warnings@.len(),
            errors@ == of_severity(warnings@.take(k as int), Severity::Error),
            real_warnings@ == of_severity(warnings@.take(k as int), Severity::Warning),
            notes@ == of_severity(warnings@.take(k as int), Severity::Note),
        decreases warnings@.len() - k,
    {
        proof {
            assert(warnings@.take(k + 1).drop_last() =~= warnings@.take(k as int));
            assert(warnings@.take(k + 1).last() == warnings@[k as int]);
        }
        let d = warnings[k].duplicate();
        match d.severity {
            Severity::Error => errors.push(d),
            Severity::Warning => real_warnings.push(d),
            Severity::Note => notes.push(d),
        }
        k = k + 1;
    }
    proof {
        assert(warnings@.take(warnings@.len() as int) =~= warnings@);
    }
    (errors, real_warnings, notes)
}

/// Every diagnostic lands in exactly one of the three lists.
pub proof fn lemma_partition_is_complete(s: Seq<Diagnostic>)
    ensures
        of_severity(s, Severity::Error).len() + of_severity(s, Severity::Warning).len()
            + of_severity(s, Severity::Note).len() == s.len(),
    decreases s.len(),
{
    if s.len() > 0 {
        lemma_partition_is_complete(s.drop_last());
    }
}

/// The lines listing diagnostics, one `  - <text>` each.
pub open spec fn diagnostic_lines(s: Seq<Diagnostic>) -> Seq<char>
    decreases s.len(),
{
    if s.len() == 0 {
        Seq::empty()
    } else {
        diagnostic_lines(s.drop_last()) + "  - "@ + s.last().text@ + "\n"@
    }
}

/// A labelled section, present only when there is something to list.
pub open spec fn diagnostic_section(heading: Seq<char>, s: Seq<Diagnostic>) -> Seq<char> {
    if s.len() == 0 { Seq::empty() } else { heading + ":\n"@ + diagnostic_lines(s) }
}

/// Appends the section for `diagnostics` under `heading`, when non-empty.
pub fn write_diagnostic_section(out: &mut String, heading: &str, diagnostics: &Vec<Diagnostic>)
    ensures
        final(out)@ == old(out)@ + diagnostic_section(heading@, diagnostics@),
{
    if diagnostics.len() == 0 {
        proof {
            assert(old(out)@ + Seq::<char>::empty() =~= old(out)@);
        }
        return;
    }
    push_str(out, heading);
    push_str(out, ":\n");
    let ghost start = out@;
    let mut k: usize = 0;
    while k < diagnostics.len()
        invariant
            k <= diagnostics@.len(),
            out@ == start + diagnostic_lines(diagnostics@.take(k as int)),
        decreases diagnostics@.len() - k,
    {
        proof {
            assert(diagnostics@.take(k + 1).drop_last() =~= diagnostics@.take(k as int));
            assert(diagnostics@.take(k + 1).last() == diagnostics@[k as int]);
        }
        push_str(out, "  - ");
        push_str(out, diagnostics[k].text.as_str());
        push_str(out, "\n");
        k = k + 1;
    }
    proof {
        assert(diagnostics@.take(diagnostics@.len() as int) =~= diagnostics@);
        assert(start == old(out)@ + heading@ + ":\n"@);
    }
}

/// A DAT file is valid when there are no file-level errors and no
/// Error-severity diagnostic.
pub open spec fn spec_is_valid(errors: Seq<String>, diagnostics: Seq<Diagnostic>) -> bool {
    errors.len() == 0 && of_severity(diagnostics, Severity::Error).len() == 0
}

/// The validity verdict of `dat validate`.
pub fn is_valid(errors: &Vec<String>, diagnostics: &Vec<Diagnostic>) -> (r: bool)
    ensures
        r == spec_is_valid(errors@, diagnostics@),
{
    let (diagnostic_errors, _, _) = partition_diagnostics(diagnostics);
    errors.len() == 0 && diagnostic_errors.len() == 0
}

/// The texts of the Error-severity diagnostics.
pub open spec fn error_texts(s: Seq<Diagnostic>) -> Seq<String> {
    of_severity(s, Severity::Error).map_values(|d: Diagnostic| d.text)
}

/// `dat validate --json`'s error list: the file-level errors, then the text
/// of every Error-severity diagnostic. The file is valid exactly when it is
/// empty.
pub fn json_errors(errors: &Vec<String>, diagnostics: &Vec<Diagnostic>) -> (r: Vec<String>)
    ensures
        r@ == errors@ + error_texts(diagnostics@),
        (r@.len() == 0) == spec_is_valid(errors@, diagnostics@),
{
    let (diagnostic_errors, _, _) = partition_diagnostics(diagnostics);
    let mut all: Vec<String> = Vec::new();
    let mut k: usize = 0;
    while k < errors.len()
        invariant
            k <= errors@.len(),
            all@ == errors@.take(k as int),
        decreases errors@.len() - k,
    {
        all.push(errors[k].clone());
        proof {
            assert(all@ =~= errors@.take(k + 1));
        }
        k = k + 1;
    }
    let mut j: usize = 0;
    while j < diagnostic_errors.len()
        invariant
            j <= diagnostic_errors@.len(),
            all@ == errors@ + diagnostic_errors@.take(j as int).map_values(|d: Diagnostic| d.text),
        decreases diagnostic_errors@.len() - j,
    {
        proof {
            assert(errors@.take(errors@.len() as int) =~= errors@);
        }
        all.push(diagnostic_errors[j].text.clone());
        proof {
            assert(diagnostic_errors@.take(j + 1).map_values(|d: Diagnostic| d.text)
                =~= diagnostic_errors@.take(j as int).map_values(|d: Diagnostic| d.text).push(diagnostic_errors@[j as int].text));
        }
        j = j + 1;
    }
    proof {
        assert(errors@.take(errors@.len() as int) =~= errors@);
        assert(diagnostic_errors@.take(diagnostic_errors@.len() as int) =~= diagnostic_errors@);
    }
    all
}

/// One checksum of a ROM as shown: the algorithm's label and the value.
#[derive(Debug, PartialEq, Eq)]
pub struct ChecksumView {
    pub label: String,
    pub value: String,
}

/// What the reports show of one ROM.
#[derive(Debug, PartialEq, Eq)]
pub struct RomView {
    pub name: String,
    pub size_bytes: Option<u64>,
    /// The ROM's checksums in the catalogue's order.
    pub checksums: Vec<ChecksumView>,
    pub has_crc32: bool,
    pub has_md5: bool,
    pub has_sha1: bool,
    pub has_sha256: bool,
}

/// What the reports show of one game.
#[derive(Debug, PartialEq, Eq)]
pub struct GameView {
    pub name: String,
    pub roms: Vec<RomView>,
}

/// What the reports show of a parsed DAT.
#[derive(Debug, PartialEq, Eq)]
pub struct DatView {
    pub file_path: String,
    pub format_label: String,
    pub ecosystem_label: String,
    pub name: Option<String>,
    pub description: Option<String>,
    pub version: Option<String>,
    pub author: Option<String>,
    pub entry_count: u64,
    pub rom_count: u64,
    pub games: Vec<GameView>,
}

/// `label` and `value` as one line, or nothing when there is no value.
pub open spec fn optional_line(label: Seq<char>, value: Option<String>) -> Seq<char> {
    match value {
        Some(v) => label + v@ + "\n"@,
        None => Seq::empty(),
    }
}

fn push_optional_line(out: &mut String, label: &str, value: &Option<String>)
    ensures
        final(out)@ == old(out)@ + optional_line(label@, *value),
{
    match value {
        Some(v) => {
            push_str(out, label);
            push_str(out, v.as_str());
            push_str(out, "\n");
        },
        None => {
            proof {
                assert(old(out)@ + Seq::<char>::empty() =~= old(out)@);
            }
        },
    }
}

fn push_line_with_number(out: &mut String, label: &str, n: u64)
    ensures
        final(out)@ == old(out)@ + label@ + spec_decimal(n as nat) + "\n"@,
{
    push_str(out, label);
    let d = decimal(n);
    push_str(out, d.as_str());
    push_str(out, "\n");
}

/// The checksums of a ROM as `label: value`, separated by ", ".
pub open spec fn checksum_list(c: Seq<ChecksumView>) -> Seq<char> {
    spec_join(c.map_values(|x: ChecksumView| x.label@ + ": "@ + x.value@), ", "@)
}

/// The bracketed description of a ROM: its size, then its checksums.
pub open spec fn rom_description(rom: RomView) -> Seq<char> {
    let size = match rom.size_bytes {
        Some(n) => "  "@ + spec_decimal(n as nat) + "B"@,
        None => Seq::empty(),
    };
    if rom.checksums@.len() == 0 {
        size
    } else if size.len() == 0 {
        checksum_list(rom.checksums@)
    } else {
        size + ", "@ + checksum_list(rom.checksums@)
    }
}

/// The line for one ROM in `dat inspect`.
pub open spec fn rom_line(rom: RomView) -> Seq<char> {
    "    "@ + rom.name@ + "  ["@ + rom_description(rom) + "]\n"@
}

/// The lines for a list of ROMs.
pub open spec fn rom_lines(roms: Seq<RomView>) -> Seq<char>
    decreases roms.len(),
{
    if roms.len() == 0 { Seq::empty() } else { rom_lines(roms.drop_last()) + rom_line(roms.last()) }
}

/// The lines for a list of games, each followed by its ROMs.
pub open spec fn game_lines(games: Seq<GameView>) -> Seq<char>
    decreases games.len(),
{
    if games.len() == 0 {
        Seq::empty()
    } else {
        game_lines(games.drop_last()) + "  "@ + games.last().name@ + "\n"@ + rom_lines(games.last().roms@)
    }
}

fn checksum_text(c: &Vec<ChecksumView>) -> (r: String)
    ensures
        r@ == checksum_list(c@),
{
    let mut parts: Vec<String> = Vec::new();
    let mut k: usize = 0;
    while k < c.len()
        invariant
            k <= c@.len(),
            parts@.len() == k,
            forall|j: int| 0 <= j < k ==> #[trigger] parts@[j]@ == c@[j].label@ + ": "@ + c@[j].value@,
        decreases c@.len() - k,
    {
        let mut p = concat(c[k].label.as_str(), ": ");
        push_str(&mut p, c[k].value.as_str());
        parts.push(p);
        k = k + 1;
    }
    proof {
        assert(crate::text::views(parts@) =~= c@.map_values(|x: ChecksumView| x.label@ + ": "@ + x.value@));
    }
    crate::text::join(&parts, ", ")
}

fn push_rom_line(out: &mut String, rom: &RomView)
    ensures
        final(out)@ == old(out)@ + rom_line(*rom),
{
    let mut desc = String::new();
    match rom.size_bytes {
        Some(n) => {
            push_str(&mut desc, "  ");
            let d = decimal(n);
            push_str(&mut desc, d.as_str());
            push_str(&mut desc, "B");
        },
        None => {},
    }
    if rom.checksums.len() > 0 {
        let has_size = crate::text::chars_of(desc.as_str()).len() > 0;
        if has_size {
            push_str(&mut desc, ", ");
        }
        let list = checksum_text(&rom.checksums);
        push_str(&mut desc, list.as_str());
    }
    proof {
        assert(desc@ =~= rom_description(*rom));
    }
    push_str(out, "    ");
    push_str(out, rom.name.as_str());
    push_str(out, "  [");
    push_str(out, desc.as_str());
    push_str(out, "]\n");
}

fn push_game_lines(out: &mut String, games: &Vec<GameView>)
    ensures
        final(out)@ == old(out)@ + game_lines(games@),
{
    let mut k: usize = 0;
    while k < games.len()
        invariant
            k <= games@.len(),
            out@ == old(out)@ + game_lines(games@.take(k as int)),
        decreases games@.len() - k,
    {
        proof {
            assert(games@.take(k + 1).drop_last() =~= games@.take(k as int));
            assert(games@.take(k + 1).last() == games@[k as int]);
        }
        let game = &games[k];
        push_str(out, "  ");
        push_str(out, game.name.as_str());
        push_str(out, "\n");
        let ghost before_roms = out@;
        let mut j: usize = 0;
        while j < game.roms.len()
            invariant
                j <= game.roms@.len(),
                out@ == before_roms + rom_lines(game.roms@.take(j as int)),
            decreases game.roms@.len() - j,
        {
            proof {
                assert(game.roms@.take(j + 1).drop_last() =~= game.roms@.take(j as int));
                assert(game.roms@.take(j + 1).last() == game.roms@[j as int]);
            }
            push_rom_line(out, &game.roms[j]);
            j = j + 1;
        }
        proof {
            assert(game.roms@.take(game.roms@.len() as int) =~= game.roms@);
        }
        k = k + 1;
    }
    proof {
        assert(games@.take(games@.len() as int) =~= games@);
    }
}

/// The text `dat inspect` prints.
pub open spec fn spec_inspect_text(dat: DatView, diagnostics: Seq<Diagnostic>) -> Seq<char> {
    "DAT File: "@ + dat.file_path@ + "\n"@
        + "Format:   "@ + dat.format_label@ + "\n"@
        + "Ecosystem: "@ + dat.ecosystem_label@ + "\n"@
        + optional_line("Name:     "@, dat.name)
        + optional_line("Description: "@, dat.description)
        + optional_line("Version:  "@, dat.version)
        + optional_line("Author:   "@, dat.author)
        + "Entries:  "@ + spec_decimal(dat.entry_count as nat) + "\n"@
        + "ROMs:     "@ + spec_decimal(dat.rom_count as nat) + "\n"@
        + diagnostic_section("Warnings"@, of_severity(diagnostics, Severity::Warning))
        + diagnostic_section("Parser notes"@, of_severity(diagnostics, Severity::Note))
        + "\n"@ + "Games:\n"@ + game_lines(dat.games@)
}

/// The human-readable `dat inspect` report. Parser notes have their own
/// section and are never shown as warnings; Error diagnostics are not listed.
pub fn inspect_text(dat: &DatView, diagnostics: &Vec<Diagnostic>) -> (r: String)
    ensures
        r@ == spec_inspect_text(*dat, diagnostics@),
{
    let (_errors, real_warnings, notes) = partition_diagnostics(diagnostics);
    let mut out = "DAT File: ".to_owned();
    push_str(&mut out, dat.file_path.as_str());
    push_str(&mut out, "\n");
    push_str(&mut out, "Format:   ");
    push_str(&mut out, dat.format_label.as_str());
    push_str(&mut out, "\n");
    push_str(&mut out, "Ecosystem: ");
    push_str(&mut out, dat.ecosystem_label.as_str());
    push_str(&mut out, "\n");
    push_optional_line(&mut out, "Name:     ", &dat.name);
    push_optional_line(&mut out, "Description: ", &dat.description);
    push_optional_line(&mut out, "Version:  ", &dat.version);
    push_optional_line(&mut out, "Author:   ", &dat.author);
    push_line_with_number(&mut out, "Entries:  ", dat.entry_count);
    push_line_with_number(&mut out, "ROMs:     ", dat.rom_count);
    write_diagnostic_section(&mut out, "Warnings", &real_warnings);
    write_diagnostic_section(&mut out, "Parser notes", &notes);
    push_str(&mut out, "\n");
    push_str(&mut out, "Games:\n");
    push_game_lines(&mut out, &dat.games);
    proof {
        assert(out@ =~= spec_inspect_text(*dat, diagnostics@));
    }
    out
}

/// Every ROM of a game is listed: giving the last game of a DAT one more ROM
/// adds exactly that ROM's line, `"    <name>  [<description>]"`, to the end
/// of the `dat inspect` report, and changes nothing else.
pub proof fn lemma_inspect_lists_every_rom(
    dat1: DatView,
    dat2: DatView,
    g1: GameView,
    g2: GameView,
    rom: RomView,
    diagnostics: Seq<Diagnostic>,
)
    requires
        dat1.file_path == dat2.file_path,
        dat1.format_label == dat2.format_label,
        dat1.ecosystem_label == dat2.ecosystem_label,
        dat1.name == dat2.name,
        dat1.description == dat2.description,
        dat1.version == dat2.version,
        dat1.author == dat2.author,
        dat1.entry_count == dat2.entry_count,
        dat1.rom_count == dat2.rom_count,
        dat1.games@.len() > 0,
        dat1.games@.last() == g1,
        dat2.games@ == dat1.games@.drop_last().push(g2),
        g2.name == g1.name,
        g2.roms@ == g1.roms@.push(rom),
    ensures
        spec_inspect_text(dat2, diagnostics) == spec_inspect_text(dat1, diagnostics) + "    "@ + rom.name@ + "  ["@
            + rom_description(rom) + "]\n"@,
{
    let games1 = dat1.games@;
    let games2 = dat2.games@;
    assert(games2.drop_last() =~= games1.drop_last());
    assert(g2.roms@.drop_last() =~= g1.roms@);
    assert(rom_lines(g2.roms@) == rom_lines(g1.roms@) + rom_line(rom));
    assert(game_lines(games2) =~= game_lines(games1) + rom_line(rom));
    assert(spec_inspect_text(dat2, diagnostics) =~= spec_inspect_text(dat1, diagnostics) + rom_line(rom));
}

/// A game with no ROMs is listed by its name line alone, after the games
/// before it.
pub proof fn lemma_inspect_lists_game_names(games: Seq<GameView>, g: GameView)
    requires
        g.roms@.len() == 0,
    ensures
        game_lines(games.push(g)) == game_lines(games) + "  "@ + g.name@ + "\n"@,
{
    assert(games.push(g).drop_last() =~= games);
    assert(game_lines(games.push(g)) =~= game_lines(games) + "  "@ + g.name@ + "\n"@);
}

/// The number of ROMs over all games.
pub open spec fn rom_total(games: Seq<GameView>) -> nat
    decreases games.len(),
{
    if games.len() == 0 { 0 } else { rom_total(games.drop_last()) + games.last().roms@.len() }
}

/// Which checksum a coverage count is about.
#[derive(Debug, Clone, Copy, PartialEq, Eq, Structural)]
pub enum HashKind {
    Crc32,
    Md5,
    Sha1,
    Sha256,
}

/// Whether `rom` carries the checksum `kind`.
pub open spec fn rom_has(rom: RomView, kind: HashKind) -> bool {
    match kind {
        HashKind::Crc32 => rom.has_crc32,
        HashKind::Md5 => rom.has_md5,
        HashKind::Sha1 => rom.has_sha1,
        HashKind::Sha256 => rom.has_sha256,
    }
}

/// How many of `roms` carry the checksum `kind`.
pub open spec fn roms_with(roms: Seq<RomView>, kind: HashKind) -> nat
    decreases roms.len(),
{
    if roms.len() == 0 {
        0
    } else {
        roms_with(roms.drop_last(), kind) + if rom_has(roms.last(), kind) { 1nat } else { 0nat }
    }
}

/// How many ROMs over all games carry the checksum `kind`.
pub open spec fn games_with(games: Seq<GameView>, kind: HashKind) -> nat
    decreases games.len(),
{
    if games.len() == 0 { 0 } else { games_with(games.drop_last(), kind) + roms_with(games.last().roms@, kind) }
}

proof fn lemma_roms_with_bound(roms: Seq<RomView>, kind: HashKind)
    ensures
        roms_with(roms, kind) <= roms.len(),
    decreases roms.len(),
{
    if roms.len() > 0 {
        lemma_roms_with_bound(roms.drop_last(), kind);
    }
}

proof fn lemma_games_with_bound(games: Seq<GameView>, kind: HashKind)
    ensures
        games_with(games, kind) <= rom_total(games),
    decreases games.len(),
{
    if games.len() > 0 {
        lemma_games_with_bound(games.drop_last(), kind);
        lemma_roms_with_bound(games.last().roms@, kind);
    }
}

proof fn lemma_rom_total_prefix(games: Seq<GameView>, k: int)
    requires
        0 <= k <= games.len(),
    ensures
        rom_total(games.take(k)) <= rom_total(games),
    decreases games.len() - k,
{
    if k < games.len() {
        lemma_rom_total_prefix(games, k + 1);
        assert(games.take(k + 1).drop_last() =~= games.take(k));
    } else {
        assert(games.take(k) =~= games);
    }
}

/// The number of ROMs carrying the checksum `kind`.
fn count_with(games: &Vec<GameView>, kind: HashKind) -> (n: u64)
    requires
        rom_total(games@) <= u64::MAX,
    ensures
        n == games_with(games@, kind),
{
    let mut n: u64 = 0;
    let mut k: usize = 0;
    while k < games.len()
        invariant
            k <= games@.len(),
            n == games_with(games@.take(k as int), kind),
            rom_total(games@) <= u64::MAX,
        decreases games@.len() - k,
    {
        proof {
            assert(games@.take(k + 1).drop_last() =~= games@.take(k as int));
            assert(games@.take(k + 1).last() == games@[k as int]);
            lemma_rom_total_prefix(games@, k + 1);
            lemma_games_with_bound(games@.take(k + 1), kind);
        }
        let roms = &games[k].roms;
        let ghost base = n;
        let mut j: usize = 0;
        while j < roms.len()
            invariant
                j <= roms@.len(),
                n == base + roms_with(roms@.take(j as int), kind),
                base + roms_with(roms@, kind) <= u64::MAX,
            decreases roms@.len() - j,
        {
            proof {
                assert(roms@.take(j + 1).drop_last() =~= roms@.take(j as int));
                assert(roms@.take(j + 1).last() == roms@[j as int]);
                lemma_roms_with_prefix(roms@, j + 1, kind);
            }
            let rom = &roms[j];
            let has = match kind {
                HashKind::Crc32 => rom.has_crc32,
                HashKind::Md5 => rom.has_md5,
                HashKind::Sha1 => rom.has_sha1,
                HashKind::Sha256 => rom.has_sha256,
            };
            if has {
                n = n + 1;
            }
            j = j + 1;
        }
        proof {
            assert(roms@.take(roms@.len() as int) =~= roms@);
        }
        k = k + 1;
    }
    proof {
        assert(games@.take(games@.len() as int) =~= games@);
    }
    n
}

proof fn lemma_roms_with_prefix(roms: Seq<RomView>, j: int, kind: HashKind)
    requires
        0 <= j <= roms.len(),
    ensures
        roms_with(roms.take(j), kind) <= roms_with(roms, kind),
    decreases roms.len() - j,
{
    if j < roms.len() {
        lemma_roms_with_prefix(roms, j + 1, kind);
        assert(roms.take(j + 1).drop_last() =~= roms.take(j));
    } else {
        assert(roms.take(j) =~= roms);
    }
}

/// The number of ROMs over all games.
fn total_roms(games: &Vec<GameView>) -> (n: u64)
    requires
        rom_total(games@) <= u64::MAX,
    ensures
        n == rom_total(games@),
{
    let mut n: u64 = 0;
    let mut k: usize = 0;
    while k < games.len()
        invariant
            k <= games@.len(),
            n == rom_total(games@.take(k as int)),
            rom_total(games@) <= u64::MAX,
        decreases games@.len() - k,
    {
        proof {
            assert(games@.take(k + 1).drop_last() =~= games@.take(k as int));
            assert(games@.take(k + 1).last() == games@[k as int]);
            lemma_rom_total_prefix(games@, k + 1);
        }
        n = n + games[k].roms.len() as u64;
        k = k + 1;
    }
    proof {
        assert(games@.take(games@.len() as int) =~= games@);
    }
    n
}

/// One `  - <text>` line per string.
pub open spec fn string_lines(s: Seq<String>) -> Seq<char>
    decreases s.len(),
{
    if s.len() == 0 { Seq::empty() } else { string_lines(s.drop_last()) + "  - "@ + s.last()@ + "\n"@ }
}

fn push_string_lines(out: &mut String, s: &Vec<String>)
    ensures
        final(out)@ == old(out)@ + string_lines(s@),
{
    let mut k: usize = 0;
    while k < s.len()
        invariant
            k <= s@.len(),
            out@ == old(out)@ + string_lines(s@.take(k as int)),
        decreases s@.len() - k,
    {
        proof {
            assert(s@.take(k + 1).drop_last() =~= s@.take(k as int));
            assert(s@.take(k + 1).last() == s@[k as int]);
        }
        push_str(out, "  - ");
        push_str(out, s[k].as_str());
        push_str(out, "\n");
        k = k + 1;
    }
    proof {
        assert(s@.take(s@.len() as int) =~= s@);
    }
}

/// The verdict block of `dat validate`.
pub open spec fn verdict_block(errors: Seq<String>, diagnostics: Seq<Diagnostic>) -> Seq<char> {
    if spec_is_valid(errors, diagnostics) {
        "Valid:     yes\n"@
    } else {
        "Valid:     no\n"@ + "Errors:\n"@ + string_lines(errors)
            + diagnostic_lines(of_severity(diagnostics, Severity::Error))
    }
}

/// All the ROMs of all the games, game by game, in order.
pub open spec fn all_roms(games: Seq<GameView>) -> Seq<RomView>
    decreases games.len(),
{
    if games.len() == 0 { Seq::empty() } else { all_roms(games.drop_last()) + games.last().roms@ }
}

proof fn lemma_rom_total_is_all_roms(games: Seq<GameView>)
    ensures
        rom_total(games) == all_roms(games).len(),
    decreases games.len(),
{
    if games.len() > 0 {
        lemma_rom_total_is_all_roms(games.drop_last());
    }
}

proof fn lemma_roms_with_filter(roms: Seq<RomView>, kind: HashKind, pred: spec_fn(RomView) -> bool)
    requires
        forall|r: RomView| #[trigger] pred(r) == rom_has(r, kind),
    ensures
        roms_with(roms, kind) == roms.filter(pred).len(),
    decreases roms.len(),
{
    if roms.len() > 0 {
        lemma_roms_with_filter(roms.drop_last(), kind, pred);
        assert(roms.drop_last().push(roms.last()) =~= roms);
        roms.drop_last().lemma_filter_push(roms.last(), pred);
    }
}

proof fn lemma_games_with_filter(games: Seq<GameView>, kind: HashKind, pred: spec_fn(RomView) -> bool)
    requires
        forall|r: RomView| #[trigger] pred(r) == rom_has(r, kind),
    ensures
        games_with(games, kind) == all_roms(games).filter(pred).len(),
    decreases games.len(),
{
    if games.len() > 0 {
        lemma_games_with_filter(games.drop_last(), kind, pred);
        lemma_roms_with_filter(games.last().roms@, kind, pred);
        Seq::filter_distributes_over_add(all_roms(games.drop_last()), games.last().roms@, pred);
    }
}

/// The coverage counts are counts of the ROMs themselves: the total is the
/// number of ROMs over all games, and each checksum's line counts exactly
/// the ROMs that carry that checksum.
pub proof fn lemma_coverage_counts_roms(games: Seq<GameView>)
    requires
        games.len() > 0,
    ensures
        coverage_block(games) == "\n"@ + "Hash coverage ("@ + spec_decimal(all_roms(games).len()) + " ROMs):\n"@
            + "  CRC32:   "@ + spec_decimal(all_roms(games).filter(|r: RomView| r.has_crc32).len()) + "\n"@
            + "  MD5:     "@ + spec_decimal(all_roms(games).filter(|r: RomView| r.has_md5).len()) + "\n"@
            + "  SHA-1:   "@ + spec_decimal(all_roms(games).filter(|r: RomView| r.has_sha1).len()) + "\n"@
            + "  SHA-256: "@ + spec_decimal(all_roms(games).filter(|r: RomView| r.has_sha256).len()) + "\n"@,
{
    lemma_rom_total_is_all_roms(games);
    lemma_games_with_filter(games, HashKind::Crc32, |r: RomView| r.has_crc32);
    lemma_games_with_filter(games, HashKind::Md5, |r: RomView| r.has_md5);
    lemma_games_with_filter(games, HashKind::Sha1, |r: RomView| r.has_sha1);
    lemma_games_with_filter(games, HashKind::Sha256, |r: RomView| r.has_sha256);
}

/// The `dat validate` report ends with the hash-coverage block of its games.
pub proof fn lemma_validate_ends_with_coverage(dat: DatView, diagnostics: Seq<Diagnostic>, errors: Seq<String>)
    ensures
        coverage_block(dat.games@).is_suffix_of(spec_validate_text(dat, diagnostics, errors)),
{
    let t = spec_validate_text(dat, diagnostics, errors);
    let c = coverage_block(dat.games@);
    let head = t.subrange(0, t.len() - c.len());
    assert(t =~= head + c);
    assert(t.subrange(t.len() - c.len(), t.len() as int) =~= c);
}

/// The hash-coverage block of `dat validate`, present when there are games.
pub open spec fn coverage_block(games: Seq<GameView>) -> Seq<char> {
    if games.len() == 0 {
        Seq::empty()
    } else {
        "\n"@ + "Hash coverage ("@ + spec_decimal(rom_total(games)) + " ROMs):\n"@
            + "  CRC32:   "@ + spec_decimal(games_with(games, HashKind::Crc32)) + "\n"@
            + "  MD5:     "@ + spec_decimal(games_with(games, HashKind::Md5)) + "\n"@
            + "  SHA-1:   "@ + spec_decimal(games_with(games, HashKind::Sha1)) + "\n"@
            + "  SHA-256: "@ + spec_decimal(games_with(games, HashKind::Sha256)) + "\n"@
    }
}

/// The text `dat validate` prints.
pub open spec fn spec_validate_text(dat: DatView, diagnostics: Seq<Diagnostic>, errors: Seq<String>) -> Seq<char> {
    "DAT File:  "@ + dat.file_path@ + "\n"@
        + "Format:    "@ + dat.format_label@ + "\n"@
        + "Ecosystem:  "@ + dat.ecosystem_label@ + "\n"@
        + optional_line("Name:      "@, dat.name)
        + "Entries:   "@ + spec_decimal(dat.entry_count as nat) + "\n"@
        + "ROMs:      "@ + spec_decimal(dat.rom_count as nat) + "\n"@
        + verdict_block(errors, diagnostics)
        + diagnostic_section("Warnings"@, of_severity(diagnostics, Severity::Warning))
        + diagnostic_section("Parser notes"@, of_severity(diagnostics, Severity::Note))
        + coverage_block(dat.games@)
}

fn push_verdict(out: &mut String, errors: &Vec<String>, diagnostics: &Vec<Diagnostic>, diagnostic_errors: &Vec<Diagnostic>)
    requires
        diagnostic_errors@ == of_severity(diagnostics@, Severity::Error),
    ensures
        final(out)@ == old(out)@ + verdict_block(errors@, diagnostics@),
{
    if errors.len() == 0 && diagnostic_errors.len() == 0 {
        push_str(out, "Valid:     yes\n");
    } else {
        push_str(out, "Valid:     no\n");
        push_str(out, "Errors:\n");
        push_string_lines(out, errors);
        let ghost before_diag = out@;
        let mut k: usize = 0;
        while k < diagnostic_errors.len()
            invariant
                k <= diagnostic_errors@.len(),
                out@ == before_diag + diagnostic_lines(diagnostic_errors@.take(k as int)),
            decreases diagnostic_errors@.len() - k,
        {
            proof {
                assert(diagnostic_errors@.take(k + 1).drop_last() =~= diagnostic_errors@.take(k as int));
                assert(diagnostic_errors@.take(k + 1).last() == diagnostic_errors@[k as int]);
            }
            push_str(out, "  - ");
            push_str(out, diagnostic_errors[k].text.as_str());
            push_str(out, "\n");
            k = k + 1;
        }
        proof {
            assert(diagnostic_errors@.take(diagnostic_errors@.len() as int) =~= diagnostic_errors@);
        }
    }
}

fn push_coverage(out: &mut String, games: &Vec<GameView>)
    requires
        rom_total(games@) <= u64::MAX,
    ensures
        final(out)@ == old(out)@ + coverage_block(games@),
{
    if games.len() > 0 {
        push_str(out, "\n");
        let total = total_roms(games);
        push_str(out, "Hash coverage (");
        let t = decimal(total);
        push_str(out, t.as_str());
        push_str(out, " ROMs):\n");
        push_line_with_number(out, "  CRC32:   ", count_with(games, HashKind::Crc32));
        push_line_with_number(out, "  MD5:     ", count_with(games, HashKind::Md5));
        push_line_with_number(out, "  SHA-1:   ", count_with(games, HashKind::Sha1));
        push_line_with_number(out, "  SHA-256: ", count_with(games, HashKind::Sha256));
    } else {
        proof {
            assert(old(out)@ + Seq::<char>::empty() =~= old(out)@);
        }
    }
}

/// The human-readable `dat validate` report: errors, warnings and parser
/// notes each in their own section, printed only when non-empty, and the
/// hash coverage of the ROMs.
pub fn validate_text(dat: &DatView, diagnostics: &Vec<Diagnostic>, errors: &Vec<String>) -> (r: String)
    requires
        rom_total(dat.games@) <= u64::MAX,
    ensures
        r@ == spec_validate_text(*dat, diagnostics@, errors@),
{
    let (diagnostic_errors, real_warnings, notes) = partition_diagnostics(diagnostics);
    let mut out = "DAT File:  ".to_owned();
    push_str(&mut out, dat.file_path.as_str());
    push_str(&mut out, "\n");
    push_str(&mut out, "Format:    ");
    push_str(&mut out, dat.format_label.as_str());
    push_str(&mut out, "\n");
    push_str(&mut out, "Ecosystem:  ");
    push_str(&mut out, dat.ecosystem_label.as_str());
    push_str(&mut out, "\n");
    push_optional_line(&mut out, "Name:      ", &dat.name);
    push_line_with_number(&mut out, "Entries:   ", dat.entry_count);
    push_line_with_number(&mut out, "ROMs:      ", dat.rom_count);
    push_verdict(&mut out, errors, diagnostics, &diagnostic_errors);
    write_diagnostic_section(&mut out, "Warnings", &real_warnings);
    write_diagnostic_section(&mut out, "Parser notes", &notes);
    push_coverage(&mut out, &dat.games);
    proof {
        assert(out@ =~= spec_validate_text(*dat, diagnostics@, errors@));
    }
    out
}

/// The file-level errors `dat validate` adds to a DAT that parsed: a Logiqx
/// XML file with neither games nor ROMs is an error; anything else none.
pub fn validation_errors(dat: &DatView) -> (r: Vec<String>)
    ensures
        dat.games@.len() == 0 && dat.rom_count == 0 && dat.format_label@ == "Logiqx XML"@
            ==> r@.len() == 1 && r@[0]@ == "file parsed but contains no game entries"@,
        !(dat.games@.len() == 0 && dat.rom_count == 0 && dat.format_label@ == "Logiqx XML"@)
            ==> r@.len() == 0,
{
    let mut r: Vec<String> = Vec::new();
    if dat.games.len() == 0 && dat.rom_count == 0 && same(&dat.format_label, "Logiqx XML") {
        r.push("file parsed but contains no game entries".to_owned());
    }
    r
}

} // verus!
