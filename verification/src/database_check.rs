//! The text of `database-check`: what the bounded, read-only diagnostic
//! found of the catalogue database file, its SQLite state and its sidecar
//! files.
use vstd::prelude::*;
use crate::text::{decimal, push_char, push_str, signed_decimal, signed_text, spec_decimal};

verus! {

/// What the file system says of the database file.
#[derive(Debug, Clone, Copy, PartialEq, Eq, Structural)]
pub struct DatabaseFileView {
    pub size_bytes: u64,
    pub permissions_mode: Option<u32>,
    pub owner_uid: Option<u32>,
    pub group_gid: Option<u32>,
    pub inode: Option<u64>,
    pub modified_unix_seconds: Option<i64>,
}

/// A sidecar file of the database (journal, WAL, shared memory).
#[derive(Debug, Clone, PartialEq, Eq)]
pub struct SidecarView {
    /// The sidecar's kind, by name.
    pub kind: String,
    pub present: bool,
    pub size_bytes: Option<u64>,
    /// The rollback journal header's state, by name, where it was read.
    pub rollback_journal_header: Option<String>,
}

/// A diagnostic of the check.
#[derive(Debug, Clone, PartialEq, Eq)]
pub struct DatabaseDiagnosticView {
    /// The diagnostic's code, by name.
    pub code: String,
    pub message: String,
    pub raw_sqlite_message: Option<String>,
}

/// A database health report.
#[derive(Debug, Clone, PartialEq, Eq)]
pub struct DatabaseHealthReportView {
    pub database_path: String,
    /// Whether the path's display lost bytes that are not UTF-8.
    pub database_path_lossy: bool,
    pub database_present: bool,
    /// How opening the database went, by name.
    pub open_outcome: String,
    pub main_file: Option<DatabaseFileView>,
    pub journal_mode: Option<String>,
    pub schema_version: Option<i64>,
    /// The quick check's status, by name.
    pub quick_check: String,
    /// The integrity check's status, by name.
    pub integrity_check: String,
    pub sidecars: Vec<SidecarView>,
    pub diagnostics: Vec<DatabaseDiagnosticView>,
}

/// A line: the text and a newline.
pub open spec fn ln(t: Seq<char>) -> Seq<char> {
    t + "\n"@
}

/// The octal digits of `n`, most significant first.
pub open spec fn spec_octal(n: nat) -> Seq<char>
    decreases n,
{
    if n < 8 {
        seq![octal_digit(n)]
    } else {
        spec_octal(n / 8).push(octal_digit(n % 8))
    }
}

/// The ASCII digit for `d`, which must be below eight.
pub open spec fn octal_digit(d: nat) -> char {
    ((d + 48) as u8) as char
}

/// `digits` padded on the left with zeros to at least `width` characters.
pub open spec fn zero_padded(digits: Seq<char>, width: nat) -> Seq<char> {
    if digits.len() < width {
        Seq::new((width - digits.len()) as nat, |i: int| '0') + digits
    } else {
        digits
    }
}

/// `yes` or `no`.
pub open spec fn yes_no(b: bool) -> Seq<char> {
    if b { "yes"@ } else { "no"@ }
}

/// The permissions line, when the mode is known.
pub open spec fn permissions_ln(f: DatabaseFileView) -> Seq<char> {
    match f.permissions_mode { Some(m) => ln("Permissions: "@ + zero_padded(spec_octal(m as nat), 4)), None => Seq::empty() }
}

/// The owner line, when both owner and group are known.
pub open spec fn owner_ln(f: DatabaseFileView) -> Seq<char> {
    match (f.owner_uid, f.group_gid) {
        (Some(u), Some(g)) => ln("Owner UID/GID: "@ + spec_decimal(u as nat) + "/"@ + spec_decimal(g as nat)),
        _ => Seq::empty(),
    }
}

/// The inode and modification lines, where known.
pub open spec fn inode_modified_ln(f: DatabaseFileView) -> Seq<char> {
    (match f.inode { Some(i) => ln("Inode: "@ + spec_decimal(i as nat)), None => Seq::empty() })
        + match f.modified_unix_seconds {
            Some(t) => ln("Modified: "@ + signed_decimal(t as int) + " Unix seconds"@),
            None => Seq::empty(),
        }
}

/// The lines about the database file itself.
pub open spec fn file_lines(f: DatabaseFileView) -> Seq<char> {
    ln("Size: "@ + spec_decimal(f.size_bytes as nat) + " bytes"@) + permissions_ln(f) + owner_ln(f) + inode_modified_ln(f)
}

/// The database line.
pub open spec fn database_ln(r: DatabaseHealthReportView) -> Seq<char> {
    ln("Database: "@ + r.database_path@ + if r.database_path_lossy { " (lossy display)"@ } else { Seq::empty() })
}

/// The head: the path, presence, open outcome and the file's details.
pub open spec fn check_head(r: DatabaseHealthReportView) -> Seq<char> {
    "EmuWiz Database Check\n\n"@
        + database_ln(r)
        + ln("Present: "@ + yes_no(r.database_present))
        + ln("Open outcome: "@ + r.open_outcome@)
        + match r.main_file { Some(f) => file_lines(f), None => Seq::empty() }
}

/// The SQLite state: journal mode, schema and the checks.
pub open spec fn sqlite_lines(r: DatabaseHealthReportView) -> Seq<char> {
    ln("Journal mode: "@ + match r.journal_mode { Some(j) => j@, None => "not readable"@ })
        + ln("Schema version: "@ + match r.schema_version { Some(v) => signed_decimal(v as int), None => "not readable"@ })
        + ln("Quick check: "@ + r.quick_check@)
        + ln("Integrity check: "@ + r.integrity_check@ + " (not run by the bounded default diagnostic)"@)
}

/// One sidecar's lines.
pub open spec fn sidecar_text(s: SidecarView) -> Seq<char> {
    ln("  "@ + s.kind@ + ": "@ + (if s.present { "present"@ } else { "absent"@ }) + " ("@
        + match s.size_bytes { Some(n) => spec_decimal(n as nat) + " bytes"@, None => "-"@ } + ")"@)
        + match s.rollback_journal_header { Some(h) => ln("    Header: "@ + h@), None => Seq::empty() }
}

/// Every sidecar's lines.
pub open spec fn sidecar_texts(v: Seq<SidecarView>) -> Seq<char>
    decreases v.len(),
{
    if v.len() == 0 { Seq::empty() } else { sidecar_texts(v.drop_last()) + sidecar_text(v.last()) }
}

/// One diagnostic's lines.
pub open spec fn diagnostic_text(d: DatabaseDiagnosticView) -> Seq<char> {
    ln("  "@ + d.code@ + ": "@ + d.message@)
        + match d.raw_sqlite_message { Some(m) => ln("    SQLite detail (unstable): "@ + m@), None => Seq::empty() }
}

/// Every diagnostic's lines.
pub open spec fn diagnostic_texts(v: Seq<DatabaseDiagnosticView>) -> Seq<char>
    decreases v.len(),
{
    if v.len() == 0 { Seq::empty() } else { diagnostic_texts(v.drop_last()) + diagnostic_text(v.last()) }
}

/// The whole `database-check` text.
pub open spec fn database_check_text(r: DatabaseHealthReportView) -> Seq<char> {
    check_head(r) + sqlite_lines(r) + ln("Sidecars:"@) + sidecar_texts(r.sidecars@) + ln("Diagnostics:"@)
        + if r.diagnostics@.len() == 0 { ln("  none"@) } else { diagnostic_texts(r.diagnostics@) }
}

fn line(out: &mut String, t: &str)
    ensures
        final(out)@ == old(out)@ + ln(t@),
{
    push_str(out, t);
    push_str(out, "\n");
    proof {
        assert(final(out)@ =~= old(out)@ + ln(t@));
    }
}

/// `n` in octal.
pub fn octal(n: u32) -> (r: String)
    ensures
        r@ == spec_octal(n as nat),
    decreases n,
{
    if n < 8 {
        let mut s = String::new();
        push_char(&mut s, ((n as u8) + 48u8) as char);
        s
    } else {
        let mut s = octal(n / 8);
        push_char(&mut s, (((n % 8) as u8) + 48u8) as char);
        s
    }
}

/// `format!("{mode:04o}")`: `mode` in octal, zero-padded to four digits.
pub fn permissions_text(mode: u32) -> (r: String)
    ensures
        r@ == zero_padded(spec_octal(mode as nat), 4),
{
    let digits = octal(mode);
    let len = crate::text::chars_of(digits.as_str()).len();
    let mut r = String::new();
    let mut k = len;
    while k < 4
        invariant
            len == digits@.len(),
            len <= k,
            k <= 4 || k == len,
            r@ == Seq::new((k - len) as nat, |i: int| '0'),
        decreases 4 - k,
    {
        push_char(&mut r, '0');
        k = k + 1;
        proof {
            assert(r@ =~= Seq::new((k - len) as nat, |i: int| '0'));
        }
    }
    let ghost pad = r@;
    push_str(&mut r, digits.as_str());
    proof {
        if len >= 4 {
            assert(pad.len() == 0);
            assert(r@ =~= digits@);
        } else {
            assert(r@ =~= Seq::new((4 - len) as nat, |i: int| '0') + digits@);
        }
    }
    r
}

fn push_permissions(out: &mut String, f: &DatabaseFileView)
    ensures
        final(out)@ == old(out)@ + permissions_ln(*f),
{
    let ghost start = out@;
    match f.permissions_mode {
        Some(m) => {
            push_str(out, "Permissions: ");
            line(out, permissions_text(m).as_str());
        },
        None => {},
    }
    proof {
        assert(out@ =~= start + permissions_ln(*f));
    }
}

fn push_owner(out: &mut String, f: &DatabaseFileView)
    ensures
        final(out)@ == old(out)@ + owner_ln(*f),
{
    let ghost start = out@;
    match (f.owner_uid, f.group_gid) {
        (Some(u), Some(g)) => {
            push_str(out, "Owner UID/GID: ");
            push_str(out, decimal(u as u64).as_str());
            push_str(out, "/");
            line(out, decimal(g as u64).as_str());
        },
        _ => {},
    }
    proof {
        assert(out@ =~= start + owner_ln(*f));
    }
}

fn push_inode_modified(out: &mut String, f: &DatabaseFileView)
    ensures
        final(out)@ == old(out)@ + inode_modified_ln(*f),
{
    let ghost start = out@;
    match f.inode {
        Some(i) => {
            push_str(out, "Inode: ");
            line(out, decimal(i).as_str());
        },
        None => {},
    }
    let ghost mid = out@;
    match f.modified_unix_seconds {
        Some(t) => {
            push_str(out, "Modified: ");
            push_str(out, signed_text(t).as_str());
            line(out, " Unix seconds");
        },
        None => {},
    }
    proof {
        assert(mid =~= start + match f.inode { Some(i) => ln("Inode: "@ + spec_decimal(i as nat)), None => Seq::<char>::empty() });
        assert(out@ =~= start + inode_modified_ln(*f));
    }
}

fn push_file_lines(out: &mut String, f: &DatabaseFileView)
    ensures
        final(out)@ == old(out)@ + file_lines(*f),
{
    let ghost start = out@;
    push_str(out, "Size: ");
    push_str(out, decimal(f.size_bytes).as_str());
    line(out, " bytes");
    push_permissions(out, f);
    push_owner(out, f);
    push_inode_modified(out, f);
    proof {
        assert(out@ =~= start + file_lines(*f));
    }
}

fn push_database_ln(out: &mut String, r: &DatabaseHealthReportView)
    ensures
        final(out)@ == old(out)@ + database_ln(*r),
{
    let ghost start = out@;
    push_str(out, "Database: ");
    push_str(out, r.database_path.as_str());
    if r.database_path_lossy {
        push_str(out, " (lossy display)");
    }
    push_str(out, "\n");
    proof {
        assert(out@ =~= start + database_ln(*r));
    }
}

fn push_head(out: &mut String, r: &DatabaseHealthReportView)
    ensures
        final(out)@ == old(out)@ + check_head(*r),
{
    let ghost start = out@;
    push_str(out, "EmuWiz Database Check\n\n");
    push_database_ln(out, r);
    push_str(out, "Present: ");
    line(out, if r.database_present { "yes" } else { "no" });
    push_str(out, "Open outcome: ");
    line(out, r.open_outcome.as_str());
    let ghost before = out@;
    match &r.main_file {
        Some(f) => push_file_lines(out, f),
        None => {},
    }
    proof {
        assert(out@ =~= start + check_head(*r));
    }
}

fn push_sqlite_lines(out: &mut String, r: &DatabaseHealthReportView)
    ensures
        final(out)@ == old(out)@ + sqlite_lines(*r),
{
    let ghost start = out@;
    push_str(out, "Journal mode: ");
    match &r.journal_mode {
        Some(j) => line(out, j.as_str()),
        None => line(out, "not readable"),
    }
    push_str(out, "Schema version: ");
    match r.schema_version {
        Some(v) => line(out, signed_text(v).as_str()),
        None => line(out, "not readable"),
    }
    push_str(out, "Quick check: ");
    line(out, r.quick_check.as_str());
    push_str(out, "Integrity check: ");
    push_str(out, r.integrity_check.as_str());
    line(out, " (not run by the bounded default diagnostic)");
    proof {
        assert(out@ =~= start + sqlite_lines(*r));
    }
}

fn push_sidecar(out: &mut String, s: &SidecarView)
    ensures
        final(out)@ == old(out)@ + sidecar_text(*s),
{
    let ghost start = out@;
    push_str(out, "  ");
    push_str(out, s.kind.as_str());
    push_str(out, ": ");
    push_str(out, if s.present { "present" } else { "absent" });
    push_str(out, " (");
    match s.size_bytes {
        Some(n) => {
            push_str(out, decimal(n).as_str());
            push_str(out, " bytes");
        },
        None => push_str(out, "-"),
    }
    line(out, ")");
    let ghost before = out@;
    match &s.rollback_journal_header {
        Some(h) => {
            push_str(out, "    Header: ");
            line(out, h.as_str());
        },
        None => {},
    }
    proof {
        assert(out@ =~= start + sidecar_text(*s));
    }
}

fn push_diagnostic(out: &mut String, d: &DatabaseDiagnosticView)
    ensures
        final(out)@ == old(out)@ + diagnostic_text(*d),
{
    let ghost start = out@;
    push_str(out, "  ");
    push_str(out, d.code.as_str());
    push_str(out, ": ");
    line(out, d.message.as_str());
    match &d.raw_sqlite_message {
        Some(m) => {
            push_str(out, "    SQLite detail (unstable): ");
            line(out, m.as_str());
        },
        None => {},
    }
    proof {
        assert(out@ =~= start + diagnostic_text(*d));
    }
}

/// The `database-check` report: the database path and whether it is
/// present and opens, the file's size, permissions (octal), owner, inode
/// and modification time when known, the SQLite state, each sidecar file,
/// and the diagnostics.
pub fn format_database_health_report(report: &DatabaseHealthReportView) -> (r: String)
    ensures
        r@ == database_check_text(*report),
{
    let mut out = String::new();
    push_head(&mut out, report);
    push_sqlite_lines(&mut out, report);
    line(&mut out, "Sidecars:");
    let ghost head = out@;
    let v = &report.sidecars;
    let mut k: usize = 0;
    while k < v.len()
        invariant
            k <= v@.len(),
            out@ == head + sidecar_texts(v@.take(k as int)),
        decreases v@.len() - k,
    {
        proof {
            assert(v@.take(k + 1).drop_last() =~= v@.take(k as int));
            assert(v@.take(k + 1).last() == v@[k as int]);
        }
        push_sidecar(&mut out, &v[k]);
        k = k + 1;
    }
    proof {
        assert(v@.take(v@.len() as int) =~= v@);
    }
    line(&mut out, "Diagnostics:");
    if report.diagnostics.len() == 0 {
        line(&mut out, "  none");
    } else {
        let ghost dh = out@;
        let w = &report.diagnostics;
        let mut j: usize = 0;
        while j < w.len()
            invariant
                j <= w@.len(),
                out@ == dh + diagnostic_texts(w@.take(j as int)),
            decreases w@.len() - j,
        {
            proof {
                assert(w@.take(j + 1).drop_last() =~= w@.take(j as int));
                assert(w@.take(j + 1).last() == w@[j as int]);
            }
            push_diagnostic(&mut out, &w[j]);
            j = j + 1;
        }
        proof {
            assert(w@.take(w@.len() as int) =~= w@);
        }
    }
    out
}

} // verus!
