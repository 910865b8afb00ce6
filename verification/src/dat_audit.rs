//! The text of `dat audit`: the DAT audited against, its hash index, and
//! the verdict for each named file. Files are compared by name only.
use vstd::prelude::*;
use crate::text::{decimal, push_str, spec_decimal};

verus! {

/// How many checksums of each kind the DAT's index holds, and how many of
/// them are shared by more than one ROM.
#[derive(Debug, Clone, Copy, PartialEq, Eq, Structural)]
pub struct IndexStats {
    pub crc32: u64,
    pub crc32_collisions: u64,
    pub md5: u64,
    pub md5_collisions: u64,
    pub sha1: u64,
    pub sha1_collisions: u64,
    pub sha256: u64,
    pub sha256_collisions: u64,
}

/// The verdict counts of an audit.
#[derive(Debug, Clone, Copy, PartialEq, Eq, Structural)]
pub struct AuditSummary {
    pub total: u64,
    pub exact: u64,
    pub exact_multiple: u64,
    pub probable: u64,
    pub probable_multiple: u64,
    pub filename_only: u64,
    pub ambiguous: u64,
    pub not_in_dat: u64,
    pub no_evidence: u64,
}

/// What a verdict adds after the file's name.
#[derive(Debug, Clone, PartialEq, Eq)]
pub enum VerdictDetail {
    /// An exact match: the game and the checksum that matched.
    Exact { game_name: String, algorithm: String },
    /// Several candidates matched.
    Candidates { count: u64 },
    /// A probable or name-only match: the game.
    Game { game_name: String },
    /// Nothing to add.
    Nothing,
}

/// One audited file.
#[derive(Debug, Clone, PartialEq, Eq)]
pub struct AuditEntryView {
    /// The verdict's label.
    pub label: String,
    pub local_filename: String,
    pub detail: VerdictDetail,
}

/// What the audit report shows of the DAT.
#[derive(Debug, Clone, PartialEq, Eq)]
pub struct AuditDatView {
    pub file_path: String,
    pub entry_count: u64,
    pub rom_count: u64,
    pub format_label: String,
    pub ecosystem_label: String,
    pub name: Option<String>,
}

/// A line: the text and a newline.
pub open spec fn ln(t: Seq<char>) -> Seq<char> {
    t + "\n"@
}

/// The head: the DAT and its index.
pub open spec fn audit_head(d: AuditDatView, i: IndexStats) -> Seq<char> {
    ln("DAT Audit: "@ + d.file_path@)
        + ln("DAT: "@ + spec_decimal(d.entry_count as nat) + " entries, "@ + spec_decimal(d.rom_count as nat) + " ROMs ("@
            + d.format_label@ + " format, "@ + d.ecosystem_label@ + " ecosystem)"@)
        + (match d.name { Some(n) => ln("DAT name: "@ + n@), None => Seq::empty() })
        + ln(Seq::empty())
        + index_ln(i)
        + ln(Seq::empty())
}

/// The index line.
pub open spec fn index_ln(i: IndexStats) -> Seq<char> {
    ln("Index: CRC32="@ + spec_decimal(i.crc32 as nat) + " ("@ + spec_decimal(i.crc32_collisions as nat)
        + " collisions), MD5="@ + spec_decimal(i.md5 as nat) + " ("@ + spec_decimal(i.md5_collisions as nat)
        + " collisions), SHA-1="@ + spec_decimal(i.sha1 as nat) + " ("@ + spec_decimal(i.sha1_collisions as nat)
        + " collisions), SHA-256="@ + spec_decimal(i.sha256 as nat) + " ("@ + spec_decimal(i.sha256_collisions as nat)
        + " collisions)"@)
}

/// The reminder that files are compared by name only.
pub open spec fn names_only_note() -> Seq<char> {
    ln("Note: --file compares names only. No file is opened, read or hashed,\n      so a match here says a name is in the DAT - not that this file is."@)
        + ln(Seq::empty())
}

/// The verdict counts.
pub open spec fn summary_text(s: AuditSummary) -> Seq<char> {
    ln("Audited: "@ + spec_decimal(s.total as nat) + " files (by name)"@)
        + ln("  Exact:       "@ + spec_decimal(s.exact as nat))
        + ln("  Exact (mult): "@ + spec_decimal(s.exact_multiple as nat))
        + ln("  Probable:    "@ + spec_decimal(s.probable as nat))
        + ln("  Probable (mult): "@ + spec_decimal(s.probable_multiple as nat))
        + ln("  Filename:    "@ + spec_decimal(s.filename_only as nat))
        + ln("  Ambiguous:   "@ + spec_decimal(s.ambiguous as nat))
        + ln("  Not in DAT:  "@ + spec_decimal(s.not_in_dat as nat))
        + ln("  No evidence: "@ + spec_decimal(s.no_evidence as nat))
}

/// What a verdict adds after the file's name.
pub open spec fn detail_text(d: VerdictDetail) -> Seq<char> {
    match d {
        VerdictDetail::Exact { game_name, algorithm } => " -> "@ + game_name@ + " ["@ + algorithm@ + "]"@,
        VerdictDetail::Candidates { count } => " -> "@ + spec_decimal(count as nat) + " candidates"@,
        VerdictDetail::Game { game_name } => " -> "@ + game_name@,
        VerdictDetail::Nothing => Seq::empty(),
    }
}

/// One detail line per audited file.
pub open spec fn entry_lines(v: Seq<AuditEntryView>) -> Seq<char>
    decreases v.len(),
{
    if v.len() == 0 {
        Seq::empty()
    } else {
        let e = v.last();
        entry_lines(v.drop_last()) + ln("  ["@ + e.label@ + "] "@ + e.local_filename@ + detail_text(e.detail))
    }
}

/// The whole `dat audit` text.
pub open spec fn audit_text(d: AuditDatView, i: IndexStats, named_files: bool, s: AuditSummary, entries: Seq<AuditEntryView>) -> Seq<char> {
    audit_head(d, i)
        + (if named_files { names_only_note() } else { Seq::empty() })
        + summary_text(s)
        + if entries.len() == 0 { Seq::empty() } else { ln(Seq::empty()) + ln("Details:"@) + entry_lines(entries) }
}

fn line(out: &mut String, t: &str)
    ensures
        final(out)@ == old(out)@ + ln(t@),
{
    push_str(out, t);
    push_str(out, "\n");
    proof {
        assert(final(out)@ =~= old(out)@ + ln(t@));
    }
}

fn blank(out: &mut String)
    ensures
        final(out)@ == old(out)@ + ln(Seq::empty()),
{
    push_str(out, "\n");
    proof {
        assert(final(out)@ =~= old(out)@ + ln(Seq::empty()));
    }
}

fn number_line(out: &mut String, label: &str, n: u64)
    ensures
        final(out)@ == old(out)@ + ln(label@ + spec_decimal(n as nat)),
{
    push_str(out, label);
    line(out, decimal(n).as_str());
    proof {
        assert(final(out)@ =~= old(out)@ + ln(label@ + spec_decimal(n as nat)));
    }
}

#[verifier::rlimit(50)]
fn push_index(out: &mut String, i: &IndexStats)
    ensures
        final(out)@ == old(out)@ + index_ln(*i),
{
    let ghost start = out@;
    push_str(out, "Index: CRC32=");
    push_str(out, decimal(i.crc32).as_str());
    push_str(out, " (");
    push_str(out, decimal(i.crc32_collisions).as_str());
    push_str(out, " collisions), MD5=");
    push_str(out, decimal(i.md5).as_str());
    push_str(out, " (");
    push_str(out, decimal(i.md5_collisions).as_str());
    push_str(out, " collisions), SHA-1=");
    push_str(out, decimal(i.sha1).as_str());
    push_str(out, " (");
    push_str(out, decimal(i.sha1_collisions).as_str());
    push_str(out, " collisions), SHA-256=");
    push_str(out, decimal(i.sha256).as_str());
    push_str(out, " (");
    push_str(out, decimal(i.sha256_collisions).as_str());
    line(out, " collisions)");
    proof {
        assert(out@ =~= start + index_ln(*i));
    }
}

#[verifier::spinoff_prover]
#[verifier::rlimit(40)]
fn push_head(out: &mut String, d: &AuditDatView, i: &IndexStats)
    ensures
        final(out)@ == old(out)@ + audit_head(*d, *i),
{
    let ghost start = out@;
    push_str(out, "DAT Audit: ");
    line(out, d.file_path.as_str());
    let ghost first = out@;
    proof {
        assert(first =~= start + ln("DAT Audit: "@ + d.file_path@));
    }
    push_str(out, "DAT: ");
    push_str(out, decimal(d.entry_count).as_str());
    push_str(out, " entries, ");
    push_str(out, decimal(d.rom_count).as_str());
    push_str(out, " ROMs (");
    push_str(out, d.format_label.as_str());
    push_str(out, " format, ");
    push_str(out, d.ecosystem_label.as_str());
    line(out, " ecosystem)");
    let ghost second = out@;
    proof {
        assert(second =~= first + ln("DAT: "@ + spec_decimal(d.entry_count as nat) + " entries, "@
            + spec_decimal(d.rom_count as nat) + " ROMs ("@ + d.format_label@ + " format, "@ + d.ecosystem_label@
            + " ecosystem)"@));
    }
    match &d.name {
        Some(n) => {
            push_str(out, "DAT name: ");
            line(out, n.as_str());
            proof {
                assert(out@ =~= second + ln("DAT name: "@ + n@));
            }
        },
        None => {
            proof {
                assert(out@ =~= second + Seq::<char>::empty());
            }
        },
    }
    let ghost third = out@;
    blank(out);
    push_index(out, i);
    blank(out);
    proof {
        assert(out@ =~= third + ln(Seq::empty()) + index_ln(*i) + ln(Seq::empty()));
        assert(out@ =~= start + audit_head(*d, *i));
    }
}

fn push_summary(out: &mut String, s: &AuditSummary)
    ensures
        final(out)@ == old(out)@ + summary_text(*s),
{
    let ghost start = out@;
    push_str(out, "Audited: ");
    push_str(out, decimal(s.total).as_str());
    line(out, " files (by name)");
    number_line(out, "  Exact:       ", s.exact);
    number_line(out, "  Exact (mult): ", s.exact_multiple);
    number_line(out, "  Probable:    ", s.probable);
    number_line(out, "  Probable (mult): ", s.probable_multiple);
    number_line(out, "  Filename:    ", s.filename_only);
    number_line(out, "  Ambiguous:   ", s.ambiguous);
    number_line(out, "  Not in DAT:  ", s.not_in_dat);
    number_line(out, "  No evidence: ", s.no_evidence);
    proof {
        assert(out@ =~= start + summary_text(*s));
    }
}

fn push_detail(out: &mut String, d: &VerdictDetail)
    ensures
        final(out)@ == old(out)@ + detail_text(*d),
{
    match d {
        VerdictDetail::Exact { game_name, algorithm } => {
            push_str(out, " -> ");
            push_str(out, game_name.as_str());
            push_str(out, " [");
            push_str(out, algorithm.as_str());
            push_str(out, "]");
            proof {
                assert(final(out)@ =~= old(out)@ + detail_text(*d));
            }
        },
        VerdictDetail::Candidates { count } => {
            push_str(out, " -> ");
            push_str(out, decimal(*count).as_str());
            push_str(out, " candidates");
            proof {
                assert(final(out)@ =~= old(out)@ + detail_text(*d));
            }
        },
        VerdictDetail::Game { game_name } => {
            push_str(out, " -> ");
            push_str(out, game_name.as_str());
        },
        VerdictDetail::Nothing => {
            proof {
                assert(out@ =~= out@ + Seq::<char>::empty());
            }
        },
    }
}

/// The `dat audit` report: the DAT and its index, the by-name reminder when
/// files were named, the verdict counts, and a line per audited file.
pub fn format_audit_text(dat: &AuditDatView, index: &IndexStats, named_files: bool, summary: &AuditSummary,
    entries: &Vec<AuditEntryView>) -> (r: String)
    ensures
        r@ == audit_text(*dat, *index, named_files, *summary, entries@),
{
    let mut out = String::new();
    push_head(&mut out, dat, index);
    let ghost before_note = out@;
    if named_files {
        line(&mut out, "Note: --file compares names only. No file is opened, read or hashed,\n      so a match here says a name is in the DAT - not that this file is.");
        blank(&mut out);
    }
    proof {
        assert(out@ =~= before_note + if named_files { names_only_note() } else { Seq::<char>::empty() });
    }
    push_summary(&mut out, summary);
    let ghost before_details = out@;
    if entries.len() > 0 {
        blank(&mut out);
        line(&mut out, "Details:");
        let ghost head = out@;
        let mut k: usize = 0;
        while k < entries.len()
            invariant
                k <= entries@.len(),
                out@ == head + entry_lines(entries@.take(k as int)),
            decreases entries@.len() - k,
        {
            proof {
                assert(entries@.take(k + 1).drop_last() =~= entries@.take(k as int));
                assert(entries@.take(k + 1).last() == entries@[k as int]);
            }
            let ghost before = out@;
            let e = &entries[k];
            push_str(&mut out, "  [");
            push_str(&mut out, e.label.as_str());
            push_str(&mut out, "] ");
            push_str(&mut out, e.local_filename.as_str());
            push_detail(&mut out, &e.detail);
            push_str(&mut out, "\n");
            proof {
                assert(out@ =~= before + ln("  ["@ + e.label@ + "] "@ + e.local_filename@ + detail_text(e.detail)));
            }
            k = k + 1;
        }
        proof {
            assert(entries@.take(entries@.len() as int) =~= entries@);
        }
    }
    proof {
        assert(out@ =~= audit_text(*dat, *index, named_files, *summary, entries@));
    }
    out
}

} // verus!
