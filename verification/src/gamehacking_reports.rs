//! The texts of the GameHacking.org commands: an index refresh's progress
//! and result, the GameCube export-form and code-format diagnostics, and a
//! Wii game page import; and finding a game in a cached catalogue.
use vstd::prelude::*;
use crate::text::{decimal, join, push_str, spec_decimal, spec_join, views};

verus! {

/// A line: the text and a newline.
pub open spec fn ln(t: Seq<char>) -> Seq<char> {
    t + "\n"@
}

fn line(out: &mut String, t: &str)
    ensures
        final(out)@ == old(out)@ + ln(t@),
{
    push_str(out, t);
    push_str(out, "\n");
    proof {
        assert(final(out)@ =~= old(out)@ + ln(t@));
    }
}

fn labelled(out: &mut String, label: &str, value: &str)
    ensures
        final(out)@ == old(out)@ + ln(label@ + value@),
{
    push_str(out, label);
    line(out, value);
    proof {
        assert(final(out)@ =~= old(out)@ + ln(label@ + value@));
    }
}

/// The refusal for a game that is not in the cached GameCube catalogue.
pub open spec fn game_missing_message(game_id: u64) -> Seq<char> {
    "game "@ + spec_decimal(game_id as nat)
        + " was not found in the cached GameCube catalogue; run gamehacking-gamecube-index-refresh first"@
}

/// The position of the first catalogue game with id `game_id`, or the
/// refusal when there is none.
pub fn find_catalogue_game(ids: &Vec<u64>, game_id: u64) -> (r: Result<usize, String>)
    ensures
        match r {
            Ok(k) => k < ids@.len() && ids@[k as int] == game_id
                && forall|j: int| 0 <= j < k ==> ids@[j] != game_id,
            Err(m) => m@ == game_missing_message(game_id) && forall|j: int| 0 <= j < ids@.len() ==> ids@[j] != game_id,
        },
{
    let mut k: usize = 0;
    while k < ids.len()
        invariant
            k <= ids@.len(),
            forall|j: int| 0 <= j < k ==> ids@[j] != game_id,
        decreases ids@.len() - k,
    {
        if ids[k] == game_id {
            return Ok(k);
        }
        k = k + 1;
    }
    let mut m = "game ".to_owned();
    push_str(&mut m, decimal(game_id).as_str());
    push_str(&mut m, " was not found in the cached GameCube catalogue; run gamehacking-gamecube-index-refresh first");
    Err(m)
}

/// The progress line of an index refresh over the platform `platform`.
pub open spec fn progress_text(platform: Seq<char>, complete: u64, total: u64, games: u64, page: Option<u64>, downloaded: bool) -> Seq<char> {
    "GameHacking "@ + platform + " index: "@ + spec_decimal(complete as nat) + "/"@ + spec_decimal(total as nat)
        + " pages \u{b7} "@ + spec_decimal(games as nat) + " games \u{b7} page "@
        + match page { Some(p) => spec_decimal(p as nat), None => "-"@ }
        + " "@ + if downloaded { "downloaded"@ } else { "cached"@ }
}

/// One progress line of an index refresh.
pub fn format_refresh_progress(platform: &str, complete: u64, total: u64, games: u64, page: Option<u64>, downloaded: bool) -> (r: String)
    ensures
        r@ == progress_text(platform@, complete, total, games, page, downloaded),
{
    let mut out = "GameHacking ".to_owned();
    push_str(&mut out, platform);
    push_str(&mut out, " index: ");
    push_str(&mut out, decimal(complete).as_str());
    push_str(&mut out, "/");
    push_str(&mut out, decimal(total).as_str());
    push_str(&mut out, " pages \u{b7} ");
    push_str(&mut out, decimal(games).as_str());
    push_str(&mut out, " games \u{b7} page ");
    match page {
        Some(p) => push_str(&mut out, decimal(p).as_str()),
        None => push_str(&mut out, "-"),
    }
    push_str(&mut out, " ");
    push_str(&mut out, if downloaded { "downloaded" } else { "cached" });
    proof {
        assert(out@ =~= progress_text(platform@, complete, total, games, page, downloaded));
    }
    out
}

/// The result of an index refresh over the platform `platform`.
pub open spec fn refresh_text(platform: Seq<char>, games: u64, pages: u64, downloaded: u64, reused: u64, catalogue: Seq<char>) -> Seq<char> {
    "GameHacking "@ + platform + " catalogue ready: "@ + spec_decimal(games as nat) + " games from "@
        + spec_decimal(pages as nat) + " pages ("@ + spec_decimal(downloaded as nat) + " downloaded, "@
        + spec_decimal(reused as nat) + " cached)\n"@ + catalogue
}

/// What an index refresh prints once it is done.
pub fn format_refresh_result(platform: &str, games: u64, pages: u64, downloaded: u64, reused: u64, catalogue: &str) -> (r: String)
    ensures
        r@ == refresh_text(platform@, games, pages, downloaded, reused, catalogue@),
{
    let mut out = "GameHacking ".to_owned();
    push_str(&mut out, platform);
    push_str(&mut out, " catalogue ready: ");
    push_str(&mut out, decimal(games).as_str());
    push_str(&mut out, " games from ");
    push_str(&mut out, decimal(pages).as_str());
    push_str(&mut out, " pages (");
    push_str(&mut out, decimal(downloaded).as_str());
    push_str(&mut out, " downloaded, ");
    push_str(&mut out, decimal(reused).as_str());
    push_str(&mut out, " cached)\n");
    push_str(&mut out, catalogue);
    proof {
        assert(out@ =~= refresh_text(platform@, games, pages, downloaded, reused, catalogue@));
    }
    out
}

/// What the GameCube export-form diagnostic found.
#[derive(Debug, Clone, PartialEq, Eq)]
pub struct SysIdDiagnosticView {
    pub game_id: u64,
    pub title: String,
    pub game_page_url: String,
    pub export_form_action: String,
    pub hidden_fields: Vec<(String, String)>,
    pub sys_id: Option<u64>,
    /// The cheats a verified fetch parsed (name, classification by name),
    /// when one was made.
    pub cheats: Option<Vec<(String, String)>>,
}

/// The hidden field lines.
pub open spec fn field_lines(v: Seq<(String, String)>) -> Seq<char>
    decreases v.len(),
{
    if v.len() == 0 { Seq::empty() } else { field_lines(v.drop_last()) + ln("  "@ + v.last().0@ + " = "@ + v.last().1@) }
}

/// The verified fetch's cheat lines.
pub open spec fn fetched_lines(v: Seq<(String, String)>) -> Seq<char>
    decreases v.len(),
{
    if v.len() == 0 { Seq::empty() } else { fetched_lines(v.drop_last()) + ln("  - "@ + v.last().0@ + " ["@ + v.last().1@ + "]"@) }
}

/// The `gamehacking-gamecube-sysid-diagnostic` text.
pub open spec fn sysid_text(d: SysIdDiagnosticView) -> Seq<char> {
    ln("Game ID: "@ + spec_decimal(d.game_id as nat))
        + ln("Title: "@ + d.title@)
        + ln("Game page URL: "@ + d.game_page_url@)
        + ln("Export form action: "@ + d.export_form_action@)
        + "Hidden fields:\n"@
        + field_lines(d.hidden_fields@)
        + match d.sys_id {
            Some(id) => ln("Confirmed sysID: "@ + spec_decimal(id as nat)),
            None => "Confirmed sysID: none found (no hidden sysID field, or it did not parse as a number)\n"@,
        }
        + match d.cheats {
            Some(c) => ln("Verified fetch: "@ + spec_decimal(c@.len()) + " named cheat(s) parsed"@) + fetched_lines(c@),
            None => Seq::empty(),
        }
}

fn push_pairs(out: &mut String, v: &Vec<(String, String)>, fetched: bool)
    ensures
        final(out)@ == old(out)@ + if fetched { fetched_lines(v@) } else { field_lines(v@) },
{
    let ghost start = out@;
    let mut k: usize = 0;
    while k < v.len()
        invariant
            k <= v@.len(),
            out@ == start + if fetched { fetched_lines(v@.take(k as int)) } else { field_lines(v@.take(k as int)) },
        decreases v@.len() - k,
    {
        proof {
            assert(v@.take(k + 1).drop_last() =~= v@.take(k as int));
        }
        let ghost before = out@;
        if fetched {
            push_str(out, "  - ");
            push_str(out, v[k].0.as_str());
            push_str(out, " [");
            push_str(out, v[k].1.as_str());
            line(out, "]");
        } else {
            push_str(out, "  ");
            push_str(out, v[k].0.as_str());
            push_str(out, " = ");
            line(out, v[k].1.as_str());
        }
        proof {
            assert(out@ =~= start + if fetched { fetched_lines(v@.take(k + 1)) } else { field_lines(v@.take(k + 1)) });
        }
        k = k + 1;
    }
    proof {
        assert(v@.take(v@.len() as int) =~= v@);
    }
}

/// The report of the GameCube export-form diagnostic.
pub fn format_sysid_diagnostic(d: &SysIdDiagnosticView) -> (r: String)
    ensures
        r@ == sysid_text(*d),
{
    let mut out = String::new();
    labelled(&mut out, "Game ID: ", decimal(d.game_id).as_str());
    labelled(&mut out, "Title: ", d.title.as_str());
    labelled(&mut out, "Game page URL: ", d.game_page_url.as_str());
    labelled(&mut out, "Export form action: ", d.export_form_action.as_str());
    push_str(&mut out, "Hidden fields:\n");
    push_pairs(&mut out, &d.hidden_fields, false);
    match d.sys_id {
        Some(id) => labelled(&mut out, "Confirmed sysID: ", decimal(id).as_str()),
        None => push_str(&mut out, "Confirmed sysID: none found (no hidden sysID field, or it did not parse as a number)\n"),
    }
    match &d.cheats {
        Some(c) => {
            push_str(&mut out, "Verified fetch: ");
            push_str(&mut out, decimal(c.len() as u64).as_str());
            line(&mut out, " named cheat(s) parsed");
            push_pairs(&mut out, c, true);
        },
        None => {},
    }
    proof {
        assert(out@ =~= sysid_text(*d));
    }
    out
}

/// One cheat as the code-format audit classified it.
#[derive(Debug, Clone, PartialEq, Eq)]
pub struct CodeFormatView {
    pub name: String,
    pub author: Option<String>,
    pub line_count: u64,
    pub opcode_prefixes: Vec<String>,
    /// The classification, by name.
    pub code_format: String,
    pub classification_reason: String,
    pub code_lines: Vec<String>,
}

/// The raw code lines, indented.
pub open spec fn raw_lines(v: Seq<String>) -> Seq<char>
    decreases v.len(),
{
    if v.len() == 0 { Seq::empty() } else { raw_lines(v.drop_last()) + ln("    "@ + v.last()@) }
}

/// One audited cheat's block, after a blank line.
pub open spec fn audit_block(c: CodeFormatView) -> Seq<char> {
    "\n"@ + ln("- "@ + c.name@)
        + ln("  Author: "@ + match c.author { Some(a) => a@, None => "(none)"@ })
        + ln("  Line count: "@ + spec_decimal(c.line_count as nat))
        + ln("  Opcode prefixes: "@ + spec_join(views(c.opcode_prefixes@), ", "@))
        + ln("  Classification: "@ + c.code_format@)
        + ln("  Reason: "@ + c.classification_reason@)
        + "  Raw lines:\n"@
        + raw_lines(c.code_lines@)
}

/// Every audited cheat's block.
pub open spec fn audit_blocks(v: Seq<CodeFormatView>) -> Seq<char>
    decreases v.len(),
{
    if v.len() == 0 { Seq::empty() } else { audit_blocks(v.drop_last()) + audit_block(v.last()) }
}

/// The `gamehacking-gamecube-code-format-audit` text.
pub open spec fn code_format_text(game_id: u64, title: Seq<char>, cheats: Seq<CodeFormatView>) -> Seq<char> {
    ln("Game ID: "@ + spec_decimal(game_id as nat)) + ln("Title: "@ + title)
        + ln("Cheats: "@ + spec_decimal(cheats.len())) + audit_blocks(cheats)
}

fn push_audit_head(out: &mut String, c: &CodeFormatView)
    ensures
        final(out)@ == old(out)@ + "\n"@ + ln("- "@ + c.name@)
            + ln("  Author: "@ + match c.author { Some(a) => a@, None => "(none)"@ })
            + ln("  Line count: "@ + spec_decimal(c.line_count as nat)),
{
    let ghost start = out@;
    push_str(out, "\n");
    labelled(out, "- ", c.name.as_str());
    match &c.author {
        Some(a) => labelled(out, "  Author: ", a.as_str()),
        None => labelled(out, "  Author: ", "(none)"),
    }
    labelled(out, "  Line count: ", decimal(c.line_count).as_str());
    proof {
        reveal_strlit("(none)");
        assert(out@ =~= start + "\n"@ + ln("- "@ + c.name@)
            + ln("  Author: "@ + match c.author { Some(a) => a@, None => "(none)"@ })
            + ln("  Line count: "@ + spec_decimal(c.line_count as nat)));
    }
}

fn push_audit_block(out: &mut String, c: &CodeFormatView)
    ensures
        final(out)@ == old(out)@ + audit_block(*c),
{
    let ghost start = out@;
    push_audit_head(out, c);
    labelled(out, "  Opcode prefixes: ", join(&c.opcode_prefixes, ", ").as_str());
    labelled(out, "  Classification: ", c.code_format.as_str());
    labelled(out, "  Reason: ", c.classification_reason.as_str());
    push_str(out, "  Raw lines:\n");
    let ghost head = out@;
    let v = &c.code_lines;
    let mut k: usize = 0;
    while k < v.len()
        invariant
            k <= v@.len(),
            out@ == head + raw_lines(v@.take(k as int)),
        decreases v@.len() - k,
    {
        proof {
            assert(v@.take(k + 1).drop_last() =~= v@.take(k as int));
        }
        labelled(out, "    ", v[k].as_str());
        k = k + 1;
    }
    proof {
        assert(v@.take(v@.len() as int) =~= v@);
        assert(out@ =~= start + audit_block(*c));
    }
}

/// The report of the GameCube code-format audit of one game.
pub fn format_code_format_audit(game_id: u64, title: &str, cheats: &Vec<CodeFormatView>) -> (r: String)
    ensures
        r@ == code_format_text(game_id, title@, cheats@),
{
    let mut out = String::new();
    labelled(&mut out, "Game ID: ", decimal(game_id).as_str());
    labelled(&mut out, "Title: ", title);
    labelled(&mut out, "Cheats: ", decimal(cheats.len() as u64).as_str());
    let ghost head = out@;
    let mut k: usize = 0;
    while k < cheats.len()
        invariant
            k <= cheats@.len(),
            out@ == head + audit_blocks(cheats@.take(k as int)),
        decreases cheats@.len() - k,
    {
        proof {
            assert(cheats@.take(k + 1).drop_last() =~= cheats@.take(k as int));
        }
        push_audit_block(&mut out, &cheats[k]);
        k = k + 1;
    }
    proof {
        assert(cheats@.take(cheats@.len() as int) =~= cheats@);
    }
    out
}

/// What importing a saved Wii game page produced.
#[derive(Debug, Clone, PartialEq, Eq)]
pub struct WiiImportView {
    pub game_id: u64,
    pub dolphin_game_id: String,
    pub game_title: String,
    pub imported_cheats: u64,
    pub supported_cheats: u64,
    pub blocked_or_unknown: u64,
    pub cache_path: String,
    pub catalogue_path: String,
    /// The coverage's label.
    pub coverage: String,
    pub content_sha256: String,
    pub provenance: String,
    pub network_used: bool,
}

/// The first half of the `gamehacking-wii-import-page` text.
pub open spec fn wii_import_head(w: WiiImportView) -> Seq<char> {
    ln("Imported GameHacking.org Wii game "@ + spec_decimal(w.game_id as nat))
        + ln("Verified Dolphin Game ID: "@ + w.dolphin_game_id@)
        + ln("Game: "@ + w.game_title@)
        + ln("Imported cheats: "@ + spec_decimal(w.imported_cheats as nat))
        + ln("Supported cheats: "@ + spec_decimal(w.supported_cheats as nat))
        + ln("Blocked or unknown cheats: "@ + spec_decimal(w.blocked_or_unknown as nat))
}

/// The `gamehacking-wii-import-page` text.
pub open spec fn wii_import_text(w: WiiImportView) -> Seq<char> {
    wii_import_head(w)
        + ln("Cache: "@ + w.cache_path@)
        + ln("Catalogue: "@ + w.catalogue_path@)
        + ln("Coverage: "@ + w.coverage@)
        + ln("Content SHA-256: "@ + w.content_sha256@)
        + ln("Provenance: "@ + w.provenance@)
        + ln("Network used: "@ + if w.network_used { "yes"@ } else { "no"@ })
}

fn push_wii_head(out: &mut String, w: &WiiImportView)
    ensures
        final(out)@ == old(out)@ + wii_import_head(*w),
{
    let ghost start = out@;
    labelled(out, "Imported GameHacking.org Wii game ", decimal(w.game_id).as_str());
    labelled(out, "Verified Dolphin Game ID: ", w.dolphin_game_id.as_str());
    labelled(out, "Game: ", w.game_title.as_str());
    labelled(out, "Imported cheats: ", decimal(w.imported_cheats).as_str());
    labelled(out, "Supported cheats: ", decimal(w.supported_cheats).as_str());
    labelled(out, "Blocked or unknown cheats: ", decimal(w.blocked_or_unknown).as_str());
    proof {
        assert(out@ =~= start + wii_import_head(*w));
    }
}

/// The report of an imported Wii game page.
pub fn format_wii_import(w: &WiiImportView) -> (r: String)
    ensures
        r@ == wii_import_text(*w),
{
    let mut out = String::new();
    push_wii_head(&mut out, w);
    labelled(&mut out, "Cache: ", w.cache_path.as_str());
    labelled(&mut out, "Catalogue: ", w.catalogue_path.as_str());
    labelled(&mut out, "Coverage: ", w.coverage.as_str());
    labelled(&mut out, "Content SHA-256: ", w.content_sha256.as_str());
    labelled(&mut out, "Provenance: ", w.provenance.as_str());
    labelled(&mut out, "Network used: ", if w.network_used { "yes" } else { "no" });
    proof {
        assert(out@ =~= wii_import_text(*w));
    }
    out
}

} // verus!
