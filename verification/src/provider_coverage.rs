//! The cheat provider coverage audit: which catalogue archives are
//! inspected, which provider each goes to and by what identity, and the
//! text of the resulting coverage report.
use vstd::prelude::*;
use crate::library::ascii_fold;
use crate::text::{decimal, lowercase_ascii, push_str, signed_decimal, signed_text, spec_decimal};

verus! {

/// The first position of `id` among the catalogue's ids.
pub open spec fn first_position(catalogue: Seq<i64>, id: i64) -> Option<int>
    decreases catalogue.len(),
{
    if catalogue.len() == 0 {
        None
    } else {
        match first_position(catalogue.drop_last(), id) {
            Some(i) => Some(i),
            None => if catalogue.last() == id { Some(catalogue.len() - 1) } else { None },
        }
    }
}

/// The archives an audit inspects, as catalogue positions in the order
/// first asked for, each once; or the first id the catalogue lacks.
pub open spec fn selection(wanted: Seq<i64>, catalogue: Seq<i64>) -> Result<Seq<int>, i64>
    decreases wanted.len(),
{
    if wanted.len() == 0 {
        Ok(Seq::empty())
    } else {
        match selection(wanted.drop_last(), catalogue) {
            Err(missing) => Err(missing),
            Ok(chosen) => match first_position(catalogue, wanted.last()) {
                None => Err(wanted.last()),
                Some(p) => if chosen.contains(p) { Ok(chosen) } else { Ok(chosen.push(p)) },
            },
        }
    }
}

/// The refusal of an id the catalogue lacks.
pub open spec fn missing_archive_text(id: i64) -> Seq<char> {
    "archive id "@ + signed_decimal(id as int) + " is not present in the library catalogue"@
}

fn find_position(catalogue: &Vec<i64>, id: i64) -> (r: Option<usize>)
    ensures
        match r {
            Some(i) => first_position(catalogue@, id) == Some(i as int),
            None => first_position(catalogue@, id) is None,
        },
{
    let mut k: usize = 0;
    while k < catalogue.len()
        invariant
            k <= catalogue@.len(),
            first_position(catalogue@.take(k as int), id) is None,
        decreases catalogue@.len() - k,
    {
        proof {
            assert(catalogue@.take(k + 1).drop_last() =~= catalogue@.take(k as int));
        }
        if catalogue[k] == id {
            proof {
                lemma_first_position_prefix(catalogue@, k as int + 1, id);
            }
            return Some(k);
        }
        k = k + 1;
    }
    proof {
        assert(catalogue@.take(catalogue@.len() as int) =~= catalogue@);
    }
    None
}

proof fn lemma_first_position_prefix(c: Seq<i64>, n: int, id: i64)
    requires
        0 <= n <= c.len(),
        first_position(c.take(n), id) is Some,
    ensures
        first_position(c, id) == first_position(c.take(n), id),
    decreases c.len() - n,
{
    if n < c.len() {
        assert(c.take(n + 1).drop_last() =~= c.take(n));
        lemma_first_position_prefix(c, n + 1, id);
    } else {
        assert(c.take(n) =~= c);
    }
}

/// Picks the archives an audit inspects: for each id asked for, in order,
/// the first catalogue archive with that id, each archive once; refused at
/// the first id the catalogue lacks.
pub fn select_archives(wanted: &Vec<i64>, catalogue: &Vec<i64>) -> (r: Result<Vec<usize>, String>)
    ensures
        match selection(wanted@, catalogue@) {
            Ok(chosen) => r matches Ok(v) && v@.map_values(|p: usize| p as int) == chosen,
            Err(missing) => r matches Err(m) && m@ == missing_archive_text(missing),
        },
{
    let mut chosen: Vec<usize> = Vec::new();
    let mut k: usize = 0;
    proof {
        assert(wanted@.take(0) =~= Seq::<i64>::empty());
        assert(chosen@.map_values(|p: usize| p as int) =~= Seq::<int>::empty());
    }
    while k < wanted.len()
        invariant
            k <= wanted@.len(),
            selection(wanted@.take(k as int), catalogue@) == Ok::<Seq<int>, i64>(chosen@.map_values(|p: usize| p as int)),
        decreases wanted@.len() - k,
    {
        proof {
            assert(wanted@.take(k + 1).drop_last() =~= wanted@.take(k as int));
            assert(wanted@.take(k + 1).last() == wanted@[k as int]);
        }
        let id = wanted[k];
        match find_position(catalogue, id) {
            None => {
                proof {
                    lemma_selection_error_persists(wanted@, catalogue@, k as int + 1);
                }
                let mut m = "archive id ".to_owned();
                push_str(&mut m, signed_text(id).as_str());
                push_str(&mut m, " is not present in the library catalogue");
                return Err(m);
            },
            Some(p) => {
                let mut seen = false;
                let mut j: usize = 0;
                while j < chosen.len()
                    invariant
                        j <= chosen@.len(),
                        seen <==> exists|i: int| 0 <= i < j && chosen@[i] == p,
                    decreases chosen@.len() - j,
                {
                    if chosen[j] == p {
                        seen = true;
                    }
                    j = j + 1;
                }
                proof {
                    if chosen@.contains(p) {
                        let i = choose|i: int| 0 <= i < chosen@.len() && chosen@[i] == p;
                        assert(exists|i: int| 0 <= i < j && chosen@[i] == p);
                    }
                    let ints = chosen@.map_values(|q: usize| q as int);
                    assert(ints.contains(p as int) == chosen@.contains(p)) by {
                        if chosen@.contains(p) {
                            let i = choose|i: int| 0 <= i < chosen@.len() && chosen@[i] == p;
                            assert(ints[i] == p as int);
                        }
                        if ints.contains(p as int) {
                            let i = choose|i: int| 0 <= i < ints.len() && ints[i] == p as int;
                            assert(chosen@[i] == p);
                        }
                    }
                }
                if !seen {
                    let ghost before = chosen@;
                    chosen.push(p);
                    proof {
                        assert(chosen@.map_values(|q: usize| q as int)
                            =~= before.map_values(|q: usize| q as int).push(p as int));
                    }
                }
            },
        }
        k = k + 1;
    }
    proof {
        assert(wanted@.take(wanted@.len() as int) =~= wanted@);
    }
    Ok(chosen)
}

proof fn lemma_selection_error_persists(wanted: Seq<i64>, catalogue: Seq<i64>, n: int)
    requires
        0 <= n <= wanted.len(),
        selection(wanted.take(n), catalogue) is Err,
    ensures
        selection(wanted, catalogue) == selection(wanted.take(n), catalogue),
    decreases wanted.len() - n,
{
    if n < wanted.len() {
        assert(wanted.take(n + 1).drop_last() =~= wanted.take(n));
        lemma_selection_error_persists(wanted, catalogue, n + 1);
    } else {
        assert(wanted.take(n) =~= wanted);
    }
}

/// An audit inspects each archive at most once, and only archives whose id
/// was asked for.
pub proof fn lemma_selection_once_each(wanted: Seq<i64>, catalogue: Seq<i64>)
    ensures
        selection(wanted, catalogue) matches Ok(chosen) ==> {
            &&& forall|p: int, q: int| 0 <= p < q < chosen.len() ==> chosen[p] != chosen[q]
            &&& forall|p: int| 0 <= p < chosen.len() ==> 0 <= #[trigger] chosen[p] < catalogue.len()
                && wanted.contains(catalogue[chosen[p]])
        },
    decreases wanted.len(),
{
    if wanted.len() > 0 {
        let front = wanted.drop_last();
        lemma_selection_once_each(front, catalogue);
        if let Ok(chosen) = selection(front, catalogue) {
            if let Some(pos) = first_position(catalogue, wanted.last()) {
                lemma_first_position_found(catalogue, wanted.last());
                assert forall|p: int| 0 <= p < chosen.len() implies wanted.contains(catalogue[#[trigger] chosen[p]]) by {
                    let k = choose|k: int| 0 <= k < front.len() && front[k] == catalogue[chosen[p]];
                    assert(wanted[k] == front[k]);
                }
                if !chosen.contains(pos) {
                    let grown = chosen.push(pos);
                    assert(wanted[wanted.len() - 1] == catalogue[pos]);
                    assert forall|p: int| 0 <= p < grown.len() implies 0 <= #[trigger] grown[p] < catalogue.len()
                        && wanted.contains(catalogue[grown[p]]) by {
                        if p < chosen.len() {
                            assert(grown[p] == chosen[p]);
                        }
                    }
                    assert forall|p: int, q: int| 0 <= p < q < grown.len() implies grown[p] != grown[q] by {
                        if q == grown.len() - 1 {
                            assert(grown[p] == chosen[p]);
                        }
                    }
                }
            }
        }
    }
}

proof fn lemma_first_position_found(catalogue: Seq<i64>, id: i64)
    ensures
        first_position(catalogue, id) matches Some(i) ==> 0 <= i < catalogue.len() && catalogue[i] == id,
    decreases catalogue.len(),
{
    if catalogue.len() > 0 {
        lemma_first_position_found(catalogue.drop_last(), id);
    }
}

/// Which provider an archive's platform is audited against.
#[derive(Debug, Clone, Copy, PartialEq, Eq, Structural)]
pub enum CoverageRoute {
    /// GameCube and Wii: the Dolphin cheat catalogue.
    Dolphin,
    /// PlayStation 2 and Xbox 360: outside this audit.
    Outside,
    /// Everything else: the RetroArch cheat catalogue.
    RetroArch,
}

/// Whether two texts are equal ignoring ASCII case.
pub open spec fn same_ignoring_ascii_case(a: Seq<char>, b: Seq<char>) -> bool {
    ascii_fold(a) == ascii_fold(b)
}

/// The route of a platform, `Unknown` when there is none.
pub open spec fn spec_coverage_route(platform: Seq<char>) -> CoverageRoute {
    if same_ignoring_ascii_case(platform, "GameCube"@) || same_ignoring_ascii_case(platform, "Wii"@) {
        CoverageRoute::Dolphin
    } else if same_ignoring_ascii_case(platform, "PlayStation 2"@) || same_ignoring_ascii_case(platform, "Xbox 360"@) {
        CoverageRoute::Outside
    } else {
        CoverageRoute::RetroArch
    }
}

/// The platform an archive is audited under.
pub open spec fn audited_platform(platform: Option<String>) -> Seq<char> {
    match platform {
        Some(p) => p@,
        None => "Unknown"@,
    }
}

/// Routes an archive by its platform, ignoring ASCII case.
pub fn coverage_route(platform: &str) -> (r: CoverageRoute)
    ensures
        r == spec_coverage_route(platform@),
{
    let folded = lowercase_ascii(platform);
    let gamecube = lowercase_ascii("GameCube");
    let wii = lowercase_ascii("Wii");
    let ps2 = lowercase_ascii("PlayStation 2");
    let xbox = lowercase_ascii("Xbox 360");
    if folded == gamecube || folded == wii {
        CoverageRoute::Dolphin
    } else if folded == ps2 || folded == xbox {
        CoverageRoute::Outside
    } else {
        CoverageRoute::RetroArch
    }
}

/// The refusal of an archive outside the audit.
pub open spec fn outside_audit_text(id: i64, platform: Seq<char>) -> Seq<char> {
    "archive id "@ + signed_decimal(id as int) + " routes to "@ + platform
        + ", which is outside this Dolphin/RetroArch audit"@
}

/// Refuses an archive whose platform is outside the audit.
pub fn outside_audit(id: i64, platform: &str) -> (r: String)
    ensures
        r@ == outside_audit_text(id, platform@),
{
    let mut m = "archive id ".to_owned();
    push_str(&mut m, signed_text(id).as_str());
    push_str(&mut m, " routes to ");
    push_str(&mut m, platform);
    push_str(&mut m, ", which is outside this Dolphin/RetroArch audit");
    m
}

/// The identity a RetroArch game is audited by: its verified content hash
/// (a PCSX2 CRC when one was verified, else a SHA-256), else its verified
/// serial, else none. Gives the identity's kind and value.
pub open spec fn spec_retroarch_identity(content_hash: Option<String>, crc_verified: bool, serial: Option<String>)
    -> (Option<Seq<char>>, Option<Seq<char>>) {
    match content_hash {
        Some(h) => (Some(if crc_verified { "content_crc"@ } else { "content_sha256"@ }), Some(h@)),
        None => match serial {
            Some(s) => (Some("serial"@), Some(s@)),
            None => (None, None),
        },
    }
}

/// The identity a RetroArch game is audited by, as (kind, value).
pub fn retroarch_identity(content_hash: &Option<String>, crc_verified: bool, serial: &Option<String>)
    -> (r: (Option<String>, Option<String>))
    ensures
        (match r.0 { Some(k) => Some(k@), None => None::<Seq<char>> }, match r.1 { Some(v) => Some(v@), None => None::<Seq<char>> })
            == spec_retroarch_identity(*content_hash, crc_verified, *serial),
{
    match content_hash {
        Some(h) => {
            let kind = if crc_verified { "content_crc".to_owned() } else { "content_sha256".to_owned() };
            (Some(kind), Some(h.clone()))
        },
        None => match serial {
            Some(s) => (Some("serial".to_owned()), Some(s.clone())),
            None => (None, None),
        },
    }
}

/// The identity kind of a Dolphin game: `dolphin_game_id` when its game
/// id was verified.
pub fn dolphin_identity_kind(verified_game_id: &Option<String>) -> (r: Option<String>)
    ensures
        verified_game_id is Some <==> r is Some,
        r matches Some(k) ==> k@ == "dolphin_game_id"@,
{
    match verified_game_id {
        Some(_) => Some("dolphin_game_id".to_owned()),
        None => None,
    }
}

/// The counts of a coverage audit.
#[derive(Debug, Clone, Copy, PartialEq, Eq, Structural)]
pub struct CoverageSummaryView {
    pub games_inspected: u64,
    pub games_with_compatible_cheats: u64,
    pub games_without_compatible_cheats: u64,
    pub compatible_cheats: u64,
    pub rejected_candidates: u64,
    pub duplicates: u64,
    pub conflicts: u64,
    pub unsupported_formats: u64,
}

/// Why some candidates were rejected, and how many.
#[derive(Debug, Clone, PartialEq, Eq)]
pub struct RejectionReasonView {
    pub count: u64,
    pub explanation: String,
}

/// One audited game.
#[derive(Debug, Clone, PartialEq, Eq)]
pub struct CoverageGameView {
    pub emulator: String,
    pub provider_name: String,
    pub game_title: String,
    pub platform: String,
    pub verified_identity: Option<String>,
    pub region: Option<String>,
    pub revision: Option<String>,
    pub compatible_cheat_count: u64,
    pub rejected_candidate_count: u64,
    pub duplicate_count: u64,
    pub conflicting_entry_count: u64,
    pub unsupported_format_count: u64,
    pub rejection_reasons: Vec<RejectionReasonView>,
    /// Why nothing matched, explained, when nothing did.
    pub no_match_reason: Option<String>,
}

/// A line: the text and a newline.
pub open spec fn ln(t: Seq<char>) -> Seq<char> {
    t + "\n"@
}

/// A value that may be unavailable.
pub open spec fn or_unavailable(v: Option<String>) -> Seq<char> {
    match v {
        Some(s) => s@,
        None => "unavailable"@,
    }
}

/// The head of the audit: the games and cheat counts.
pub open spec fn coverage_head(s: CoverageSummaryView) -> Seq<char> {
    ln("EmuWiz Cheat Provider Coverage Audit"@)
        + ln("Read-only bounded selection: yes | Games: "@ + spec_decimal(s.games_inspected as nat)
        + " | With compatible cheats: "@ + spec_decimal(s.games_with_compatible_cheats as nat) + " | Without: "@
        + spec_decimal(s.games_without_compatible_cheats as nat))
        + ln("Compatible cheats: "@ + spec_decimal(s.compatible_cheats as nat) + " | Rejected candidates: "@
        + spec_decimal(s.rejected_candidates as nat) + " | Duplicates: "@ + spec_decimal(s.duplicates as nat)
        + " | Conflicts: "@ + spec_decimal(s.conflicts as nat) + " | Unsupported formats: "@
        + spec_decimal(s.unsupported_formats as nat))
}

/// The rejection lines of a game.
pub open spec fn rejection_lines(v: Seq<RejectionReasonView>) -> Seq<char>
    decreases v.len(),
{
    if v.len() == 0 {
        Seq::empty()
    } else {
        rejection_lines(v.drop_last()) + ln("  rejected ("@ + spec_decimal(v.last().count as nat) + "): "@
            + v.last().explanation@)
    }
}

/// The first lines of a game: who audited it, its identity, region and
/// revision.
pub open spec fn game_head(g: CoverageGameView) -> Seq<char> {
    game_title_ln(g) + game_identity_lines(g)
}

/// A blank line, then who audited the game and the game itself.
pub open spec fn game_title_ln(g: CoverageGameView) -> Seq<char> {
    ln(Seq::empty())
        + ln(g.emulator@ + " / "@ + g.provider_name@ + " \u{2014} "@ + g.game_title@ + " ("@ + g.platform@ + ")"@)
}

/// The game's verified identity, region and revision.
pub open spec fn game_identity_lines(g: CoverageGameView) -> Seq<char> {
    ln("  verified identity: "@ + or_unavailable(g.verified_identity))
        + ln("  region: "@ + or_unavailable(g.region) + " | revision: "@ + or_unavailable(g.revision))
}

/// A game's counts.
pub open spec fn game_counts(g: CoverageGameView) -> Seq<char> {
    ln("  compatible cheats: "@ + spec_decimal(g.compatible_cheat_count as nat) + " | rejected: "@
        + spec_decimal(g.rejected_candidate_count as nat) + " | duplicates: "@ + spec_decimal(g.duplicate_count as nat)
        + " | conflicts: "@ + spec_decimal(g.conflicting_entry_count as nat) + " | unsupported: "@
        + spec_decimal(g.unsupported_format_count as nat))
}

/// One game's block.
pub open spec fn game_text(g: CoverageGameView) -> Seq<char> {
    game_head(g) + game_counts(g) + rejection_lines(g.rejection_reasons@)
        + match g.no_match_reason { Some(r) => ln("  no match: "@ + r@), None => Seq::empty() }
}

/// Every game's block.
pub open spec fn game_texts(v: Seq<CoverageGameView>) -> Seq<char>
    decreases v.len(),
{
    if v.len() == 0 { Seq::empty() } else { game_texts(v.drop_last()) + game_text(v.last()) }
}

/// The whole coverage audit text.
pub open spec fn coverage_text(s: CoverageSummaryView, games: Seq<CoverageGameView>) -> Seq<char> {
    coverage_head(s) + game_texts(games)
}

fn line(out: &mut String, t: &str)
    ensures
        final(out)@ == old(out)@ + ln(t@),
{
    push_str(out, t);
    push_str(out, "\n");
    proof {
        assert(final(out)@ =~= old(out)@ + ln(t@));
    }
}

fn push_or_unavailable(out: &mut String, v: &Option<String>)
    ensures
        final(out)@ == old(out)@ + or_unavailable(*v),
{
    match v {
        Some(s) => push_str(out, s.as_str()),
        None => push_str(out, "unavailable"),
    }
}

fn push_coverage_head(out: &mut String, s: &CoverageSummaryView)
    ensures
        final(out)@ == old(out)@ + coverage_head(*s),
{
    let ghost start = out@;
    line(out, "EmuWiz Cheat Provider Coverage Audit");
    push_str(out, "Read-only bounded selection: yes | Games: ");
    push_str(out, decimal(s.games_inspected).as_str());
    push_str(out, " | With compatible cheats: ");
    push_str(out, decimal(s.games_with_compatible_cheats).as_str());
    push_str(out, " | Without: ");
    line(out, decimal(s.games_without_compatible_cheats).as_str());
    let ghost mid = out@;
    push_str(out, "Compatible cheats: ");
    push_str(out, decimal(s.compatible_cheats).as_str());
    push_str(out, " | Rejected candidates: ");
    push_str(out, decimal(s.rejected_candidates).as_str());
    push_str(out, " | Duplicates: ");
    push_str(out, decimal(s.duplicates).as_str());
    push_str(out, " | Conflicts: ");
    push_str(out, decimal(s.conflicts).as_str());
    push_str(out, " | Unsupported formats: ");
    line(out, decimal(s.unsupported_formats).as_str());
    proof {
        assert(out@ =~= start + coverage_head(*s));
    }
}

fn push_game_title(out: &mut String, g: &CoverageGameView)
    ensures
        final(out)@ == old(out)@ + game_title_ln(*g),
{
    let ghost start = out@;
    push_str(out, "\n");
    push_str(out, g.emulator.as_str());
    push_str(out, " / ");
    push_str(out, g.provider_name.as_str());
    push_str(out, " \u{2014} ");
    push_str(out, g.game_title.as_str());
    push_str(out, " (");
    push_str(out, g.platform.as_str());
    line(out, ")");
    proof {
        assert(ln(Seq::<char>::empty()) =~= "\n"@);
        assert(out@ =~= start + game_title_ln(*g));
    }
}

fn push_game_identity(out: &mut String, g: &CoverageGameView)
    ensures
        final(out)@ == old(out)@ + game_identity_lines(*g),
{
    let ghost start = out@;
    push_str(out, "  verified identity: ");
    push_or_unavailable(out, &g.verified_identity);
    push_str(out, "\n");
    proof {
        assert(out@ =~= start + ln("  verified identity: "@ + or_unavailable(g.verified_identity)));
    }
    let ghost mid = out@;
    push_str(out, "  region: ");
    push_or_unavailable(out, &g.region);
    push_str(out, " | revision: ");
    push_or_unavailable(out, &g.revision);
    push_str(out, "\n");
    proof {
        assert(out@ =~= mid + ln("  region: "@ + or_unavailable(g.region) + " | revision: "@ + or_unavailable(g.revision)));
        assert(out@ =~= start + game_identity_lines(*g));
    }
}

fn push_game_head(out: &mut String, g: &CoverageGameView)
    ensures
        final(out)@ == old(out)@ + game_head(*g),
{
    let ghost start = out@;
    push_game_title(out, g);
    push_game_identity(out, g);
    proof {
        assert(out@ =~= start + game_head(*g));
    }
}

fn push_game_counts(out: &mut String, g: &CoverageGameView)
    ensures
        final(out)@ == old(out)@ + game_counts(*g),
{
    let ghost start = out@;
    push_str(out, "  compatible cheats: ");
    push_str(out, decimal(g.compatible_cheat_count).as_str());
    push_str(out, " | rejected: ");
    push_str(out, decimal(g.rejected_candidate_count).as_str());
    push_str(out, " | duplicates: ");
    push_str(out, decimal(g.duplicate_count).as_str());
    push_str(out, " | conflicts: ");
    push_str(out, decimal(g.conflicting_entry_count).as_str());
    push_str(out, " | unsupported: ");
    line(out, decimal(g.unsupported_format_count).as_str());
    proof {
        assert(out@ =~= start + game_counts(*g));
    }
}

fn push_game(out: &mut String, g: &CoverageGameView)
    ensures
        final(out)@ == old(out)@ + game_text(*g),
{
    let ghost start = out@;
    push_game_head(out, g);
    push_game_counts(out, g);
    let ghost head = out@;
    let v = &g.rejection_reasons;
    let mut k: usize = 0;
    while k < v.len()
        invariant
            k <= v@.len(),
            out@ == head + rejection_lines(v@.take(k as int)),
        decreases v@.len() - k,
    {
        proof {
            assert(v@.take(k + 1).drop_last() =~= v@.take(k as int));
            assert(v@.take(k + 1).last() == v@[k as int]);
        }
        let ghost before = out@;
        push_str(out, "  rejected (");
        push_str(out, decimal(v[k].count).as_str());
        push_str(out, "): ");
        line(out, v[k].explanation.as_str());
        proof {
            let x = v@[k as int];
            assert(out@ =~= before + ln("  rejected ("@ + spec_decimal(x.count as nat) + "): "@ + x.explanation@));
        }
        k = k + 1;
    }
    proof {
        assert(v@.take(v@.len() as int) =~= v@);
    }
    let ghost before_reason = out@;
    match &g.no_match_reason {
        Some(r) => {
            push_str(out, "  no match: ");
            line(out, r.as_str());
        },
        None => {},
    }
    proof {
        assert(out@ =~= before_reason + match g.no_match_reason { Some(r) => ln("  no match: "@ + r@), None => Seq::<char>::empty() });
        assert(out@ =~= start + game_text(*g));
    }
}

/// The cheat provider coverage audit: the games inspected and the cheat
/// counts, then each game with its provider, verified identity, region and
/// revision, counts, rejection reasons and why nothing matched.
pub fn format_cheat_provider_coverage(summary: &CoverageSummaryView, games: &Vec<CoverageGameView>) -> (r: String)
    ensures
        r@ == coverage_text(*summary, games@),
{
    let mut out = String::new();
    push_coverage_head(&mut out, summary);
    let ghost head = out@;
    let mut k: usize = 0;
    while k < games.len()
        invariant
            k <= games@.len(),
            out@ == head + game_texts(games@.take(k as int)),
        decreases games@.len() - k,
    {
        proof {
            assert(games@.take(k + 1).drop_last() =~= games@.take(k as int));
            assert(games@.take(k + 1).last() == games@[k as int]);
        }
        push_game(&mut out, &games[k]);
        k = k + 1;
    }
    proof {
        assert(games@.take(games@.len() as int) =~= games@);
    }
    out
}

} // verus!
