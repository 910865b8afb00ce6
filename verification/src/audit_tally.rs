//! The bookkeeping of the platform-detection audit. The caller walks the
//! directory tree and asks the detector about each file; this records what
//! each file showed, and at the end puts the counts in order and builds the
//! report.
use vstd::prelude::*;
use crate::platform_audit::{CountRow, DiskFormatRowView, PlatformAuditView, PlatformChangeView};
use crate::repair_history::{lemma_lex_order, lex_less, text_less};
use crate::text::{same, views};

verus! {

/// Some row carries this name.
pub open spec fn has_name(rows: Seq<CountRow>, n: Seq<char>) -> bool {
    exists|i: int| 0 <= i < rows.len() && #[trigger] rows[i].name@ == n
}

/// No two rows carry the same name.
pub open spec fn unique_names(rows: Seq<CountRow>) -> bool {
    forall|i: int, j: int| 0 <= i < j < rows.len() ==> #[trigger] rows[i].name@ != #[trigger] rows[j].name@
}

/// How many times `n` was counted.
pub open spec fn tally_of(rows: Seq<CountRow>, n: Seq<char>) -> nat
    decreases rows.len(),
{
    if rows.len() == 0 {
        0
    } else {
        tally_of(rows.drop_last(), n) + if rows.last().name@ == n { rows.last().count as nat } else { 0 }
    }
}

/// Every count is at most `bound`.
pub open spec fn counts_within(rows: Seq<CountRow>, bound: nat) -> bool {
    forall|i: int| 0 <= i < rows.len() ==> #[trigger] rows[i].count <= bound
}

/// A well-kept tally: each name once, each count within the bound.
pub open spec fn tally_wf(rows: Seq<CountRow>, bound: nat) -> bool {
    unique_names(rows) && counts_within(rows, bound)
}

/// With unique names, the tally of a name is its row's count, or nothing.
pub proof fn lemma_tally_of(rows: Seq<CountRow>, n: Seq<char>)
    requires
        unique_names(rows),
    ensures
        !has_name(rows, n) ==> tally_of(rows, n) == 0,
        forall|i: int| 0 <= i < rows.len() && #[trigger] rows[i].name@ == n ==> tally_of(rows, n) == rows[i].count,
    decreases rows.len(),
{
    if rows.len() > 0 {
        let front = rows.drop_last();
        assert(unique_names(front)) by {
            assert forall|i: int, j: int| 0 <= i < j < front.len() implies #[trigger] front[i].name@ != #[trigger] front[j].name@ by {
                assert(front[i] == rows[i] && front[j] == rows[j]);
            }
        }
        lemma_tally_of(front, n);
        if has_name(front, n) {
            let k = choose|k: int| 0 <= k < front.len() && #[trigger] front[k].name@ == n;
            assert(front[k] == rows[k]);
            assert(rows.last().name@ != n) by {
                assert(rows[k].name@ != rows[rows.len() - 1].name@);
            }
        }
        if !has_name(rows, n) {
            assert(!has_name(front, n)) by {
                if has_name(front, n) {
                    let k = choose|k: int| 0 <= k < front.len() && #[trigger] front[k].name@ == n;
                    assert(rows[k].name@ == n);
                }
            }
            assert(rows[rows.len() - 1].name@ != n);
        }
        assert forall|i: int| 0 <= i < rows.len() && #[trigger] rows[i].name@ == n implies tally_of(rows, n) == rows[i].count by {
            if i < rows.len() - 1 {
                assert(front[i] == rows[i]);
                assert(rows[i].name@ != rows[rows.len() - 1].name@);
            } else {
                assert(!has_name(front, n)) by {
                    if has_name(front, n) {
                        let k = choose|k: int| 0 <= k < front.len() && #[trigger] front[k].name@ == n;
                        assert(rows[k].name@ == n);
                        assert(rows[k].name@ != rows[i].name@);
                    }
                }
            }
        }
    }
}

/// Counts `name` once more.
fn tally_add(rows: &mut Vec<CountRow>, name: &str, bound: Ghost<nat>)
    requires
        tally_wf(old(rows)@, bound@),
        bound@ < u64::MAX,
    ensures
        tally_wf(final(rows)@, bound@ + 1),
        forall|n: Seq<char>| #[trigger] has_name(final(rows)@, n) <==> has_name(old(rows)@, n) || n == name@,
        forall|n: Seq<char>| #[trigger] tally_of(final(rows)@, n) == tally_of(old(rows)@, n) + if n == name@ { 1nat } else { 0nat },
{
    let ghost before = rows@;
    let mut k: usize = 0;
    while k < rows.len()
        invariant
            k <= rows@.len(),
            rows@ == before,
            before == old(rows)@,
            tally_wf(before, bound@),
            bound@ < u64::MAX,
            forall|j: int| 0 <= j < k ==> #[trigger] rows@[j].name@ != name@,
        decreases rows@.len() - k,
    {
        if crate::text::same(&rows[k].name, name) {
            let count = rows[k].count;
            proof {
                assert(before[k as int].count <= bound@);
            }
            let row = CountRow { name: rows[k].name.clone(), count: count + 1 };
            rows.set(k, row);
            proof {
                let after = rows@;
                assert forall|i: int, j: int| 0 <= i < j < after.len() implies #[trigger] after[i].name@ != #[trigger] after[j].name@ by {
                    assert(after[i].name@ == before[i].name@);
                    assert(after[j].name@ == before[j].name@);
                }
                assert(unique_names(after));
                assert forall|n: Seq<char>| #[trigger] has_name(after, n) <==> has_name(before, n) || n == name@ by {
                    if has_name(after, n) {
                        let i = choose|i: int| 0 <= i < after.len() && #[trigger] after[i].name@ == n;
                        assert(before[i].name@ == n);
                    }
                    if has_name(before, n) {
                        let i = choose|i: int| 0 <= i < before.len() && #[trigger] before[i].name@ == n;
                        assert(after[i].name@ == n);
                    }
                    if n == name@ {
                        assert(after[k as int].name@ == n);
                    }
                }
                assert forall|n: Seq<char>| #[trigger] tally_of(after, n) == tally_of(before, n) + if n == name@ { 1nat } else { 0nat } by {
                    lemma_tally_of(before, n);
                    lemma_tally_of(after, n);
                    if n == name@ {
                        assert(after[k as int].name@ == n);
                        assert(before[k as int].name@ == n);
                    } else if has_name(before, n) {
                        let i = choose|i: int| 0 <= i < before.len() && #[trigger] before[i].name@ == n;
                        assert(i != k);
                        assert(after[i] == before[i]);
                    } else {
                        assert(!has_name(after, n));
                    }
                }
            }
            return;
        }
        k = k + 1;
    }
    let row = CountRow { name: name.to_owned(), count: 1 };
    rows.push(row);
    proof {
        let after = rows@;
        assert(!has_name(before, name@));
        assert forall|i: int, j: int| 0 <= i < j < after.len() implies #[trigger] after[i].name@ != #[trigger] after[j].name@ by {
            if j == after.len() - 1 {
                assert(after[i] == before[i]);
            } else {
                assert(after[i] == before[i] && after[j] == before[j]);
            }
        }
        assert forall|n: Seq<char>| #[trigger] has_name(after, n) <==> has_name(before, n) || n == name@ by {
            if has_name(after, n) {
                let i = choose|i: int| 0 <= i < after.len() && #[trigger] after[i].name@ == n;
                if i < before.len() {
                    assert(before[i].name@ == n);
                }
            }
            if has_name(before, n) {
                let i = choose|i: int| 0 <= i < before.len() && #[trigger] before[i].name@ == n;
                assert(after[i].name@ == n);
            }
            if n == name@ {
                assert(after[after.len() - 1].name@ == n);
            }
        }
        assert(after.drop_last() =~= before);
    }
}

/// Row `i` ranks before row `j`: a larger count first, then the name that
/// sorts first, then the earlier row.
pub open spec fn ranked_before(rows: Seq<CountRow>, i: int, j: int) -> bool {
    rows[i].count > rows[j].count
        || (rows[i].count == rows[j].count
            && (lex_less(rows[i].name@, rows[j].name@) || (rows[i].name@ == rows[j].name@ && i < j)))
}

proof fn lemma_ranked_order(rows: Seq<CountRow>, i: int, j: int, k: int)
    ensures
        !ranked_before(rows, i, i),
        i != j ==> ranked_before(rows, i, j) || ranked_before(rows, j, i),
        ranked_before(rows, i, j) ==> !ranked_before(rows, j, i),
        ranked_before(rows, i, j) && ranked_before(rows, j, k) ==> ranked_before(rows, i, k),
{
    lemma_lex_order(rows[i].name@, rows[j].name@, rows[k].name@);
    lemma_lex_order(rows[k].name@, rows[j].name@, rows[i].name@);
    lemma_lex_order(rows[j].name@, rows[i].name@, rows[k].name@);
}

/// `order` lists the rows `0..n` by rank.
pub open spec fn is_rank_order(rows: Seq<CountRow>, order: Seq<usize>) -> bool {
    &&& order.len() == rows.len()
    &&& forall|p: int| 0 <= p < order.len() ==> #[trigger] order[p] < rows.len()
    &&& forall|p: int, q: int| 0 <= p < q < order.len() ==> ranked_before(rows, #[trigger] order[p] as int, #[trigger] order[q] as int)
}

/// The positions of the rows in rank order: the largest count first, ties
/// broken by name.
pub fn rank_order(rows: &Vec<CountRow>) -> (r: Vec<usize>)
    ensures
        is_rank_order(rows@, r@),
{
    let n = rows.len();
    let mut remaining: Vec<usize> = Vec::new();
    let mut i: usize = 0;
    while i < n
        invariant
            i <= n,
            n == rows@.len(),
            remaining@.len() == i,
            forall|p: int| 0 <= p < i ==> #[trigger] remaining@[p] == p,
        decreases n - i,
    {
        remaining.push(i);
        i = i + 1;
    }
    proof {
        assert forall|x: int| 0 <= x < n implies #[trigger] remaining@.contains(x as usize) by {
            assert(remaining@[x] == x);
        }
    }
    let mut order: Vec<usize> = Vec::new();
    while order.len() < n
        invariant
            n == rows@.len(),
            order@.len() + remaining@.len() == n,
            forall|p: int| 0 <= p < order@.len() ==> #[trigger] order@[p] < n,
            forall|p: int| 0 <= p < remaining@.len() ==> #[trigger] remaining@[p] < n,
            forall|p: int, q: int| 0 <= p < q < remaining@.len() ==> #[trigger] remaining@[p] != #[trigger] remaining@[q],
            forall|x: int| #![trigger remaining@.contains(x as usize)] #![trigger order@.contains(x as usize)]
                0 <= x < n ==> (remaining@.contains(x as usize) <==> !order@.contains(x as usize)),
            forall|p: int, q: int| 0 <= p < q < order@.len()
                ==> ranked_before(rows@, #[trigger] order@[p] as int, #[trigger] order@[q] as int),
            forall|x: int| 0 <= x < n && !#[trigger] order@.contains(x as usize) ==>
                forall|p: int| 0 <= p < order@.len() ==> ranked_before(rows@, #[trigger] order@[p] as int, x),
        decreases n - order@.len(),
    {
        let m = remaining.len();
        let mut bi: usize = 0;
        let mut k: usize = 1;
        while k < m
            invariant
                m == remaining@.len(),
                0 < m,
                bi < k <= m,
                n == rows@.len(),
                forall|p: int| 0 <= p < remaining@.len() ==> #[trigger] remaining@[p] < n,
                forall|p: int, q: int| 0 <= p < q < remaining@.len() ==> #[trigger] remaining@[p] != #[trigger] remaining@[q],
                forall|p: int| 0 <= p < k && p != bi
                    ==> ranked_before(rows@, remaining@[bi as int] as int, #[trigger] remaining@[p] as int),
            decreases m - k,
        {
            let a = remaining[k];
            let b = remaining[bi];
            let ra = &rows[a];
            let rb = &rows[b];
            let before = ra.count > rb.count
                || (ra.count == rb.count && (text_less(&ra.name, &rb.name) || (ra.name == rb.name && a < b)));
            proof {
                assert(before == ranked_before(rows@, a as int, b as int));
                lemma_ranked_order(rows@, a as int, b as int, b as int);
            }
            if before {
                proof {
                    assert forall|p: int| 0 <= p < k + 1 && p != k
                        implies ranked_before(rows@, a as int, #[trigger] remaining@[p] as int) by {
                        if p != bi {
                            lemma_ranked_order(rows@, a as int, b as int, remaining@[p] as int);
                        }
                    }
                }
                bi = k;
            } else {
                proof {
                    assert(a != b);
                }
            }
            k = k + 1;
        }
        let best = remaining[bi];
        let ghost old_order = order@;
        let ghost old_remaining = remaining@;
        proof {
            let bx: int = best as int;
            assert(old_remaining[bi as int] == best);
            assert(old_remaining.contains(bx as usize));
            assert(!old_order.contains(bx as usize));
            assert(!old_order.contains(best));
            assert(forall|p: int| 0 <= p < old_order.len() ==> ranked_before(rows@, #[trigger] old_order[p] as int, best as int));
        }
        remaining.remove(bi);
        order.push(best);
        proof {
            assert forall|x: int| #![trigger remaining@.contains(x as usize)] #![trigger order@.contains(x as usize)]
                0 <= x < n implies (remaining@.contains(x as usize) <==> !order@.contains(x as usize)) by {
                if remaining@.contains(x as usize) {
                    let p = choose|p: int| 0 <= p < remaining@.len() && remaining@[p] == x as usize;
                    let q = if p < bi { p } else { p + 1 };
                    assert(old_remaining[q] == x as usize);
                    assert(q != bi);
                    assert(x as usize != best);
                    assert(old_remaining.contains(x as usize));
                    if order@.contains(x as usize) {
                        let r = choose|r: int| 0 <= r < order@.len() && order@[r] == x as usize;
                        if r < old_order.len() {
                            assert(old_order.contains(x as usize));
                        }
                    }
                } else {
                    if x as usize == best {
                        assert(order@[order@.len() - 1] == best);
                    } else {
                        if old_remaining.contains(x as usize) {
                            let q = choose|q: int| 0 <= q < old_remaining.len() && old_remaining[q] == x as usize;
                            assert(q != bi);
                            let p = if q < bi { q } else { q - 1 };
                            assert(remaining@[p] == x as usize);
                            assert(false);
                        }
                        assert(old_order.contains(x as usize));
                        let r = choose|r: int| 0 <= r < old_order.len() && old_order[r] == x as usize;
                        assert(order@[r] == x as usize);
                    }
                }
            }
            assert forall|x: int| 0 <= x < n && !#[trigger] order@.contains(x as usize) implies
                forall|p: int| 0 <= p < order@.len() ==> ranked_before(rows@, #[trigger] order@[p] as int, x) by {
                assert(remaining@.contains(x as usize));
                let p = choose|p: int| 0 <= p < remaining@.len() && remaining@[p] == x as usize;
                let q = if p < bi { p } else { p + 1 };
                assert(old_remaining[q] == x as usize);
                assert(q != bi);
                assert(ranked_before(rows@, best as int, x));
                assert(!old_order.contains(x as usize)) by {
                    if old_order.contains(x as usize) {
                        let r = choose|r: int| 0 <= r < old_order.len() && old_order[r] == x as usize;
                        assert(order@[r] == x as usize);
                    }
                }
            }
            assert forall|p: int, q: int| 0 <= p < q < order@.len()
                implies ranked_before(rows@, #[trigger] order@[p] as int, #[trigger] order@[q] as int) by {
                if q == order@.len() - 1 {
                    assert(order@[q] == best);
                    assert(order@[p] == old_order[p]);
                }
            }
            assert forall|p: int, q: int| 0 <= p < q < remaining@.len() implies #[trigger] remaining@[p] != #[trigger] remaining@[q] by {
                let p2 = if p < bi { p } else { p + 1 };
                let q2 = if q < bi { q } else { q + 1 };
                assert(remaining@[p] == old_remaining[p2]);
                assert(remaining@[q] == old_remaining[q2]);
            }
        }
    }
    order
}

/// `sorted` holds the rows of `rows` in the order `order` gives.
pub open spec fn ranked_rows(rows: Seq<CountRow>, order: Seq<usize>, sorted: Seq<CountRow>) -> bool {
    &&& is_rank_order(rows, order)
    &&& sorted.len() == order.len()
    &&& forall|p: int| 0 <= p < sorted.len() ==> #[trigger] sorted[p].name@ == rows[order[p] as int].name@
        && sorted[p].count == rows[order[p] as int].count
}

/// The rows in rank order: the largest count first, ties broken by name.
pub fn ranked(rows: &Vec<CountRow>) -> (r: Vec<CountRow>)
    ensures
        exists|order: Seq<usize>| ranked_rows(rows@, order, r@),
{
    let order = rank_order(rows);
    let mut out: Vec<CountRow> = Vec::new();
    let mut k: usize = 0;
    while k < order.len()
        invariant
            k <= order@.len(),
            is_rank_order(rows@, order@),
            out@.len() == k,
            forall|p: int| 0 <= p < k ==> #[trigger] out@[p].name@ == rows@[order@[p] as int].name@
                && out@[p].count == rows@[order@[p] as int].count,
        decreases order@.len() - k,
    {
        let i = order[k];
        let row = CountRow { name: rows[i].name.clone(), count: rows[i].count };
        out.push(row);
        k = k + 1;
    }
    proof {
        assert(ranked_rows(rows@, order@, out@));
    }
    out
}

/// How confident a detection was.
#[derive(Debug, Clone, Copy, PartialEq, Eq, Structural)]
pub enum DetectionConfidence {
    Confirmed,
    Probable,
    Ambiguous,
    Unknown,
}

/// What reading a symlinked file under the trusted-root policy gave.
#[derive(Debug, Clone, PartialEq, Eq)]
pub enum SymlinkRead {
    /// It was read; whether its signature gave evidence.
    Read { signature_evidence: bool },
    /// It was refused, with the policy's code.
    Refused { code: String },
}

/// What the disk-format parser concluded.
#[derive(Debug, Clone, PartialEq, Eq)]
pub enum DiskFormatResult {
    /// A structurally valid image.
    Valid,
    /// Refused, with the parser's code.
    Refused { code: String },
    /// Neither.
    Inconclusive,
}

/// The disk-format parser's answer for one file.
#[derive(Debug, Clone, PartialEq, Eq)]
pub struct DiskFormatOutcome {
    pub bytes_inspected: u64,
    pub result: DiskFormatResult,
}

/// What the caller learnt of one regular file (or symlink to one).
#[derive(Debug, Clone, PartialEq, Eq)]
pub struct FileObservation {
    pub path: String,
    /// The file's extension, lower-cased, if it has one.
    pub extension: Option<String>,
    /// The platform this build asserted before the platform registry.
    pub before: Option<String>,
    pub detected_platform: Option<String>,
    pub confidence: DetectionConfidence,
    /// The confidence's label.
    pub confidence_label: String,
    /// The detail of the strongest evidence, if there was any.
    pub first_evidence_detail: Option<String>,
    pub ambiguity_reason: Option<String>,
    /// For a symlink, what reading it gave.
    pub symlink: Option<SymlinkRead>,
    /// For an extension the disk-format parser knows, its answer.
    pub disk_format: Option<DiskFormatOutcome>,
}

/// What the disk-format parser proved for one extension so far.
#[derive(Debug, Clone, PartialEq, Eq)]
pub struct DiskTally {
    pub files: u64,
    pub structurally_valid: u64,
    pub malformed: u64,
    pub refused: u64,
    pub bytes_inspected: u64,
    pub refusals: Vec<CountRow>,
}

/// The audit so far.
#[derive(Debug, Clone, PartialEq, Eq)]
pub struct AuditTally {
    /// How many things were recorded, files, folders and refusals.
    pub events: u64,
    pub files_considered: u64,
    pub directories_considered: u64,
    pub confirmed: u64,
    pub probable: u64,
    pub ambiguous: u64,
    pub unknown: u64,
    pub platform_counts: Vec<CountRow>,
    pub ambiguous_extensions: Vec<CountRow>,
    pub symlinks_seen: u64,
    pub symlinks_read: u64,
    pub symlinks_with_signature_evidence: u64,
    pub symlink_refusals: Vec<CountRow>,
    pub disk_st: DiskTally,
    pub disk_stx: DiskTally,
    pub reclassified_total: u64,
    pub reclassified: Vec<PlatformChangeView>,
    pub newly_detected_total: u64,
    pub newly_detected: Vec<PlatformChangeView>,
    pub historical_total: u64,
    pub historical: Vec<PlatformChangeView>,
}

/// A disk tally kept within the bound.
pub open spec fn disk_wf(d: DiskTally, bound: nat) -> bool {
    &&& d.files <= bound
    &&& d.structurally_valid <= bound
    &&& d.malformed <= bound
    &&& d.refused <= bound
    &&& tally_wf(d.refusals@, bound)
}

/// A disk tally with nothing recorded.
pub open spec fn disk_empty(d: DiskTally) -> bool {
    d.files == 0 && d.structurally_valid == 0 && d.malformed == 0 && d.refused == 0 && d.bytes_inspected == 0
        && d.refusals@.len() == 0
}

impl AuditTally {
    /// Every file is counted under exactly one confidence, every count is
    /// within the number of things recorded, and every tally names each
    /// thing once.
    pub open spec fn wf(&self) -> bool {
        let b = self.events as nat;
        &&& self.confirmed + self.probable + self.ambiguous + self.unknown == self.files_considered
        &&& self.files_considered <= b
        &&& self.directories_considered <= b
        &&& self.confirmed <= b
        &&& self.probable <= b
        &&& self.ambiguous <= b
        &&& self.unknown <= b
        &&& self.symlinks_seen <= b
        &&& self.symlinks_read <= b
        &&& self.symlinks_with_signature_evidence <= b
        &&& self.reclassified_total <= b
        &&& self.newly_detected_total <= b
        &&& self.historical_total <= b
        &&& tally_wf(self.platform_counts@, b)
        &&& tally_wf(self.ambiguous_extensions@, b)
        &&& tally_wf(self.symlink_refusals@, b)
        &&& disk_wf(self.disk_st, b)
        &&& disk_wf(self.disk_stx, b)
    }
}

fn empty_disk() -> (d: DiskTally)
    ensures
        disk_empty(d),
        disk_wf(d, 0),
{
    DiskTally { files: 0, structurally_valid: 0, malformed: 0, refused: 0, bytes_inspected: 0, refusals: Vec::new() }
}

/// An audit with nothing recorded.
pub fn new_audit_tally() -> (t: AuditTally)
    ensures
        t.wf(),
        t.events == 0,
        t.files_considered == 0 && t.directories_considered == 0,
        t.confirmed == 0 && t.probable == 0 && t.ambiguous == 0 && t.unknown == 0,
        t.platform_counts@.len() == 0 && t.ambiguous_extensions@.len() == 0 && t.symlink_refusals@.len() == 0,
        t.symlinks_seen == 0 && t.symlinks_read == 0 && t.symlinks_with_signature_evidence == 0,
        disk_empty(t.disk_st) && disk_empty(t.disk_stx),
        t.reclassified_total == 0 && t.reclassified@.len() == 0,
        t.newly_detected_total == 0 && t.newly_detected@.len() == 0,
        t.historical_total == 0 && t.historical@.len() == 0,
{
    AuditTally {
        events: 0,
        files_considered: 0,
        directories_considered: 0,
        confirmed: 0,
        probable: 0,
        ambiguous: 0,
        unknown: 0,
        platform_counts: Vec::new(),
        ambiguous_extensions: Vec::new(),
        symlinks_seen: 0,
        symlinks_read: 0,
        symlinks_with_signature_evidence: 0,
        symlink_refusals: Vec::new(),
        disk_st: empty_disk(),
        disk_stx: empty_disk(),
        reclassified_total: 0,
        reclassified: Vec::new(),
        newly_detected_total: 0,
        newly_detected: Vec::new(),
        historical_total: 0,
        historical: Vec::new(),
    }
}

/// `new` counts `name` once more than `old`.
pub open spec fn tally_added(old: Seq<CountRow>, new: Seq<CountRow>, name: Seq<char>) -> bool {
    &&& forall|n: Seq<char>| #[trigger] has_name(new, n) <==> has_name(old, n) || n == name
    &&& forall|n: Seq<char>| #[trigger] tally_of(new, n) == tally_of(old, n) + if n == name { 1nat } else { 0nat }
}

proof fn lemma_tally_wf_grows(rows: Seq<CountRow>, b: nat, c: nat)
    requires
        tally_wf(rows, b),
        b <= c,
    ensures
        tally_wf(rows, c),
{
}

proof fn lemma_disk_wf_grows(d: DiskTally, b: nat, c: nat)
    requires
        disk_wf(d, b),
        b <= c,
    ensures
        disk_wf(d, c),
{
}

/// Whether the audit has considered as many files as a limit allows.
pub fn limit_reached(t: &AuditTally, limit: Option<usize>) -> (r: bool)
    ensures
        r == match limit { Some(l) => t.files_considered >= l, None => false },
{
    match limit {
        Some(l) => t.files_considered >= l as u64,
        None => false,
    }
}

/// Records a directory, which the walk then descends into.
pub fn record_directory(t: &mut AuditTally)
    requires
        old(t).wf(),
        old(t).events < u64::MAX,
    ensures
        final(t).wf(),
        *final(t) == (AuditTally {
            events: (old(t).events + 1) as u64,
            directories_considered: (old(t).directories_considered + 1) as u64,
            ..*old(t)
        }),
{
    proof {
        lemma_tally_wf_grows(t.platform_counts@, t.events as nat, t.events as nat + 1);
        lemma_tally_wf_grows(t.ambiguous_extensions@, t.events as nat, t.events as nat + 1);
        lemma_tally_wf_grows(t.symlink_refusals@, t.events as nat, t.events as nat + 1);
        lemma_disk_wf_grows(t.disk_st, t.events as nat, t.events as nat + 1);
        lemma_disk_wf_grows(t.disk_stx, t.events as nat, t.events as nat + 1);
    }
    t.events = t.events + 1;
    t.directories_considered = t.directories_considered + 1;
}

/// Records a symlink that is not followed: its target cannot be resolved
/// or is not a regular file. It is seen, refused with `code`, and not
/// counted as a file.
pub fn record_unread_symlink(t: &mut AuditTally, code: &str)
    requires
        old(t).wf(),
        old(t).events < u64::MAX,
    ensures
        final(t).wf(),
        tally_added(old(t).symlink_refusals@, final(t).symlink_refusals@, code@),
        (AuditTally { symlink_refusals: old(t).symlink_refusals, ..*final(t) }) == (AuditTally {
            events: (old(t).events + 1) as u64,
            symlinks_seen: (old(t).symlinks_seen + 1) as u64,
            ..*old(t)
        }),
{
    proof {
        lemma_tally_wf_grows(t.platform_counts@, t.events as nat, t.events as nat + 1);
        lemma_tally_wf_grows(t.ambiguous_extensions@, t.events as nat, t.events as nat + 1);
        lemma_disk_wf_grows(t.disk_st, t.events as nat, t.events as nat + 1);
        lemma_disk_wf_grows(t.disk_stx, t.events as nat, t.events as nat + 1);
    }
    let bound = Ghost(t.events as nat);
    tally_add(&mut t.symlink_refusals, code, bound);
    t.events = t.events + 1;
    t.symlinks_seen = t.symlinks_seen + 1;
}

/// An optional text by its view.
pub open spec fn opt_view(o: Option<String>) -> Option<Seq<char>> {
    match o {
        Some(s) => Some(s@),
        None => None,
    }
}

/// `c` is the change of `path` from `before` to `after`, with its
/// confidence and reason.
pub open spec fn change_is(c: PlatformChangeView, path: Seq<char>, before: Option<Seq<char>>, after: Option<Seq<char>>,
    confidence: Seq<char>, reason: Seq<char>) -> bool {
    &&& c.path@ == path
    &&& opt_view(c.before) == before
    &&& opt_view(c.after) == after
    &&& c.confidence@ == confidence
    &&& c.reason@ == reason
}

/// `new` is `old` with one more change at the end while `old` is shorter
/// than `cap`, else `old` itself; `added` says what the new change is.
pub open spec fn capped_push(old: Seq<PlatformChangeView>, new: Seq<PlatformChangeView>, cap: nat, added: bool) -> bool {
    if old.len() < cap {
        new.len() == old.len() + 1 && new.take(old.len() as int) == old && added
    } else {
        new == old
    }
}

/// The extension is one the old rule called a Mega Drive ROM.
pub open spec fn legacy_mega_drive_extension(ext: Option<String>) -> bool {
    ext matches Some(e) && (e@ == "gen"@ || e@ == "smd"@)
}

/// The detail of the strongest evidence, or `no evidence`.
pub open spec fn evidence_reason(o: FileObservation) -> Seq<char> {
    match o.first_evidence_detail {
        Some(d) => d@,
        None => "no evidence"@,
    }
}

/// Why a platform changed: the ambiguity, else the strongest evidence.
pub open spec fn change_reason(o: FileObservation) -> Seq<char> {
    match o.ambiguity_reason {
        Some(r) => r@,
        None => evidence_reason(o),
    }
}

/// A refusal code that means the image is malformed rather than refused.
pub open spec fn malformed_code(code: Seq<char>) -> bool {
    code == "malformed"@ || code == "geometry_mismatch"@ || code == "not_sector_aligned"@ || code == "too_small"@
        || code == "too_large"@ || code == "truncated"@
}

/// `new` is `old` with one more file recorded with the parser's answer `d`.
pub open spec fn disk_recorded(old: DiskTally, new: DiskTally, d: DiskFormatOutcome) -> bool {
    &&& new.files == old.files + 1
    &&& new.bytes_inspected == (if old.bytes_inspected + d.bytes_inspected > u64::MAX {
            u64::MAX
        } else {
            (old.bytes_inspected + d.bytes_inspected) as u64
        })
    &&& match d.result {
        DiskFormatResult::Valid => new.structurally_valid == old.structurally_valid + 1
            && new.malformed == old.malformed && new.refused == old.refused && new.refusals == old.refusals,
        DiskFormatResult::Refused { code } => new.structurally_valid == old.structurally_valid
            && (if malformed_code(code@) {
                new.malformed == old.malformed + 1 && new.refused == old.refused
            } else {
                new.malformed == old.malformed && new.refused == old.refused + 1
            })
            && tally_added(old.refusals@, new.refusals@, code@),
        DiskFormatResult::Inconclusive => new.structurally_valid == old.structurally_valid
            && new.malformed == old.malformed && new.refused == old.refused && new.refusals == old.refusals,
    }
}

/// How one file changes the detection counts.
pub open spec fn detection_recorded(o: AuditTally, t: AuditTally, obs: FileObservation) -> bool {
    &&& t.confirmed == o.confirmed + if obs.confidence is Confirmed { 1int } else { 0int }
    &&& t.probable == o.probable + if obs.confidence is Probable { 1int } else { 0int }
    &&& t.ambiguous == o.ambiguous + if obs.confidence is Ambiguous { 1int } else { 0int }
    &&& t.unknown == o.unknown + if obs.confidence is Unknown { 1int } else { 0int }
    &&& match obs.detected_platform {
        Some(p) => tally_added(o.platform_counts@, t.platform_counts@, p@)
            && t.ambiguous_extensions == o.ambiguous_extensions,
        None => t.platform_counts == o.platform_counts && match obs.extension {
            Some(e) => tally_added(o.ambiguous_extensions@, t.ambiguous_extensions@, e@),
            None => t.ambiguous_extensions == o.ambiguous_extensions,
        },
    }
}

/// How one file changes the symlink counts.
pub open spec fn symlink_recorded(o: AuditTally, t: AuditTally, obs: FileObservation) -> bool {
    match obs.symlink {
        None => t.symlinks_seen == o.symlinks_seen && t.symlinks_read == o.symlinks_read
            && t.symlinks_with_signature_evidence == o.symlinks_with_signature_evidence
            && t.symlink_refusals == o.symlink_refusals,
        Some(SymlinkRead::Read { signature_evidence }) => t.symlinks_seen == o.symlinks_seen + 1
            && t.symlinks_read == o.symlinks_read + 1
            && t.symlinks_with_signature_evidence == o.symlinks_with_signature_evidence
                + if signature_evidence { 1int } else { 0int }
            && t.symlink_refusals == o.symlink_refusals,
        Some(SymlinkRead::Refused { code }) => t.symlinks_seen == o.symlinks_seen + 1
            && t.symlinks_read == o.symlinks_read
            && t.symlinks_with_signature_evidence == o.symlinks_with_signature_evidence
            && tally_added(o.symlink_refusals@, t.symlink_refusals@, code@),
    }
}

/// How one file changes the count of files the old extension rule got
/// wrong: a `.gen` or `.smd` file now detected as anything but a Mega
/// Drive ROM, listing the first twenty.
pub open spec fn historical_recorded(o: AuditTally, t: AuditTally, obs: FileObservation) -> bool {
    if legacy_mega_drive_extension(obs.extension) && opt_view(obs.detected_platform) != Some("MegaDrive"@) {
        t.historical_total == o.historical_total + 1
            && capped_push(o.historical@, t.historical@, 20, change_is(t.historical@.last(), obs.path@,
                Some("MegaDrive"@), opt_view(obs.detected_platform), obs.confidence_label@, evidence_reason(obs)))
    } else {
        t.historical_total == o.historical_total && t.historical == o.historical
    }
}

/// How one file changes the disk-format counts: only `.st` and `.stx`
/// files the parser answered for.
pub open spec fn disk_format_recorded(o: AuditTally, t: AuditTally, obs: FileObservation) -> bool {
    match (obs.extension, obs.disk_format) {
        (Some(e), Some(d)) => if e@ == "st"@ {
            disk_recorded(o.disk_st, t.disk_st, d) && t.disk_stx == o.disk_stx
        } else if e@ == "stx"@ {
            disk_recorded(o.disk_stx, t.disk_stx, d) && t.disk_st == o.disk_st
        } else {
            t.disk_st == o.disk_st && t.disk_stx == o.disk_stx
        },
        _ => t.disk_st == o.disk_st && t.disk_stx == o.disk_stx,
    }
}

/// How one file changes the platform changes: a platform that differs from
/// what was asserted before is a reclassification (the first forty
/// listed), one where nothing was asserted before is newly detected (the
/// first ten listed).
pub open spec fn change_recorded(o: AuditTally, t: AuditTally, obs: FileObservation) -> bool {
    let before = opt_view(obs.before);
    let after = opt_view(obs.detected_platform);
    if before == after {
        t.reclassified_total == o.reclassified_total && t.reclassified == o.reclassified
            && t.newly_detected_total == o.newly_detected_total && t.newly_detected == o.newly_detected
    } else if before is Some {
        t.reclassified_total == o.reclassified_total + 1
            && capped_push(o.reclassified@, t.reclassified@, 40, change_is(t.reclassified@.last(), obs.path@, before,
                after, obs.confidence_label@, change_reason(obs)))
            && t.newly_detected_total == o.newly_detected_total && t.newly_detected == o.newly_detected
    } else {
        t.newly_detected_total == o.newly_detected_total + 1
            && capped_push(o.newly_detected@, t.newly_detected@, 10, change_is(t.newly_detected@.last(), obs.path@,
                before, after, obs.confidence_label@, change_reason(obs)))
            && t.reclassified_total == o.reclassified_total && t.reclassified == o.reclassified
    }
}

/// How recording one file changes the audit.
pub open spec fn file_recorded(o: AuditTally, t: AuditTally, obs: FileObservation) -> bool {
    &&& t.events == o.events + 1
    &&& t.files_considered == o.files_considered + 1
    &&& t.directories_considered == o.directories_considered
    &&& detection_recorded(o, t, obs)
    &&& symlink_recorded(o, t, obs)
    &&& historical_recorded(o, t, obs)
    &&& disk_format_recorded(o, t, obs)
    &&& change_recorded(o, t, obs)
}

fn clone_text(o: &Option<String>) -> (r: Option<String>)
    ensures
        opt_view(r) == opt_view(*o),
{
    match o {
        Some(s) => Some(s.clone()),
        None => None,
    }
}

fn same_text(a: &Option<String>, b: &Option<String>) -> (r: bool)
    ensures
        r == (opt_view(*a) == opt_view(*b)),
{
    match (a, b) {
        (Some(x), Some(y)) => same(x, y.as_str()),
        (None, None) => true,
        _ => false,
    }
}

fn is_text(a: &Option<String>, t: &str) -> (r: bool)
    ensures
        r == (opt_view(*a) == Some(t@)),
{
    match a {
        Some(x) => same(x, t),
        None => false,
    }
}

fn evidence_reason_text(obs: &FileObservation) -> (r: String)
    ensures
        r@ == evidence_reason(*obs),
{
    match &obs.first_evidence_detail {
        Some(d) => d.clone(),
        None => "no evidence".to_owned(),
    }
}

fn change_reason_text(obs: &FileObservation) -> (r: String)
    ensures
        r@ == change_reason(*obs),
{
    match &obs.ambiguity_reason {
        Some(m) => m.clone(),
        None => evidence_reason_text(obs),
    }
}

fn is_malformed_code(code: &String) -> (r: bool)
    ensures
        r == malformed_code(code@),
{
    same(code, "malformed") || same(code, "geometry_mismatch") || same(code, "not_sector_aligned")
        || same(code, "too_small") || same(code, "too_large") || same(code, "truncated")
}

fn push_capped(list: &mut Vec<PlatformChangeView>, change: PlatformChangeView, cap: usize)
    ensures
        if old(list)@.len() < cap {
            final(list)@.len() == old(list)@.len() + 1 && final(list)@.take(old(list)@.len() as int) == old(list)@
                && final(list)@.last() == change
        } else {
            final(list)@ == old(list)@
        },
{
    if list.len() < cap {
        let ghost before = list@;
        list.push(change);
        proof {
            assert(list@.take(before.len() as int) =~= before);
        }
    }
}

fn record_detection(platforms: &mut Vec<CountRow>, extensions: &mut Vec<CountRow>, obs: &FileObservation, bound: Ghost<nat>)
    requires
        tally_wf(old(platforms)@, bound@),
        tally_wf(old(extensions)@, bound@),
        bound@ < u64::MAX,
    ensures
        tally_wf(final(platforms)@, bound@ + 1),
        tally_wf(final(extensions)@, bound@ + 1),
        match obs.detected_platform {
            Some(p) => tally_added(old(platforms)@, final(platforms)@, p@) && *final(extensions) == *old(extensions),
            None => *final(platforms) == *old(platforms) && match obs.extension {
                Some(e) => tally_added(old(extensions)@, final(extensions)@, e@),
                None => *final(extensions) == *old(extensions),
            },
        },
{
    match &obs.detected_platform {
        Some(p) => {
            tally_add(platforms, p.as_str(), bound);
            proof {
                lemma_tally_wf_grows(extensions@, bound@, bound@ + 1);
            }
        },
        None => {
            proof {
                lemma_tally_wf_grows(platforms@, bound@, bound@ + 1);
            }
            match &obs.extension {
                Some(e) => tally_add(extensions, e.as_str(), bound),
                None => {
                    proof {
                        lemma_tally_wf_grows(extensions@, bound@, bound@ + 1);
                    }
                },
            }
        },
    }
}

fn record_symlink(seen: &mut u64, read: &mut u64, with_signature: &mut u64, refusals: &mut Vec<CountRow>,
    symlink: &Option<SymlinkRead>, bound: Ghost<nat>)
    requires
        *old(seen) <= bound@,
        *old(read) <= bound@,
        *old(with_signature) <= bound@,
        tally_wf(old(refusals)@, bound@),
        bound@ < u64::MAX,
    ensures
        *final(seen) <= bound@ + 1,
        *final(read) <= bound@ + 1,
        *final(with_signature) <= bound@ + 1,
        tally_wf(final(refusals)@, bound@ + 1),
        match *symlink {
            None => *final(seen) == *old(seen) && *final(read) == *old(read)
                && *final(with_signature) == *old(with_signature) && *final(refusals) == *old(refusals),
            Some(SymlinkRead::Read { signature_evidence }) => *final(seen) == *old(seen) + 1
                && *final(read) == *old(read) + 1
                && *final(with_signature) == *old(with_signature) + if signature_evidence { 1int } else { 0int }
                && *final(refusals) == *old(refusals),
            Some(SymlinkRead::Refused { code }) => *final(seen) == *old(seen) + 1 && *final(read) == *old(read)
                && *final(with_signature) == *old(with_signature)
                && tally_added(old(refusals)@, final(refusals)@, code@),
        },
{
    match symlink {
        None => {
            proof {
                lemma_tally_wf_grows(refusals@, bound@, bound@ + 1);
            }
        },
        Some(SymlinkRead::Read { signature_evidence }) => {
            *seen = *seen + 1;
            *read = *read + 1;
            if *signature_evidence {
                *with_signature = *with_signature + 1;
            }
            proof {
                lemma_tally_wf_grows(refusals@, bound@, bound@ + 1);
            }
        },
        Some(SymlinkRead::Refused { code }) => {
            *seen = *seen + 1;
            tally_add(refusals, code.as_str(), bound);
        },
    }
}

fn record_historical(total: &mut u64, list: &mut Vec<PlatformChangeView>, obs: &FileObservation, bound: Ghost<nat>)
    requires
        *old(total) <= bound@,
        bound@ < u64::MAX,
    ensures
        *final(total) <= bound@ + 1,
        if legacy_mega_drive_extension(obs.extension) && opt_view(obs.detected_platform) != Some("MegaDrive"@) {
            *final(total) == *old(total) + 1
                && capped_push(old(list)@, final(list)@, 20, change_is(final(list)@.last(), obs.path@,
                    Some("MegaDrive"@), opt_view(obs.detected_platform), obs.confidence_label@, evidence_reason(*obs)))
        } else {
            *final(total) == *old(total) && *final(list) == *old(list)
        },
{
    let legacy = match &obs.extension {
        Some(e) => same(e, "gen") || same(e, "smd"),
        None => false,
    };
    if legacy && !is_text(&obs.detected_platform, "MegaDrive") {
        *total = *total + 1;
        let change = PlatformChangeView {
            path: obs.path.clone(),
            before: Some("MegaDrive".to_owned()),
            after: clone_text(&obs.detected_platform),
            confidence: obs.confidence_label.clone(),
            reason: evidence_reason_text(obs),
        };
        proof {
            assert(change_is(change, obs.path@, Some("MegaDrive"@), opt_view(obs.detected_platform),
                obs.confidence_label@, evidence_reason(*obs)));
        }
        push_capped(list, change, 20);
    }
}

fn record_disk_tally(d: &mut DiskTally, outcome: &DiskFormatOutcome, bound: Ghost<nat>)
    requires
        disk_wf(*old(d), bound@),
        bound@ < u64::MAX,
    ensures
        disk_wf(*final(d), bound@ + 1),
        disk_recorded(*old(d), *final(d), *outcome),
{
    d.files = d.files + 1;
    d.bytes_inspected = d.bytes_inspected.saturating_add(outcome.bytes_inspected);
    match &outcome.result {
        DiskFormatResult::Valid => {
            d.structurally_valid = d.structurally_valid + 1;
            proof {
                lemma_tally_wf_grows(d.refusals@, bound@, bound@ + 1);
            }
        },
        DiskFormatResult::Refused { code } => {
            if is_malformed_code(code) {
                d.malformed = d.malformed + 1;
            } else {
                d.refused = d.refused + 1;
            }
            tally_add(&mut d.refusals, code.as_str(), bound);
        },
        DiskFormatResult::Inconclusive => {
            proof {
                lemma_tally_wf_grows(d.refusals@, bound@, bound@ + 1);
            }
        },
    }
}

fn record_disk_format(st: &mut DiskTally, stx: &mut DiskTally, obs: &FileObservation, bound: Ghost<nat>)
    requires
        disk_wf(*old(st), bound@),
        disk_wf(*old(stx), bound@),
        bound@ < u64::MAX,
    ensures
        disk_wf(*final(st), bound@ + 1),
        disk_wf(*final(stx), bound@ + 1),
        match (obs.extension, obs.disk_format) {
            (Some(e), Some(d)) => if e@ == "st"@ {
                disk_recorded(*old(st), *final(st), d) && *final(stx) == *old(stx)
            } else if e@ == "stx"@ {
                disk_recorded(*old(stx), *final(stx), d) && *final(st) == *old(st)
            } else {
                *final(st) == *old(st) && *final(stx) == *old(stx)
            },
            _ => *final(st) == *old(st) && *final(stx) == *old(stx),
        },
{
    proof {
        lemma_disk_wf_grows(*st, bound@, bound@ + 1);
        lemma_disk_wf_grows(*stx, bound@, bound@ + 1);
    }
    match (&obs.extension, &obs.disk_format) {
        (Some(e), Some(d)) => {
            if same(e, "st") {
                record_disk_tally(st, d, bound);
            } else if same(e, "stx") {
                record_disk_tally(stx, d, bound);
            }
        },
        _ => {},
    }
}

fn record_change(reclassified_total: &mut u64, reclassified: &mut Vec<PlatformChangeView>, newly_total: &mut u64,
    newly: &mut Vec<PlatformChangeView>, obs: &FileObservation, bound: Ghost<nat>)
    requires
        *old(reclassified_total) <= bound@,
        *old(newly_total) <= bound@,
        bound@ < u64::MAX,
    ensures
        *final(reclassified_total) <= bound@ + 1,
        *final(newly_total) <= bound@ + 1,
        ({
            let before = opt_view(obs.before);
            let after = opt_view(obs.detected_platform);
            if before == after {
                *final(reclassified_total) == *old(reclassified_total) && *final(reclassified) == *old(reclassified)
                    && *final(newly_total) == *old(newly_total) && *final(newly) == *old(newly)
            } else if before is Some {
                *final(reclassified_total) == *old(reclassified_total) + 1
                    && capped_push(old(reclassified)@, final(reclassified)@, 40, change_is(final(reclassified)@.last(),
                        obs.path@, before, after, obs.confidence_label@, change_reason(*obs)))
                    && *final(newly_total) == *old(newly_total) && *final(newly) == *old(newly)
            } else {
                *final(newly_total) == *old(newly_total) + 1
                    && capped_push(old(newly)@, final(newly)@, 10, change_is(final(newly)@.last(), obs.path@,
                        before, after, obs.confidence_label@, change_reason(*obs)))
                    && *final(reclassified_total) == *old(reclassified_total) && *final(reclassified) == *old(reclassified)
            }
        }),
{
    if same_text(&obs.before, &obs.detected_platform) {
        return;
    }
    let change = PlatformChangeView {
        path: obs.path.clone(),
        before: clone_text(&obs.before),
        after: clone_text(&obs.detected_platform),
        confidence: obs.confidence_label.clone(),
        reason: change_reason_text(obs),
    };
    proof {
        assert(change_is(change, obs.path@, opt_view(obs.before), opt_view(obs.detected_platform),
            obs.confidence_label@, change_reason(*obs)));
    }
    if obs.before.is_some() {
        *reclassified_total = *reclassified_total + 1;
        push_capped(reclassified, change, 40);
    } else {
        *newly_total = *newly_total + 1;
        push_capped(newly, change, 10);
    }
}

/// Records one file (or a symlink to one): its detection, what reading a
/// symlink gave, whether the old extension rule got it wrong, what the
/// disk-format parser proved, and whether its platform changed.
pub fn record_file(t: &mut AuditTally, obs: &FileObservation)
    requires
        old(t).wf(),
        old(t).events < u64::MAX,
    ensures
        final(t).wf(),
        file_recorded(*old(t), *final(t), *obs),
{
    let bound = Ghost(t.events as nat);
    t.events = t.events + 1;
    t.files_considered = t.files_considered + 1;
    match obs.confidence {
        DetectionConfidence::Confirmed => t.confirmed = t.confirmed + 1,
        DetectionConfidence::Probable => t.probable = t.probable + 1,
        DetectionConfidence::Ambiguous => t.ambiguous = t.ambiguous + 1,
        DetectionConfidence::Unknown => t.unknown = t.unknown + 1,
    }
    record_detection(&mut t.platform_counts, &mut t.ambiguous_extensions, obs, bound);
    record_symlink(&mut t.symlinks_seen, &mut t.symlinks_read, &mut t.symlinks_with_signature_evidence,
        &mut t.symlink_refusals, &obs.symlink, bound);
    record_historical(&mut t.historical_total, &mut t.historical, obs, bound);
    record_disk_format(&mut t.disk_st, &mut t.disk_stx, obs, bound);
    record_change(&mut t.reclassified_total, &mut t.reclassified, &mut t.newly_detected_total, &mut t.newly_detected,
        obs, bound);
}

/// The canonical platforms this audit asks about, so it can report which
/// of them the sample library holds no evidence for.
pub open spec fn milestone_names() -> Seq<Seq<char>> {
    seq![
        "ZX Spectrum"@,
        "BBC Micro"@,
        "Acorn Electron"@,
        "Amstrad CPC"@,
        "Amiga"@,
        "AmigaCD32"@,
        "Commodore 64"@,
        "Commodore 128"@,
        "VIC-20"@,
        "Atari 8-bit"@,
        "AtariST"@,
        "Atari Jaguar"@,
        "Atari Lynx"@,
        "MegaDrive"@,
        "Sega CD"@,
        "Sega 32X"@,
        "MasterSystem"@,
        "GameGear"@,
        "Philips CD-i"@,
        "NeoGeo"@,
        "Neo Geo CD"@,
        "MSX"@,
        "MSX2"@,
        "PC Engine"@,
        "TurboGrafx-16"@,
        "PC Engine CD"@,
        "ColecoVision"@,
        "Intellivision"@,
        "Vectrex"@,
        "DOS"@,
        "ScummVM"@,
        "Sharp X68000"@,
        "FM Towns"@,
        "PC-98"@,
        "Apple II"@,
        "Macintosh"@,
        "Acorn Archimedes"@,
        "3DO"@,
        "Commodore CDTV"@
    ]
}

/// The canonical platforms this audit asks about.
pub fn milestone_platforms() -> (r: Vec<String>)
    ensures
        views(r@) == milestone_names(),
{
    let mut v: Vec<String> = Vec::new();
    v.push("ZX Spectrum".to_owned());
    v.push("BBC Micro".to_owned());
    v.push("Acorn Electron".to_owned());
    v.push("Amstrad CPC".to_owned());
    v.push("Amiga".to_owned());
    v.push("AmigaCD32".to_owned());
    v.push("Commodore 64".to_owned());
    v.push("Commodore 128".to_owned());
    v.push("VIC-20".to_owned());
    v.push("Atari 8-bit".to_owned());
    v.push("AtariST".to_owned());
    v.push("Atari Jaguar".to_owned());
    v.push("Atari Lynx".to_owned());
    v.push("MegaDrive".to_owned());
    v.push("Sega CD".to_owned());
    v.push("Sega 32X".to_owned());
    v.push("MasterSystem".to_owned());
    v.push("GameGear".to_owned());
    v.push("Philips CD-i".to_owned());
    v.push("NeoGeo".to_owned());
    v.push("Neo Geo CD".to_owned());
    v.push("MSX".to_owned());
    v.push("MSX2".to_owned());
    v.push("PC Engine".to_owned());
    v.push("TurboGrafx-16".to_owned());
    v.push("PC Engine CD".to_owned());
    v.push("ColecoVision".to_owned());
    v.push("Intellivision".to_owned());
    v.push("Vectrex".to_owned());
    v.push("DOS".to_owned());
    v.push("ScummVM".to_owned());
    v.push("Sharp X68000".to_owned());
    v.push("FM Towns".to_owned());
    v.push("PC-98".to_owned());
    v.push("Apple II".to_owned());
    v.push("Macintosh".to_owned());
    v.push("Acorn Archimedes".to_owned());
    v.push("3DO".to_owned());
    v.push("Commodore CDTV".to_owned());
    proof {
        assert(views(v@) =~= milestone_names());
    }
    v
}

/// The names among `names` that no row carries, in order.
pub open spec fn absent_names(names: Seq<Seq<char>>, rows: Seq<CountRow>) -> Seq<Seq<char>>
    decreases names.len(),
{
    if names.len() == 0 {
        Seq::empty()
    } else {
        absent_names(names.drop_last(), rows) + if has_name(rows, names.last()) { Seq::empty() } else { seq![names.last()] }
    }
}

/// Whether some row carries `name`.
pub fn tally_has(rows: &Vec<CountRow>, name: &str) -> (r: bool)
    ensures
        r == has_name(rows@, name@),
{
    let mut k: usize = 0;
    while k < rows.len()
        invariant
            k <= rows@.len(),
            forall|j: int| 0 <= j < k ==> #[trigger] rows@[j].name@ != name@,
        decreases rows@.len() - k,
    {
        if same(&rows[k].name, name) {
            return true;
        }
        k = k + 1;
    }
    false
}

/// `row` is the disk-format row of `extension` made from `d`, its refusals
/// in rank order.
pub open spec fn disk_row_is(row: DiskFormatRowView, extension: Seq<char>, d: DiskTally) -> bool {
    &&& row.extension@ == extension
    &&& row.files == d.files
    &&& row.structurally_valid == d.structurally_valid
    &&& row.malformed == d.malformed
    &&& row.refused == d.refused
    &&& row.bytes_inspected == d.bytes_inspected
    &&& exists|order: Seq<usize>| ranked_rows(d.refusals@, order, row.refusals@)
}

/// The disk-format rows: `.st` then `.stx`, each only once a file of it was
/// recorded.
pub open spec fn disk_rows_are(rows: Seq<DiskFormatRowView>, st: DiskTally, stx: DiskTally) -> bool {
    &&& rows.len() == (if st.files > 0 { 1int } else { 0int }) + (if stx.files > 0 { 1int } else { 0int })
    &&& st.files > 0 ==> disk_row_is(rows[0], "st"@, st)
    &&& stx.files > 0 ==> disk_row_is(rows[if st.files > 0 { 1int } else { 0int }], "stx"@, stx)
}

fn disk_row(extension: &str, d: &DiskTally) -> (r: DiskFormatRowView)
    ensures
        disk_row_is(r, extension@, *d),
{
    let refusals = ranked(&d.refusals);
    let r = DiskFormatRowView {
        extension: extension.to_owned(),
        files: d.files,
        structurally_valid: d.structurally_valid,
        malformed: d.malformed,
        refused: d.refused,
        bytes_inspected: d.bytes_inspected,
        refusals,
    };
    proof {
        let order = choose|order: Seq<usize>| ranked_rows(d.refusals@, order, refusals@);
        assert(ranked_rows(d.refusals@, order, r.refusals@));
    }
    r
}

/// The audit's counts and lists as the report shows them.
pub open spec fn report_counts_are(r: PlatformAuditView, t: AuditTally) -> bool {
    &&& r.files_considered == t.files_considered
    &&& r.directories_considered == t.directories_considered
    &&& r.confirmed == t.confirmed
    &&& r.probable == t.probable
    &&& r.ambiguous == t.ambiguous
    &&& r.unknown == t.unknown
    &&& r.symlinks_seen == t.symlinks_seen
    &&& r.symlinks_read == t.symlinks_read
    &&& r.symlinks_with_signature_evidence == t.symlinks_with_signature_evidence
    &&& r.reclassified_total == t.reclassified_total
    &&& r.reclassified == t.reclassified
    &&& r.newly_detected_total == t.newly_detected_total
    &&& r.newly_detected == t.newly_detected
    &&& r.historical_misclassifications_total == t.historical_total
    &&& r.historical_misclassifications == t.historical
}

/// The report of a finished audit: the counts, the platforms and the
/// symlink refusals in rank order (largest count first, then by name), the
/// fifteen leading unresolved extensions, the disk-format rows, the
/// changes, and the canonical platforms no file was detected as.
pub fn finish_audit(t: AuditTally, root: String, elapsed_milliseconds: u64) -> (r: PlatformAuditView)
    requires
        t.wf(),
    ensures
        r.root@ == root@,
        r.elapsed_milliseconds == elapsed_milliseconds,
        report_counts_are(r, t),
        r.confirmed + r.probable + r.ambiguous + r.unknown == r.files_considered,
        exists|order: Seq<usize>| ranked_rows(t.platform_counts@, order, r.platform_counts@),
        exists|order: Seq<usize>, full: Seq<CountRow>| ranked_rows(t.ambiguous_extensions@, order, full)
            && r.top_ambiguous_extensions@ == (if full.len() <= 15 { full } else { full.subrange(0, 15) }),
        exists|order: Seq<usize>| ranked_rows(t.symlink_refusals@, order, r.symlink_refusals@),
        disk_rows_are(r.disk_format@, t.disk_st, t.disk_stx),
        views(r.requested_platforms_absent@) == absent_names(milestone_names(), t.platform_counts@),
{
    let platform_counts = ranked(&t.platform_counts);
    let mut top = ranked(&t.ambiguous_extensions);
    let ghost full = top@;
    top.truncate(15);
    let symlink_refusals = ranked(&t.symlink_refusals);
    let mut disk_format: Vec<DiskFormatRowView> = Vec::new();
    if t.disk_st.files > 0 {
        disk_format.push(disk_row("st", &t.disk_st));
    }
    if t.disk_stx.files > 0 {
        disk_format.push(disk_row("stx", &t.disk_stx));
    }
    let milestone = milestone_platforms();
    let mut absent: Vec<String> = Vec::new();
    let mut k: usize = 0;
    while k < milestone.len()
        invariant
            k <= milestone@.len(),
            views(milestone@) == milestone_names(),
            views(absent@) == absent_names(views(milestone@).take(k as int), t.platform_counts@),
        decreases milestone@.len() - k,
    {
        proof {
            assert(views(milestone@).take(k + 1).drop_last() =~= views(milestone@).take(k as int));
            assert(views(milestone@).take(k + 1).last() == milestone@[k as int]@);
        }
        if !tally_has(&t.platform_counts, milestone[k].as_str()) {
            let ghost before = absent@;
            absent.push(milestone[k].clone());
            proof {
                assert(views(absent@) =~= views(before).push(milestone@[k as int]@));
                assert(views(absent@) =~= absent_names(views(milestone@).take(k + 1), t.platform_counts@));
            }
        } else {
            proof {
                assert(views(absent@) =~= absent_names(views(milestone@).take(k + 1), t.platform_counts@));
            }
        }
        k = k + 1;
    }
    proof {
        assert(views(milestone@).take(milestone@.len() as int) =~= views(milestone@));
    }
    let r = PlatformAuditView {
        root,
        files_considered: t.files_considered,
        directories_considered: t.directories_considered,
        elapsed_milliseconds,
        confirmed: t.confirmed,
        probable: t.probable,
        ambiguous: t.ambiguous,
        unknown: t.unknown,
        platform_counts,
        top_ambiguous_extensions: top,
        disk_format,
        symlinks_seen: t.symlinks_seen,
        symlinks_read: t.symlinks_read,
        symlinks_with_signature_evidence: t.symlinks_with_signature_evidence,
        symlink_refusals,
        reclassified_total: t.reclassified_total,
        reclassified: t.reclassified,
        newly_detected_total: t.newly_detected_total,
        newly_detected: t.newly_detected,
        historical_misclassifications_total: t.historical_total,
        historical_misclassifications: t.historical,
        requested_platforms_absent: absent,
    };
    proof {
        let o1 = choose|order: Seq<usize>| ranked_rows(t.platform_counts@, order, platform_counts@);
        assert(ranked_rows(t.platform_counts@, o1, r.platform_counts@));
        let o3 = choose|order: Seq<usize>| ranked_rows(t.symlink_refusals@, order, symlink_refusals@);
        assert(ranked_rows(t.symlink_refusals@, o3, r.symlink_refusals@));
        let o2 = choose|order: Seq<usize>| ranked_rows(t.ambiguous_extensions@, order, full);
        assert(ranked_rows(t.ambiguous_extensions@, o2, full));
        assert(r.top_ambiguous_extensions@ == (if full.len() <= 15 { full } else { full.subrange(0, 15) }));
    }
    r
}

} // verus!
