//! `mame-normalise preview`: the command line of the read-only MAME DAT
//! normaliser preview, and the DAT fingerprint it looks verified joins up by.
use vstd::prelude::*;
use crate::args::err_view;
use crate::text::{concat, push_char, push_str, same};
use sha2::{Digest, Sha256};

verus! {

/// How a MAME collection's sets are laid out on disk.
#[derive(Debug, Clone, Copy, PartialEq, Eq, Structural)]
pub enum CollectionMode {
    Merged,
    Split,
    NonMerged,
    /// Not known: the layout is detected from the files.
    NotSure,
}

/// What `mame-normalise preview` was asked to do.
#[derive(Debug, Clone, PartialEq, Eq)]
pub struct NormaliseRequest {
    pub root: String,
    pub dat: String,
    pub mode: CollectionMode,
}

/// The usage line of a malformed command.
pub open spec fn normalise_usage() -> Seq<char> {
    "mame-normalise preview <mame-folder> <dat-file> <merged|split|non-merged|not-sure>"@
}

/// The layout a mode argument names.
pub open spec fn mode_named(word: Seq<char>) -> Option<CollectionMode> {
    if word == "merged"@ {
        Some(CollectionMode::Merged)
    } else if word == "split"@ {
        Some(CollectionMode::Split)
    } else if word == "non-merged"@ {
        Some(CollectionMode::NonMerged)
    } else if word == "not-sure"@ {
        Some(CollectionMode::NotSure)
    } else {
        None
    }
}

/// The request the arguments make: exactly `preview <folder> <dat> <mode>`.
pub open spec fn spec_normalise_run(s: Seq<String>) -> Result<NormaliseRequest, Seq<char>> {
    if s.len() != 4 || s[0]@ != "preview"@ {
        Err(normalise_usage())
    } else {
        match mode_named(s[3]@) {
            None => Err("unknown MAME collection mode: "@ + s[3]@),
            Some(mode) => Ok(NormaliseRequest { root: s[1], dat: s[2], mode }),
        }
    }
}

/// `mame-normalise preview <mame-folder> <dat-file> <mode>`: the request, or
/// the message the command fails with before anything is read.
pub fn run(args: Vec<String>) -> (r: Result<NormaliseRequest, String>)
    ensures
        err_view(r) == spec_normalise_run(args@),
{
    if args.len() != 4 || !same(&args[0], "preview") {
        return Err("mame-normalise preview <mame-folder> <dat-file> <merged|split|non-merged|not-sure>".to_owned());
    }
    let word = &args[3];
    let mode = if same(word, "merged") {
        CollectionMode::Merged
    } else if same(word, "split") {
        CollectionMode::Split
    } else if same(word, "non-merged") {
        CollectionMode::NonMerged
    } else if same(word, "not-sure") {
        CollectionMode::NotSure
    } else {
        return Err(concat("unknown MAME collection mode: ", word.as_str()));
    };
    Ok(NormaliseRequest { root: args[1].clone(), dat: args[2].clone(), mode })
}

/// The name of a layout as its `Debug` form shows it.
pub open spec fn mode_debug_name(mode: CollectionMode) -> Seq<char> {
    match mode {
        CollectionMode::Merged => "Merged"@,
        CollectionMode::Split => "Split"@,
        CollectionMode::NonMerged => "NonMerged"@,
        CollectionMode::NotSure => "NotSure"@,
    }
}

/// The notice that reports a detected layout.
pub open spec fn spec_detection_notice(mode: CollectionMode) -> Seq<char> {
    "Detected MAME collection layout: "@ + mode_debug_name(mode)
        + "; preview is read-only and still requires user confirmation before mutation."@
}

/// The notice printed when the layout was detected rather than given.
pub fn detection_notice(mode: CollectionMode) -> (r: String)
    ensures
        r@ == spec_detection_notice(mode),
{
    let name = match mode {
        CollectionMode::Merged => "Merged",
        CollectionMode::Split => "Split",
        CollectionMode::NonMerged => "NonMerged",
        CollectionMode::NotSure => "NotSure",
    };
    let mut out = concat("Detected MAME collection layout: ", name);
    push_str(&mut out, "; preview is read-only and still requires user confirmation before mutation.");
    out
}

/// The SHA-256 digest of `bytes`, as computed by the sha2 crate.
pub uninterp spec fn sha256_of(bytes: Seq<u8>) -> Seq<u8>;

/// `Sha256::digest` of the sha2 crate: the 32-byte SHA-256 digest of
/// `bytes`. The contract names the digest and states its length (the
/// output type is a 32-byte array); which bytes it holds is not stated.
#[verifier::external_body]
fn sha256_digest(bytes: &[u8]) -> (r: Vec<u8>)
    ensures
        r@ == sha256_of(bytes@),
        r@.len() == 32,
{
    Sha256::digest(bytes).to_vec()
}

/// The lower-case hexadecimal digit for `d`, which must be below sixteen.
pub open spec fn hex_digit(d: int) -> char {
    if d < 10 { ((d + 48) as u8) as char } else { ((d + 87) as u8) as char }
}

/// `bytes` in lower-case hexadecimal, two digits per byte.
pub open spec fn lower_hex(bytes: Seq<u8>) -> Seq<char>
    decreases bytes.len(),
{
    if bytes.len() == 0 {
        Seq::empty()
    } else {
        let b = bytes.last() as int;
        lower_hex(bytes.drop_last()).push(hex_digit(b / 16)).push(hex_digit(b % 16))
    }
}

fn hex_char(d: u8) -> (c: char)
    requires
        d < 16,
    ensures
        c == hex_digit(d as int),
{
    if d < 10 { (d + 48) as char } else { (d + 87) as char }
}

/// Formats `bytes` in lower-case hexadecimal, as `{byte:02x}` each.
pub fn hex_lower(bytes: &Vec<u8>) -> (r: String)
    ensures
        r@ == lower_hex(bytes@),
        r@.len() == 2 * bytes@.len(),
{
    let mut out = String::new();
    let mut k: usize = 0;
    while k < bytes.len()
        invariant
            k <= bytes@.len(),
            out@ == lower_hex(bytes@.take(k as int)),
            out@.len() == 2 * k,
        decreases bytes@.len() - k,
    {
        proof {
            assert(bytes@.take(k + 1).drop_last() =~= bytes@.take(k as int));
        }
        let b = bytes[k];
        push_char(&mut out, hex_char(b / 16));
        push_char(&mut out, hex_char(b % 16));
        k = k + 1;
    }
    proof {
        assert(bytes@.take(bytes@.len() as int) =~= bytes@);
    }
    out
}

/// The DAT fingerprint verified joins are stored under: the SHA-256 of the
/// DAT file's bytes, in lower-case hexadecimal.
pub fn dat_sha256_hex(bytes: &Vec<u8>) -> (r: String)
    ensures
        r@ == lower_hex(sha256_of(bytes@)),
        r@.len() == 64,
{
    let digest = sha256_digest(bytes.as_slice());
    hex_lower(&digest)
}

} // verus!
