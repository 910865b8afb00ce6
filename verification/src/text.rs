//! Character-level text building blocks shared by every report formatter.
use vstd::prelude::*;

verus! {

/// Appends `t` to `s`.
#[verifier::external_body]
pub fn push_str(s: &mut String, t: &str)
    ensures
        final(s)@ == old(s)@ + t@,
{
    s.push_str(t);
}

/// Appends one character to `s`.
#[verifier::external_body]
pub fn push_char(s: &mut String, c: char)
    ensures
        final(s)@ == old(s)@.push(c),
{
    s.push(c);
}

/// The decimal digits of `n`, most significant first, without sign or padding.
pub open spec fn spec_decimal(n: nat) -> Seq<char>
    decreases n,
{
    if n < 10 {
        seq![digit_char(n)]
    } else {
        spec_decimal(n / 10).push(digit_char(n % 10))
    }
}

/// The ASCII digit for `d`, which must be below ten.
pub open spec fn digit_char(d: nat) -> char {
    ((d + 48) as u8) as char
}

fn digit(d: u64) -> (c: char)
    requires
        d < 10,
    ensures
        c == digit_char(d as nat),
{
    ((d as u8) + 48u8) as char
}

/// Formats `n` in decimal.
pub fn decimal(n: u64) -> (r: String)
    ensures
        r@ == spec_decimal(n as nat),
    decreases n,
{
    if n < 10 {
        let mut s = String::new();
        push_char(&mut s, digit(n));
        s
    } else {
        let mut s = decimal(n / 10);
        push_char(&mut s, digit(n % 10));
        s
    }
}

/// `a` followed by `b`, as a new string.
pub fn concat(a: &str, b: &str) -> (r: String)
    ensures
        r@ == a@ + b@,
{
    let mut r = a.to_owned();
    push_str(&mut r, b);
    r
}

/// Whether `a` reads exactly `b`.
pub fn same(a: &String, b: &str) -> (r: bool)
    ensures
        r == (a@ == b@),
{
    let b = b.to_owned();
    *a == b
}

/// The items of `parts` separated by `sep`.
pub open spec fn spec_join(parts: Seq<Seq<char>>, sep: Seq<char>) -> Seq<char>
    decreases parts.len(),
{
    if parts.len() == 0 {
        Seq::empty()
    } else if parts.len() == 1 {
        parts[0]
    } else {
        spec_join(parts.drop_last(), sep) + sep + parts.last()
    }
}

/// The views of a sequence of strings.
pub open spec fn views(v: Seq<String>) -> Seq<Seq<char>> {
    v.map_values(|s: String| s@)
}

/// `parts.join(sep)`.
pub fn join(parts: &Vec<String>, sep: &str) -> (r: String)
    ensures
        r@ == spec_join(views(parts@), sep@),
{
    let mut r = String::new();
    let mut k: usize = 0;
    while k < parts.len()
        invariant
            k <= parts@.len(),
            r@ == spec_join(views(parts@.take(k as int)), sep@),
        decreases parts@.len() - k,
    {
        proof {
            assert(views(parts@.take(k + 1)).drop_last() =~= views(parts@.take(k as int)));
            assert(views(parts@.take(k + 1)).last() == parts@[k as int]@);
        }
        if k > 0 {
            push_str(&mut r, sep);
        } else {
            proof {
                assert(r@ =~= Seq::<char>::empty());
            }
        }
        push_str(&mut r, parts[k].as_str());
        k = k + 1;
    }
    proof {
        assert(parts@.take(parts@.len() as int) =~= parts@);
    }
    r
}

/// What `format!("{:?}", s)` renders for a string slice: the text in
/// double quotes with std's debug escapes applied.
pub uninterp spec fn str_debug(s: Seq<char>) -> Seq<char>;

/// `format!("{:?}", s)` for a string slice (std's `Debug` for `str`).
#[verifier::external_body]
pub fn debug_str(s: &str) -> (r: String)
    ensures
        r@ == str_debug(s@),
{
    format!("{s:?}")
}

/// What `format!("{:?}", v)` renders for a list of strings.
pub open spec fn spec_debug_list(v: Seq<String>) -> Seq<char> {
    "["@ + spec_join(v.map_values(|s: String| str_debug(s@)), ", "@) + "]"@
}

/// `format!("{:?}", v)` for a list of strings: each item's debug form,
/// separated by ", ", in square brackets.
pub fn debug_list(v: &Vec<String>) -> (r: String)
    ensures
        r@ == spec_debug_list(v@),
{
    let mut items: Vec<String> = Vec::new();
    let mut k: usize = 0;
    while k < v.len()
        invariant
            k <= v@.len(),
            items@.len() == k,
            forall|j: int| 0 <= j < k ==> #[trigger] items@[j]@ == str_debug(v@[j]@),
        decreases v@.len() - k,
    {
        items.push(debug_str(v[k].as_str()));
        k = k + 1;
    }
    proof {
        assert(views(items@) =~= v@.map_values(|s: String| str_debug(s@)));
    }
    let mut r = "[".to_owned();
    let inner = join(&items, ", ");
    push_str(&mut r, inner.as_str());
    push_str(&mut r, "]");
    r
}

/// An ASCII letter or digit.
pub open spec fn is_ascii_alnum(c: char) -> bool {
    ('0' <= c && c <= '9') || ('a' <= c && c <= 'z') || ('A' <= c && c <= 'Z')
}

/// `c` with an ASCII upper-case letter made lower-case.
pub open spec fn ascii_lower(c: char) -> char {
    if 'A' <= c && c <= 'Z' { ((c as int) + 32) as char } else { c }
}

/// `c.is_ascii_alphanumeric()`.
pub fn is_ascii_alphanumeric(c: char) -> (r: bool)
    ensures
        r == is_ascii_alnum(c),
{
    ('0' <= c && c <= '9') || ('a' <= c && c <= 'z') || ('A' <= c && c <= 'Z')
}

/// `c.to_ascii_lowercase()`.
pub fn to_ascii_lowercase(c: char) -> (r: char)
    ensures
        r == ascii_lower(c),
{
    if 'A' <= c && c <= 'Z' {
        (((c as u32) + 32) as u8) as char
    } else {
        c
    }
}

/// The pieces of `p` between occurrences of `sep`, empty pieces included.
pub open spec fn split_on(p: Seq<char>, sep: char) -> Seq<Seq<char>>
    decreases p.len(),
{
    if p.len() == 0 {
        seq![Seq::empty()]
    } else {
        let r = split_on(p.drop_last(), sep);
        if p.last() == sep {
            r.push(Seq::empty())
        } else {
            r.update(r.len() - 1, r.last().push(p.last()))
        }
    }
}

proof fn lemma_split_nonempty(p: Seq<char>, sep: char)
    ensures
        split_on(p, sep).len() >= 1,
    decreases p.len(),
{
    if p.len() > 0 {
        lemma_split_nonempty(p.drop_last(), sep);
    }
}

/// `p.split(sep)`: the pieces between separators, in order.
pub fn pieces(p: &str, sep: char) -> (r: Vec<String>)
    ensures
        views(r@) == split_on(p@, sep),
{
    let cs = chars_of(p);
    let mut pieces: Vec<String> = Vec::new();
    let mut current = String::new();
    let mut k: usize = 0;
    proof {
        assert(cs@.take(0) =~= Seq::<char>::empty());
        assert(views(pieces@).push(current@) =~= seq![Seq::<char>::empty()]);
    }
    while k < cs.len()
        invariant
            k <= cs@.len(),
            views(pieces@).push(current@) == split_on(cs@.take(k as int), sep),
        decreases cs@.len() - k,
    {
        proof {
            assert(cs@.take(k + 1).drop_last() =~= cs@.take(k as int));
            assert(cs@.take(k + 1).last() == cs@[k as int]);
            lemma_split_nonempty(cs@.take(k as int), sep);
        }
        let c = cs[k];
        if c == sep {
            let done = current;
            pieces.push(done);
            current = String::new();
            proof {
                assert(views(pieces@).push(current@) =~= split_on(cs@.take(k as int), sep).push(Seq::empty()));
            }
        } else {
            push_char(&mut current, c);
            proof {
                let r = split_on(cs@.take(k as int), sep);
                assert(views(pieces@).push(current@) =~= r.update(r.len() - 1, r.last().push(c)));
            }
        }
        k = k + 1;
    }
    pieces.push(current);
    proof {
        assert(cs@.take(cs@.len() as int) =~= cs@);
    }
    pieces
}

/// The Unicode `White_Space` characters, which `char::is_whitespace` accepts.
pub open spec fn is_white_space(c: char) -> bool {
    ('\u{9}' <= c && c <= '\u{d}') || c == ' ' || c == '\u{85}' || c == '\u{a0}' || c == '\u{1680}'
        || ('\u{2000}' <= c && c <= '\u{200a}') || c == '\u{2028}' || c == '\u{2029}'
        || c == '\u{202f}' || c == '\u{205f}' || c == '\u{3000}'
}

/// `c.is_whitespace()`.
pub fn is_whitespace(c: char) -> (r: bool)
    ensures
        r == is_white_space(c),
{
    ('\u{9}' <= c && c <= '\u{d}') || c == ' ' || c == '\u{85}' || c == '\u{a0}' || c == '\u{1680}'
        || ('\u{2000}' <= c && c <= '\u{200a}') || c == '\u{2028}' || c == '\u{2029}'
        || c == '\u{202f}' || c == '\u{205f}' || c == '\u{3000}'
}

/// `s` without its leading white space.
pub open spec fn trim_start_ws(s: Seq<char>) -> Seq<char>
    decreases s.len(),
{
    if s.len() > 0 && is_white_space(s[0]) { trim_start_ws(s.drop_first()) } else { s }
}

/// `s` without its trailing white space.
pub open spec fn trim_end_ws(s: Seq<char>) -> Seq<char>
    decreases s.len(),
{
    if s.len() > 0 && is_white_space(s.last()) { trim_end_ws(s.drop_last()) } else { s }
}

/// `s.trim()`.
pub fn trim(s: &str) -> (r: String)
    ensures
        r@ == trim_end_ws(trim_start_ws(s@)),
{
    let mut v = chars_of(s);
    let ghost d = v@;
    while v.len() > 0 && is_whitespace(v[0])
        invariant
            trim_start_ws(d) == trim_start_ws(v@),
        decreases v@.len(),
    {
        v.remove(0);
    }
    let ghost l = v@;
    while v.len() > 0 && is_whitespace(v[v.len() - 1])
        invariant
            trim_end_ws(l) == trim_end_ws(v@),
        decreases v@.len(),
    {
        v.pop();
    }
    string_of(&v)
}

/// Whether `c` is alphabetic or numeric in the sense of std's
/// `char::is_alphanumeric` (the Unicode `Alphabetic` or numeric categories).
pub uninterp spec fn unicode_alphanumeric(c: char) -> bool;

/// `c.is_alphanumeric()`.
#[verifier::external_body]
pub fn is_alphanumeric(c: char) -> (r: bool)
    ensures
        r == unicode_alphanumeric(c),
{
    c.is_alphanumeric()
}

/// The characters std's `char::to_lowercase` yields for `c`, the Unicode
/// lower-case mapping (one to three characters).
pub uninterp spec fn unicode_lowercase(c: char) -> Seq<char>;

/// `c.to_lowercase()`, collected into a string.
#[verifier::external_body]
pub fn to_lowercase(c: char) -> (r: String)
    ensures
        r@ == unicode_lowercase(c),
{
    c.to_lowercase().collect()
}

/// A string holding exactly the characters `v`.
pub fn string_of(v: &Vec<char>) -> (r: String)
    ensures
        r@ == v@,
{
    let mut r = String::new();
    let mut k: usize = 0;
    while k < v.len()
        invariant
            k <= v@.len(),
            r@ == v@.take(k as int),
        decreases v@.len() - k,
    {
        push_char(&mut r, v[k]);
        proof {
            assert(r@ =~= v@.take(k + 1));
        }
        k = k + 1;
    }
    proof {
        assert(v@.take(v@.len() as int) =~= v@);
    }
    r
}

/// The characters of `s`, in order.
pub fn chars_of(s: &str) -> (v: Vec<char>)
    ensures
        v@ == s@,
{
    let mut v: Vec<char> = Vec::new();
    for c in it: s.chars()
        invariant
            v@ == it.seq().take(it.index() as int),
            it.seq() == s@,
    {
        v.push(c);
    }
    v
}


/// `s.to_ascii_lowercase()`: every ASCII upper-case letter made lower-case.
pub fn lowercase_ascii(s: &str) -> (r: String)
    ensures
        r@ == s@.map_values(|c: char| ascii_lower(c)),
{
    let cs = chars_of(s);
    let mut r = String::new();
    let mut k: usize = 0;
    while k < cs.len()
        invariant
            k <= cs@.len(),
            cs@ == s@,
            r@ == cs@.take(k as int).map_values(|c: char| ascii_lower(c)),
        decreases cs@.len() - k,
    {
        push_char(&mut r, to_ascii_lowercase(cs[k]));
        proof {
            assert(r@ =~= cs@.take(k + 1).map_values(|c: char| ascii_lower(c)));
        }
        k = k + 1;
    }
    proof {
        assert(cs@.take(cs@.len() as int) =~= cs@);
    }
    r
}

/// Each line prefixed with `indent` and ended with a newline, in order.
pub open spec fn indented_lines(lines: Seq<Seq<char>>, indent: Seq<char>) -> Seq<char>
    decreases lines.len(),
{
    if lines.len() == 0 {
        Seq::empty()
    } else {
        indented_lines(lines.drop_last(), indent) + indent + lines.last() + "\n"@
    }
}

/// Appends each of `lines`, prefixed with `indent`, one per line.
pub fn push_indented_lines(out: &mut String, lines: &Vec<String>, indent: &str)
    ensures
        final(out)@ == old(out)@ + indented_lines(views(lines@), indent@),
{
    let ghost start = out@;
    let mut k: usize = 0;
    while k < lines.len()
        invariant
            k <= lines@.len(),
            out@ == start + indented_lines(views(lines@.take(k as int)), indent@),
        decreases lines@.len() - k,
    {
        proof {
            assert(views(lines@.take(k + 1)).drop_last() =~= views(lines@.take(k as int)));
            assert(views(lines@.take(k + 1)).last() == lines@[k as int]@);
        }
        push_str(out, indent);
        push_str(out, lines[k].as_str());
        push_str(out, "\n");
        proof {
            let v = views(lines@.take(k as int));
            assert(start + indented_lines(v, indent@) + indent@ + lines@[k as int]@ + "\n"@
                =~= start + (indented_lines(v, indent@) + indent@ + lines@[k as int]@ + "\n"@));
        }
        k = k + 1;
    }
    proof {
        assert(lines@.take(lines@.len() as int) =~= lines@);
        assert(indented_lines(views(Seq::<String>::empty()), indent@) =~= Seq::<char>::empty());
    }
}

/// The signed decimal form of `n`.
pub open spec fn signed_decimal(n: int) -> Seq<char> {
    if n < 0 { "-"@ + spec_decimal((-n) as nat) } else { spec_decimal(n as nat) }
}

/// Formats `n` in decimal, with a minus sign when negative.
pub fn signed_text(n: i64) -> (r: String)
    ensures
        r@ == signed_decimal(n as int),
{
    if n < 0 {
        let magnitude: u64 = ((-(n + 1)) as u64) + 1;
        concat("-", decimal(magnitude).as_str())
    } else {
        decimal(n as u64)
    }
}

/// What std's `str::to_lowercase` makes of `s`: the Unicode lower-case
/// mapping applied to the whole text (final sigma included).
pub uninterp spec fn text_lowercase(s: Seq<char>) -> Seq<char>;

/// `s.to_lowercase()`.
#[verifier::external_body]
pub fn lowercase(s: &str) -> (r: String)
    ensures
        r@ == text_lowercase(s@),
{
    s.to_lowercase()
}

/// `needle` occurs in `hay` at position `i`.
pub open spec fn occurs_at(hay: Seq<char>, needle: Seq<char>, i: int) -> bool {
    0 <= i && i + needle.len() <= hay.len() && hay.subrange(i, i + needle.len()) == needle
}

/// `needle` occurs somewhere in `hay` (the empty text occurs everywhere).
pub open spec fn has_substring(hay: Seq<char>, needle: Seq<char>) -> bool {
    exists|i: int| occurs_at(hay, needle, i)
}

fn matches_at(hay: &Vec<char>, needle: &Vec<char>, i: usize) -> (r: bool)
    requires
        i + needle@.len() <= hay@.len(),
    ensures
        r == occurs_at(hay@, needle@, i as int),
{
    let hl = hay.len();
    let mut j: usize = 0;
    while j < needle.len()
        invariant
            j <= needle@.len(),
            hl == hay@.len(),
            i + needle@.len() <= hay@.len(),
            forall|t: int| 0 <= t < j ==> hay@[i + t] == #[trigger] needle@[t],
        decreases needle@.len() - j,
    {
        if hay[i + j] != needle[j] {
            proof {
                assert(hay@.subrange(i as int, i + needle@.len())[j as int] != needle@[j as int]);
            }
            return false;
        }
        j = j + 1;
    }
    proof {
        assert(hay@.subrange(i as int, i + needle@.len()) =~= needle@);
    }
    true
}

/// `hay.contains(needle)`.
pub fn contains_text(hay: &str, needle: &str) -> (r: bool)
    ensures
        r == has_substring(hay@, needle@),
{
    let h = chars_of(hay);
    let n = chars_of(needle);
    if n.len() > h.len() {
        proof {
            assert forall|i: int| !occurs_at(hay@, needle@, i) by {}
        }
        return false;
    }
    let last = h.len() - n.len();
    let mut i: usize = 0;
    while i < last
        invariant
            i <= last,
            last + n@.len() == h@.len(),
            h@ == hay@,
            n@ == needle@,
            forall|p: int| 0 <= p < i ==> !#[trigger] occurs_at(hay@, needle@, p),
        decreases last - i,
    {
        if matches_at(&h, &n, i) {
            return true;
        }
        i = i + 1;
    }
    if matches_at(&h, &n, last) {
        return true;
    }
    proof {
        assert forall|p: int| !occurs_at(hay@, needle@, p) by {
            if 0 <= p < i {
            }
        }
    }
    false
}

} // verus!
