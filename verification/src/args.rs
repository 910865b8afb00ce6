//! Removing flags and their values from a command's argument list.
//!
//! Every command of the tool takes its arguments as a `Vec<String>` and peels
//! recognised flags off it, leaving what remains for positional parsing or
//! for rejection. The functions here state exactly which entries leave the
//! list and what is handed back.
use vstd::prelude::*;
use crate::text::{concat, push_str};
use crate::number::{int_error_message, parse_i64, parse_u16, parse_u32, spec_parse_int};

verus! {

/// `x` occurs among the arguments.
pub open spec fn occurs(s: Seq<String>, x: Seq<char>) -> bool {
    exists|i: int| 0 <= i < s.len() && #[trigger] s[i]@ == x
}

/// Position `i` holds the first occurrence of `x`.
pub open spec fn is_first(s: Seq<String>, x: Seq<char>, i: int) -> bool {
    &&& 0 <= i < s.len()
    &&& s[i]@ == x
    &&& forall|j: int| 0 <= j < i ==> #[trigger] s[j]@ != x
}

/// The position of the first occurrence of `x` (meaningful when `occurs`).
pub open spec fn first_index(s: Seq<String>, x: Seq<char>) -> int {
    choose|i: int| is_first(s, x, i)
}

/// `x` occurs at two different positions.
pub open spec fn occurs_twice(s: Seq<String>, x: Seq<char>) -> bool {
    exists|i: int, j: int| 0 <= i < j < s.len() && #[trigger] s[i]@ == x && #[trigger] s[j]@ == x
}

/// The arguments with positions `p` and `p + 1` taken out.
pub open spec fn drop_pair(s: Seq<String>, p: int) -> Seq<String> {
    s.subrange(0, p) + s.subrange(p + 2, s.len() as int)
}

/// The arguments with every occurrence of `x` taken out, order kept.
pub open spec fn without(s: Seq<String>, x: Seq<char>) -> Seq<String>
    decreases s.len(),
{
    if s.len() == 0 {
        s
    } else if s.last()@ == x {
        without(s.drop_last(), x)
    } else {
        without(s.drop_last(), x).push(s.last())
    }
}

/// How a single `x <value>` flag stands in the arguments.
pub enum FlagValue {
    /// The flag does not occur.
    Absent,
    /// The flag's first occurrence is the last argument.
    MissingValue,
    /// The argument after the flag's first occurrence.
    Value(String),
}

/// What the first occurrence of `x` in `s` carries.
pub open spec fn spec_flag_value(s: Seq<String>, x: Seq<char>) -> Option<Option<String>> {
    if !occurs(s, x) {
        None
    } else if first_index(s, x) + 1 >= s.len() {
        Some(None)
    } else {
        Some(Some(s[first_index(s, x) + 1]))
    }
}

/// The first occurrence is unique, so it is what `first_index` picks.
pub proof fn lemma_first_index(s: Seq<String>, x: Seq<char>, i: int)
    requires
        is_first(s, x, i),
    ensures
        first_index(s, x) == i,
        occurs(s, x),
{
    assert(is_first(s, x, i));
    let k = first_index(s, x);
    assert(is_first(s, x, k));
    if k < i {
        assert(s[k]@ != x);
    } else if i < k {
        assert(s[i]@ != x);
    }
}

/// When `x` occurs, `first_index` names its first occurrence.
pub proof fn lemma_occurs_first(s: Seq<String>, x: Seq<char>)
    requires
        occurs(s, x),
    ensures
        is_first(s, x, first_index(s, x)),
    decreases s.len(),
{
    let t = s.drop_last();
    if occurs(t, x) {
        lemma_occurs_first(t, x);
        let i = first_index(t, x);
        assert forall|j: int| 0 <= j < i implies #[trigger] s[j]@ != x by {
            assert(s[j] == t[j]);
        }
        assert(is_first(s, x, i));
    } else {
        let i = s.len() - 1;
        assert forall|j: int| 0 <= j < i implies #[trigger] s[j]@ != x by {
            assert(s[j] == t[j]);
            if s[j]@ == x {
                assert(t[j]@ == x);
            }
        }
        let w = choose|w: int| 0 <= w < s.len() && #[trigger] s[w]@ == x;
        if w < i {
            assert(t[w]@ == x);
        }
        assert(is_first(s, x, i));
    }
}

/// The first position at or after `from` whose argument equals `flag`.
fn position_from(args: &Vec<String>, flag: &String, from: usize) -> (r: Option<usize>)
    requires
        from <= args@.len(),
    ensures
        r matches Some(i) ==> from <= i < args@.len() && args@[i as int]@ == flag@
            && forall|j: int| from <= j < i ==> #[trigger] args@[j]@ != flag@,
        r is None ==> forall|j: int| from <= j < args@.len() ==> #[trigger] args@[j]@ != flag@,
{
    let mut k = from;
    while k < args.len()
        invariant
            from <= k <= args@.len(),
            forall|j: int| from <= j < k ==> #[trigger] args@[j]@ != flag@,
        decreases args@.len() - k,
    {
        if args[k] == *flag {
            return Some(k);
        }
        k = k + 1;
    }
    None
}

/// The position of the first occurrence of `flag`, if any.
pub fn position(args: &Vec<String>, flag: &String) -> (r: Option<usize>)
    ensures
        r matches Some(i) ==> is_first(args@, flag@, i as int) && first_index(args@, flag@) == i,
        r is None <==> !occurs(args@, flag@),
{
    let r = position_from(args, flag, 0);
    proof {
        match r {
            Some(i) => {
                lemma_first_index(args@, flag@, i as int);
            },
            None => {},
        }
    }
    r
}

/// Removes the argument at `p` and the one after it, returning the latter.
fn remove_pair(args: &mut Vec<String>, p: usize) -> (value: String)
    requires
        p + 1 < old(args)@.len(),
    ensures
        value == old(args)@[p + 1],
        final(args)@ == drop_pair(old(args)@, p as int),
{
    let n = args.len();
    assert(p + 1 < n);
    let value = args.remove(p + 1);
    args.remove(p);
    proof {
        assert(final(args)@ =~= drop_pair(old(args)@, p as int));
    }
    value
}

/// Whether `flag` occurs, and the arguments with its first occurrence taken out.
pub open spec fn spec_take_flag(s: Seq<String>, flag: Seq<char>) -> (bool, Seq<String>) {
    if occurs(s, flag) { (true, s.remove(first_index(s, flag))) } else { (false, s) }
}

/// Removes the first occurrence of `flag`, reporting whether there was one.
/// Later occurrences stay.
pub fn take_flag(args: &mut Vec<String>, flag: &str) -> (r: bool)
    ensures
        (r, final(args)@) == spec_take_flag(old(args)@, flag@),
        r == occurs(old(args)@, flag@),
        r ==> final(args)@ == old(args)@.remove(first_index(old(args)@, flag@)),
        !r ==> final(args)@ == old(args)@,
{
    let f = flag.to_owned();
    match position(args, &f) {
        Some(i) => {
            args.remove(i);
            true
        },
        None => false,
    }
}

/// Removes every occurrence of `flag`, reporting whether there was any.
pub fn extract_flag(args: &mut Vec<String>, flag: &str) -> (r: bool)
    ensures
        r == occurs(old(args)@, flag@),
        final(args)@ == without(old(args)@, flag@),
{
    let f = flag.to_owned();
    let ghost s = args@;
    let mut kept: Vec<String> = Vec::new();
    let mut had = false;
    let mut k: usize = 0;
    while k < args.len()
        invariant
            args@ == s,
            k <= s.len(),
            kept@ == without(s.take(k as int), f@),
            had == occurs(s.take(k as int), f@),
        decreases s.len() - k,
    {
        proof {
            assert(s.take(k + 1).drop_last() =~= s.take(k as int));
            assert(s.take(k + 1).last() == s[k as int]);
        }
        if args[k] == f {
            had = true;
            proof {
                assert(s.take(k + 1)[k as int]@ == f@);
            }
        } else {
            kept.push(args[k].clone());
            proof {
                assert forall|j: int| 0 <= j < k + 1 && #[trigger] s.take(k + 1)[j]@ == f@ implies
                    occurs(s.take(k as int), f@) by {
                    assert(j < k);
                    assert(s.take(k as int)[j] == s.take(k + 1)[j]);
                }
                if occurs(s.take(k as int), f@) {
                    let w = choose|w: int| 0 <= w < k && #[trigger] s.take(k as int)[w]@ == f@;
                    assert(s.take(k + 1)[w] == s.take(k as int)[w]);
                }
            }
        }
        proof {
            if had {
                if occurs(s.take(k as int), f@) {
                    let w = choose|w: int| 0 <= w < k && #[trigger] s.take(k as int)[w]@ == f@;
                    assert(s.take(k + 1)[w] == s.take(k as int)[w]);
                }
            }
        }
        k = k + 1;
    }
    proof {
        assert(s.take(s.len() as int) =~= s);
    }
    *args = kept;
    had
}

/// Finds the first occurrence of `flag` and, when it has a value after it,
/// removes the pair. The arguments are left alone when the flag is absent or
/// is the last argument.
pub fn take_flag_value(args: &mut Vec<String>, flag: &str) -> (r: FlagValue)
    ensures
        r is Absent <==> spec_flag_value(old(args)@, flag@) is None,
        r is MissingValue <==> spec_flag_value(old(args)@, flag@) == Some(None::<String>),
        r matches FlagValue::Value(v) ==> spec_flag_value(old(args)@, flag@) == Some(Some(v)),
        r matches FlagValue::Value(_) ==> final(args)@ == drop_pair(old(args)@, first_index(old(args)@, flag@)),
        !(r is Value) ==> final(args)@ == old(args)@,
{
    let f = flag.to_owned();
    match position(args, &f) {
        None => FlagValue::Absent,
        Some(p) => {
            if p >= args.len() - 1 {
                FlagValue::MissingValue
            } else {
                FlagValue::Value(remove_pair(args, p))
            }
        },
    }
}

/// `flag` followed by " requires a value".
pub open spec fn requires_value_message(flag: Seq<char>) -> Seq<char> {
    flag + " requires a value"@
}

/// The message for a flag given without its value.
pub fn requires_value(flag: &str) -> (m: String)
    ensures
        m@ == requires_value_message(flag@),
{
    concat(flag, " requires a value")
}

/// A result with its error message taken by view.
pub open spec fn err_view<T>(r: Result<T, String>) -> Result<T, Seq<char>> {
    match r {
        Ok(v) => Ok(v),
        Err(m) => Err(m@),
    }
}

/// What taking a flag that may be given at most once hands back, and the
/// arguments it leaves.
pub open spec fn spec_unique_value(s: Seq<String>, flag: Seq<char>) -> (Result<Option<String>, Seq<char>>, Seq<String>) {
    if occurs_twice(s, flag) {
        (Err(unique_message(flag)), s)
    } else {
        match spec_flag_value(s, flag) {
            None => (Ok(None), s),
            Some(None) => (Err(requires_value_message(flag)), s),
            Some(Some(v)) => (Ok(Some(v)), drop_pair(s, first_index(s, flag))),
        }
    }
}

/// A flag that may be given once, with a value: an error when it occurs more
/// than once or lacks its value; the pair is removed when it is taken.
pub fn take_unique_flag_value(args: &mut Vec<String>, flag: &str) -> (r: Result<Option<String>, String>)
    ensures
        occurs_twice(old(args)@, flag@) ==> (r matches Err(m) && m@ == unique_message(flag@))
            && final(args)@ == old(args)@,
        !occurs_twice(old(args)@, flag@) ==> match spec_flag_value(old(args)@, flag@) {
            None => r matches Ok(None) && final(args)@ == old(args)@,
            Some(None) => (r matches Err(m) && m@ == requires_value_message(flag@))
                && final(args)@ == old(args)@,
            Some(Some(v)) => (r matches Ok(Some(w)) && w == v)
                && final(args)@ == drop_pair(old(args)@, first_index(old(args)@, flag@)),
        },
        (err_view(r), final(args)@) == spec_unique_value(old(args)@, flag@),
{
    let f = flag.to_owned();
    let first = position(args, &f);
    match first {
        None => {
            proof {
                if occurs_twice(args@, f@) {
                    let (i, j) = choose|i: int, j: int| 0 <= i < j < args@.len()
                        && #[trigger] args@[i]@ == f@ && #[trigger] args@[j]@ == f@;
                    assert(occurs(args@, f@));
                }
            }
            Ok(None)
        },
        Some(p) => {
            let n = args.len();
            assert(p < n);
            let second = position_from(args, &f, p + 1);
            if second.is_some() {
                let m = concat(flag, " may be specified only once");
                return Err(m);
            }
            proof {
                if occurs_twice(args@, f@) {
                    let (i, j) = choose|i: int, j: int| 0 <= i < j < args@.len()
                        && #[trigger] args@[i]@ == f@ && #[trigger] args@[j]@ == f@;
                    assert(i >= p);
                    assert(j > p);
                }
            }
            if p >= n - 1 {
                return Err(requires_value(flag));
            }
            Ok(Some(remove_pair(args, p)))
        },
    }
}

/// `flag` followed by " may be specified only once".
pub open spec fn unique_message(flag: Seq<char>) -> Seq<char> {
    flag + " may be specified only once"@
}

/// A value accepted for a repeated flag: anything, or, when `ids` is set,
/// only what parses as an `i64`.
pub open spec fn value_accepted(ids: bool, v: Seq<char>) -> bool {
    !ids || spec_parse_int(v, i64::MIN as int, i64::MAX as int) is Ok
}

/// Collects every `x <value>` pair, left to right, as repeated flags are
/// taken: the values in order, the arguments left behind, and the fault that
/// stopped the collection (`Some(None)` for a flag that is the last argument,
/// `Some(Some(v))` for a value `v` that was not accepted; that pair is still
/// removed, and nothing after it is looked at).
pub open spec fn collect_pairs(s: Seq<String>, x: Seq<char>, ids: bool) -> (Seq<String>, Seq<String>, Option<Option<String>>)
    decreases s.len(),
{
    if s.len() == 0 {
        (Seq::empty(), Seq::empty(), None)
    } else if s[0]@ == x {
        if s.len() == 1 {
            (Seq::empty(), s, Some(None))
        } else if !value_accepted(ids, s[1]@) {
            (Seq::empty(), s.subrange(2, s.len() as int), Some(Some(s[1])))
        } else {
            let t = collect_pairs(s.subrange(2, s.len() as int), x, ids);
            (seq![s[1]] + t.0, t.1, t.2)
        }
    } else {
        let t = collect_pairs(s.drop_first(), x, ids);
        (t.0, seq![s[0]] + t.1, t.2)
    }
}

/// Takes every `flag <value>` pair out of the arguments, in order.
fn collect_flag_values(args: &mut Vec<String>, flag: &str, ids: bool) -> (r: (Vec<String>, Option<Option<String>>))
    ensures
        r.0@ == collect_pairs(old(args)@, flag@, ids).0,
        final(args)@ == collect_pairs(old(args)@, flag@, ids).1,
        r.1 == collect_pairs(old(args)@, flag@, ids).2,
{
    let f = flag.to_owned();
    let ghost s = args@;
    let mut values: Vec<String> = Vec::new();
    let mut i: usize = 0;
    proof {
        let whole = collect_pairs(s, f@, ids);
        assert(args@.subrange(0, args@.len() as int) =~= s);
        assert(values@ + whole.0 =~= whole.0);
        assert(args@.subrange(0, 0) + whole.1 =~= whole.1);
    }
    while i < args.len()
        invariant
            i <= args@.len(),
            f@ == flag@,
            s == old(args)@,
            ({
                let t = collect_pairs(args@.subrange(i as int, args@.len() as int), f@, ids);
                let whole = collect_pairs(s, f@, ids);
                &&& whole.0 == values@ + t.0
                &&& whole.1 == args@.subrange(0, i as int) + t.1
                &&& whole.2 == t.2
            }),
        decreases args@.len() - i,
    {
        let ghost tail = args@.subrange(i as int, args@.len() as int);
        let ghost kept = args@.subrange(0, i as int);
        let n = args.len();
        if args[i] == f {
            proof {
                assert(tail[0] == args@[i as int]);
            }
            if i >= n - 1 {
                proof {
                    assert(tail.len() == 1);
                    assert(args@ =~= kept + tail);
                    assert(values@ + Seq::<String>::empty() =~= values@);
                }
                return (values, Some(None));
            }
            let value = args[i + 1].clone();
            proof {
                assert(tail[1] == args@[i + 1]);
            }
            let accepted = if ids { parse_i64(value.as_str()).is_ok() } else { true };
            let ghost before = args@;
            let v = remove_pair(args, i);
            proof {
                assert(tail.subrange(2, tail.len() as int) =~= args@.subrange(i as int, args@.len() as int));
                assert(kept =~= args@.subrange(0, i as int));
            }
            if !accepted {
                proof {
                    assert(args@ =~= kept + tail.subrange(2, tail.len() as int));
                    assert(values@ + Seq::<String>::empty() =~= values@);
                }
                return (values, Some(Some(v)));
            }
            let ghost old_values = values@;
            values.push(v);
            proof {
                let t = collect_pairs(tail.subrange(2, tail.len() as int), f@, ids);
                assert(values@ + t.0 =~= old_values + (seq![v] + t.0));
            }
        } else {
            proof {
                assert(tail.drop_first() =~= args@.subrange(i + 1, args@.len() as int));
                let t = collect_pairs(tail.drop_first(), f@, ids);
                assert(args@.subrange(0, i + 1) + t.1 =~= kept + (seq![args@[i as int]] + t.1));
            }
            i = i + 1;
        }
    }
    proof {
        assert(args@.subrange(i as int, args@.len() as int).len() == 0);
        assert(args@.subrange(0, i as int) =~= args@);
        assert(values@ + Seq::<String>::empty() =~= values@);
        assert(args@ + Seq::<String>::empty() =~= args@);
    }
    (values, None)
}

/// Every `flag <value>` pair, removed in order; an error when an occurrence
/// of `flag` is the last argument (the pairs before it are already gone).
pub fn take_repeated_string_values(args: &mut Vec<String>, flag: &str) -> (r: Result<Vec<String>, String>)
    ensures
        final(args)@ == collect_pairs(old(args)@, flag@, false).1,
        collect_pairs(old(args)@, flag@, false).2 is None ==> (r matches Ok(v)
            && v@ == collect_pairs(old(args)@, flag@, false).0),
        collect_pairs(old(args)@, flag@, false).2 is Some ==> (r matches Err(m)
            && m@ == requires_value_message(flag@)),
{
    let (values, fault) = collect_flag_values(args, flag, false);
    proof {
        lemma_accept_all_faults(old(args)@, flag@);
    }
    match fault {
        None => Ok(values),
        Some(_) => Err(requires_value(flag)),
    }
}

/// With every value accepted, the only fault is a missing value.
proof fn lemma_accept_all_faults(s: Seq<String>, x: Seq<char>)
    ensures
        collect_pairs(s, x, false).2 is Some ==> collect_pairs(s, x, false).2 == Some(None::<String>),
    decreases s.len(),
{
    if s.len() > 0 {
        if s[0]@ == x {
            if s.len() > 1 {
                lemma_accept_all_faults(s.subrange(2, s.len() as int), x);
            }
        } else {
            lemma_accept_all_faults(s.drop_first(), x);
        }
    }
}

/// `--path <value>` as often as it is given, values in order.
pub fn extract_repeated_path_flags(args: &mut Vec<String>) -> (r: Result<Vec<String>, String>)
    ensures
        final(args)@ == collect_pairs(old(args)@, "--path"@, false).1,
        collect_pairs(old(args)@, "--path"@, false).2 is None ==> (r matches Ok(v)
            && v@ == collect_pairs(old(args)@, "--path"@, false).0),
        collect_pairs(old(args)@, "--path"@, false).2 is Some ==> (r matches Err(m)
            && m@ == requires_value_message("--path"@)),
{
    take_repeated_string_values(args, "--path")
}

/// The message for an `--id` value that is not an archive id.
pub open spec fn invalid_id_message(value: Seq<char>) -> Seq<char> {
    "--id value '"@ + value + "' is not a valid archive id"@
}

fn invalid_id(value: &str) -> (m: String)
    ensures
        m@ == invalid_id_message(value@),
{
    let mut m = concat("--id value '", value);
    push_str(&mut m, "' is not a valid archive id");
    m
}

/// `--id <value>` as often as it is given, parsed in order; the first value
/// that is not an `i64`, or a trailing `--id`, is an error.
pub fn extract_repeated_id_flags(args: &mut Vec<String>) -> (r: Result<Vec<i64>, String>)
    ensures
        ({
            let c = collect_pairs(old(args)@, "--id"@, true);
            &&& final(args)@ == c.1
            &&& c.2 is None ==> (r matches Ok(ids) && ids@.len() == c.0.len()
                && forall|k: int| 0 <= k < ids@.len() ==>
                    spec_parse_int(#[trigger] c.0[k]@, i64::MIN as int, i64::MAX as int)
                        == Ok::<int, crate::number::IntErrorKind>(ids@[k] as int))
            &&& c.2 == Some(None::<String>) ==> (r matches Err(m) && m@ == requires_value_message("--id"@))
            &&& c.2 matches Some(Some(v)) ==> (r matches Err(m) && m@ == invalid_id_message(v@))
        }),
{
    let ghost s = args@;
    let (values, fault) = collect_flag_values(args, "--id", true);
    match fault {
        Some(None) => return Err(requires_value("--id")),
        Some(Some(v)) => return Err(invalid_id(v.as_str())),
        None => {},
    }
    proof {
        lemma_collected_accepted(s, "--id"@);
    }
    let mut ids: Vec<i64> = Vec::new();
    let mut k: usize = 0;
    while k < values.len()
        invariant
            k <= values@.len(),
            ids@.len() == k,
            forall|j: int| 0 <= j < values@.len() ==> value_accepted(true, #[trigger] values@[j]@),
            forall|j: int| 0 <= j < k ==>
                spec_parse_int(#[trigger] values@[j]@, i64::MIN as int, i64::MAX as int)
                    == Ok::<int, crate::number::IntErrorKind>(ids@[j] as int),
        decreases values@.len() - k,
    {
        assert(value_accepted(true, values@[k as int]@));
        match parse_i64(values[k].as_str()) {
            Ok(id) => ids.push(id),
            Err(_) => {
                proof {
                    assert(false);
                }
                return Err(invalid_id(values[k].as_str()));
            },
        }
        k = k + 1;
    }
    Ok(ids)
}

/// Every value collected was accepted.
proof fn lemma_collected_accepted(s: Seq<String>, x: Seq<char>)
    ensures
        forall|j: int| 0 <= j < collect_pairs(s, x, true).0.len() ==>
            value_accepted(true, #[trigger] collect_pairs(s, x, true).0[j]@),
    decreases s.len(),
{
    if s.len() > 0 {
        if s[0]@ == x {
            if s.len() > 1 {
                lemma_collected_accepted(s.subrange(2, s.len() as int), x);
                let t = collect_pairs(s.subrange(2, s.len() as int), x, true);
                assert forall|j: int| 0 <= j < collect_pairs(s, x, true).0.len() implies
                    value_accepted(true, #[trigger] collect_pairs(s, x, true).0[j]@) by {
                    if value_accepted(true, s[1]@) && j > 0 {
                        assert(collect_pairs(s, x, true).0[j] == t.0[j - 1]);
                    }
                }
            }
        } else {
            lemma_collected_accepted(s.drop_first(), x);
            let t = collect_pairs(s.drop_first(), x, true);
            assert(collect_pairs(s, x, true).0 == t.0);
        }
    }
}

/// What taking the first `flag <value>` pair hands back, and the arguments
/// it leaves.
pub open spec fn spec_take_value(s: Seq<String>, flag: Seq<char>) -> (Result<Option<String>, Seq<char>>, Seq<String>) {
    match spec_flag_value(s, flag) {
        None => (Ok(None), s),
        Some(None) => (Err(requires_value_message(flag)), s),
        Some(Some(v)) => (Ok(Some(v)), drop_pair(s, first_index(s, flag))),
    }
}

/// Removes the first `flag <value>` pair and hands back the value; an error
/// (with the arguments untouched) when the flag is the last argument.
pub fn take_value(args: &mut Vec<String>, flag: &str) -> (r: Result<Option<String>, String>)
    ensures
        (err_view(r), final(args)@) == spec_take_value(old(args)@, flag@),
{
    match take_flag_value(args, flag) {
        FlagValue::Absent => Ok(None),
        FlagValue::MissingValue => Err(requires_value(flag)),
        FlagValue::Value(v) => Ok(Some(v)),
    }
}

/// `spec_take_value` followed by parsing the value as an integer in
/// `min..=max`; a value that does not parse fails with std's message.
pub open spec fn spec_take_number(s: Seq<String>, flag: Seq<char>, min: int, max: int) -> (Result<Option<int>, Seq<char>>, Seq<String>) {
    let (r, t) = spec_take_value(s, flag);
    match r {
        Err(m) => (Err(m), t),
        Ok(None) => (Ok(None), t),
        Ok(Some(v)) => match spec_parse_int(v@, min, max) {
            Ok(n) => (Ok(Some(n)), t),
            Err(kind) => (Err(int_error_message(kind)), t),
        },
    }
}

/// An optional number as a result with its error by view.
pub open spec fn number_view<T>(r: Result<Option<T>, String>, f: spec_fn(T) -> int) -> Result<Option<int>, Seq<char>> {
    match r {
        Ok(None) => Ok(None),
        Ok(Some(v)) => Ok(Some(f(v))),
        Err(m) => Err(m@),
    }
}

/// `flag <n>` (first occurrence) as an `i64`.
pub fn take_i64(args: &mut Vec<String>, flag: &str) -> (r: Result<Option<i64>, String>)
    ensures
        (number_view(r, |v: i64| v as int), final(args)@) == spec_take_number(old(args)@, flag@, i64::MIN as int, i64::MAX as int),
{
    match take_value(args, flag)? {
        None => Ok(None),
        Some(v) => match parse_i64(v.as_str()) {
            Ok(n) => Ok(Some(n)),
            Err(kind) => Err(kind.message()),
        },
    }
}

/// `flag <n>` (first occurrence) as a `u32`.
pub fn take_u32(args: &mut Vec<String>, flag: &str) -> (r: Result<Option<u32>, String>)
    ensures
        (number_view(r, |v: u32| v as int), final(args)@) == spec_take_number(old(args)@, flag@, 0, u32::MAX as int),
{
    match take_value(args, flag)? {
        None => Ok(None),
        Some(v) => match parse_u32(v.as_str()) {
            Ok(n) => Ok(Some(n)),
            Err(kind) => Err(kind.message()),
        },
    }
}

/// `flag <n>` (first occurrence) as a `u16`.
pub fn take_u16(args: &mut Vec<String>, flag: &str) -> (r: Result<Option<u16>, String>)
    ensures
        (number_view(r, |v: u16| v as int), final(args)@) == spec_take_number(old(args)@, flag@, 0, u16::MAX as int),
{
    match take_value(args, flag)? {
        None => Ok(None),
        Some(v) => match parse_u16(v.as_str()) {
            Ok(n) => Ok(Some(n)),
            Err(kind) => Err(kind.message()),
        },
    }
}

} // verus!
