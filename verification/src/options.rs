//! Parsing of the evaluation laboratory's parameter lists.
//!
//! An operator writes a grid axis as a comma-separated list whose items are
//! single numbers (`5`), inclusive ranges (`2-8`) or stepped ranges
//! (`400-700:100`). Glossary switches are written as a list of booleans.

use vstd::prelude::*;
use crate::text::{
    append_chars, ascii_lowercase, ascii_lowercase_chars, chars_eq, chars_of, decimal, find_char, first_index_of, fmt_u64,
    push_char, push_decimal, slice_chars, trim, trim_chars,
};

verus! {

// ---------------------------------------------------------------------------
// Specification
// ---------------------------------------------------------------------------

/// The pieces of `s` between occurrences of `sep`, as `str::split(sep)` yields
/// them (there is always at least one piece).
pub open spec fn split_on(s: Seq<char>, sep: char) -> Seq<Seq<char>>
    decreases s.len(),
{
    if s.len() == 0 {
        seq![Seq::<char>::empty()]
    } else {
        let r = split_on(s.drop_last(), sep);
        if s.last() == sep {
            r.push(Seq::<char>::empty())
        } else {
            r.update(r.len() - 1, r.last().push(s.last()))
        }
    }
}

pub proof fn lemma_split_on_nonempty(s: Seq<char>, sep: char)
    ensures
        split_on(s, sep).len() >= 1,
    decreases s.len(),
{
    if s.len() > 0 {
        lemma_split_on_nonempty(s.drop_last(), sep);
    }
}

pub open spec fn is_digit(c: char) -> bool {
    '0' <= c && c <= '9'
}

pub open spec fn all_digits(d: Seq<char>) -> bool {
    forall|i: int| 0 <= i < d.len() ==> is_digit(#[trigger] d[i])
}

/// The number that the decimal digits `d` denote.
pub open spec fn digits_value(d: Seq<char>) -> nat
    decreases d.len(),
{
    if d.len() == 0 {
        0
    } else {
        digits_value(d.drop_last()) * 10 + ((d.last() as nat) - 48) as nat
    }
}

/// What `str::parse::<u32>` gives: an optional `+`, then one or more ASCII
/// digits denoting a value that fits in 32 bits.
pub open spec fn parse_u32_spec(s: Seq<char>) -> Option<u32> {
    let d = if s.len() > 0 && s[0] == '+' {
        s.drop_first()
    } else {
        s
    };
    if d.len() > 0 && all_digits(d) && digits_value(d) <= u32::MAX {
        Some(digits_value(d) as u32)
    } else {
        None
    }
}

/// `a`, `a + step`, `a + 2 * step`, ... up to and including `b`.
pub open spec fn progression(a: int, b: int, step: int) -> Seq<u32>
    decreases b - a + step,
{
    if step <= 0 || a > b {
        Seq::<u32>::empty()
    } else {
        seq![a as u32] + progression(a + step, b, step)
    }
}

/// `'text'` framed in single quotes, as the error messages quote input.
pub open spec fn quoted(t: Seq<char>) -> Seq<char> {
    seq!['\''] + t + seq!['\'']
}

/// A number token checked against `min..=max`.
pub open spec fn bounded_spec(t: Seq<char>, min: u32, max: u32) -> Result<u32, Seq<char>> {
    match parse_u32_spec(t) {
        None => Err("invalid number "@ + quoted(t)),
        Some(v) => if v < min || v > max {
            Err(decimal(v as nat) + " is outside "@ + decimal(min as nat) + "..="@ + decimal(
                max as nat,
            ))
        } else {
            Ok(v)
        },
    }
}

/// The values that a range `start-end` contributes with the given step.
pub open spec fn range_spec(range: Seq<char>, min: u32, max: u32, step: u32) -> Result<
    Seq<u32>,
    Seq<char>,
> {
    if step == 0 {
        Err("range step must be greater than 0"@)
    } else {
        match first_index_of(range, '-') {
            None => Err("invalid range "@ + quoted(range)),
            Some(i) => match bounded_spec(trim(range.take(i)), min, max) {
                Err(e) => Err(e),
                Ok(a) => match bounded_spec(trim(range.skip(i + 1)), min, max) {
                    Err(e) => Err(e),
                    Ok(b) => if a > b {
                        Err("range start is greater than end in "@ + quoted(range))
                    } else {
                        Ok(progression(a as int, b as int, step as int))
                    },
                },
            },
        }
    }
}

/// The values that one non-empty, trimmed list item contributes.
pub open spec fn token_spec(t: Seq<char>, min: u32, max: u32, default_step: u32) -> Result<
    Seq<u32>,
    Seq<char>,
> {
    match first_index_of(t, ':') {
        Some(i) => match parse_u32_spec(t.skip(i + 1)) {
            None => Err("invalid step in "@ + quoted(t)),
            Some(step) => range_spec(t.take(i), min, max, step),
        },
        None => if first_index_of(t, '-') is Some {
            range_spec(t, min, max, default_step)
        } else {
            match bounded_spec(t, min, max) {
                Err(e) => Err(e),
                Ok(v) => Ok(seq![v]),
            }
        },
    }
}

/// The values of the list items, in order, or the first item's error; blank
/// items are skipped.
pub open spec fn collect_u32(pieces: Seq<Seq<char>>, min: u32, max: u32, default_step: u32) -> Result<
    Seq<u32>,
    Seq<char>,
>
    decreases pieces.len(),
{
    if pieces.len() == 0 {
        Ok(Seq::<u32>::empty())
    } else {
        match collect_u32(pieces.drop_last(), min, max, default_step) {
            Err(e) => Err(e),
            Ok(vals) => {
                let t = trim(pieces.last());
                if t.len() == 0 {
                    Ok(vals)
                } else {
                    match token_spec(t, min, max, default_step) {
                        Err(e) => Err(e),
                        Ok(tv) => Ok(vals + tv),
                    }
                }
            },
        }
    }
}

/// The values that a whole list denotes (before sorting and removing
/// duplicates), or the error that the list is answered with.
pub open spec fn u32_list_spec(input: Seq<char>, min: u32, max: u32, default_step: u32) -> Result<
    Seq<u32>,
    Seq<char>,
> {
    match collect_u32(split_on(input, ','), min, max, default_step) {
        Err(e) => Err(e),
        Ok(v) => if v.len() == 0 {
            Err("no values supplied"@)
        } else {
            Ok(v)
        },
    }
}

pub open spec fn strictly_increasing(s: Seq<u32>) -> bool {
    forall|i: int, j: int| 0 <= i < j < s.len() ==> s[i] < s[j]
}

/// Whether `o` lists the values of `v` once each, in increasing order.
pub open spec fn is_sorted_set_of(o: Seq<u32>, v: Seq<u32>) -> bool {
    strictly_increasing(o) && forall|x: u32| o.contains(x) <==> v.contains(x)
}

/// The distinct values of `v` in increasing order (there is exactly one such
/// sequence).
pub open spec fn sorted_unique(v: Seq<u32>) -> Seq<u32> {
    choose|o: Seq<u32>| is_sorted_set_of(o, v)
}

/// Two increasing sequences with the same values are the same sequence.
pub proof fn lemma_sorted_set_unique(a: Seq<u32>, b: Seq<u32>)
    requires
        strictly_increasing(a),
        strictly_increasing(b),
        forall|x: u32| a.contains(x) <==> b.contains(x),
    ensures
        a == b,
    decreases a.len(),
{
    if a.len() == 0 {
        if b.len() > 0 {
            assert(b.contains(b[0]));
        }
        assert(a =~= b);
    } else {
        assert(a.contains(a[0]));
        assert(b.len() > 0);
        assert(b.contains(b[0]));
        let ia = choose|i: int| 0 <= i < a.len() && a[i] == b[0];
        let ib = choose|i: int| 0 <= i < b.len() && b[i] == a[0];
        if ia > 0 {
            assert(a[0] < a[ia]);
        }
        if ib > 0 {
            assert(b[0] < b[ib]);
        }
        assert(a[0] == b[0]);
        let a1 = a.drop_first();
        let b1 = b.drop_first();
        assert forall|x: u32| a1.contains(x) <==> b1.contains(x) by {
            if a1.contains(x) {
                let i = choose|i: int| 0 <= i < a1.len() && a1[i] == x;
                assert(a[i + 1] == x);
                assert(x > a[0]);
                assert(a.contains(x));
                let j = choose|j: int| 0 <= j < b.len() && b[j] == x;
                assert(j > 0);
                assert(b1[j - 1] == x);
            }
            if b1.contains(x) {
                let i = choose|i: int| 0 <= i < b1.len() && b1[i] == x;
                assert(b[i + 1] == x);
                assert(x > b[0]);
                assert(b.contains(x));
                let j = choose|j: int| 0 <= j < a.len() && a[j] == x;
                assert(j > 0);
                assert(a1[j - 1] == x);
            }
        }
        lemma_sorted_set_unique(a1, b1);
        assert(a =~= seq![a[0]] + a1);
        assert(b =~= seq![b[0]] + b1);
    }
}

/// A sequence that lists the values of `v` in increasing order is
/// `sorted_unique(v)`.
pub proof fn lemma_sorted_unique(o: Seq<u32>, v: Seq<u32>)
    requires
        is_sorted_set_of(o, v),
    ensures
        sorted_unique(v) == o,
{
    let c = sorted_unique(v);
    assert(is_sorted_set_of(c, v));
    lemma_sorted_set_unique(c, o);
}

/// The boolean that a list item spells, compared without regard to ASCII case.
pub open spec fn bool_word(t: Seq<char>) -> Option<bool> {
    let l = ascii_lowercase(t);
    if l == "true"@ || l == "t"@ || l == "1"@ || l == "yes"@ {
        Some(true)
    } else if l == "false"@ || l == "f"@ || l == "0"@ || l == "no"@ {
        Some(false)
    } else {
        None
    }
}

pub open spec fn collect_bool(pieces: Seq<Seq<char>>) -> Result<Seq<bool>, Seq<char>>
    decreases pieces.len(),
{
    if pieces.len() == 0 {
        Ok(Seq::<bool>::empty())
    } else {
        match collect_bool(pieces.drop_last()) {
            Err(e) => Err(e),
            Ok(vals) => {
                let t = trim(pieces.last());
                if t.len() == 0 {
                    Ok(vals)
                } else {
                    match bool_word(t) {
                        None => Err("invalid boolean "@ + quoted(t)),
                        Some(b) => Ok(vals.push(b)),
                    }
                }
            },
        }
    }
}

/// `s` with each run of equal neighbours collapsed to one (`Vec::dedup`).
pub open spec fn dedup_runs<T>(s: Seq<T>) -> Seq<T>
    decreases s.len(),
{
    if s.len() == 0 {
        s
    } else {
        let r = dedup_runs(s.drop_last());
        if r.len() > 0 && r.last() == s.last() {
            r
        } else {
            r.push(s.last())
        }
    }
}

/// Collapsing runs leaves no two equal neighbours, keeps every value that
/// occurs, and adds none.
pub proof fn law_dedup_runs<T>(s: Seq<T>)
    ensures
        forall|i: int| 0 <= i < dedup_runs(s).len() - 1 ==> #[trigger] dedup_runs(s)[i] != dedup_runs(
            s,
        )[i + 1],
        forall|x: T| #[trigger] s.contains(x) <==> dedup_runs(s).contains(x),
    decreases s.len(),
{
    if s.len() > 0 {
        let p = s.drop_last();
        law_dedup_runs(p);
        let r = dedup_runs(p);
        let d = dedup_runs(s);
        assert forall|x: T| s.contains(x) implies #[trigger] d.contains(x) by {
            let k = choose|k: int| 0 <= k < s.len() && s[k] == x;
            if k < s.len() - 1 {
                assert(p[k] == s[k]);
                assert(p.contains(x));
                let m = choose|m: int| 0 <= m < r.len() && r[m] == x;
                assert(d[m] == r[m]);
            } else if r.len() > 0 && r.last() == s.last() {
                assert(d[r.len() - 1] == x);
            } else {
                assert(d[r.len() as int] == x);
            }
        }
        assert forall|x: T| d.contains(x) implies #[trigger] s.contains(x) by {
            let m = choose|m: int| 0 <= m < d.len() && d[m] == x;
            if m < r.len() {
                assert(d[m] == r[m]);
                assert(r.contains(x));
                assert(p.contains(x));
                let k = choose|k: int| 0 <= k < p.len() && p[k] == x;
                assert(s[k] == p[k]);
            } else {
                assert(s[s.len() - 1] == x);
            }
        }
        assert forall|i: int| 0 <= i < d.len() - 1 implies #[trigger] d[i] != d[i + 1] by {
            if i + 1 < r.len() {
                assert(d[i] == r[i] && d[i + 1] == r[i + 1]);
            }
        }
    }
}

/// What a boolean list denotes, or the error it is answered with.
pub open spec fn bool_list_spec(input: Seq<char>) -> Result<Seq<bool>, Seq<char>> {
    match collect_bool(split_on(input, ',')) {
        Err(e) => Err(e),
        Ok(v) => if v.len() == 0 {
            Err("no values supplied"@)
        } else {
            Ok(dedup_runs(v))
        },
    }
}


// ---------------------------------------------------------------------------
// Proofs about the specification
// ---------------------------------------------------------------------------

proof fn lemma_digits_value_push(d: Seq<char>, c: char)
    ensures
        digits_value(d.push(c)) == digits_value(d) * 10 + ((c as nat) - 48) as nat,
{
    assert(d.push(c).drop_last() =~= d);
}

proof fn lemma_digits_value_prefix(d: Seq<char>, k: int)
    requires
        0 <= k <= d.len(),
        all_digits(d),
    ensures
        digits_value(d.take(k)) <= digits_value(d),
    decreases d.len(),
{
    if k < d.len() {
        assert(d.drop_last().take(k) =~= d.take(k));
        assert(all_digits(d.drop_last())) by {
            assert forall|i: int| 0 <= i < d.drop_last().len() implies is_digit(
                #[trigger] d.drop_last()[i],
            ) by {
                assert(d.drop_last()[i] == d[i]);
            }
        }
        lemma_digits_value_prefix(d.drop_last(), k);
    } else {
        assert(d.take(k) =~= d);
    }
}

// ---------------------------------------------------------------------------
// Executable parsing
// ---------------------------------------------------------------------------

/// `str::parse::<u32>` on a character sequence.
pub fn parse_u32_chars(s: &[char]) -> (r: Option<u32>)
    ensures
        r == parse_u32_spec(s@),
{
    let ghost d = if s@.len() > 0 && s@[0] == '+' {
        s@.drop_first()
    } else {
        s@
    };
    let start: usize = if s.len() > 0 && s[0] == '+' {
        1
    } else {
        0
    };
    assert(d =~= s@.skip(start as int));
    if start == s.len() {
        return None;
    }
    let mut acc: u64 = 0;
    let mut k: usize = start;
    while k < s.len()
        invariant
            start <= k <= s.len(),
            start < s.len(),
            d =~= s@.skip(start as int),
            d == (if s@.len() > 0 && s@[0] == '+' {
                s@.drop_first()
            } else {
                s@
            }),
            all_digits(s@.subrange(start as int, k as int)),
            acc == digits_value(s@.subrange(start as int, k as int)),
            acc <= u32::MAX,
        decreases s.len() - k,
    {
        let c = s[k];
        if !('0' <= c && c <= '9') {
            assert(d[k - start] == c);
            assert(!is_digit(d[k - start]));
            assert(!all_digits(d));
            return None;
        }
        proof {
            lemma_digits_value_push(s@.subrange(start as int, k as int), c);
            assert(s@.subrange(start as int, k as int).push(c) =~= s@.subrange(
                start as int,
                k + 1,
            ));
        }
        let dv: u64 = (c as u32 - 48) as u64;
        acc = acc * 10 + dv;
        k += 1;
        assert(acc == digits_value(s@.subrange(start as int, k as int)));
        if acc > 0xffff_ffff {
            proof {
                if all_digits(d) {
                    assert(d.take(k - start) =~= s@.subrange(start as int, k as int));
                    lemma_digits_value_prefix(d, k - start);
                    assert(digits_value(d) > u32::MAX);
                }
                assert(parse_u32_spec(s@) is None);
            }
            return None;
        }
    }
    assert(s@.subrange(start as int, s.len() as int) =~= d);
    Some(acc as u32)
}

/// A string made of `prefix` and the quoted text `t`.
fn quoted_message(prefix: &str, t: &[char]) -> (m: String)
    ensures
        m@ == prefix@ + quoted(t@),
{
    let mut m = prefix.to_owned();
    push_char(&mut m, '\'');
    append_chars(&mut m, t);
    push_char(&mut m, '\'');
    assert(m@ =~= prefix@ + quoted(t@));
    m
}

fn bounded_chars(t: &[char], min: u32, max: u32) -> (r: Result<u32, String>)
    ensures
        match bounded_spec(t@, min, max) {
            Ok(v) => r == Ok::<u32, String>(v),
            Err(e) => r matches Err(m) && m@ == e,
        },
{
    match parse_u32_chars(t) {
        None => Err(quoted_message("invalid number ", t)),
        Some(value) => {
            if value < min || value > max {
                let mut m = fmt_u64(value as u64);
                m.append(" is outside ");
                push_decimal(&mut m, min as u64);
                m.append("..=");
                push_decimal(&mut m, max as u64);
                Err(m)
            } else {
                Ok(value)
            }
        },
    }
}

/// Parses a number and checks it against `min..=max`.
pub fn parse_bounded_u32(token: &str, min: u32, max: u32) -> (r: Result<u32, String>)
    ensures
        match bounded_spec(token@, min, max) {
            Ok(v) => r == Ok::<u32, String>(v),
            Err(e) => r matches Err(m) && m@ == e,
        },
{
    let t = chars_of(token);
    bounded_chars(t.as_slice(), min, max)
}

fn push_range_chars(values: &mut Vec<u32>, range: &[char], min: u32, max: u32, step: u32) -> (r:
    Result<(), String>)
    ensures
        match range_spec(range@, min, max, step) {
            Ok(p) => r is Ok && final(values)@ == old(values)@ + p,
            Err(e) => r matches Err(m) && m@ == e && final(values)@ == old(values)@,
        },
{
    if step == 0 {
        return Err("range step must be greater than 0".to_owned());
    }
    let dash = match find_char(range, '-') {
        None => {
            return Err(quoted_message("invalid range ", range));
        },
        Some(i) => i,
    };
    let before = slice_chars(range, 0, dash);
    let after = slice_chars(range, dash + 1, range.len());
    assert(before@ =~= range@.take(dash as int));
    assert(after@ =~= range@.skip(dash + 1));
    let start_t = trim_chars(before.as_slice());
    let end_t = trim_chars(after.as_slice());
    let start = match bounded_chars(start_t.as_slice(), min, max) {
        Err(e) => {
            return Err(e);
        },
        Ok(v) => v,
    };
    let end = match bounded_chars(end_t.as_slice(), min, max) {
        Err(e) => {
            return Err(e);
        },
        Ok(v) => v,
    };
    if start > end {
        return Err(quoted_message("range start is greater than end in ", range));
    }
    let ghost target = old(values)@ + progression(start as int, end as int, step as int);
    let mut value: u32 = start;
    loop
        invariant_except_break
            step > 0,
            value <= end,
            values@ + progression(value as int, end as int, step as int) == target,
        ensures
            values@ == target,
        decreases end - value,
    {
        assert(progression(value as int, end as int, step as int) =~= seq![value] + progression(
            value + step,
            end as int,
            step as int,
        ));
        values.push(value);
        assert(values@ + progression(value + step, end as int, step as int) =~= target);
        match value.checked_add(step) {
            Some(next) => {
                if next > end {
                    assert(progression(next as int, end as int, step as int) =~= Seq::<
                        u32,
                    >::empty());
                    assert(values@ =~= target);
                    break ;
                }
                value = next;
            },
            None => {
                assert(progression(value + step, end as int, step as int) =~= Seq::<
                    u32,
                >::empty());
                assert(values@ =~= target);
                break ;
            },
        }
    }
    Ok(())
}

/// Appends the values of the range `start-end` (every `step`-th value from
/// `start` up to `end`) to `values`.
pub fn push_range_values(values: &mut Vec<u32>, range: &str, min: u32, max: u32, step: u32) -> (r:
    Result<(), String>)
    ensures
        match range_spec(range@, min, max, step) {
            Ok(p) => r is Ok && final(values)@ == old(values)@ + p,
            Err(e) => r matches Err(m) && m@ == e && final(values)@ == old(values)@,
        },
{
    let rv = chars_of(range);
    push_range_chars(values, rv.as_slice(), min, max, step)
}

fn push_token_values(values: &mut Vec<u32>, t: &[char], min: u32, max: u32, default_step: u32) -> (r:
    Result<(), String>)
    ensures
        match token_spec(t@, min, max, default_step) {
            Ok(p) => r is Ok && final(values)@ == old(values)@ + p,
            Err(e) => r matches Err(m) && m@ == e,
        },
{
    match find_char(t, ':') {
        Some(colon) => {
            let range = slice_chars(t, 0, colon);
            let step_t = slice_chars(t, colon + 1, t.len());
            assert(range@ =~= t@.take(colon as int));
            assert(step_t@ =~= t@.skip(colon + 1));
            match parse_u32_chars(step_t.as_slice()) {
                None => Err(quoted_message("invalid step in ", t)),
                Some(step) => push_range_chars(values, range.as_slice(), min, max, step),
            }
        },
        None => {
            if find_char(t, '-').is_some() {
                push_range_chars(values, t, min, max, default_step)
            } else {
                match bounded_chars(t, min, max) {
                    Err(e) => Err(e),
                    Ok(v) => {
                        values.push(v);
                        assert(values@ =~= old(values)@ + seq![v]);
                        Ok(())
                    },
                }
            }
        },
    }
}

/// Inserts `x` into the strictly increasing `out`, unless it is there already.
#[verifier::spinoff_prover]
fn insert_sorted(out: &mut Vec<u32>, x: u32)
    requires
        strictly_increasing(old(out)@),
    ensures
        strictly_increasing(final(out)@),
        forall|y: u32| final(out)@.contains(y) <==> (old(out)@.contains(y) || y == x),
{
    let mut i: usize = 0;
    while i < out.len() && out[i] < x
        invariant
            i <= out.len(),
            out@ == old(out)@,
            forall|k: int| 0 <= k < i ==> out@[k] < x,
        decreases out.len() - i,
    {
        i += 1;
    }
    if i < out.len() && out[i] == x {
        assert forall|y: u32| out@.contains(y) <==> (out@.contains(y) || y == x) by {
            if y == x {
                assert(out@[i as int] == y);
            }
        }
        return;
    }
    let ghost before = out@;
    assert(before == old(out)@);
    out.insert(i, x);
    assert(out@ =~= before.take(i as int).push(x) + before.skip(i as int));
    assert forall|a: int, b: int| 0 <= a < b < out@.len() implies out@[a] < out@[b] by {
        if b < i {
        } else if b == i {
        } else if a < i {
            assert(before[a] < x);
            assert(x < before[i as int] || i == b - 1);
            assert(before[b - 1] >= before[i as int]);
        } else if a == i {
            assert(before[i as int] > x);
            assert(before[b - 1] >= before[i as int]);
        } else {
        }
    }
    proof {
        lemma_insert_contains(before, i as int, x);
    }
}

proof fn lemma_insert_contains(before: Seq<u32>, i: int, x: u32)
    requires
        0 <= i <= before.len(),
    ensures
        forall|y: u32| (#[trigger] (before.take(i).push(x) + before.skip(i)).contains(y)) <==> (
        before.contains(y) || y == x),
{
    let out = before.take(i).push(x) + before.skip(i);
    assert forall|y: u32| out.contains(y) <==> (before.contains(y) || y == x) by {
        if out.contains(y) {
            let k = choose|k: int| 0 <= k < out.len() && #[trigger] out[k] == y;
            if k < i {
                assert(before[k] == y);
            } else if k > i {
                assert(before[k - 1] == y);
            }
        }
        if before.contains(y) {
            let k = choose|k: int| 0 <= k < before.len() && #[trigger] before[k] == y;
            if k < i {
                assert(out[k] == y);
            } else {
                assert(out[k + 1] == y);
            }
        }
        if y == x {
            assert(out[i] == y);
        }
    }
}

/// The distinct values of `v`, in increasing order (`sort_unstable` then
/// `dedup`).
pub fn sorted_distinct(v: &[u32]) -> (out: Vec<u32>)
    ensures
        strictly_increasing(out@),
        forall|x: u32| out@.contains(x) <==> v@.contains(x),
{
    let mut out: Vec<u32> = Vec::new();
    let mut k: usize = 0;
    while k < v.len()
        invariant
            k <= v.len(),
            strictly_increasing(out@),
            forall|x: u32| out@.contains(x) <==> v@.take(k as int).contains(x),
        decreases v.len() - k,
    {
        insert_sorted(&mut out, v[k]);
        assert forall|x: u32| out@.contains(x) <==> v@.take(k + 1).contains(x) by {
            assert(v@.take(k + 1) =~= v@.take(k as int).push(v@[k as int]));
            if v@.take(k + 1).contains(x) {
                let j = choose|j: int| 0 <= j < k + 1 && #[trigger] v@.take(k + 1)[j] == x;
                if j < k {
                    assert(v@.take(k as int)[j] == x);
                }
            }
            if v@.take(k as int).contains(x) {
                let j = choose|j: int| 0 <= j < k && #[trigger] v@.take(k as int)[j] == x;
                assert(v@.take(k + 1)[j] == x);
            }
            if x == v@[k as int] {
                assert(v@.take(k + 1)[k as int] == x);
            }
        }
        k += 1;
    }
    assert(v@.take(v.len() as int) =~= v@);
    out
}


proof fn lemma_split_on_step(s: Seq<char>, k: int, done: Seq<Seq<char>>, cur: Seq<char>)
    requires
        0 <= k < s.len(),
        split_on(s.take(k), ',') == done.push(cur),
    ensures
        s[k] == ',' ==> split_on(s.take(k + 1), ',') == done.push(cur).push(Seq::<char>::empty()),
        s[k] != ',' ==> split_on(s.take(k + 1), ',') == done.push(cur.push(s[k])),
{
    assert(s.take(k + 1).drop_last() =~= s.take(k));
    assert(s.take(k + 1).last() == s[k]);
    if s[k] != ',' {
        assert(done.push(cur).update(done.len() as int, cur.push(s[k])) =~= done.push(
            cur.push(s[k]),
        ));
    }
}

/// Applies one list item to the running state of a number list.
fn apply_u32_piece(
    values: &mut Vec<u32>,
    err: &mut Option<String>,
    piece: &[char],
    min: u32,
    max: u32,
    default_step: u32,
    Ghost(done): Ghost<Seq<Seq<char>>>,
)
    requires
        match *old(err) {
            None => collect_u32(done, min, max, default_step) == Ok::<Seq<u32>, Seq<char>>(
                old(values)@,
            ),
            Some(m) => collect_u32(done, min, max, default_step) == Err::<Seq<u32>, Seq<char>>(
                m@,
            ),
        },
    ensures
        match *final(err) {
            None => collect_u32(done.push(piece@), min, max, default_step) == Ok::<
                Seq<u32>,
                Seq<char>,
            >(final(values)@),
            Some(m) => collect_u32(done.push(piece@), min, max, default_step) == Err::<
                Seq<u32>,
                Seq<char>,
            >(m@),
        },
{
    assert(done.push(piece@).drop_last() =~= done);
    if err.is_some() {
        return;
    }
    let t = trim_chars(piece);
    if t.len() == 0 {
        return;
    }
    match push_token_values(values, t.as_slice(), min, max, default_step) {
        Ok(()) => {},
        Err(m) => {
            *err = Some(m);
        },
    }
}

/// Parses a list of numbers such as `2,3,5-8,400-700:100`.
///
/// Each comma-separated item is a single number, a range `start-end` that
/// takes every `default_step`-th value, or a stepped range
/// `start-end:step`; every number must lie in `min..=max`. The values come
/// back sorted and without duplicates. The first faulty item decides the
/// error, and a list without values is refused.
pub fn parse_u32_values(input: &str, min: u32, max: u32, default_step: u32) -> (r: Result<
    Vec<u32>,
    String,
>)
    ensures
        match u32_list_spec(input@, min, max, default_step) {
            Err(e) => r matches Err(m) && m@ == e,
            Ok(v) => r matches Ok(out) && out@ == sorted_unique(v) && strictly_increasing(out@)
                && forall|x: u32| out@.contains(x) <==> v.contains(x),
        },
{
    let s = chars_of(input);
    let mut values: Vec<u32> = Vec::new();
    let mut err: Option<String> = None;
    let mut cur: Vec<char> = Vec::new();
    let ghost mut done: Seq<Seq<char>> = Seq::empty();
    assert(s@.take(0) =~= Seq::<char>::empty());
    assert(split_on(s@.take(0), ',') =~= done.push(cur@));
    let mut k: usize = 0;
    while k < s.len()
        invariant
            k <= s.len(),
            s@ == input@,
            split_on(s@.take(k as int), ',') == done.push(cur@),
            match err {
                None => collect_u32(done, min, max, default_step) == Ok::<Seq<u32>, Seq<char>>(
                    values@,
                ),
                Some(m) => collect_u32(done, min, max, default_step) == Err::<
                    Seq<u32>,
                    Seq<char>,
                >(m@),
            },
        decreases s.len() - k,
    {
        let c = s[k];
        proof {
            lemma_split_on_step(s@, k as int, done, cur@);
        }
        if c == ',' {
            apply_u32_piece(
                &mut values,
                &mut err,
                cur.as_slice(),
                min,
                max,
                default_step,
                Ghost(done),
            );
            proof {
                done = done.push(cur@);
            }
            cur = Vec::new();
            assert(done.push(cur@) =~= done.push(Seq::<char>::empty()));
        } else {
            cur.push(c);
        }
        k += 1;
    }
    assert(s@.take(s.len() as int) =~= s@);
    apply_u32_piece(&mut values, &mut err, cur.as_slice(), min, max, default_step, Ghost(done));
    match err {
        Some(m) => Err(m),
        None => {
            if values.len() == 0 {
                Err("no values supplied".to_owned())
            } else {
                let out = sorted_distinct(values.as_slice());
                proof {
                    lemma_sorted_unique(out@, values@);
                }
                Ok(out)
            }
        },
    }
}

fn is_word(t: &[char], word: &str) -> (b: bool)
    ensures
        b == (t@ == word@),
{
    let w = chars_of(word);
    chars_eq(t, w.as_slice())
}

/// The boolean that a list item spells, if any.
pub fn bool_word_chars(t: &[char]) -> (r: Option<bool>)
    ensures
        r == bool_word(t@),
{
    let l = ascii_lowercase_chars(t);
    let ls = l.as_slice();
    if is_word(ls, "true") || is_word(ls, "t") || is_word(ls, "1") || is_word(ls, "yes") {
        Some(true)
    } else if is_word(ls, "false") || is_word(ls, "f") || is_word(ls, "0") || is_word(ls, "no") {
        Some(false)
    } else {
        None
    }
}

fn apply_bool_piece(
    values: &mut Vec<bool>,
    err: &mut Option<String>,
    piece: &[char],
    Ghost(done): Ghost<Seq<Seq<char>>>,
)
    requires
        match *old(err) {
            None => collect_bool(done) == Ok::<Seq<bool>, Seq<char>>(old(values)@),
            Some(m) => collect_bool(done) == Err::<Seq<bool>, Seq<char>>(m@),
        },
    ensures
        match *final(err) {
            None => collect_bool(done.push(piece@)) == Ok::<Seq<bool>, Seq<char>>(final(values)@),
            Some(m) => collect_bool(done.push(piece@)) == Err::<Seq<bool>, Seq<char>>(m@),
        },
{
    assert(done.push(piece@).drop_last() =~= done);
    if err.is_some() {
        return;
    }
    let t = trim_chars(piece);
    if t.len() == 0 {
        return;
    }
    match bool_word_chars(t.as_slice()) {
        Some(b) => values.push(b),
        None => {
            *err = Some(quoted_message("invalid boolean ", t.as_slice()));
        },
    }
}

/// `v` with each run of equal neighbours collapsed to one.
pub fn dedup_bools(v: &[bool]) -> (r: Vec<bool>)
    ensures
        r@ == dedup_runs(v@),
{
    let mut r: Vec<bool> = Vec::new();
    let mut k: usize = 0;
    while k < v.len()
        invariant
            k <= v.len(),
            r@ == dedup_runs(v@.take(k as int)),
        decreases v.len() - k,
    {
        assert(v@.take(k + 1).drop_last() =~= v@.take(k as int));
        if r.len() == 0 || r[r.len() - 1] != v[k] {
            r.push(v[k]);
        }
        k += 1;
    }
    assert(v@.take(v.len() as int) =~= v@);
    r
}

/// Parses a list of booleans such as `true,false`.
///
/// Items are `true`, `t`, `1`, `yes` or `false`, `f`, `0`, `no` in any ASCII
/// case. Repeated neighbouring values are collapsed; the first faulty item
/// decides the error, and a list without values is refused.
pub fn parse_bool_values(input: &str) -> (r: Result<Vec<bool>, String>)
    ensures
        match bool_list_spec(input@) {
            Err(e) => r matches Err(m) && m@ == e,
            Ok(v) => r matches Ok(out) && out@ == v,
        },
{
    let s = chars_of(input);
    let mut values: Vec<bool> = Vec::new();
    let mut err: Option<String> = None;
    let mut cur: Vec<char> = Vec::new();
    let ghost mut done: Seq<Seq<char>> = Seq::empty();
    assert(s@.take(0) =~= Seq::<char>::empty());
    assert(split_on(s@.take(0), ',') =~= done.push(cur@));
    let mut k: usize = 0;
    while k < s.len()
        invariant
            k <= s.len(),
            s@ == input@,
            split_on(s@.take(k as int), ',') == done.push(cur@),
            match err {
                None => collect_bool(done) == Ok::<Seq<bool>, Seq<char>>(values@),
                Some(m) => collect_bool(done) == Err::<Seq<bool>, Seq<char>>(m@),
            },
        decreases s.len() - k,
    {
        let c = s[k];
        proof {
            lemma_split_on_step(s@, k as int, done, cur@);
        }
        if c == ',' {
            apply_bool_piece(&mut values, &mut err, cur.as_slice(), Ghost(done));
            proof {
                done = done.push(cur@);
            }
            cur = Vec::new();
            assert(done.push(cur@) =~= done.push(Seq::<char>::empty()));
        } else {
            cur.push(c);
        }
        k += 1;
    }
    assert(s@.take(s.len() as int) =~= s@);
    apply_bool_piece(&mut values, &mut err, cur.as_slice(), Ghost(done));
    match err {
        Some(m) => Err(m),
        None => {
            if values.len() == 0 {
                Err("no values supplied".to_owned())
            } else {
                Ok(dedup_bools(values.as_slice()))
            }
        },
    }
}

} // verus!
