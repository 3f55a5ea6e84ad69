//! Decimal numbers and the filling of message templates: `{}` placeholders
//! and named `{key}` variables.

use vstd::prelude::*;
use crate::text::{chars_of, string_from_chars, push_chars};

verus! {

/// The decimal digit for `d`.
pub open spec fn digit_char(d: nat) -> char {
    if d == 0 { '0' } else if d == 1 { '1' } else if d == 2 { '2' } else if d == 3 { '3' }
    else if d == 4 { '4' } else if d == 5 { '5' } else if d == 6 { '6' } else if d == 7 { '7' }
    else if d == 8 { '8' } else { '9' }
}

/// The decimal digits of `n`, without leading zeros.
pub open spec fn digits(n: nat) -> Seq<char>
    decreases n,
{
    if n < 10 {
        seq![digit_char(n)]
    } else {
        digits(n / 10).push(digit_char(n % 10))
    }
}

/// `n` written in decimal, with a minus sign when negative (as `Display`
/// writes integers).
pub open spec fn decimal(n: int) -> Seq<char> {
    if n < 0 {
        seq!['-'] + digits((-n) as nat)
    } else {
        digits(n as nat)
    }
}

/// `n` in decimal padded with zeros to two characters (as the format
/// `{:02}` writes integers: a negative number has at least two characters).
pub open spec fn decimal_2(n: int) -> Seq<char> {
    if 0 <= n < 10 {
        seq!['0'] + decimal(n)
    } else {
        decimal(n)
    }
}

fn digit(d: u64) -> (c: char)
    requires
        d < 10,
    ensures
        c == digit_char(d as nat),
{
    if d == 0 { '0' } else if d == 1 { '1' } else if d == 2 { '2' } else if d == 3 { '3' }
    else if d == 4 { '4' } else if d == 5 { '5' } else if d == 6 { '6' } else if d == 7 { '7' }
    else if d == 8 { '8' } else { '9' }
}

fn push_digits(out: &mut Vec<char>, n: u64)
    ensures
        final(out)@ == old(out)@ + digits(n as nat),
    decreases n,
{
    if n < 10 {
        out.push(digit(n));
        assert(final(out)@ =~= old(out)@ + digits(n as nat));
    } else {
        push_digits(out, n / 10);
        out.push(digit(n % 10));
        assert(final(out)@ =~= old(out)@ + digits(n as nat));
    }
}

/// Appends `n` in decimal.
pub(crate) fn push_decimal(out: &mut Vec<char>, n: i64)
    ensures
        final(out)@ == old(out)@ + decimal(n as int),
{
    if n < 0 {
        out.push('-');
        let magnitude = (-(n as i128)) as u64;
        push_digits(out, magnitude);
        assert(final(out)@ =~= old(out)@ + decimal(n as int));
    } else {
        push_digits(out, n as u64);
    }
}

/// Appends `n` in decimal padded with zeros to two characters.
pub(crate) fn push_decimal_2(out: &mut Vec<char>, n: i64)
    ensures
        final(out)@ == old(out)@ + decimal_2(n as int),
{
    if 0 <= n && n < 10 {
        out.push('0');
        push_decimal(out, n);
        assert(final(out)@ =~= old(out)@ + decimal_2(n as int));
    } else {
        push_decimal(out, n);
    }
}

/// `n` in decimal (`i64::to_string`).
pub fn decimal_string(n: i64) -> (s: String)
    ensures
        s@ == decimal(n as int),
{
    let mut out: Vec<char> = Vec::new();
    push_decimal(&mut out, n);
    string_from_chars(&out)
}

/// The template with its `{}` placeholders replaced, from the left, by
/// `values`; placeholders beyond the values stay as they are.
pub open spec fn filled(template: Seq<char>, values: Seq<Seq<char>>) -> Seq<char>
    decreases template.len(),
{
    if template.len() == 0 {
        Seq::empty()
    } else if template.len() >= 2 && template[0] == '{' && template[1] == '}' && values.len() > 0 {
        values[0] + filled(template.skip(2), values.skip(1))
    } else {
        seq![template[0]] + filled(template.skip(1), values)
    }
}

/// Numbers in decimal.
pub open spec fn decimals(values: Seq<i64>) -> Seq<Seq<char>> {
    values.map_values(|v: i64| decimal(v as int))
}

/// Replaces the `{}` placeholders of `template`, from the left, by the
/// numbers of `values` in decimal.
pub fn fill_placeholders(template: &str, values: &[i64]) -> (s: String)
    ensures
        s@ == filled(template@, decimals(values@)),
{
    let t = chars_of(template);
    let mut out: Vec<char> = Vec::new();
    let mut i: usize = 0;
    let mut k: usize = 0;
    assert(t@.skip(0) =~= t@);
    assert(decimals(values@).skip(0) =~= decimals(values@));
    while i < t.len()
        invariant
            i <= t.len(),
            k <= values.len(),
            t@ == template@,
            filled(template@, decimals(values@)) == out@ + filled(t@.skip(i as int), decimals(values@).skip(k as int)),
        decreases t.len() - i,
    {
        let ghost rest = t@.skip(i as int);
        let ghost vals = decimals(values@).skip(k as int);
        if i + 1 < t.len() && t[i] == '{' && t[i + 1] == '}' && k < values.len() {
            push_decimal(&mut out, values[k]);
            assert(rest.skip(2) =~= t@.skip(i + 2));
            assert(vals.skip(1) =~= decimals(values@).skip(k + 1));
            assert(vals[0] == decimal(values@[k as int] as int));
            i = i + 2;
            k = k + 1;
        } else {
            out.push(t[i]);
            assert(rest.skip(1) =~= t@.skip(i + 1));
            assert(out@ =~= out@.drop_last() + seq![rest[0]]);
            i = i + 1;
        }
        assert(out@ + filled(t@.skip(i as int), decimals(values@).skip(k as int)) =~= filled(template@, decimals(values@)));
    }
    assert(t@.skip(i as int) =~= Seq::<char>::empty());
    assert(out@ + Seq::<char>::empty() =~= out@);
    string_from_chars(&out)
}


/// `s` with every occurrence of the nonempty pattern `p` replaced by `r`,
/// the occurrences taken from the left without overlapping (as
/// `str::replace` does).
pub open spec fn replaced(s: Seq<char>, p: Seq<char>, r: Seq<char>) -> Seq<char>
    decreases s.len(),
{
    if p.len() == 0 || s.len() < p.len() {
        s
    } else if s.take(p.len() as int) == p {
        r + replaced(s.skip(p.len() as int), p, r)
    } else {
        seq![s[0]] + replaced(s.skip(1), p, r)
    }
}

/// The variable `{key}`.
pub open spec fn variable(key: Seq<char>) -> Seq<char> {
    seq!['{'] + key + seq!['}']
}

/// `s` with the variables of `args` replaced by their values, one variable
/// after the other in the order of `args`.
pub open spec fn freplaced(s: Seq<char>, args: Seq<(&str, &str)>) -> Seq<char>
    decreases args.len(),
{
    if args.len() == 0 {
        s
    } else {
        freplaced(replaced(s, variable(args[0].0@), args[0].1@), args.skip(1))
    }
}

fn matches_at(s: &Vec<char>, p: &Vec<char>, i: usize) -> (b: bool)
    requires
        i + p.len() <= s.len(),
    ensures
        b == (s@.skip(i as int).take(p.len() as int) == p@),
{
    let mut k: usize = 0;
    while k < p.len()
        invariant
            k <= p.len(),
            i + p.len() <= s.len(),
            forall|m: int| 0 <= m < k ==> s@[i + m] == p@[m],
        decreases p.len() - k,
    {
        if s[i + k] != p[k] {
            assert(s@.skip(i as int).take(p.len() as int)[k as int] != p@[k as int]);
            return false;
        }
        k = k + 1;
    }
    assert(s@.skip(i as int).take(p.len() as int) =~= p@);
    true
}

/// Replaces every occurrence of the nonempty pattern `p` in `s` by `r`.
fn replace_chars(s: &Vec<char>, p: &Vec<char>, r: &Vec<char>) -> (out: Vec<char>)
    requires
        p.len() > 0,
    ensures
        out@ == replaced(s@, p@, r@),
{
    let mut out: Vec<char> = Vec::new();
    let mut i: usize = 0;
    assert(s@.skip(0) =~= s@);
    while i < s.len()
        invariant
            i <= s.len(),
            p.len() > 0,
            replaced(s@, p@, r@) == out@ + replaced(s@.skip(i as int), p@, r@),
        decreases s.len() - i,
    {
        let ghost rest = s@.skip(i as int);
        if p.len() <= s.len() - i && matches_at(s, p, i) {
            push_chars(&mut out, r);
            assert(rest.skip(p.len() as int) =~= s@.skip(i + p.len()));
            i = i + p.len();
        } else {
            out.push(s[i]);
            assert(rest.skip(1) =~= s@.skip(i + 1));
            proof {
                if rest.len() < p@.len() {
                    assert(replaced(rest.skip(1), p@, r@) == rest.skip(1));
                    assert(rest =~= seq![rest[0]] + rest.skip(1));
                }
            }
            i = i + 1;
        }
        assert(out@ + replaced(s@.skip(i as int), p@, r@) =~= replaced(s@, p@, r@));
    }
    assert(s@.skip(i as int) =~= Seq::<char>::empty());
    assert(out@ + Seq::<char>::empty() =~= out@);
    out
}

/// Replaces variables in `s`: for each `(name, value)` of `args`, in order,
/// every `{name}` becomes `value`.
pub fn freplace(s: String, args: &[(&str, &str)]) -> (res: String)
    ensures
        res@ == freplaced(s@, args@),
{
    let mut cur = chars_of(s.as_str());
    let mut j: usize = 0;
    assert(args@.skip(0) =~= args@);
    while j < args.len()
        invariant
            j <= args.len(),
            freplaced(s@, args@) == freplaced(cur@, args@.skip(j as int)),
        decreases args.len() - j,
    {
        let (k, v) = args[j];
        let mut pattern: Vec<char> = Vec::new();
        pattern.push('{');
        let key = chars_of(k);
        push_chars(&mut pattern, &key);
        pattern.push('}');
        assert(pattern@ =~= variable(k@));
        let value = chars_of(v);
        let next = replace_chars(&cur, &pattern, &value);
        assert(args@.skip(j as int)[0] == args@[j as int]);
        assert(args@.skip(j as int).skip(1) =~= args@.skip(j + 1));
        cur = next;
        j = j + 1;
    }
    assert(args@.skip(j as int) =~= Seq::<(&str, &str)>::empty());
    string_from_chars(&cur)
}


/// A text in which the pattern does not occur is left as it is.
pub proof fn lemma_replaced_without_occurrence(s: Seq<char>, p: Seq<char>, r: Seq<char>)
    requires
        p.len() > 0,
        forall|i: int| 0 <= i && i + p.len() <= s.len() ==> #[trigger] s.subrange(i, i + p.len()) != p,
    ensures
        replaced(s, p, r) == s,
    decreases s.len(),
{
    if s.len() >= p.len() {
        assert(s.take(p.len() as int) =~= s.subrange(0, p.len() as int));
        assert(s.subrange(0int, 0int + p.len()) != p);
        assert(s.take(p.len() as int) != p);
        let t = s.skip(1);
        assert forall|i: int| 0 <= i && i + p.len() <= t.len() implies #[trigger] t.subrange(i, i + p.len()) != p by {
            assert(t.subrange(i, i + p.len()) =~= s.subrange(i + 1, i + 1 + p.len()));
        }
        lemma_replaced_without_occurrence(t, p, r);
        assert(seq![s[0]] + t =~= s);
        assert(replaced(s, p, r) == seq![s[0]] + replaced(t, p, r));
    }
}

/// A text that holds none of the variables of the dictionary, with values
/// that hold none either, comes back from `freplace` unchanged.
pub proof fn lemma_freplace_without_variables(s: Seq<char>, args: Seq<(&str, &str)>)
    requires
        forall|k: int, i: int| 0 <= k < args.len() && 0 <= i && i + variable(args[k].0@).len() <= s.len()
            ==> #[trigger] s.subrange(i, i + variable(args[k].0@).len()) != variable(args[k].0@),
    ensures
        freplaced(s, args) == s,
    decreases args.len(),
{
    if args.len() > 0 {
        let p = variable(args[0].0@);
        assert forall|i: int| 0 <= i && i + p.len() <= s.len() implies #[trigger] s.subrange(i, i + p.len()) != p by {
            assert(s.subrange(i, i + variable(args[0].0@).len()) != variable(args[0].0@));
        }
        lemma_replaced_without_occurrence(s, p, args[0].1@);
        let rest = args.skip(1);
        assert forall|k: int, i: int| 0 <= k < rest.len() && 0 <= i && i + variable(rest[k].0@).len() <= s.len()
            implies #[trigger] s.subrange(i, i + variable(rest[k].0@).len()) != variable(rest[k].0@) by {
            assert(rest[k] == args[k + 1]);
            assert(s.subrange(i, i + variable(args[k + 1].0@).len()) != variable(args[k + 1].0@));
        }
        lemma_freplace_without_variables(s, rest);
    }
}

} // verus!
