//! The phone number entry of the login: the country code of the system
//! locale, the calling code typed at the start of the number, and the
//! number rewritten when a country is chosen.

use vstd::prelude::*;
use crate::text::{chars_of, string_from_chars, push_str, push_chars};
use crate::action_bar::is_white_space;

verus! {

/// The index of the first `c` in `s`, if any.
pub open spec fn index_of(s: Seq<char>, c: char) -> Option<int>
    decreases s.len(),
{
    if s.len() == 0 {
        None
    } else if s[0] == c {
        Some(0)
    } else {
        match index_of(s.skip(1), c) {
            Some(i) => Some(i + 1),
            None => None,
        }
    }
}

proof fn lemma_index_of(s: Seq<char>, c: char)
    ensures
        index_of(s, c) matches Some(i) ==> 0 <= i < s.len() && s[i] == c && forall|j: int| 0 <= j < i ==> s[j] != c,
        index_of(s, c) is None ==> forall|j: int| 0 <= j < s.len() ==> s[j] != c,
    decreases s.len(),
{
    if s.len() > 0 {
        lemma_index_of(s.skip(1), c);
        if s[0] != c {
            match index_of(s.skip(1), c) {
                Some(i) => {
                    assert forall|j: int| 0 <= j < i + 1 implies s[j] != c by {
                        if j > 0 {
                            assert(s[j] == s.skip(1)[j - 1]);
                        }
                    }
                },
                None => {
                    assert forall|j: int| 0 <= j < s.len() implies s[j] != c by {
                        if j > 0 {
                            assert(s[j] == s.skip(1)[j - 1]);
                        }
                    }
                },
            }
        }
    }
}

pub(crate) fn find_char(s: &Vec<char>, c: char) -> (r: Option<usize>)
    ensures
        r matches Some(i) ==> index_of(s@, c) == Some(i as int) && i < s.len(),
        r is None ==> index_of(s@, c) is None,
{
    let mut i: usize = 0;
    while i < s.len()
        invariant
            i <= s.len(),
            forall|j: int| 0 <= j < i ==> s@[j] != c,
        decreases s.len() - i,
    {
        if s[i] == c {
            proof {
                lemma_index_of(s@, c);
                match index_of(s@, c) {
                    Some(k) => {
                        if k < i {
                            assert(s@[k] != c);
                        } else if k > i {
                            assert(s@[i as int] != c);
                        }
                    },
                    None => {
                        assert(s@[i as int] != c);
                    },
                }
            }
            return Some(i);
        }
        i = i + 1;
    }
    proof {
        lemma_index_of(s@, c);
        match index_of(s@, c) {
            Some(k) => {
                assert(s@[k] != c);
            },
            None => {},
        }
    }
    None
}

fn sub_chars(s: &Vec<char>, from: usize, to: usize) -> (r: Vec<char>)
    requires
        from <= to <= s.len(),
    ensures
        r@ == s@.subrange(from as int, to as int),
{
    let mut r: Vec<char> = Vec::new();
    let mut i = from;
    while i < to
        invariant
            from <= i <= to <= s.len(),
            r@ == s@.subrange(from as int, i as int),
        decreases to - i,
    {
        r.push(s[i]);
        i = i + 1;
        assert(r@ =~= s@.subrange(from as int, i as int));
    }
    r
}

/// The part of `s` before the first `c` (all of `s` without one).
pub open spec fn before_first(s: Seq<char>, c: char) -> Seq<char> {
    match index_of(s, c) {
        Some(i) => s.take(i),
        None => s,
    }
}

/// The country code of a locale list such as `de-CH,en-US`: the part after
/// the first `-` of the first locale, up to the next `-`; none when the
/// first locale has no `-`.
pub open spec fn spec_country_code(locales: Seq<char>) -> Option<Seq<char>> {
    let first = before_first(locales, ',');
    match index_of(first, '-') {
        Some(i) => Some(before_first(first.skip(i + 1), '-')),
        None => None,
    }
}

/// The country code of the system's locale list.
pub fn country_code_of_locales(locales: &str) -> (r: Option<String>)
    ensures
        r matches Some(s) ==> spec_country_code(locales@) == Some(s@),
        r is None ==> spec_country_code(locales@) is None,
{
    let all = chars_of(locales);
    let first = match find_char(&all, ',') {
        Some(i) => sub_chars(&all, 0, i),
        None => all,
    };
    proof {
        lemma_index_of(locales@, ',');
    }
    match find_char(&first, '-') {
        Some(i) => {
            proof {
                lemma_index_of(first@, '-');
            }
            let rest = sub_chars(&first, i + 1, first.len());
            assert(rest@ =~= first@.skip(i + 1));
            let field = match find_char(&rest, '-') {
                Some(j) => {
                    proof {
                        lemma_index_of(rest@, '-');
                    }
                    sub_chars(&rest, 0, j)
                },
                None => rest,
            };
            assert(field@ =~= before_first(first@.skip(i + 1), '-'));
            Some(string_from_chars(&field))
        },
        None => None,
    }
}

/// `n` spaces followed by `+`.
pub open spec fn calling_code_prefix(n: nat) -> Seq<char> {
    Seq::new(n, |i: int| ' ').push('+')
}

/// The number when a country is chosen: the spaces before the calling code
/// are kept, then `+` and the country's first calling code, then the rest
/// of the number after the old calling code (from character `end` on). The
/// new bounds of the calling code go from `start` to just after it. With
/// no country, only the spaces and `+` remain, the bounds 0 and 1.
pub open spec fn spec_number_for_country(number: Seq<char>, start: nat, end: nat, calling_code: Option<Seq<char>>) -> (Seq<char>, nat, nat) {
    match calling_code {
        Some(code) => (
            calling_code_prefix(start) + code + (if end <= number.len() { number.skip(end as int) } else { Seq::empty() }),
            start,
            start + code.len() + 1,
        ),
        None => (calling_code_prefix(start), 0, 1),
    }
}

/// Rewrites the number for a newly chosen country; `bounds` are the
/// character positions of the calling code in the number.
pub fn number_for_country(number: &str, bounds: (usize, usize), calling_code: Option<&str>) -> (r: (String, usize, usize))
    requires
        calling_code matches Some(c) ==> bounds.0 + c@.len() + 1 <= usize::MAX,
    ensures
        (r.0@, r.1 as nat, r.2 as nat) == spec_number_for_country(number@, bounds.0 as nat, bounds.1 as nat, match calling_code {
            Some(c) => Some(c@),
            None => None,
        }),
{
    let (pos_start, pos_end) = bounds;
    let mut prefix: Vec<char> = Vec::new();
    let mut i: usize = 0;
    while i < pos_start
        invariant
            i <= pos_start,
            prefix@ == Seq::new(i as nat, |k: int| ' '),
        decreases pos_start - i,
    {
        prefix.push(' ');
        i = i + 1;
        assert(prefix@ =~= Seq::new(i as nat, |k: int| ' '));
    }
    prefix.push('+');
    assert(prefix@ =~= calling_code_prefix(pos_start as nat));
    match calling_code {
        Some(code) => {
            let code_chars = chars_of(code);
            let digits = chars_of(number);
            let mut out = prefix;
            push_chars(&mut out, &code_chars);
            if pos_end <= digits.len() {
                let rest = sub_chars(&digits, pos_end, digits.len());
                assert(rest@ =~= number@.skip(pos_end as int));
                push_chars(&mut out, &rest);
            } else {
                assert(out@ =~= out@ + Seq::<char>::empty());
            }
            (string_from_chars(&out), pos_start, pos_start + code_chars.len() + 1)
        },
        None => (string_from_chars(&prefix), 0, 1),
    }
}

/// The number of bytes of the UTF-8 encoding of `c`.
pub open spec fn utf8_len(c: char) -> nat {
    if (c as u32) < 0x80 {
        1
    } else if (c as u32) < 0x800 {
        2
    } else if (c as u32) < 0x10000 {
        3
    } else {
        4
    }
}

/// The number of bytes of the UTF-8 encoding of `s`.
pub open spec fn utf8_count(s: Seq<char>) -> nat
    decreases s.len(),
{
    if s.len() == 0 {
        0
    } else {
        utf8_count(s.drop_last()) + utf8_len(s.last())
    }
}

/// The index of the first character of `s` that is not white space.
pub open spec fn first_non_space(s: Seq<char>) -> Option<int> {
    if exists|i: int| 0 <= i < s.len() && !is_white_space(#[trigger] s[i]) {
        Some(choose|i: int| 0 <= i < s.len() && !is_white_space(#[trigger] s[i]) && forall|j: int| 0 <= j < i ==> is_white_space(#[trigger] s[j]))
    } else {
        None
    }
}

/// `s` without the white space at its end (`str::trim_end`).
pub open spec fn trimmed_end(s: Seq<char>) -> Seq<char>
    decreases s.len(),
{
    if s.len() > 0 && is_white_space(s.last()) {
        trimmed_end(s.drop_last())
    } else {
        s
    }
}

/// The calling code being typed: when the first character that is not
/// white space is `+`, its byte position in the number and what follows it.
/// What follows is taken from the character whose index is the byte
/// position plus one, and without white space at its end.
pub open spec fn spec_calling_code_input(number: Seq<char>) -> Option<(nat, Seq<char>)> {
    match first_non_space(number) {
        Some(k) => if number[k] == '+' {
            let b = utf8_count(number.take(k));
            Some((b, trimmed_end(if b + 1 <= number.len() { number.skip((b + 1) as int) } else { Seq::empty() })))
        } else {
            None
        },
        None => None,
    }
}

pub(crate) fn utf8_len_of(c: char) -> (n: usize)
    ensures
        n == utf8_len(c),
{
    let v = c as u32;
    if v < 0x80 {
        1
    } else if v < 0x800 {
        2
    } else if v < 0x10000 {
        3
    } else {
        4
    }
}

fn trim_end_chars(s: &Vec<char>) -> (r: Vec<char>)
    ensures
        r@ == trimmed_end(s@),
{
    let mut n = s.len();
    assert(s@.take(n as int) =~= s@);
    while n > 0 && crate::action_bar::white_space(s[n - 1])
        invariant
            n <= s.len(),
            trimmed_end(s@.take(n as int)) == trimmed_end(s@),
        decreases n,
    {
        assert(s@.take(n as int).drop_last() =~= s@.take(n - 1));
        n = n - 1;
    }
    assert(s@.take(n as int) =~= s@.subrange(0, n as int));
    sub_chars(s, 0, n)
}

/// Finds the calling code being typed at the start of the number.
pub fn calling_code_input(number: &str) -> (r: Option<(usize, String)>)
    requires
        number@.len() <= usize::MAX / 4,
    ensures
        r matches Some((b, rest)) ==> spec_calling_code_input(number@) == Some((b as nat, rest@)),
        r is None ==> spec_calling_code_input(number@) is None,
{
    let cs = chars_of(number);
    let mut k: usize = 0;
    let mut bytes: usize = 0;
    while k < cs.len() && crate::action_bar::white_space(cs[k])
        invariant
            k <= cs.len(),
            cs@ == number@,
            cs.len() <= usize::MAX / 4,
            bytes == utf8_count(cs@.take(k as int)),
            bytes <= 4 * k,
            forall|j: int| 0 <= j < k ==> is_white_space(#[trigger] cs@[j]),
        decreases cs.len() - k,
    {
        bytes = bytes + utf8_len_of(cs[k]);
        k = k + 1;
        assert(cs@.take(k as int).drop_last() =~= cs@.take(k - 1));
    }
    if k == cs.len() {
        assert(!exists|i: int| 0 <= i < number@.len() && !is_white_space(#[trigger] number@[i]));
        return None;
    }
    proof {
        assert(!is_white_space(number@[k as int]));
        let c = choose|i: int| 0 <= i < number@.len() && !is_white_space(#[trigger] number@[i]) && forall|j: int| 0 <= j < i ==> is_white_space(#[trigger] number@[j]);
        assert(c == k) by {
            if c < k {
                assert(is_white_space(cs@[c]));
            } else if c > k {
                assert(is_white_space(number@[k as int]));
            }
        }
    }
    if cs[k] != '+' {
        return None;
    }
    let rest = if bytes + 1 <= cs.len() {
        let r = sub_chars(&cs, bytes + 1, cs.len());
        assert(r@ =~= number@.skip(bytes + 1));
        r
    } else {
        Vec::new()
    };
    let trimmed = trim_end_chars(&rest);
    Some((bytes, string_from_chars(&trimmed)))
}

/// The character bounds of the calling code once its length is known:
/// from its `+` to just after its digits. The start is taken as `u32`
/// (truncated), as the entry's attributes count in `u32`.
pub fn calling_code_bounds(text_pos_start: usize, code_len: u32) -> (r: (usize, usize))
    requires
        (text_pos_start as u32) + code_len + 1 <= u32::MAX,
    ensures
        r.0 == text_pos_start,
        r.1 == ((text_pos_start as u32) + code_len + 1) as usize,
{
    let end = text_pos_start as u32 + code_len + 1;
    (text_pos_start, end as usize)
}

/// The country code that a calling code is looked up for: the chosen
/// country's when it shares its calling code with the system's country,
/// the system's otherwise.
pub fn preferred_country_code(has_model: bool, selected: Option<String>, system: Option<String>, same_calling_code: bool) -> (r: Option<String>)
    ensures
        (has_model && selected is Some && system is Some && same_calling_code) ==> r == selected,
        !(has_model && selected is Some && system is Some && same_calling_code) ==> r == system,
{
    if has_model && selected.is_some() && system.is_some() && same_calling_code {
        selected
    } else {
        system
    }
}

/// The range of the entry's text that is highlighted as calling code, if
/// the bounds are not empty.
pub fn calling_code_highlight(bounds: (usize, usize)) -> (r: Option<(u32, u32)>)
    ensures
        bounds.0 < bounds.1 ==> r == Some((bounds.0 as u32, bounds.1 as u32)),
        bounds.0 >= bounds.1 ==> r is None,
{
    if bounds.0 < bounds.1 {
        Some((bounds.0 as u32, bounds.1 as u32))
    } else {
        None
    }
}

} // verus!
