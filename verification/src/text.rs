//! Operations on text, stated over the sequence of its characters.

use vstd::prelude::*;
use vstd::string::*;

verus! {

/// The characters with the Unicode property `White_Space`.
pub open spec fn is_white_space(c: char) -> bool {
    let n = c as int;
    ||| 0x09 <= n <= 0x0d
    ||| n == 0x20
    ||| n == 0x85
    ||| n == 0xa0
    ||| n == 0x1680
    ||| 0x2000 <= n <= 0x200a
    ||| n == 0x2028
    ||| n == 0x2029
    ||| n == 0x202f
    ||| n == 0x205f
    ||| n == 0x3000
}

/// `s` without its leading white space.
pub open spec fn trimmed_start(s: Seq<char>) -> Seq<char>
    decreases s.len(),
{
    if s.len() > 0 && is_white_space(s.first()) {
        trimmed_start(s.drop_first())
    } else {
        s
    }
}

/// `s` without its trailing white space.
pub open spec fn trimmed_end(s: Seq<char>) -> Seq<char>
    decreases s.len(),
{
    if s.len() > 0 && is_white_space(s.last()) {
        trimmed_end(s.drop_last())
    } else {
        s
    }
}

/// `s` without the white space around it.
pub open spec fn trimmed(s: Seq<char>) -> Seq<char> {
    trimmed_end(trimmed_start(s))
}

/// Nothing but white space.
pub open spec fn is_blank(s: Seq<char>) -> bool {
    forall|i: int| 0 <= i < s.len() ==> is_white_space(#[trigger] s[i])
}

/// `str::trim` removes the leading and the trailing characters that have the Unicode
/// property `White_Space`, and nothing else.
pub assume_specification[ str::trim ](s: &str) -> (res: &str)
    ensures
        res@ == trimmed(s@),
;

/// What `str::to_uppercase` makes of a text.
pub uninterp spec fn unicode_uppercase(s: Seq<char>) -> Seq<char>;

/// An ASCII letter in upper case, any other character as it is.
pub open spec fn ascii_uppercase(c: char) -> char {
    if 'a' <= c <= 'z' {
        (c as u32 - 32) as char
    } else {
        c
    }
}

/// The result of `str::to_uppercase` depends on the text alone. Of a text of ASCII
/// characters it is the same text with `a` to `z` replaced by `A` to `Z`. What becomes
/// of other characters (one may turn into several) is left to the name.
pub assume_specification[ str::to_uppercase ](s: &str) -> (res: String)
    ensures
        res@ == unicode_uppercase(s@),
        is_ascii(s) ==> res@ == s@.map_values(|c: char| ascii_uppercase(c)),
;

/// What is left after the leading white space is removed ends as the text does and does not
/// start with white space.
pub(crate) proof fn lemma_trimmed_start_shape(s: Seq<char>)
    ensures
        trimmed_start(s).len() <= s.len(),
        trimmed_start(s) == s.skip(s.len() - trimmed_start(s).len()),
        trimmed_start(s).len() > 0 ==> !is_white_space(trimmed_start(s).first()),
    decreases s.len(),
{
    if s.len() > 0 && is_white_space(s.first()) {
        lemma_trimmed_start_shape(s.drop_first());
        assert(trimmed_start(s) =~= s.skip(s.len() - trimmed_start(s).len()));
    } else {
        assert(s =~= s.skip(0));
    }
}

/// What is left after the trailing white space is removed starts as the text does and does
/// not end with white space.
pub(crate) proof fn lemma_trimmed_end_shape(s: Seq<char>)
    ensures
        trimmed_end(s).len() <= s.len(),
        trimmed_end(s) == s.take(trimmed_end(s).len() as int),
        trimmed_end(s).len() > 0 ==> !is_white_space(trimmed_end(s).last()),
    decreases s.len(),
{
    if s.len() > 0 && is_white_space(s.last()) {
        lemma_trimmed_end_shape(s.drop_last());
        assert(trimmed_end(s) =~= s.take(trimmed_end(s).len() as int));
    } else {
        assert(s =~= s.take(s.len() as int));
    }
}

/// A trimmed text neither starts nor ends with white space.
pub(crate) proof fn lemma_trimmed_has_no_outer_space(s: Seq<char>)
    ensures
        trimmed(s).len() > 0 ==> !is_white_space(trimmed(s).first()) && !is_white_space(
            trimmed(s).last(),
        ),
{
    lemma_trimmed_start_shape(s);
    lemma_trimmed_end_shape(trimmed_start(s));
    if trimmed(s).len() > 0 {
        assert(trimmed(s).first() == trimmed_start(s).first());
    }
}

proof fn lemma_trimmed_end_keeps_first(s: Seq<char>)
    requires
        s.len() > 0,
        !is_white_space(s.first()),
    ensures
        trimmed_end(s).len() > 0,
    decreases s.len(),
{
    if is_white_space(s.last()) {
        assert(s.drop_last().first() == s.first());
        lemma_trimmed_end_keeps_first(s.drop_last());
    }
}

/// A text is trimmed to nothing exactly when it is blank.
pub(crate) proof fn lemma_trimmed_is_empty_iff_blank(s: Seq<char>)
    ensures
        trimmed(s).len() == 0 <==> is_blank(s),
    decreases s.len(),
{
    if s.len() > 0 && is_white_space(s.first()) {
        let rest = s.drop_first();
        lemma_trimmed_is_empty_iff_blank(rest);
        if is_blank(rest) {
            assert forall|i: int| 0 <= i < s.len() implies is_white_space(#[trigger] s[i]) by {
                if i > 0 {
                    assert(rest[i - 1] == s[i]);
                }
            }
        }
        if is_blank(s) {
            assert forall|i: int| 0 <= i < rest.len() implies is_white_space(
                #[trigger] rest[i],
            ) by {
                assert(rest[i] == s[i + 1]);
            }
        }
    } else if s.len() > 0 {
        lemma_trimmed_end_keeps_first(s);
    }
}

/// Whether two texts hold the same characters.
pub(crate) fn same_text(a: &str, b: &str) -> (res: bool)
    ensures
        res == (a@ == b@),
{
    a.to_string() == b.to_string()
}

/// Whether `s` begins with `prefix`.
pub(crate) fn starts_with(s: &str, prefix: &str) -> (res: bool)
    ensures
        res == prefix@.is_prefix_of(s@),
{
    let n: usize = prefix.unicode_len();
    n <= s.unicode_len() && same_text(s.substring_char(0, n), prefix)
}

/// `s` without `prefix` at its start, taken off as often as it stands there.
pub open spec fn without_prefixes(s: Seq<char>, prefix: Seq<char>) -> Seq<char>
    decreases s.len(),
{
    if prefix.len() > 0 && prefix.is_prefix_of(s) {
        without_prefixes(s.skip(prefix.len() as int), prefix)
    } else {
        s
    }
}

/// Takes `prefix` off the start of `s` as often as it stands there.
pub(crate) fn strip_prefixes<'a>(s: &'a str, prefix: &str) -> (res: &'a str)
    requires
        prefix@.len() > 0,
    ensures
        res@ == without_prefixes(s@, prefix@),
{
    let mut rest = s;
    let n: usize = prefix.unicode_len();
    while starts_with(rest, prefix)
        invariant
            n == prefix@.len(),
            n > 0,
            without_prefixes(rest@, prefix@) == without_prefixes(s@, prefix@),
        decreases rest@.len(),
    {
        let ghost before = rest@;
        let len: usize = rest.unicode_len();
        rest = rest.substring_char(n, len);
        assert(rest@ =~= before.skip(n as int));
    }
    rest
}

/// The part of `s` before the first `c`: all of `s` where `c` does not occur.
pub open spec fn up_to(s: Seq<char>, c: char) -> Seq<char>
    decreases s.len(),
{
    if s.len() == 0 || s.first() == c {
        Seq::empty()
    } else {
        seq![s.first()] + up_to(s.drop_first(), c)
    }
}

proof fn lemma_up_to_is_take(s: Seq<char>, c: char, n: int)
    requires
        0 <= n <= s.len(),
        forall|i: int| 0 <= i < n ==> s[i] != c,
        n == s.len() || s[n] == c,
    ensures
        up_to(s, c) == s.take(n),
    decreases n,
{
    if n > 0 {
        let rest = s.drop_first();
        assert forall|i: int| 0 <= i < n - 1 implies rest[i] != c by {
            assert(rest[i] == s[i + 1]);
        }
        lemma_up_to_is_take(rest, c, n - 1);
        assert(seq![s.first()] + rest.take(n - 1) =~= s.take(n));
    } else {
        assert(s.take(0) =~= Seq::<char>::empty());
    }
}

/// The part of `s` before the first `c`.
pub(crate) fn before_char<'a>(s: &'a str, c: char) -> (res: &'a str)
    ensures
        res@ == up_to(s@, c),
{
    let len: usize = s.unicode_len();
    let mut n: usize = 0;
    for x in it: s.chars()
        invariant
            it.seq() == s@,
            len == s@.len(),
            n == it.index(),
            forall|i: int| 0 <= i < n ==> s@[i] != c,
    {
        if x == c {
            proof {
                lemma_up_to_is_take(s@, c, n as int);
            }
            return s.substring_char(0, n);
        }
        n = n + 1;
    }
    proof {
        lemma_up_to_is_take(s@, c, n as int);
        assert(s@.take(n as int) =~= s@);
    }
    s
}

/// The digit of value `d`, in lower case.
pub open spec fn digit(d: int) -> char {
    "0123456789abcdef"@[d]
}

/// `n` written in the given base, without leading zeros.
pub open spec fn digits(n: nat, base: nat) -> Seq<char>
    recommends
        2 <= base <= 16,
    decreases n,
{
    if base < 2 || n < base {
        seq![digit(n as int)]
    } else {
        proof {
            vstd::arithmetic::div_mod::lemma_div_decreases(n as int, base as int);
        }
        digits(n / base, base).push(digit((n % base) as int))
    }
}

/// Writes `n` in the given base.
pub(crate) fn digits_text(n: u128, base: u128) -> (res: String)
    requires
        2 <= base <= 16,
    ensures
        res@ == digits(n as nat, base as nat),
    decreases n,
{
    let d: usize = (n % base) as usize;
    proof {
        reveal_strlit("0123456789abcdef");
    }
    let last = "0123456789abcdef".substring_char(d, d + 1);
    assert(last@ =~= seq![digit(d as int)]);
    if n < base {
        assert(n % base == n) by (nonlinear_arith)
            requires
                0 <= n < base,
        ;
        last.to_string()
    } else {
        assert(n / base < n) by {
            vstd::arithmetic::div_mod::lemma_div_decreases(n as int, base as int);
        }
        let mut res = digits_text(n / base, base);
        res.append(last);
        assert(res@ =~= digits(n as nat, base as nat));
        res
    }
}

/// `n` in decimal.
pub open spec fn decimal(n: nat) -> Seq<char> {
    digits(n, 10)
}

/// Different numbers are written differently.
pub(crate) proof fn lemma_digits_injective(a: nat, b: nat, base: nat)
    requires
        2 <= base <= 16,
        digits(a, base) == digits(b, base),
    ensures
        a == b,
    decreases a,
{
    reveal_strlit("0123456789abcdef");
    let x = digits(a, base);
    let y = digits(b, base);
    assert(x.last() == y.last());
    lemma_digits_not_empty(a / base, base);
    lemma_digits_not_empty(b / base, base);
    vstd::arithmetic::div_mod::lemma_fundamental_div_mod(a as int, base as int);
    vstd::arithmetic::div_mod::lemma_fundamental_div_mod(b as int, base as int);
    vstd::arithmetic::div_mod::lemma_mod_bound(a as int, base as int);
    vstd::arithmetic::div_mod::lemma_mod_bound(b as int, base as int);
    if a >= base && b >= base {
        assert(x.drop_last() =~= digits(a / base, base));
        assert(y.drop_last() =~= digits(b / base, base));
        vstd::arithmetic::div_mod::lemma_div_decreases(a as int, base as int);
        lemma_digits_injective(a / base, b / base, base);
        assert(a % base == b % base);
    } else if a < base && b < base {
    } else if a < base {
        assert(y.len() == digits(b / base, base).len() + 1);
    } else {
        assert(x.len() == digits(a / base, base).len() + 1);
    }
}

proof fn lemma_digits_not_empty(n: nat, base: nat)
    requires
        2 <= base,
    ensures
        digits(n, base).len() > 0,
{
}

} // verus!
