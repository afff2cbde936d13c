//! What texts, addresses and interfaces become, said of their characters.

use vstd::prelude::*;

use crate::interfaces;
use crate::interfaces::{InterfaceAddr, RawInterface};
use crate::relay_test;
use crate::state::InterfaceInfo;
use crate::text;

verus! {

// White space.

/// `inner` is what is left of `s` without the white space at both ends.
pub open spec fn is_core_of(s: Seq<char>, inner: Seq<char>) -> bool {
    exists|a: int, b: int| is_core_between(s, inner, a, b)
}

/// `inner` stands in `s` from `a` to `b`, with white space alone on either side, and neither
/// starts nor ends with white space.
pub open spec fn is_core_between(s: Seq<char>, inner: Seq<char>, a: int, b: int) -> bool {
    &&& 0 <= a <= b <= s.len()
    &&& inner == s.subrange(a, b)
    &&& forall|i: int|
        0 <= i < a || b <= i < s.len() ==> text::is_white_space(#[trigger] s[i])
    &&& inner.len() > 0 ==> !text::is_white_space(inner.first()) && !text::is_white_space(
        inner.last(),
    )
}

/// Trimming removes white space at both ends, all of it, and nothing else.
pub proof fn law_trimming_removes_outer_white_space(s: Seq<char>)
    ensures
        is_core_of(s, text::trimmed(s)),
        text::trimmed(s).len() == 0 <==> (forall|i: int|
            0 <= i < s.len() ==> text::is_white_space(#[trigger] s[i])),
{
    let start = text::trimmed_start(s);
    let inner = text::trimmed(s);
    text::lemma_trimmed_start_shape(s);
    text::lemma_trimmed_end_shape(start);
    text::lemma_trimmed_has_no_outer_space(s);
    text::lemma_trimmed_is_empty_iff_blank(s);
    lemma_start_is_white(s);
    lemma_end_is_white(start);
    let a = s.len() - start.len();
    let b = a + inner.len();
    assert(inner =~= s.subrange(a, b));
    assert forall|i: int| 0 <= i < a || b <= i < s.len() implies text::is_white_space(
        #[trigger] s[i],
    ) by {
        if i >= b {
            assert(start[i - a] == s[i]);
        }
    }
    assert(is_core_between(s, inner, a, b));
}

proof fn lemma_start_is_white(s: Seq<char>)
    ensures
        forall|i: int|
            0 <= i < s.len() - text::trimmed_start(s).len() ==> text::is_white_space(
                #[trigger] s[i],
            ),
    decreases s.len(),
{
    if s.len() > 0 && text::is_white_space(s.first()) {
        let rest = s.drop_first();
        lemma_start_is_white(rest);
        assert forall|i: int| 0 <= i < s.len() - text::trimmed_start(s).len() implies
            text::is_white_space(#[trigger] s[i]) by {
            if i > 0 {
                assert(rest[i - 1] == s[i]);
            }
        }
    }
}

proof fn lemma_end_is_white(s: Seq<char>)
    ensures
        forall|i: int|
            text::trimmed_end(s).len() <= i < s.len() ==> text::is_white_space(#[trigger] s[i]),
    decreases s.len(),
{
    if s.len() > 0 && text::is_white_space(s.last()) {
        let rest = s.drop_last();
        lemma_end_is_white(rest);
        assert forall|i: int| text::trimmed_end(s).len() <= i < s.len() implies
            text::is_white_space(#[trigger] s[i]) by {
            if i < rest.len() {
                assert(rest[i] == s[i]);
            }
        }
    }
}

/// Among the ASCII characters, white space is the blank and what lies from the tabulator to
/// the carriage return; no letter, digit or mark is. Beyond ASCII it is the next line, the
/// blanks of other scripts and widths, and the separators of lines and paragraphs.
pub proof fn law_what_white_space_is(c: char)
    ensures
        (c as int) < 0x80 ==> (text::is_white_space(c) <==> c == ' ' || 9 <= c as int <= 13),
        (c as int) >= 0x80 ==> (text::is_white_space(c) <==> {
            let n = c as int;
            n == 0x85 || n == 0xa0 || n == 0x1680 || 0x2000 <= n <= 0x200a || n == 0x2028 || n
                == 0x2029 || n == 0x202f || n == 0x205f || n == 0x3000
        }),
{
}

/// Upper case of an ASCII letter, and of no other character, is the capital letter.
pub proof fn law_upper_case_of_ascii(c: char)
    ensures
        'a' <= c <= 'z' ==> text::ascii_uppercase(c) as int == c as int - 'a' as int + 'A' as int,
        !('a' <= c <= 'z') ==> text::ascii_uppercase(c) == c,
{
}

/// A text is blank if and only if all of it is white space.
pub proof fn law_blank_is_white_space_alone(s: Seq<char>)
    ensures
        text::is_blank(s) <==> !(exists|i: int|
            0 <= i < s.len() && !text::is_white_space(#[trigger] s[i])),
{
}

// Numbers.

/// The value of a digit, up to 15; no digit has a negative one.
pub open spec fn digit_value(c: char) -> int {
    if '0' <= c <= '9' {
        c as int - '0' as int
    } else if 'a' <= c <= 'f' {
        c as int - 'a' as int + 10
    } else {
        -1
    }
}

/// The value of a row of digits.
pub open spec fn value_of(s: Seq<char>, base: int) -> int
    decreases s.len(),
{
    if s.len() == 0 {
        0
    } else {
        value_of(s.drop_last(), base) * base + digit_value(s.last())
    }
}

/// `s` is the number `n` in the given base: at least one digit, no zero in front of others.
pub open spec fn is_number(s: Seq<char>, n: int, base: int) -> bool {
    &&& s.len() > 0
    &&& forall|i: int| 0 <= i < s.len() ==> 0 <= digit_value(#[trigger] s[i]) < base
    &&& s.len() > 1 ==> s[0] != '0'
    &&& value_of(s, base) == n
}

/// What is written for a number is that number.
pub proof fn law_numbers_are_written_as_they_are(n: nat, base: nat)
    requires
        2 <= base <= 16,
    ensures
        is_number(text::digits(n, base), n as int, base as int),
        base == 10 ==> text::decimal(n) == text::digits(n, base),
{
    lemma_digits_are_the_number(n, base);
}

proof fn lemma_digits_are_the_number(n: nat, base: nat)
    requires
        2 <= base <= 16,
    ensures
        is_number(text::digits(n, base), n as int, base as int),
        n > 0 ==> text::digits(n, base)[0] != '0',
    decreases n,
{
    reveal_strlit("0123456789abcdef");
    let s = text::digits(n, base);
    if n < base {
        assert(s.drop_last().len() == 0);
        assert(value_of(s.drop_last(), base as int) == 0);
        assert(0 * base == 0) by (nonlinear_arith);
        assert(digit_value(s[0]) == n);
    } else {
        vstd::arithmetic::div_mod::lemma_div_decreases(n as int, base as int);
        vstd::arithmetic::div_mod::lemma_fundamental_div_mod(n as int, base as int);
        vstd::arithmetic::div_mod::lemma_mod_bound(n as int, base as int);
        vstd::arithmetic::div_mod::lemma_div_non_zero(n as int, base as int);
        lemma_digits_are_the_number(n / base, base);
        let front = text::digits(n / base, base);
        assert(s.drop_last() =~= front);
        assert((n / base) * base == base * (n / base)) by (nonlinear_arith);
        assert(digit_value(s.last()) == n % base);
        assert(s[0] == front[0]);
        assert forall|i: int| 0 <= i < s.len() implies 0 <= digit_value(#[trigger] s[i]) < base by {
            if i < front.len() {
                assert(s[i] == front[i]);
            }
        }
    }
}

// The address of the relay.

/// The scheme is no part of the host.
pub proof fn law_scheme_is_taken_off(rest: Seq<char>)
    ensures
        relay_test::host_port("wss://"@ + rest) == relay_test::host_port(rest),
        !"wss://"@.is_prefix_of(rest) ==> relay_test::host_port("ws://"@ + rest)
            == relay_test::host_port(rest),
{
    reveal_strlit("wss://");
    reveal_strlit("ws://");
    let secure = "wss://"@ + rest;
    let plain = "ws://"@ + rest;
    assert("wss://"@.is_prefix_of(secure)) by {
        assert(secure.take(6) =~= "wss://"@);
    }
    assert(secure.skip(6) =~= rest);
    assert("ws://"@.is_prefix_of(plain)) by {
        assert(plain.take(5) =~= "ws://"@);
    }
    assert(plain.skip(5) =~= rest);
    assert(!"wss://"@.is_prefix_of(plain)) by {
        if "wss://"@.is_prefix_of(plain) {
            assert("wss://"@[2] == plain[2]);
        }
    }
}

/// The host, with its port, is what stands before the first slash.
pub proof fn law_host_ends_at_the_first_slash(rest: Seq<char>)
    requires
        !"wss://"@.is_prefix_of(rest),
        !"ws://"@.is_prefix_of(rest),
    ensures
        ({
            let host = relay_test::host_port(rest);
            &&& host.is_prefix_of(rest)
            &&& forall|i: int| 0 <= i < host.len() ==> #[trigger] host[i] != '/'
            &&& host.len() == rest.len() || rest[host.len() as int] == '/'
        }),
{
    lemma_up_to_stops_at_the_first(rest, '/');
}

proof fn lemma_up_to_stops_at_the_first(s: Seq<char>, c: char)
    ensures
        ({
            let part = text::up_to(s, c);
            &&& part.is_prefix_of(s)
            &&& forall|i: int| 0 <= i < part.len() ==> #[trigger] part[i] != c
            &&& part.len() == s.len() || s[part.len() as int] == c
        }),
    decreases s.len(),
{
    let part = text::up_to(s, c);
    if s.len() > 0 && s.first() != c {
        let rest = s.drop_first();
        let later = text::up_to(rest, c);
        lemma_up_to_stops_at_the_first(rest, c);
        assert(part == seq![s.first()] + later);
        assert(part =~= s.take(part.len() as int)) by {
            assert forall|i: int| 0 <= i < part.len() implies part[i] == s[i] by {
                if i > 0 {
                    assert(later[i - 1] == rest.take(later.len() as int)[i - 1]);
                }
            }
        }
        assert forall|i: int| 0 <= i < part.len() implies #[trigger] part[i] != c by {
            if i > 0 {
                assert(part[i] == later[i - 1]);
            }
        }
    } else {
        assert(part =~= s.take(0));
    }
}

/// The address tested is the host as it is written where some colon, after which no bracket
/// is closed, introduces a port; else the host with port 443 behind `wss://` and port 80
/// behind anything else.
pub proof fn law_tested_address_is_host_and_port(relay_url: Seq<char>)
    ensures
        ({
            let host = relay_test::host_port(relay_url);
            let address = relay_test::tcp_address(relay_url);
            let given = exists|k: int|
                0 <= k < host.len() && #[trigger] host[k] == ':' && !host.skip(k).contains(']');
            &&& given ==> address == host
            &&& !given && "wss://"@.is_prefix_of(relay_url) ==> address == host + ":443"@
            &&& !given && !"wss://"@.is_prefix_of(relay_url) ==> address == host + ":80"@
        }),
{
    lemma_port_is_introduced_by_the_last_colon(relay_test::host_port(relay_url));
}

proof fn lemma_port_is_introduced_by_the_last_colon(host: Seq<char>)
    ensures
        relay_test::names_port(host) <==> (exists|k: int|
            0 <= k < host.len() && #[trigger] host[k] == ':' && !host.skip(k).contains(']')),
    decreases host.len(),
{
    if host.len() > 0 {
        let front = host.drop_last();
        let n = host.len() - 1;
        lemma_port_is_introduced_by_the_last_colon(front);
        if host.last() == ':' {
            assert(host[n] == ':');
            assert(host.skip(n) =~= seq![':']);
        } else if host.last() == ']' {
            assert forall|k: int| 0 <= k < host.len() && #[trigger] host[k] == ':' implies host.skip(
                k,
            ).contains(']') by {
                assert(host.skip(k)[n - k] == ']');
            }
        } else {
            assert forall|k: int| 0 <= k < n implies (front.skip(k).contains(']') <==> #[trigger] host.skip(
                k,
            ).contains(']')) by {
                if front.skip(k).contains(']') {
                    let i = choose|i: int|
                        0 <= i < front.skip(k).len() && front.skip(k)[i] == ']';
                    assert(host.skip(k)[i] == ']');
                }
                if host.skip(k).contains(']') {
                    let i = choose|i: int| 0 <= i < host.skip(k).len() && host.skip(k)[i] == ']';
                    assert(front.skip(k)[i] == ']');
                }
            }
            if relay_test::names_port(front) {
                let k = choose|k: int|
                    0 <= k < front.len() && #[trigger] front[k] == ':' && !front.skip(k).contains(
                        ']',
                    );
                assert(host[k] == ':');
                assert(!host.skip(k).contains(']'));
            }
            if exists|k: int|
                0 <= k < host.len() && #[trigger] host[k] == ':' && !host.skip(k).contains(']') {
                let k = choose|k: int|
                    0 <= k < host.len() && #[trigger] host[k] == ':' && !host.skip(k).contains(']');
                assert(front[k] == ':');
                assert(!front.skip(k).contains(']'));
            }
        }
    }
}

// The interfaces.

/// `s` is the IPv4 address of the four octets: their decimal numbers, with dots between.
pub open spec fn is_dotted(s: Seq<char>, octets: [u8; 4]) -> bool {
    exists|a: Seq<char>, b: Seq<char>, c: Seq<char>, d: Seq<char>|
        {
            &&& #[trigger] is_number(a, octets[0] as int, 10)
            &&& #[trigger] is_number(b, octets[1] as int, 10)
            &&& #[trigger] is_number(c, octets[2] as int, 10)
            &&& #[trigger] is_number(d, octets[3] as int, 10)
            &&& s == a + "."@ + b + "."@ + c + "."@ + d
        }
}

/// Nothing is offered where nothing is listed. One more address on the list changes what is
/// offered only if it is an IPv4 address outside `127.0.0.0/8`: where its interface is there
/// already, as group `g`, the address is added behind the others of that interface, which
/// keeps its place; else the interface is added behind the others, with that address. No
/// other interface changes.
pub proof fn law_one_more_address(raw: Seq<RawInterface>, one: RawInterface, g: int)
    ensures
        interfaces::grouped(Seq::empty()) == Seq::<interfaces::InterfaceView>::empty(),
        ({
            let before = interfaces::grouped(raw);
            let after = interfaces::grouped(raw.push(one));
            match one.addr {
                InterfaceAddr::V6 => after == before,
                InterfaceAddr::V4(octets) => if octets[0] == 127 {
                    after == before
                } else {
                    &&& 0 <= g < before.len() && before[g].name == one.name@ ==> {
                        &&& after.len() == before.len()
                        &&& forall|h: int|
                            0 <= h < before.len() && h != g ==> #[trigger] after[h] == before[h]
                        &&& after[g].name == before[g].name
                        &&& after[g].ip_addresses.len() == before[g].ip_addresses.len() + 1
                        &&& after[g].ip_addresses.drop_last() == before[g].ip_addresses
                        &&& is_dotted(after[g].ip_addresses.last(), octets)
                    }
                    &&& (forall|h: int|
                        0 <= h < before.len() ==> (#[trigger] before[h]).name != one.name@) ==> {
                        &&& after.len() == before.len() + 1
                        &&& after.drop_last() == before
                        &&& after.last().name == one.name@
                        &&& after.last().ip_addresses.len() == 1
                        &&& is_dotted(after.last().ip_addresses[0], octets)
                    }
                },
            }
        }),
{
    let before = interfaces::grouped(raw);
    let all = raw.push(one);
    let after = interfaces::grouped(all);
    let names = interfaces::offered_names(raw);
    let name = one.name@;
    assert(all.drop_last() =~= raw);
    assert(interfaces::grouped(Seq::empty()) =~= Seq::<interfaces::InterfaceView>::empty());
    assert(before.len() == names.len());
    assert forall|h: int| 0 <= h < names.len() implies (#[trigger] before[h]).name == names[h]
        && before[h].ip_addresses == interfaces::addresses_of(raw, names[h]) by {}
    if interfaces::is_offered(one) {
        let octets = one.addr->V4_0;
        let address = interfaces::address_of(one);
        lemma_dotted(octets);
        if 0 <= g < before.len() && before[g].name == name {
            interfaces::lemma_names_distinct(raw);
            assert(names[g] == name);
            assert(names.contains(name));
            assert(after[g].ip_addresses == before[g].ip_addresses.push(address));
            assert(before[g].ip_addresses.push(address).drop_last() =~= before[g].ip_addresses);
        }
        if forall|h: int| 0 <= h < before.len() ==> (#[trigger] before[h]).name != name {
            assert forall|h: int| 0 <= h < names.len() implies names[h] != name by {
                assert(before[h].name == names[h]);
            }
            assert(!names.contains(name));
            interfaces::lemma_unlisted_has_no_address(raw, name);
            assert(interfaces::offered_names(all) =~= names.push(name));
            assert(after.last().ip_addresses =~= seq![address]);
            assert forall|h: int| 0 <= h < before.len() implies after[h] == before[h] by {
                assert(names[h] != name);
            }
            assert(after.drop_last() =~= before);
        }
    } else {
        assert(after =~= before);
    }
}

proof fn lemma_dotted(octets: [u8; 4])
    ensures
        is_dotted(interfaces::dotted(octets@), octets),
{
    lemma_digits_are_the_number(octets[0] as nat, 10);
    lemma_digits_are_the_number(octets[1] as nat, 10);
    lemma_digits_are_the_number(octets[2] as nat, 10);
    lemma_digits_are_the_number(octets[3] as nat, 10);
    assert(is_number(text::digits(octets[0] as nat, 10), octets[0] as int, 10));
    assert(is_number(text::digits(octets[1] as nat, 10), octets[1] as int, 10));
    assert(is_number(text::digits(octets[2] as nat, 10), octets[2] as int, 10));
    assert(is_number(text::digits(octets[3] as nat, 10), octets[3] as int, 10));
}

/// The contracts speak of an interface by its name and all its addresses, in order.
pub proof fn law_interfaces_are_seen_whole(infos: Seq<InterfaceInfo>, i: int)
    ensures
        ({
            let views = interfaces::interface_views(infos);
            &&& views.len() == infos.len()
            &&& 0 <= i < infos.len() ==> {
                &&& views[i].name == infos[i].name@
                &&& views[i].ip_addresses.len() == infos[i].ip_addresses@.len()
                &&& forall|k: int|
                    0 <= k < infos[i].ip_addresses@.len() ==> #[trigger] views[i].ip_addresses[k]
                        == infos[i].ip_addresses@[k]@
            }
        }),
{
}

} // verus!
