//! Choosing a network address for the supplied target string.
//!
//! Resolution happens once per run, before any probe: the target is first
//! read as a literal address; only if that fails is name resolution asked,
//! and the first address it returns is taken, with no preference logic.
//! The dotted-quad grammar is recognised here with an exact contract; other
//! literal forms and the name lookup itself are the surrounding program's
//! calls, whose results come back as plain values.

use vstd::prelude::*;

use crate::validate::all_dec_digits;
use crate::validate::dec_value;
use crate::validate::is_dec_digit;

verus! {

/// A network address as plain values: four octets, or eight 16-bit groups.
#[derive(Clone, Copy, Debug, PartialEq, Eq, Structural)]
pub enum HostAddress {
    V4 { a: u8, b: u8, c: u8, d: u8 },
    V6 { g0: u16, g1: u16, g2: u16, g3: u16, g4: u16, g5: u16, g6: u16, g7: u16 },
}

/// Why no address could be chosen for the target.
#[derive(Clone, Copy, Debug, PartialEq, Eq, Structural)]
pub enum ResolutionError {
    /// Name resolution answered, but with zero addresses.
    NoAddresses,
}

/// The position of the first `'.'` at or after `from`, or the length of
/// `s` if there is none.
pub open spec fn next_dot(s: Seq<char>, from: int) -> int
    decreases s.len() - from,
{
    if from < 0 || from >= s.len() {
        s.len() as int
    } else if s[from] == '.' {
        from
    } else {
        next_dot(s, from + 1)
    }
}

/// One component of a dotted quad: one to three decimal digits, no
/// superfluous leading zero, value at most 255.
pub open spec fn is_ipv4_octet(s: Seq<char>) -> bool {
    &&& 1 <= s.len() <= 3
    &&& all_dec_digits(s)
    &&& dec_value(s) <= 255
    &&& (s.len() > 1 ==> s[0] != '0')
}

/// `s` is a dotted-quad literal: exactly three dots, and the four parts
/// they separate are octets.
pub open spec fn is_ipv4_literal(s: Seq<char>) -> bool {
    let i = next_dot(s, 0);
    let j = next_dot(s, i + 1);
    let k = next_dot(s, j + 1);
    &&& i < s.len()
    &&& j < s.len()
    &&& k < s.len()
    &&& next_dot(s, k + 1) == s.len()
    &&& is_ipv4_octet(s.subrange(0, i))
    &&& is_ipv4_octet(s.subrange(i + 1, j))
    &&& is_ipv4_octet(s.subrange(j + 1, k))
    &&& is_ipv4_octet(s.subrange(k + 1, s.len() as int))
}

/// The address a dotted-quad literal denotes.
pub open spec fn ipv4_of(s: Seq<char>) -> HostAddress {
    let i = next_dot(s, 0);
    let j = next_dot(s, i + 1);
    let k = next_dot(s, j + 1);
    HostAddress::V4 {
        a: dec_value(s.subrange(0, i)) as u8,
        b: dec_value(s.subrange(i + 1, j)) as u8,
        c: dec_value(s.subrange(j + 1, k)) as u8,
        d: dec_value(s.subrange(k + 1, s.len() as int)) as u8,
    }
}

spec fn pow10(n: int) -> int
    decreases n,
{
    if n <= 0 {
        1
    } else {
        10 * pow10(n - 1)
    }
}

proof fn lemma_dec_value_len_bound(s: Seq<char>)
    requires
        all_dec_digits(s),
    ensures
        dec_value(s) < pow10(s.len() as int),
    decreases s.len(),
{
    if s.len() > 0 {
        assert forall|j: int| 0 <= j < s.drop_last().len() implies is_dec_digit(
            #[trigger] s.drop_last()[j],
        ) by {
            assert(s.drop_last()[j] == s[j]);
        }
        lemma_dec_value_len_bound(s.drop_last());
    }
}

/// Finds the first `'.'` at or after `from`.
fn find_dot(s: &str, from: usize) -> (r: usize)
    requires
        from <= s@.len(),
    ensures
        r == next_dot(s@, from as int),
        from <= r <= s@.len(),
{
    let n = s.unicode_len();
    let mut i = from;
    while i < n
        invariant
            from <= i <= n,
            n == s@.len(),
            next_dot(s@, from as int) == next_dot(s@, i as int),
        decreases n - i,
    {
        let c = s.get_char(i);
        if c == '.' {
            return i;
        }
        i = i + 1;
    }
    n
}

/// Reads one dotted-quad component from `s[from .. to]`.
fn parse_octet(s: &str, from: usize, to: usize) -> (r: Option<u8>)
    requires
        from <= to <= s@.len(),
    ensures
        match r {
            Some(v) => is_ipv4_octet(s@.subrange(from as int, to as int)) && v == dec_value(
                s@.subrange(from as int, to as int),
            ),
            None => !is_ipv4_octet(s@.subrange(from as int, to as int)),
        },
{
    let ghost seg = s@.subrange(from as int, to as int);
    let len = to - from;
    if len < 1 || len > 3 {
        return None;
    }
    if len > 1 && s.get_char(from) == '0' {
        assert(seg[0] == s@[from as int]);
        return None;
    }
    let mut val: u32 = 0;
    let mut i = from;
    while i < to
        invariant
            from <= i <= to,
            to <= s@.len(),
            1 <= to - from <= 3,
            seg == s@.subrange(from as int, to as int),
            forall|j: int| 0 <= j < i - from ==> is_dec_digit(#[trigger] seg[j]),
            val == dec_value(seg.take(i - from)),
            val < 1000,
        decreases to - i,
    {
        let c = s.get_char(i);
        proof {
            assert(seg[i - from] == s@[i as int]);
        }
        if c < '0' || c > '9' {
            return None;
        }
        proof {
            assert(seg.take(i - from + 1).drop_last() =~= seg.take(i - from));
            assert(seg.take(i - from + 1).last() == seg[i - from]);
            assert forall|j: int| 0 <= j < seg.take(i - from + 1).len() implies is_dec_digit(
                #[trigger] seg.take(i - from + 1)[j],
            ) by {
                assert(seg.take(i - from + 1)[j] == seg[j]);
            }
            lemma_dec_value_len_bound(seg.take(i - from + 1));
            assert(pow10(0) == 1);
            assert(pow10(1) == 10);
            assert(pow10(2) == 100);
            assert(pow10(3) == 1000);
        }
        val = val * 10 + (c as u32 - '0' as u32);
        i = i + 1;
    }
    proof {
        assert(seg.take(to - from) =~= seg);
    }
    if val > 255 {
        return None;
    }
    Some(val as u8)
}

/// Reads the target as a dotted-quad literal.
///
/// Returns the denoted address exactly when the string consists of four
/// octets separated by three dots; every other string is refused.
pub fn parse_ipv4_literal(s: &str) -> (r: Option<HostAddress>)
    ensures
        match r {
            Some(addr) => is_ipv4_literal(s@) && addr == ipv4_of(s@),
            None => !is_ipv4_literal(s@),
        },
{
    let n = s.unicode_len();
    let d1 = find_dot(s, 0);
    if d1 == n {
        return None;
    }
    let d2 = find_dot(s, d1 + 1);
    if d2 == n {
        return None;
    }
    let d3 = find_dot(s, d2 + 1);
    if d3 == n {
        return None;
    }
    let d4 = find_dot(s, d3 + 1);
    if d4 != n {
        return None;
    }
    let a = match parse_octet(s, 0, d1) {
        Some(v) => v,
        None => {
            return None;
        },
    };
    let b = match parse_octet(s, d1 + 1, d2) {
        Some(v) => v,
        None => {
            return None;
        },
    };
    let c = match parse_octet(s, d2 + 1, d3) {
        Some(v) => v,
        None => {
            return None;
        },
    };
    let d = match parse_octet(s, d3 + 1, n) {
        Some(v) => v,
        None => {
            return None;
        },
    };
    Some(HostAddress::V4 { a, b, c, d })
}

/// Takes the first address name resolution returned, deterministically,
/// and reports the lookup that answered with zero addresses.
pub fn choose_address(found: &Vec<HostAddress>) -> (r: Result<HostAddress, ResolutionError>)
    ensures
        found@.len() > 0 ==> r == Ok::<HostAddress, ResolutionError>(found@[0]),
        found@.len() == 0 ==> r == Err::<HostAddress, ResolutionError>(
            ResolutionError::NoAddresses,
        ),
{
    if found.len() == 0 {
        Err(ResolutionError::NoAddresses)
    } else {
        Ok(found[0])
    }
}

} // verus!
