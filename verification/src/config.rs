//! Port configuration.
//!
//! The daemon takes one optional flag, `--port <uint16>`. The first
//! occurrence of the flag decides: when it is followed by a valid 16-bit
//! unsigned decimal literal, the daemon listens there; when the flag is
//! absent, last, or followed by anything else, it falls back to the
//! documented default port.

use vstd::prelude::*;
use vstd::string::StrSliceExecFns;

verus! {

/// The port the daemon listens on when no valid `--port` value is given.
pub const DEFAULT_PORT: u16 = 9113;

/// Whether a character is a decimal digit.
pub open spec fn is_digit(c: char) -> bool {
    '0' <= c && c <= '9'
}

/// The numeric value of a decimal digit.
pub open spec fn digit_value(c: char) -> int {
    c as int - '0' as int
}

/// Whether every character of a string is a decimal digit.
pub open spec fn all_digits(s: Seq<char>) -> bool {
    forall|i: int| 0 <= i < s.len() ==> is_digit(#[trigger] s[i])
}

/// The value of a digit string read in base ten.
pub open spec fn dec_value(s: Seq<char>) -> int
    decreases s.len(),
{
    if s.len() == 0 {
        0
    } else {
        dec_value(s.drop_last()) * 10 + digit_value(s.last())
    }
}

/// The digit part of a port literal: what follows an optional leading
/// plus sign.
pub open spec fn digits_part(s: Seq<char>) -> Seq<char> {
    if s.len() > 0 && s[0] == '+' {
        s.drop_first()
    } else {
        s
    }
}

/// Whether a string is a valid 16-bit unsigned decimal literal: an
/// optional leading plus sign, then at least one digit, with a value of
/// at most 65535.
pub open spec fn is_port_literal(s: Seq<char>) -> bool {
    let d = digits_part(s);
    d.len() > 0 && all_digits(d) && dec_value(d) <= 65535
}

/// The port named by a valid port literal.
pub open spec fn port_value(s: Seq<char>) -> u16 {
    dec_value(digits_part(s)) as u16
}

/// The value of a digit string is never negative.
proof fn lemma_dec_value_nonneg(s: Seq<char>)
    requires
        all_digits(s),
    ensures
        dec_value(s) >= 0,
    decreases s.len(),
{
    if s.len() > 0 {
        assert(all_digits(s.drop_last()));
        lemma_dec_value_nonneg(s.drop_last());
    }
}

/// Reading a prefix of a digit string never yields more than reading the
/// whole of it.
proof fn lemma_dec_value_take_le(s: Seq<char>, n: int)
    requires
        all_digits(s),
        0 <= n <= s.len(),
    ensures
        dec_value(s.take(n)) <= dec_value(s),
    decreases s.len() - n,
{
    if n == s.len() {
        assert(s.take(n) =~= s);
    } else {
        let t1 = s.take(n + 1);
        assert(t1.drop_last() =~= s.take(n));
        assert(t1.last() == s[n]);
        assert(all_digits(s.take(n)));
        lemma_dec_value_nonneg(s.take(n));
        assert(dec_value(t1) == dec_value(s.take(n)) * 10 + digit_value(s[n]));
        lemma_dec_value_take_le(s, n + 1);
    }
}

/// Parses a 16-bit unsigned decimal literal, as the standard library's
/// integer parser reads one: an optional leading plus sign and one or
/// more digits, rejected when empty, when any other character occurs, or
/// when the value exceeds 65535.
pub fn parse_port(s: &str) -> (r: Option<u16>)
    ensures
        is_port_literal(s@) ==> r == Some(port_value(s@)),
        !is_port_literal(s@) ==> r is None,
{
    let len = s.unicode_len();
    if len == 0 {
        return None;
    }
    let first = s.get_char(0);
    let start: usize = if first == '+' {
        1
    } else {
        0
    };
    let ghost d = digits_part(s@);
    proof {
        assert(d =~= s@.skip(start as int));
    }
    if start == len {
        return None;
    }
    let mut val: u32 = 0;
    let mut i: usize = start;
    while i < len
        invariant
            start <= i <= len,
            len == s@.len(),
            start == 0 || start == 1,
            d == s@.skip(start as int),
            d == digits_part(s@),
            forall|j: int| start <= j < i ==> is_digit(#[trigger] s@[j]),
            val == dec_value(s@.subrange(start as int, i as int)),
            val <= 65535,
        decreases len - i,
    {
        let c = s.get_char(i);
        if c < '0' || c > '9' {
            proof {
                assert(d[i - start] == s@[i as int]);
                assert(!all_digits(d));
            }
            return None;
        }
        let dv = (c as u32) - ('0' as u32);
        proof {
            let p = s@.subrange(start as int, i as int);
            let p1 = s@.subrange(start as int, i + 1);
            assert(p1.drop_last() =~= p);
            assert(p1.last() == s@[i as int]);
            assert(dec_value(p1) == dec_value(p) * 10 + digit_value(s@[i as int]));
        }
        val = val * 10 + dv;
        if val > 65535 {
            proof {
                let m = i + 1 - start;
                assert(d.take(m) =~= s@.subrange(start as int, i + 1));
                if is_port_literal(s@) {
                    lemma_dec_value_take_le(d, m);
                }
            }
            return None;
        }
        i += 1;
    }
    proof {
        assert(forall|j: int| 0 <= j < d.len() ==> d[j] == s@[start + j]);
        assert(all_digits(d));
        assert(d =~= s@.subrange(start as int, len as int));
        assert(dec_value(d) == val);
        assert(is_port_literal(s@));
    }
    Some(val as u16)
}

/// Character-for-character string equality.
pub fn str_eq(a: &str, b: &str) -> (r: bool)
    ensures
        r == (a@ == b@),
{
    let alen = a.unicode_len();
    let blen = b.unicode_len();
    if alen != blen {
        return false;
    }
    let mut i: usize = 0;
    while i < alen
        invariant
            i <= alen,
            alen == a@.len(),
            alen == b@.len(),
            forall|j: int| 0 <= j < i ==> a@[j] == b@[j],
        decreases alen - i,
    {
        if a.get_char(i) != b.get_char(i) {
            return false;
        }
        i += 1;
    }
    proof {
        assert(a@ =~= b@);
    }
    true
}

/// The port the argument list names: the first `--port` occurrence
/// decides; a missing flag, a flag with nothing after it, or a value
/// that is no valid 16-bit literal all fall back to the default.
pub open spec fn port_of_args(args: Seq<Seq<char>>) -> u16
    decreases args.len(),
{
    if args.len() == 0 {
        DEFAULT_PORT
    } else if args[0] == "--port"@ {
        if args.len() >= 2 && is_port_literal(args[1]) {
            port_value(args[1])
        } else {
            DEFAULT_PORT
        }
    } else {
        port_of_args(args.drop_first())
    }
}

/// Reads the listening port from the argument list.
pub fn port_from_args(args: &Vec<String>) -> (p: u16)
    ensures
        p == port_of_args(args.deep_view()),
{
    let ghost dv = args.deep_view();
    let n = args.len();
    let mut i: usize = 0;
    proof {
        assert(dv.skip(0) =~= dv);
    }
    while i < n
        invariant
            i <= n,
            n == args@.len(),
            dv == args.deep_view(),
            dv.len() == n,
            port_of_args(dv) == port_of_args(dv.skip(i as int)),
        decreases n - i,
    {
        proof {
            assert(dv[i as int] == args@[i as int]@);
        }
        if str_eq(args[i].as_str(), "--port") {
            proof {
                assert(dv.skip(i as int)[0] == dv[i as int]);
            }
            if i + 1 < n {
                proof {
                    assert(dv.skip(i as int)[1] == dv[i + 1]);
                    assert(dv[i + 1] == args@[i + 1]@);
                }
                match parse_port(args[i + 1].as_str()) {
                    Some(p) => {
                        return p;
                    },
                    None => {
                        return DEFAULT_PORT;
                    },
                }
            } else {
                proof {
                    assert(dv.skip(i as int).len() < 2);
                }
                return DEFAULT_PORT;
            }
        }
        proof {
            assert(dv.skip(i as int)[0] == dv[i as int]);
            assert(dv.skip(i as int).drop_first() =~= dv.skip(i + 1));
        }
        i += 1;
    }
    proof {
        assert(dv.skip(n as int).len() == 0);
    }
    DEFAULT_PORT
}

} // verus!
