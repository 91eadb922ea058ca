//! IPv4 addresses in dotted-decimal text, as the framework stores router and
//! server addresses: four decimal octets separated by dots, each written
//! without leading zeros and at most 255.
use vstd::prelude::*;
use vstd::string::*;

verus! {

/// Whether `c` is an ASCII decimal digit.
pub open spec fn is_digit(c: char) -> bool {
    '0' <= c && c <= '9'
}

/// The value of a decimal digit.
pub open spec fn digit_value(c: char) -> int {
    (c as int) - ('0' as int)
}

/// How many decimal digits `s` starts with.
pub open spec fn digit_run(s: Seq<char>) -> nat
    decreases s.len(),
{
    if s.len() > 0 && is_digit(s[0]) {
        1 + digit_run(s.drop_first())
    } else {
        0
    }
}

/// The value of a string of decimal digits.
pub open spec fn digits_value(d: Seq<char>) -> int
    decreases d.len(),
{
    if d.len() == 0 {
        0
    } else {
        digits_value(d.drop_last()) * 10 + digit_value(d.last())
    }
}

/// Whether `d` is an octet in decimal: one to three digits, no leading zero,
/// at most 255.
pub open spec fn is_octet_text(d: Seq<char>) -> bool {
    &&& 1 <= d.len() <= 3
    &&& forall|i: int| 0 <= i < d.len() ==> is_digit(#[trigger] d[i])
    &&& (d.len() == 1 || d[0] != '0')
    &&& digits_value(d) <= 255
}

/// The octets of `s` when all of `s` is `count` decimal octets separated by
/// dots.
pub open spec fn octets(s: Seq<char>, count: nat) -> Option<Seq<u8>>
    decreases count,
{
    let k = digit_run(s) as int;
    let field = s.subrange(0, k);
    let rest = s.subrange(k, s.len() as int);
    if count == 0 || !is_octet_text(field) {
        None
    } else if count == 1 {
        if rest.len() == 0 {
            Some(seq![digits_value(field) as u8])
        } else {
            None
        }
    } else if rest.len() > 0 && rest[0] == '.' {
        prepend(seq![digits_value(field) as u8], octets(rest.drop_first(), (count - 1) as nat))
    } else {
        None
    }
}

/// `p` followed by the octets in `x`, if there are any.
pub open spec fn prepend(p: Seq<u8>, x: Option<Seq<u8>>) -> Option<Seq<u8>> {
    match x {
        Some(t) => Some(p + t),
        None => None,
    }
}

/// The four octets of a dotted-decimal IPv4 address, if `s` is one.
pub open spec fn ipv4_octets(s: Seq<char>) -> Option<Seq<u8>> {
    octets(s, 4)
}

proof fn lemma_digit_run_bound(s: Seq<char>)
    ensures
        digit_run(s) <= s.len(),
    decreases s.len(),
{
    if s.len() > 0 && is_digit(s[0]) {
        lemma_digit_run_bound(s.drop_first());
    }
}

proof fn lemma_prepend_twice(p: Seq<u8>, q: Seq<u8>, x: Option<Seq<u8>>)
    ensures
        prepend(p, prepend(q, x)) == prepend(p + q, x),
{
    if let Some(t) = x {
        assert(p + (q + t) =~= (p + q) + t);
    }
}

/// Reads the decimal field that starts at `start`: its value and where it
/// ends, if it is an octet.
fn parse_field(text: &str, start: usize) -> (r: Option<(u8, usize)>)
    requires
        start <= text@.len(),
    ensures
        ({
            let t = text@.subrange(start as int, text@.len() as int);
            let field = t.subrange(0, digit_run(t) as int);
            &&& r is Some <==> is_octet_text(field)
            &&& r matches Some((v, end)) ==> end == start + digit_run(t) && v == digits_value(
                field,
            )
        }),
{
    let n = text.unicode_len();
    let ghost t = text@.subrange(start as int, n as int);
    let mut j: usize = start;
    let mut value: u32 = 0;
    proof {
        lemma_digit_run_bound(t);
        assert(text@.subrange(start as int, start as int) =~= Seq::<char>::empty());
        assert(t =~= text@.subrange(j as int, n as int));
    }
    while j < n && is_ascii_digit(text.get_char(j))
        invariant
            n == text@.len(),
            t == text@.subrange(start as int, n as int),
            start <= j <= n,
            j - start <= 3,
            forall|i: int| start <= i < j ==> is_digit(#[trigger] text@[i]),
            digit_run(t) == (j - start) + digit_run(text@.subrange(j as int, n as int)),
            value == digits_value(text@.subrange(start as int, j as int)),
            value <= 999,
            j - start <= 2 ==> value <= 99,
            j - start <= 1 ==> value <= 9,
            digit_run(t) <= t.len(),
        decreases n - j,
    {
        let c = text.get_char(j);
        let ghost here = text@.subrange(j as int, n as int);
        proof {
            assert(here[0] == c);
            assert(here.drop_first() =~= text@.subrange(j + 1, n as int));
            let d = text@.subrange(start as int, j + 1);
            assert(d.drop_last() =~= text@.subrange(start as int, j as int));
            assert(d.last() == c);
        }
        if j - start == 3 {
            proof {
                assert(is_digit(here[0]));
                assert(digit_run(here) >= 1);
                assert(t.subrange(0, digit_run(t) as int).len() >= 4);
            }
            return None;
        }
        value = value * 10 + (c as u32 - '0' as u32);
        j = j + 1;
    }
    let ghost k = digit_run(t) as int;
    proof {
        let here = text@.subrange(j as int, n as int);
        if j < n {
            assert(here[0] == text@[j as int]);
        }
        assert(digit_run(here) == 0);
        assert(k == j - start);
        assert(t.subrange(0, k) =~= text@.subrange(start as int, j as int));
    }
    let len = j - start;
    if len == 0 {
        return None;
    }
    if len > 1 && text.get_char(start) == '0' {
        proof {
            assert(t.subrange(0, k)[0] == text@[start as int]);
        }
        return None;
    }
    if value > 255 {
        return None;
    }
    proof {
        let field = t.subrange(0, k);
        assert forall|i: int| 0 <= i < field.len() implies is_digit(#[trigger] field[i]) by {
            assert(field[i] == text@[start + i]);
        }
        if len > 1 {
            assert(field[0] == text@[start as int]);
        }
    }
    Some((value as u8, j))
}

/// Whether `c` is an ASCII decimal digit.
fn is_ascii_digit(c: char) -> (r: bool)
    ensures
        r == is_digit(c),
{
    '0' <= c && c <= '9'
}

/// Parses a dotted-decimal IPv4 address into its four octets, most significant
/// first; `None` unless all of `text` is such an address.
pub fn parse_ipv4(text: &str) -> (r: Option<Vec<u8>>)
    ensures
        match ipv4_octets(text@) {
            Some(o) => r matches Some(v) && v@ == o,
            None => r is None,
        },
{
    let n = text.unicode_len();
    let mut out: Vec<u8> = Vec::new();
    let mut pos: usize = 0;
    let mut count: usize = 4;
    assert(text@.subrange(0, n as int) =~= text@);
    assert(out@ + Seq::<u8>::empty() =~= out@);
    loop
        invariant
            n == text@.len(),
            pos <= n,
            1 <= count <= 4,
            ipv4_octets(text@) == prepend(
                out@,
                octets(text@.subrange(pos as int, n as int), count as nat),
            ),
        decreases count,
    {
        let ghost t = text@.subrange(pos as int, n as int);
        proof {
            lemma_digit_run_bound(t);
        }
        match parse_field(text, pos) {
            None => {
                return None;
            },
            Some((v, end)) => {
                let ghost rest = t.subrange(digit_run(t) as int, t.len() as int);
                proof {
                    assert(rest =~= text@.subrange(end as int, n as int));
                }
                if count == 1 {
                    if end == n {
                        out.push(v);
                        proof {
                            assert(seq![v] == seq![digits_value(
                                t.subrange(0, digit_run(t) as int),
                            ) as u8]);
                        }
                        return Some(out);
                    }
                    return None;
                }
                if end < n && text.get_char(end) == '.' {
                    proof {
                        assert(rest[0] == text@[end as int]);
                        assert(rest.drop_first() =~= text@.subrange(end + 1, n as int));
                        lemma_prepend_twice(
                            out@,
                            seq![v],
                            octets(rest.drop_first(), (count - 1) as nat),
                        );
                        assert(out@ + seq![v] =~= out@.push(v));
                    }
                    out.push(v);
                    pos = end + 1;
                    count = count - 1;
                } else {
                    proof {
                        if end < n {
                            assert(rest[0] == text@[end as int]);
                        }
                    }
                    return None;
                }
            },
        }
    }
}

} // verus!
