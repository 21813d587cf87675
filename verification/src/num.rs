//! Decimal numbers as fixed-point thousandths, and the
//! parse-with-fallback policy used for every numeric argument: take the
//! first present source, try to parse it, and on failure or absence use
//! the field's fixed default. Parsing never fails a step.

use vstd::prelude::*;

use crate::chars::chars_of;

verus! {

/// A signed quantity in thousandths: `Milli(1500)` is one and a half.
#[derive(Clone, Copy, Debug, PartialEq, Eq, Structural)]
pub struct Milli(pub i64);

pub open spec fn is_digit(c: char) -> bool {
    '0' <= c && c <= '9'
}

pub open spec fn digit_val(c: char) -> int {
    c as int - '0' as int
}

pub open spec fn all_digits(s: Seq<char>) -> bool {
    forall|i: int| 0 <= i < s.len() ==> is_digit(#[trigger] s[i])
}

/// The value of a digit string, most significant first.
pub open spec fn digits_val(s: Seq<char>) -> int
    decreases s.len(),
{
    if s.len() == 0 {
        0
    } else {
        digits_val(s.drop_last()) * 10 + digit_val(s.last())
    }
}

pub open spec fn pow10(n: nat) -> int
    decreases n,
{
    if n == 0 {
        1
    } else {
        10 * pow10((n - 1) as nat)
    }
}

pub proof fn lemma_digits_val_bound(s: Seq<char>)
    requires
        all_digits(s),
    ensures
        0 <= digits_val(s) < pow10(s.len()),
    decreases s.len(),
{
    if s.len() > 0 {
        assert(all_digits(s.drop_last()));
        lemma_digits_val_bound(s.drop_last());
        assert(is_digit(s.last()));
    }
}

pub proof fn lemma_digits_val_prefix(s: Seq<char>, j: int)
    requires
        all_digits(s),
        0 <= j <= s.len(),
    ensures
        digits_val(s) >= digits_val(s.subrange(0, j)),
    decreases s.len() - j,
{
    if j < s.len() {
        lemma_digits_val_prefix(s, j + 1);
        let p = s.subrange(0, j + 1);
        assert(p.drop_last() =~= s.subrange(0, j));
        assert(is_digit(p.last()));
        assert(digits_val(s.subrange(0, j)) >= 0 && digit_val(p.last()) >= 0) by {
            lemma_digits_val_bound(s.subrange(0, j));
        }
    } else {
        assert(s.subrange(0, j) =~= s);
    }
}

/// The first index of `c` in `s`, if any.
pub open spec fn find_char(s: Seq<char>, c: char) -> Option<int>
    decreases s.len(),
{
    if s.len() == 0 {
        None
    } else if s[0] == c {
        Some(0)
    } else {
        match find_char(s.drop_first(), c) {
            Some(i) => Some(i + 1),
            None => None,
        }
    }
}

pub proof fn lemma_find_char(s: Seq<char>, c: char)
    ensures
        match find_char(s, c) {
            Some(i) => 0 <= i < s.len() && s[i] == c,
            None => true,
        },
    decreases s.len(),
{
    if s.len() > 0 && s[0] != c {
        lemma_find_char(s.drop_first(), c);
    }
}

/// The value, in thousandths, of the first three fractional digits,
/// later digits being cut off.
pub open spec fn frac_milli(fp: Seq<char>) -> int {
    let f3 = if fp.len() >= 3 {
        fp.subrange(0, 3)
    } else {
        fp
    };
    digits_val(f3) * pow10((3 - f3.len()) as nat)
}

/// The number a decimal string denotes, in thousandths: an optional
/// sign, one to fifteen integer digits, and an optional fraction whose
/// digits past the third are cut off. Anything else is unparsable.
pub open spec fn spec_parse_milli(s: Seq<char>) -> Option<int> {
    if s.len() == 0 {
        None
    } else {
        let neg = s[0] == '-';
        let body = if s[0] == '-' || s[0] == '+' {
            s.drop_first()
        } else {
            s
        };
        let ip = match find_char(body, '.') {
            Some(d) => body.subrange(0, d),
            None => body,
        };
        let fp = match find_char(body, '.') {
            Some(d) => body.subrange(d + 1, body.len() as int),
            None => Seq::empty(),
        };
        if 1 <= ip.len() <= 15 && all_digits(ip) && all_digits(fp) {
            let mag = digits_val(ip) * 1000 + frac_milli(fp);
            Some(
                if neg {
                    -mag
                } else {
                    mag
                },
            )
        } else {
            None
        }
    }
}

/// The number a decimal digit string denotes, when it fits `u32`:
/// an optional leading plus sign, then at least one digit.
pub open spec fn spec_parse_u32(s: Seq<char>) -> Option<int> {
    let body = if s.len() > 0 && s[0] == '+' {
        s.drop_first()
    } else {
        s
    };
    if body.len() >= 1 && all_digits(body) && digits_val(body) <= u32::MAX {
        Some(digits_val(body))
    } else {
        None
    }
}

/// Parses a run of digits `v[from..to]`, most significant first.
fn digits_value(v: &Vec<char>, from: usize, to: usize, cap: u64) -> (r: Option<u64>)
    requires
        from <= to <= v@.len(),
        all_digits(v@.subrange(from as int, to as int)),
        cap <= 0xffff_ffff,
    ensures
        match r {
            Some(n) => n == digits_val(v@.subrange(from as int, to as int)) && n <= cap,
            None => digits_val(v@.subrange(from as int, to as int)) > cap,
        },
{
    let ghost s = v@.subrange(from as int, to as int);
    let mut acc: u64 = 0;
    let mut j: usize = from;
    proof {
        assert(s.subrange(0, 0) =~= Seq::<char>::empty());
    }
    while j < to
        invariant
            from <= j <= to <= v@.len(),
            s == v@.subrange(from as int, to as int),
            all_digits(s),
            cap <= 0xffff_ffff,
            acc == digits_val(s.subrange(0, j - from)),
            acc <= cap,
        decreases to - j,
    {
        let c = v[j];
        proof {
            assert(s[j - from] == v@[j as int]);
            assert(is_digit(s[j - from]));
            assert(s.subrange(0, j + 1 - from).drop_last() =~= s.subrange(0, j - from));
            assert(s.subrange(0, j + 1 - from).last() == s[j - from]);
        }
        let d: u64 = (c as u32 as u64) - ('0' as u32 as u64);
        let next: u64 = acc * 10 + d;
        if next > cap {
            proof {
                lemma_digits_val_prefix(s, j + 1 - from);
            }
            return None;
        }
        acc = next;
        j += 1;
    }
    proof {
        assert(s.subrange(0, to - from) =~= s);
    }
    Some(acc)
}

fn all_digits_in(v: &Vec<char>, from: usize, to: usize) -> (r: bool)
    requires
        from <= to <= v@.len(),
    ensures
        r == all_digits(v@.subrange(from as int, to as int)),
{
    let ghost s = v@.subrange(from as int, to as int);
    let mut j: usize = from;
    while j < to
        invariant
            from <= j <= to <= v@.len(),
            s == v@.subrange(from as int, to as int),
            forall|k: int| 0 <= k < j - from ==> is_digit(#[trigger] s[k]),
        decreases to - j,
    {
        let c = v[j];
        proof {
            assert(s[j - from] == v@[j as int]);
        }
        if !('0' <= c && c <= '9') {
            return false;
        }
        j += 1;
    }
    true
}

/// The first index of `c` in `v[from..to]`, if any.
pub(crate) fn find_char_in(v: &Vec<char>, from: usize, to: usize, c: char) -> (r: Option<usize>)
    requires
        from <= to <= v@.len(),
    ensures
        match r {
            Some(i) => from <= i < to && find_char(v@.subrange(from as int, to as int), c) == Some(
                i - from,
            ),
            None => find_char(v@.subrange(from as int, to as int), c) is None,
        },
{
    let mut j: usize = from;
    while j < to
        invariant
            from <= j <= to <= v@.len(),
            forall|k: int|
                from <= k < j ==> v@[k] != c,
            find_char(v@.subrange(from as int, to as int), c) == match find_char(
                v@.subrange(j as int, to as int),
                c,
            ) {
                Some(i) => Some(i + j - from),
                None => None::<int>,
            },
        decreases to - j,
    {
        proof {
            assert(v@.subrange(j as int, to as int)[0] == v@[j as int]);
            assert(v@.subrange(j as int, to as int).drop_first() =~= v@.subrange(
                j + 1,
                to as int,
            ));
        }
        if v[j] == c {
            return Some(j);
        }
        j += 1;
    }
    proof {
        assert(v@.subrange(j as int, to as int).len() == 0);
    }
    None
}

/// Parses a decimal string into thousandths, `None` when it does not fit
/// the grammar.
#[verifier::rlimit(60)]
pub fn parse_milli(s: &str) -> (r: Option<Milli>)
    ensures
        match r {
            Some(m) => spec_parse_milli(s@) == Some(m.0 as int),
            None => spec_parse_milli(s@) is None,
        },
{
    let v = chars_of(s);
    if v.len() == 0 {
        return None;
    }
    let neg = v[0] == '-';
    let start: usize = if v[0] == '-' || v[0] == '+' {
        1
    } else {
        0
    };
    let ghost body = v@.subrange(start as int, v@.len() as int);
    let n = v.len();
    let (ip_to, fp_from): (usize, usize) = match find_char_in(&v, start, n, '.') {
        Some(d) => (d, d + 1),
        None => (n, n),
    };
    proof {
        assert(body =~= v@.subrange(start as int, n as int));
        match find_char(body, '.') {
            Some(d) => {
                assert(body.subrange(0, d) =~= v@.subrange(start as int, ip_to as int));
                assert(body.subrange(d + 1, body.len() as int) =~= v@.subrange(
                    fp_from as int,
                    n as int,
                ));
            },
            None => {
                assert(body =~= v@.subrange(start as int, ip_to as int));
                assert(v@.subrange(fp_from as int, n as int) =~= Seq::<char>::empty());
            },
        }
    }
    let ip_len = ip_to - start;
    proof {
        let sv = s@;
        assert(sv.len() > 0);
        let sbody = if sv[0] == '-' || sv[0] == '+' {
            sv.drop_first()
        } else {
            sv
        };
        assert(sbody =~= body);
        let sip = match find_char(sbody, '.') {
            Some(d) => sbody.subrange(0, d),
            None => sbody,
        };
        assert(sip =~= v@.subrange(start as int, ip_to as int));
        assert(sip.len() == ip_to - start);
    }
    if ip_len < 1 || ip_len > 15 {
        return None;
    }
    if !all_digits_in(&v, start, ip_to) {
        return None;
    }
    if !all_digits_in(&v, fp_from, n) {
        return None;
    }
    proof {
        lemma_digits_val_bound(v@.subrange(start as int, ip_to as int));
        lemma_pow10_15();
        lemma_pow10_mono((ip_to - start) as nat, 15nat);
    }
    let ipv = match digits_value(&v, start, ip_to, 0xffff_ffff) {
        Some(x) => x,
        None => {
            // more than nine digits: recompute against the wide bound
            proof {
                assert(digits_val(v@.subrange(start as int, ip_to as int)) < pow10(15));
            }
            let wide = digits_value_wide(&v, start, ip_to);
            wide
        },
    };
    proof {
        assert(digits_val(v@.subrange(start as int, ip_to as int)) < pow10(15));
    }
    let frac_to: usize = if n - fp_from >= 3 {
        fp_from + 3
    } else {
        n
    };
    proof {
        assert(all_digits(v@.subrange(fp_from as int, frac_to as int))) by {
            assert(forall|k: int|
                0 <= k < frac_to - fp_from ==> v@.subrange(fp_from as int, frac_to as int)[k]
                    == v@.subrange(fp_from as int, n as int)[k]);
        }
    }
    let f3 = match digits_value(&v, fp_from, frac_to, 0xffff_ffff) {
        Some(x) => x,
        None => {
            proof {
                lemma_digits_val_bound(v@.subrange(fp_from as int, frac_to as int));
                lemma_pow10_small();
            }
            0
        },
    };
    let scale: u64 = if frac_to - fp_from == 0 {
        1000
    } else if frac_to - fp_from == 1 {
        100
    } else if frac_to - fp_from == 2 {
        10
    } else {
        1
    };
    proof {
        lemma_pow10_small();
        let fp = v@.subrange(fp_from as int, n as int);
        let f3s = if fp.len() >= 3 {
            fp.subrange(0, 3)
        } else {
            fp
        };
        assert(f3s =~= v@.subrange(fp_from as int, frac_to as int));
        lemma_digits_val_bound(f3s);
    }
    let frac: u64 = if frac_to == fp_from {
        0
    } else {
        f3 * scale
    };
    let mag: i64 = (ipv as i64) * 1000 + (frac as i64);
    let val: i64 = if neg {
        -mag
    } else {
        mag
    };
    Some(Milli(val))
}

/// Parses a digit run whose value may need up to fifteen digits.
fn digits_value_wide(v: &Vec<char>, from: usize, to: usize) -> (r: u64)
    requires
        from <= to <= v@.len(),
        to - from <= 15,
        all_digits(v@.subrange(from as int, to as int)),
    ensures
        r == digits_val(v@.subrange(from as int, to as int)),
        r < 1000000000000000,
{
    let ghost s = v@.subrange(from as int, to as int);
    proof {
        lemma_pow10_15();
    }
    let mut acc: u64 = 0;
    let mut j: usize = from;
    proof {
        assert(s.subrange(0, 0) =~= Seq::<char>::empty());
    }
    while j < to
        invariant
            from <= j <= to <= v@.len(),
            to - from <= 15,
            s == v@.subrange(from as int, to as int),
            all_digits(s),
            acc == digits_val(s.subrange(0, j - from)),
            acc < pow10((j - from) as nat),
            pow10(15nat) == 1000000000000000,
        decreases to - j,
    {
        let c = v[j];
        proof {
            assert(s[j - from] == v@[j as int]);
            assert(is_digit(s[j - from]));
            assert(s.subrange(0, j + 1 - from).drop_last() =~= s.subrange(0, j - from));
            assert(s.subrange(0, j + 1 - from).last() == s[j - from]);
            lemma_pow10_mono((j - from) as nat, 14nat);
        }
        let d: u64 = (c as u32 as u64) - ('0' as u32 as u64);
        acc = acc * 10 + d;
        j += 1;
    }
    proof {
        assert(s.subrange(0, to - from) =~= s);
        lemma_pow10_mono((to - from) as nat, 15nat);
    }
    acc
}

proof fn lemma_pow10_15()
    ensures
        pow10(15nat) == 1000000000000000,
{
    reveal_with_fuel(pow10, 17);
}

proof fn lemma_pow10_small()
    ensures
        pow10(0nat) == 1,
        pow10(1nat) == 10,
        pow10(2nat) == 100,
        pow10(3nat) == 1000,
{
    reveal_with_fuel(pow10, 5);
}

proof fn lemma_pow10_pos(n: nat)
    ensures
        pow10(n) >= 1,
    decreases n,
{
    if n > 0 {
        lemma_pow10_pos((n - 1) as nat);
    }
}

proof fn lemma_pow10_mono(a: nat, b: nat)
    requires
        a <= b,
    ensures
        pow10(a) <= pow10(b),
        pow10(a) >= 1,
    decreases b,
{
    lemma_pow10_pos(a);
    if a < b {
        lemma_pow10_mono(a, (b - 1) as nat);
    }
}

/// Parses the unsigned decimal `v[from..to]`, `None` when it does not
/// fit the grammar or exceeds `u32::MAX`.
pub fn parse_u32_range(v: &Vec<char>, from: usize, to: usize) -> (r: Option<u32>)
    requires
        from <= to <= v@.len(),
    ensures
        match r {
            Some(n) => spec_parse_u32(v@.subrange(from as int, to as int)) == Some(n as int),
            None => spec_parse_u32(v@.subrange(from as int, to as int)) is None,
        },
{
    let ghost s = v@.subrange(from as int, to as int);
    let start: usize = if to > from && v[from] == '+' {
        from + 1
    } else {
        from
    };
    proof {
        if s.len() > 0 && s[0] == '+' {
            assert(s.drop_first() =~= v@.subrange(start as int, to as int));
        } else {
            assert(s =~= v@.subrange(start as int, to as int));
        }
    }
    if to - start < 1 {
        return None;
    }
    if !all_digits_in(v, start, to) {
        return None;
    }
    match digits_value(v, start, to, 0xffff_ffff) {
        Some(x) => Some(x as u32),
        None => None,
    }
}

/// Parses an unsigned decimal string, `None` when it does not fit the
/// grammar or exceeds `u32::MAX`.
pub fn parse_u32(s: &str) -> (r: Option<u32>)
    ensures
        match r {
            Some(n) => spec_parse_u32(s@) == Some(n as int),
            None => spec_parse_u32(s@) is None,
        },
{
    let v = chars_of(s);
    let n = v.len();
    proof {
        assert(v@.subrange(0, n as int) =~= v@);
    }
    parse_u32_range(&v, 0, n)
}

/// The numeric fallback policy: the first present source parsed, or the
/// default on absence or parse failure.
pub open spec fn spec_num_or(src: Option<Seq<char>>, default: int) -> int {
    match src {
        None => default,
        Some(s) => match spec_parse_milli(s) {
            Some(x) => x,
            None => default,
        },
    }
}

/// Parses an optional source with a fixed fallback.
pub fn num_or(src: Option<&String>, default: Milli) -> (r: Milli)
    ensures
        r.0 == spec_num_or(src.deep_view(), default.0 as int),
{
    match src {
        None => default,
        Some(s) => match parse_milli(s.as_str()) {
            Some(m) => m,
            None => default,
        },
    }
}

/// The earlier of two optional sources.
pub open spec fn spec_pick(a: Option<Seq<char>>, b: Option<Seq<char>>) -> Option<Seq<char>> {
    if a is Some {
        a
    } else {
        b
    }
}

/// Takes the higher-precedence source when it is present.
pub fn pick<'a>(a: Option<&'a String>, b: Option<&'a String>) -> (r: Option<&'a String>)
    ensures
        r.deep_view() == spec_pick(a.deep_view(), b.deep_view()),
{
    match a {
        Some(x) => Some(x),
        None => b,
    }
}

} // verus!
