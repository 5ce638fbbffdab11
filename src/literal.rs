use vstd::prelude::*;
use vstd::string::StrSliceExecFns;

verus! {

pub open spec fn is_digit(c: char) -> bool {
    '0' <= c && c <= '9'
}

pub open spec fn all_digits(s: Seq<char>) -> bool {
    forall|i: int| 0 <= i < s.len() ==> is_digit(#[trigger] s[i])
}

/// The number written by a string of decimal digits.
pub open spec fn decimal_value(s: Seq<char>) -> nat
    decreases s.len(),
{
    if s.len() == 0 {
        0
    } else {
        decimal_value(s.drop_last()) * 10 + ((s.last() as u32) - ('0' as u32)) as nat
    }
}

/// A non-empty decimal numeral whose value is at most `max`, read as a number.
pub open spec fn bounded_uint(s: Seq<char>, max: nat) -> Option<nat> {
    if s.len() > 0 && all_digits(s) && decimal_value(s) <= max {
        Some(decimal_value(s))
    } else {
        None
    }
}

pub const U16_MAX: u64 = 65535;

pub const U32_MAX: u64 = 4294967295;

/// The position of the first `.` in `s`, if any.
pub open spec fn first_dot(s: Seq<char>) -> Option<int>
    decreases s.len(),
{
    if s.len() == 0 {
        None
    } else if s[0] == '.' {
        Some(0)
    } else {
        match first_dot(s.subrange(1, s.len() as int)) {
            Some(i) => Some(i + 1),
            None => None,
        }
    }
}

/// A minor-version literal `digits.digits`, both halves fitting in 16 bits.
pub open spec fn minor_of(s: Seq<char>) -> Option<(u16, u16)> {
    match first_dot(s) {
        Some(i) => match (
            bounded_uint(s.subrange(0, i), U16_MAX as nat),
            bounded_uint(s.subrange(i + 1, s.len() as int), U16_MAX as nat),
        ) {
            (Some(a), Some(b)) => Some((a as u16, b as u16)),
            _ => None,
        },
        None => None,
    }
}

proof fn lemma_decimal_value_grows(s: Seq<char>, i: int)
    requires
        0 <= i <= s.len(),
        all_digits(s),
    ensures
        decimal_value(s.subrange(0, i)) <= decimal_value(s),
    decreases s.len() - i,
{
    if i < s.len() {
        lemma_decimal_value_grows(s, i + 1);
        assert(s.subrange(0, i + 1).drop_last() =~= s.subrange(0, i));
        assert(s.subrange(0, i + 1).last() == s[i]);
        assert(is_digit(s[i]));
    } else {
        assert(s.subrange(0, i) =~= s);
    }
}

pub proof fn lemma_first_dot_facts(s: Seq<char>)
    ensures
        match first_dot(s) {
            Some(i) => 0 <= i < s.len() && s[i] == '.' && forall|j: int|
                0 <= j < i ==> s[j] != '.',
            None => forall|j: int| 0 <= j < s.len() ==> s[j] != '.',
        },
    decreases s.len(),
{
    if s.len() > 0 {
        let t = s.subrange(1, s.len() as int);
        lemma_first_dot_facts(t);
        assert forall|j: int| 1 <= j < s.len() implies s[j] == t[j - 1] by {}
    }
}

/// Reads a decimal numeral of at most `max`; `None` for an empty string, a
/// non-digit or a value over `max`.
pub fn parse_bounded_uint(s: &str, max: u64) -> (r: Option<u64>)
    requires
        max <= U32_MAX,
    ensures
        match r {
            Some(v) => bounded_uint(s@, max as nat) == Some(v as nat),
            None => bounded_uint(s@, max as nat) is None,
        },
{
    let n = s.unicode_len();
    if n == 0 {
        return None;
    }
    let mut acc: u64 = 0;
    let mut i: usize = 0;
    while i < n
        invariant
            n == s@.len(),
            i <= n,
            acc <= max,
            max <= U32_MAX,
            all_digits(s@.subrange(0, i as int)),
            acc == decimal_value(s@.subrange(0, i as int)),
        decreases n - i,
    {
        let c = s.get_char(i);
        if !('0' <= c && c <= '9') {
            assert(!all_digits(s@));
            return None;
        }
        let d = (c as u32 - '0' as u32) as u64;
        let next = acc * 10 + d;
        assert(s@.subrange(0, i + 1).drop_last() =~= s@.subrange(0, i as int));
        assert(all_digits(s@.subrange(0, i + 1)));
        if next > max {
            proof {
                if all_digits(s@) {
                    lemma_decimal_value_grows(s@, i + 1);
                }
            }
            return None;
        }
        acc = next;
        i = i + 1;
    }
    assert(s@.subrange(0, n as int) =~= s@);
    Some(acc)
}

/// Splits a `major.minor` literal at its first dot and reads both halves.
pub fn parse_minor_literal(s: &str) -> (r: Option<(u16, u16)>)
    ensures
        r == minor_of(s@),
{
    let n = s.unicode_len();
    let mut i: usize = 0;
    proof {
        lemma_first_dot_facts(s@);
    }
    let mut at_dot = false;
    while i < n && !at_dot
        invariant
            n == s@.len(),
            i <= n,
            forall|j: int| 0 <= j < i ==> s@[j] != '.',
            at_dot ==> i < n && s@[i as int] == '.',
        decreases n - i, if at_dot { 0int } else { 1int },
    {
        if s.get_char(i) == '.' {
            at_dot = true;
        } else {
            i = i + 1;
        }
    }
    if !at_dot {
        return None;
    }
    assert(first_dot(s@) == Some(i as int));
    let major = parse_bounded_uint(s.substring_char(0, i), U16_MAX);
    let minor = parse_bounded_uint(s.substring_char(i + 1, n), U16_MAX);
    match (major, minor) {
        (Some(a), Some(b)) => Some((a as u16, b as u16)),
        _ => None,
    }
}

/// A minor-version literal needs exactly one dot: with none, or with two or
/// more, it is refused.
pub proof fn lemma_minor_needs_one_dot(s: Seq<char>)
    requires
        (forall|j: int| 0 <= j < s.len() ==> s[j] != '.') || exists|i: int, j: int|
            0 <= i < j < s.len() && s[i] == '.' && s[j] == '.',
    ensures
        minor_of(s) is None,
{
    lemma_first_dot_facts(s);
    if let Some(k) = first_dot(s) {
        let (i, j) = choose|i: int, j: int| 0 <= i < j < s.len() && s[i] == '.' && s[j] == '.';
        assert(k <= i);
        let rest = s.subrange(k + 1, s.len() as int);
        assert(rest[j - k - 1] == '.');
        assert(!all_digits(rest));
    }
}

/// A decimal numeral parses at width 16 or 32 exactly when its value is at
/// most `2^W - 1`, and then to that value.
pub proof fn lemma_width_bound(s: Seq<char>, w: nat)
    requires
        s.len() > 0,
        all_digits(s),
        w == 16 || w == 32,
    ensures
        ({
            let max: nat = if w == 16 { U16_MAX as nat } else { U32_MAX as nat };
            &&& max + 1 == vstd::arithmetic::power2::pow2(w)
            &&& bounded_uint(s, max) is Some <==> decimal_value(s) <= max
            &&& bounded_uint(s, max) is Some ==> bounded_uint(s, max) == Some(decimal_value(s))
        }),
{
    vstd::arithmetic::power2::lemma2_to64();
}

/// A literal `m.n` of two decimal numerals of at most `2^16 - 1` reads as
/// the pair of their values.
pub proof fn lemma_minor_literal_halves(a: Seq<char>, b: Seq<char>)
    requires
        a.len() > 0,
        b.len() > 0,
        all_digits(a),
        all_digits(b),
        decimal_value(a) <= U16_MAX,
        decimal_value(b) <= U16_MAX,
    ensures
        minor_of(a + seq!['.'] + b) == Some((decimal_value(a) as u16, decimal_value(b) as u16)),
{
    let s = a + seq!['.'] + b;
    lemma_first_dot_facts(s);
    assert forall|j: int| 0 <= j < a.len() implies s[j] != '.' by {
        assert(s[j] == a[j]);
        assert(is_digit(a[j]));
    }
    assert(s[a.len() as int] == '.');
    match first_dot(s) {
        Some(k) => {
            if k < a.len() {
                assert(s[k] != '.');
            }
            assert(k == a.len());
        },
        None => {
            assert(s[a.len() as int] != '.');
        },
    }
    assert(s.subrange(0, a.len() as int) =~= a);
    assert(s.subrange(a.len() as int + 1, s.len() as int) =~= b);
}

} // verus!
