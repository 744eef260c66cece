//! Byte-level pieces of the command grammar: splitting on spaces, trimming
//! NUL padding, decimal `u8` arguments, and decimal rendering of numbers.
use vstd::prelude::*;
use vstd::utf8::{codepoint_width_1, valid_utf8};

verus! {

/// The byte of an ASCII space, which separates a command from its argument.
pub const SPACE: u8 = 32;

/// The byte of an ASCII NUL, which pads an unused command buffer.
pub const NUL: u8 = 0;

/// The byte of an ASCII `+`, accepted in front of a decimal argument.
pub const PLUS: u8 = 43;

/// The byte of the ASCII digit `0`.
pub const DIGIT_ZERO: u8 = 48;

/// Number of bytes before the first space of `s` (all of `s` when it holds none).
pub open spec fn first_space(s: Seq<u8>) -> nat
    decreases s.len(),
{
    if s.len() == 0 || s[0] == SPACE {
        0
    } else {
        1 + first_space(s.drop_first())
    }
}

/// `s` without its leading NUL bytes.
pub open spec fn trim_start_nul(s: Seq<u8>) -> Seq<u8>
    decreases s.len(),
{
    if s.len() > 0 && s[0] == NUL {
        trim_start_nul(s.drop_first())
    } else {
        s
    }
}

/// `s` without its trailing NUL bytes.
pub open spec fn trim_end_nul(s: Seq<u8>) -> Seq<u8>
    decreases s.len(),
{
    if s.len() > 0 && s.last() == NUL {
        trim_end_nul(s.drop_last())
    } else {
        s
    }
}

/// `s` without the NUL bytes at either end.
pub open spec fn trim_nul(s: Seq<u8>) -> Seq<u8> {
    trim_end_nul(trim_start_nul(s))
}

pub open spec fn is_digit(b: u8) -> bool {
    DIGIT_ZERO <= b <= DIGIT_ZERO + 9
}

pub open spec fn all_digits(d: Seq<u8>) -> bool {
    forall|i: int| 0 <= i < d.len() ==> is_digit(#[trigger] d[i])
}

/// The number that the decimal digits `d` stand for, most significant first.
pub open spec fn digits_value(d: Seq<u8>) -> nat
    decreases d.len(),
{
    if d.len() == 0 {
        0
    } else {
        digits_value(d.drop_last()) * 10 + (d.last() - DIGIT_ZERO) as nat
    }
}

/// The digits of an unsigned decimal number: an optional `+`, then at least one digit.
pub open spec fn unsigned_digits(t: Seq<u8>) -> Seq<u8> {
    if t.len() > 0 && t[0] == PLUS {
        t.drop_first()
    } else {
        t
    }
}

/// What parsing `t` as a `u8` gives: an optional `+` and at least one decimal
/// digit, of value at most 255.
pub open spec fn parse_u8(t: Seq<u8>) -> Option<u8> {
    let d = unsigned_digits(t);
    if d.len() > 0 && all_digits(d) && digits_value(d) <= 255 {
        Some(digits_value(d) as u8)
    } else {
        None
    }
}

/// The shortest decimal rendering of `n`.
pub open spec fn decimal(n: nat) -> Seq<u8>
    decreases n,
{
    if n < 10 {
        seq![(DIGIT_ZERO + n) as u8]
    } else {
        decimal(n / 10).push((DIGIT_ZERO + n % 10) as u8)
    }
}

pub(crate) proof fn lemma_first_space_at(s: Seq<u8>, p: int)
    requires
        0 <= p <= s.len(),
        forall|j: int| 0 <= j < p ==> s[j] != SPACE,
        p == s.len() || s[p] == SPACE,
    ensures
        first_space(s) == p,
    decreases p,
{
    if p > 0 {
        let t = s.drop_first();
        assert forall|j: int| 0 <= j < p - 1 implies t[j] != SPACE by {
            assert(t[j] == s[j + 1]);
        }
        lemma_first_space_at(t, p - 1);
    }
}

pub(crate) proof fn lemma_trim_start_at(s: Seq<u8>, k: int)
    requires
        0 <= k <= s.len(),
        forall|j: int| 0 <= j < k ==> s[j] == NUL,
        k == s.len() || s[k] != NUL,
    ensures
        trim_start_nul(s) == s.subrange(k, s.len() as int),
    decreases k,
{
    if k == 0 {
        assert(s.subrange(0, s.len() as int) =~= s);
    } else {
        let t = s.drop_first();
        assert forall|j: int| 0 <= j < k - 1 implies t[j] == NUL by {
            assert(t[j] == s[j + 1]);
        }
        lemma_trim_start_at(t, k - 1);
        assert(t.subrange(k - 1, t.len() as int) =~= s.subrange(k, s.len() as int));
    }
}

pub(crate) proof fn lemma_trim_end_at(s: Seq<u8>, k: int)
    requires
        0 <= k <= s.len(),
        forall|j: int| k <= j < s.len() ==> s[j] == NUL,
        k == 0 || s[k - 1] != NUL,
    ensures
        trim_end_nul(s) == s.subrange(0, k),
    decreases s.len() - k,
{
    if k == s.len() {
        assert(s.subrange(0, k) =~= s);
    } else {
        let t = s.drop_last();
        lemma_trim_end_at(t, k);
        assert(t.subrange(0, k) =~= s.subrange(0, k));
    }
}

/// Index of the first space in `s[lo..]`, or `s.len()` where there is none.
pub fn find_space(s: &[u8], lo: usize) -> (p: usize)
    requires
        lo <= s@.len(),
    ensures
        lo <= p <= s@.len(),
        p - lo == first_space(s@.subrange(lo as int, s@.len() as int)),
{
    let mut p = lo;
    while p < s.len() && s[p] != SPACE
        invariant
            lo <= p <= s@.len(),
            forall|j: int| lo <= j < p ==> s@[j] != SPACE,
        decreases s@.len() - p,
    {
        p += 1;
    }
    proof {
        let t = s@.subrange(lo as int, s@.len() as int);
        assert forall|j: int| 0 <= j < p - lo implies t[j] != SPACE by {
            assert(t[j] == s@[lo + j]);
        }
        if p < s@.len() {
            assert(t[p - lo] == s@[p as int]);
        }
        lemma_first_space_at(t, p - lo);
    }
    p
}

/// Bounds of `s[lo..hi]` without the NUL bytes at either end.
pub fn trim_nul_bounds(s: &[u8], lo: usize, hi: usize) -> (r: (usize, usize))
    requires
        lo <= hi <= s@.len(),
    ensures
        lo <= r.0 <= r.1 <= hi,
        s@.subrange(r.0 as int, r.1 as int) == trim_nul(s@.subrange(lo as int, hi as int)),
{
    let mut a = lo;
    while a < hi && s[a] == NUL
        invariant
            lo <= a <= hi <= s@.len(),
            forall|j: int| lo <= j < a ==> s@[j] == NUL,
        decreases hi - a,
    {
        a += 1;
    }
    let mut b = hi;
    while b > a && s[b - 1] == NUL
        invariant
            lo <= a <= b <= hi <= s@.len(),
            forall|j: int| b <= j < hi ==> s@[j] == NUL,
        decreases b - a,
    {
        b -= 1;
    }
    proof {
        let t = s@.subrange(lo as int, hi as int);
        assert forall|j: int| 0 <= j < a - lo implies t[j] == NUL by {
            assert(t[j] == s@[lo + j]);
        }
        if a < hi {
            assert(t[a - lo] == s@[a as int]);
        }
        lemma_trim_start_at(t, a - lo);
        let u = t.subrange(a - lo, t.len() as int);
        assert(u =~= s@.subrange(a as int, hi as int));
        assert forall|j: int| b - a <= j < u.len() implies u[j] == NUL by {
            assert(u[j] == s@[a + j]);
        }
        if b > a {
            assert(u[b - a - 1] == s@[b - 1]);
        }
        lemma_trim_end_at(u, b - a);
        assert(u.subrange(0, b - a) =~= s@.subrange(a as int, b as int));
    }
    (a, b)
}

/// Whether `s[a..b]` is exactly `name`.
pub fn bytes_eq(s: &[u8], a: usize, b: usize, name: &[u8]) -> (r: bool)
    requires
        a <= b <= s@.len(),
    ensures
        r == (s@.subrange(a as int, b as int) == name@),
{
    if b - a != name.len() {
        return false;
    }
    let mut i: usize = 0;
    while i < name.len()
        invariant
            a <= b <= s@.len(),
            b - a == name@.len(),
            i <= name@.len(),
            forall|j: int| 0 <= j < i ==> s@[a + j] == name@[j],
        decreases name@.len() - i,
    {
        if s[a + i] != name[i] {
            assert(s@.subrange(a as int, b as int)[i as int] != name@[i as int]);
            return false;
        }
        i += 1;
    }
    assert(s@.subrange(a as int, b as int) =~= name@);
    true
}

/// Parses `s[a..b]` as a `u8`, as `str::parse::<u8>` does on that text.
pub fn parse_u8_at(s: &[u8], a: usize, b: usize) -> (r: Option<u8>)
    requires
        a <= b <= s@.len(),
    ensures
        r == parse_u8(s@.subrange(a as int, b as int)),
{
    let ghost t = s@.subrange(a as int, b as int);
    let start = if a < b && s[a] == PLUS {
        a + 1
    } else {
        a
    };
    let ghost d = unsigned_digits(t);
    assert(d =~= s@.subrange(start as int, b as int));
    if start == b {
        return None;
    }
    // `acc` is the value of the digits read so far, held at 256 once it passes 255.
    let mut acc: u16 = 0;
    let mut i = start;
    while i < b
        invariant
            a <= start <= i <= b <= s@.len(),
            d == s@.subrange(start as int, b as int),
            d == unsigned_digits(s@.subrange(a as int, b as int)),
            all_digits(s@.subrange(start as int, i as int)),
            acc <= 256,
            acc == if digits_value(s@.subrange(start as int, i as int)) <= 255 {
                digits_value(s@.subrange(start as int, i as int))
            } else {
                256
            },
        decreases b - i,
    {
        let c = s[i];
        if c < DIGIT_ZERO || c > DIGIT_ZERO + 9 {
            assert(d[i - start] == c);
            assert(!is_digit(d[i - start]));
            return None;
        }
        let ghost prev = s@.subrange(start as int, i as int);
        let ghost next = s@.subrange(start as int, i + 1);
        assert(next.drop_last() =~= prev);
        assert(next.last() == c);
        assert(all_digits(next)) by {
            assert forall|j: int| 0 <= j < next.len() implies is_digit(#[trigger] next[j]) by {
                if j < prev.len() {
                    assert(next[j] == prev[j]);
                }
            }
        }
        if acc >= 256 {
            acc = 256;
        } else {
            let v = acc * 10 + (c - DIGIT_ZERO) as u16;
            acc = if v > 255 {
                256
            } else {
                v
            };
        }
        i += 1;
    }
    assert(s@.subrange(start as int, i as int) == d);
    if acc > 255 {
        None
    } else {
        Some(acc as u8)
    }
}

/// Appends `bytes` to `out`.
pub fn push_bytes(out: &mut Vec<u8>, bytes: &[u8])
    ensures
        final(out)@ == old(out)@ + bytes@,
{
    let mut i: usize = 0;
    while i < bytes.len()
        invariant
            i <= bytes@.len(),
            out@ == old(out)@ + bytes@.subrange(0, i as int),
        decreases bytes@.len() - i,
    {
        out.push(bytes[i]);
        i += 1;
        assert(out@ =~= old(out)@ + bytes@.subrange(0, i as int));
    }
    assert(bytes@.subrange(0, i as int) =~= bytes@);
}

/// Appends the decimal rendering of `n` to `out`.
pub fn push_decimal(n: u32, out: &mut Vec<u8>)
    ensures
        final(out)@ == old(out)@ + decimal(n as nat),
    decreases n,
{
    if n >= 10 {
        push_decimal(n / 10, out);
    }
    out.push(DIGIT_ZERO + (n % 10) as u8);
    proof {
        if n >= 10 {
            assert(old(out)@ + decimal((n / 10) as nat) + seq![(DIGIT_ZERO + n % 10) as u8]
                =~= old(out)@ + decimal(n as nat));
        } else {
            assert(old(out)@ + seq![(DIGIT_ZERO + n) as u8] =~= old(out)@ + decimal(n as nat));
        }
    }
}

/// The decimal rendering of any number is digits only, at least one, and
/// its digits stand for the number.
pub proof fn lemma_decimal_digits(n: nat)
    ensures
        decimal(n).len() >= 1,
        all_digits(decimal(n)),
        digits_value(decimal(n)) == n,
        n < 10 ==> decimal(n).len() == 1,
        10 <= n < 100 ==> decimal(n).len() == 2,
        100 <= n < 1000 ==> decimal(n).len() == 3,
    decreases n,
{
    if n >= 10 {
        lemma_decimal_digits(n / 10);
        let d = decimal(n);
        assert(d.drop_last() =~= decimal(n / 10));
        assert(d.last() == (DIGIT_ZERO + n % 10) as u8);
        assert((n / 10) * 10 + n % 10 == n);
        assert forall|i: int| 0 <= i < d.len() implies is_digit(#[trigger] d[i]) by {
            if i < d.len() - 1 {
                assert(d[i] == decimal(n / 10)[i]);
            }
        }
    } else {
        let d = decimal(n);
        assert(d.drop_last() =~= Seq::<u8>::empty());
        assert(d.last() == (DIGIT_ZERO + n) as u8);
        assert(digits_value(d.drop_last()) == 0);
    }
}

/// Bytes below 0x80 (ASCII) are always well-formed UTF-8.
pub proof fn lemma_ascii_valid_utf8(s: Seq<u8>)
    requires
        forall|i: int| 0 <= i < s.len() ==> s[i] < 0x80,
    ensures
        valid_utf8(s),
    decreases s.len(),
{
    if s.len() > 0 {
        let b = s[0];
        assert(codepoint_width_1(b) < 0x80) by {
            assert(b < 0x80 ==> (b & 0x7F) as u32 == b as u32) by (bit_vector);
        }
        let t = s.subrange(1, s.len() as int);
        assert forall|i: int| 0 <= i < t.len() implies t[i] < 0x80 by {
            assert(t[i] == s[i + 1]);
        }
        lemma_ascii_valid_utf8(t);
    }
}

} // verus!
