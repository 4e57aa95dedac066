//! Decimal numerals over bytes: what a run of digits denotes, how a number is
//! written, and the proof that the two are inverse to each other.

use vstd::prelude::*;

verus! {

/// The byte `0`.
pub const ZERO: u8 = 48;

/// The byte `9`.
pub const NINE: u8 = 57;

/// Whether `b` is one of the ten decimal digits.
pub open spec fn is_digit(b: u8) -> bool {
    ZERO <= b <= NINE
}

/// Whether every byte of `s` is a decimal digit.
pub open spec fn all_digits(s: Seq<u8>) -> bool {
    forall|i: int| 0 <= i < s.len() ==> is_digit(#[trigger] s[i])
}

/// The number that the digits of `s` denote, most significant digit first.
pub open spec fn numeral_value(s: Seq<u8>) -> nat
    decreases s.len(),
{
    if s.len() == 0 {
        0
    } else {
        numeral_value(s.drop_last()) * 10 + (s.last() - ZERO) as nat
    }
}

/// A numeral is a non-empty run of digits that does not start with a
/// superfluous zero.
pub open spec fn is_numeral(s: Seq<u8>) -> bool {
    &&& s.len() > 0
    &&& all_digits(s)
    &&& s.len() > 1 ==> s[0] != ZERO
}

/// The numeral that writes `n`.
pub open spec fn decimal(n: nat) -> Seq<u8>
    decreases n,
{
    if n < 10 {
        seq![(ZERO + n) as u8]
    } else {
        decimal(n / 10).push((ZERO + n % 10) as u8)
    }
}

/// Writing a number gives a numeral, and that numeral denotes the number.
pub proof fn lemma_decimal_denotes(n: nat)
    ensures
        is_numeral(decimal(n)),
        numeral_value(decimal(n)) == n,
        n > 0 ==> decimal(n)[0] != ZERO,
    decreases n,
{
    if n < 10 {
        let s = decimal(n);
        assert(s.drop_last() =~= Seq::<u8>::empty());
        assert(numeral_value(s.drop_last()) == 0);
    } else {
        lemma_decimal_denotes(n / 10);
        let head = decimal(n / 10);
        let s = decimal(n);
        assert(s.drop_last() =~= head);
        assert(s[0] == head[0]);
    }
}

/// A numeral with a value below ten has a single digit.
proof fn lemma_small_numeral(s: Seq<u8>)
    requires
        is_numeral(s),
        numeral_value(s) < 10,
    ensures
        s.len() == 1,
    decreases s.len(),
{
    if s.len() > 1 {
        let head = s.drop_last();
        assert(head[0] == s[0]);
        assert(is_numeral(head));
        assert(numeral_value(head) == 0);
        if head.len() > 1 {
            lemma_small_numeral(head);
        } else {
            assert(head.drop_last() =~= Seq::<u8>::empty());
            assert(numeral_value(head.drop_last()) == 0);
        }
    }
}

/// Every numeral is the way its own value is written.
pub proof fn lemma_numeral_is_decimal(s: Seq<u8>)
    requires
        is_numeral(s),
    ensures
        decimal(numeral_value(s)) == s,
    decreases s.len(),
{
    let n = numeral_value(s);
    if s.len() == 1 {
        assert(s.drop_last() =~= Seq::<u8>::empty());
        assert(numeral_value(s.drop_last()) == 0);
        assert(decimal(n) =~= s);
    } else {
        let head = s.drop_last();
        assert(head[0] == s[0]);
        assert(is_numeral(head));
        lemma_numeral_is_decimal(head);
        let h = numeral_value(head);
        let d = (s.last() - ZERO) as nat;
        assert(n == h * 10 + d);
        if h == 0 {
            lemma_small_numeral(head);
            assert(head.drop_last() =~= Seq::<u8>::empty());
            assert(numeral_value(head.drop_last()) == 0);
            assert(false);
        }
        assert(n >= 10);
        assert(n / 10 == h && n % 10 == d);
        assert(decimal(n) =~= s);
    }
}

/// The value of a run of digits is at least the value of each of its prefixes.
pub proof fn lemma_prefix_value(s: Seq<u8>, k: int)
    requires
        0 <= k <= s.len(),
        all_digits(s),
    ensures
        numeral_value(s.take(k)) <= numeral_value(s),
    decreases s.len() - k,
{
    if k == s.len() {
        assert(s.take(k) =~= s);
    } else {
        lemma_prefix_value(s, k + 1);
        let longer = s.take(k + 1);
        assert(longer.drop_last() =~= s.take(k));
    }
}

/// Reads `s` as a numeral: its value, or `None` when `s` is not a numeral or
/// the value does not fit 64 bits.
pub fn read_numeral(s: &[u8]) -> (r: Option<u64>)
    ensures
        r is Some <==> is_numeral(s@) && numeral_value(s@) <= u64::MAX,
        r matches Some(n) ==> n == numeral_value(s@),
{
    let n: usize = s.len();
    if n == 0 {
        return None;
    }
    if s[0] == ZERO && n > 1 {
        return None;
    }
    let mut value: u64 = 0;
    let mut i: usize = 0;
    while i < n
        invariant
            i <= n == s@.len(),
            all_digits(s@.take(i as int)),
            value == numeral_value(s@.take(i as int)),
        decreases n - i,
    {
        let b: u8 = s[i];
        let ghost before = s@.take(i as int);
        let ghost after = s@.take(i + 1);
        assert(after.drop_last() =~= before);
        assert(after.last() == b);
        if b < ZERO || b > NINE {
            assert(!is_digit(s@[i as int]));
            return None;
        }
        assert(all_digits(after)) by {
            assert forall|j: int| 0 <= j < after.len() implies is_digit(#[trigger] after[j]) by {
                if j < before.len() {
                    assert(after[j] == before[j]);
                }
            }
        }
        let d: u64 = (b - ZERO) as u64;
        if value > (u64::MAX - d) / 10 {
            proof {
                assert(numeral_value(after) == value * 10 + d);
                assert(numeral_value(after) > u64::MAX);
                if all_digits(s@) {
                    lemma_prefix_value(s@, i + 1);
                }
            }
            return None;
        }
        value = value * 10 + d;
        i = i + 1;
    }
    assert(s@.take(n as int) =~= s@);
    Some(value)
}

/// Appends the numeral that writes `n` to `out`.
pub fn write_decimal(n: u64, out: &mut Vec<u8>)
    ensures
        final(out)@ == old(out)@ + decimal(n as nat),
    decreases n,
{
    if n < 10 {
        out.push(ZERO + n as u8);
        assert(out@ =~= old(out)@ + decimal(n as nat));
    } else {
        write_decimal(n / 10, out);
        out.push(ZERO + (n % 10) as u8);
        assert(out@ =~= old(out)@ + decimal(n as nat));
    }
}

} // verus!
