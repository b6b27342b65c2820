//! Parsing of coin amounts: a non-empty string of decimal digits denoting a
//! value in the smallest denomination, which must fit the 64-bit range.
use vstd::prelude::*;

verus! {

/// A string failed to parse as a whole-number amount.
#[derive(Clone, Copy, PartialEq, Eq, Structural, Debug)]
pub struct AmountError;

pub open spec fn is_dec_digit(c: char) -> bool {
    '0' as u32 <= c as u32 && c as u32 <= '9' as u32
}

pub open spec fn all_dec_digits(s: Seq<char>) -> bool {
    forall|i: int| 0 <= i < s.len() ==> is_dec_digit(s[i])
}

/// The number denoted by a sequence of decimal digits, most significant
/// digit first.
pub open spec fn dec_value(s: Seq<char>) -> int
    decreases s.len(),
{
    if s.len() == 0 {
        0
    } else {
        dec_value(s.drop_last()) * 10 + (s.last() as u32 - '0' as u32)
    }
}

/// A string is a well-formed amount when it is non-empty and all digits.
pub open spec fn is_amount(s: Seq<char>) -> bool {
    s.len() > 0 && all_dec_digits(s)
}

pub proof fn lemma_dec_value_nonneg(s: Seq<char>)
    requires
        all_dec_digits(s),
    ensures
        dec_value(s) >= 0,
    decreases s.len(),
{
    if s.len() > 0 {
        assert(all_dec_digits(s.drop_last()));
        lemma_dec_value_nonneg(s.drop_last());
    }
}

/// Reading further digits never decreases the denoted value: the value of a
/// prefix bounds the value of the whole string from below.
pub proof fn lemma_dec_value_prefix(s: Seq<char>, i: int)
    requires
        all_dec_digits(s),
        0 <= i <= s.len(),
    ensures
        dec_value(s.subrange(0, i)) <= dec_value(s),
    decreases s.len() - i,
{
    if i < s.len() {
        let t = s.subrange(0, s.len() - 1);
        assert(all_dec_digits(t));
        assert(t =~= s.drop_last());
        lemma_dec_value_nonneg(t);
        assert(dec_value(s) == dec_value(t) * 10 + (s.last() as u32 - '0' as u32));
        assert(dec_value(t) <= dec_value(t) * 10);
        assert(t.subrange(0, i) =~= s.subrange(0, i));
        lemma_dec_value_prefix(t, i);
    } else {
        assert(s.subrange(0, i) =~= s);
    }
}

/// Parse a decimal amount. Succeeds exactly on non-empty all-digit strings
/// whose value fits in 64 bits, and then returns that value.
pub fn parse_amount(s: &str) -> (r: Result<u64, AmountError>)
    ensures
        r matches Ok(n) ==> is_amount(s@) && dec_value(s@) == n,
        r is Err <==> !(is_amount(s@) && dec_value(s@) <= u64::MAX),
{
    let n = s.unicode_len();
    if n == 0 {
        return Err(AmountError);
    }
    let mut acc: u64 = 0;
    let mut i: usize = 0;
    while i < n
        invariant
            0 < n == s@.len(),
            i <= n,
            forall|j: int| 0 <= j < i ==> is_dec_digit(s@[j]),
            acc == dec_value(s@.subrange(0, i as int)),
        decreases n - i,
    {
        let c = s.get_char(i);
        let u = c as u32;
        if !('0' as u32 <= u && u <= '9' as u32) {
            return Err(AmountError);
        }
        let d: u64 = (u - '0' as u32) as u64;
        if acc > (u64::MAX - d) / 10 {
            proof {
                let pre = s@.subrange(0, i as int + 1);
                assert(pre.drop_last() =~= s@.subrange(0, i as int));
                assert(pre.last() == s@[i as int]);
                assert(dec_value(pre) == acc * 10 + d);
                let q = (u64::MAX - d) / 10;
                vstd::arithmetic::div_mod::lemma_fundamental_div_mod(u64::MAX - d, 10);
                assert(u64::MAX - d == 10 * q + (u64::MAX - d) % 10);
                assert(acc >= q + 1);
                assert(acc * 10 >= (q + 1) * 10) by (nonlinear_arith)
                    requires
                        acc >= q + 1,
                ;
                assert(dec_value(pre) > u64::MAX);
                if i as int + 1 < s@.len() && is_amount(s@) {
                    lemma_dec_value_prefix(s@, i as int + 1);
                }
            }
            return Err(AmountError);
        }
        proof {
            let pre = s@.subrange(0, i as int + 1);
            assert(pre.drop_last() =~= s@.subrange(0, i as int));
            assert(pre.last() == s@[i as int]);
            let q = (u64::MAX - d) / 10;
            vstd::arithmetic::div_mod::lemma_fundamental_div_mod(u64::MAX - d, 10);
            assert(u64::MAX - d == 10 * q + (u64::MAX - d) % 10);
            assert(acc * 10 <= q * 10) by (nonlinear_arith)
                requires
                    acc <= q,
            ;
        }
        acc = acc * 10 + d;
        i = i + 1;
    }
    proof {
        assert(s@.subrange(0, n as int) =~= s@);
    }
    Ok(acc)
}

} // verus!
