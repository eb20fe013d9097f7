//! Rendering of an unsigned integer as its decimal ASCII digits, used to
//! build the per-page seed `"UsersPage_{index}"`.

use vstd::prelude::*;

verus! {

/// The decimal ASCII representation of `n`: most significant digit first,
/// no leading zeroes (a single `'0'` for zero).
pub open spec fn dec_rep(n: nat) -> Seq<u8>
    decreases n,
{
    if n < 10 {
        seq![(48 + n) as u8]
    } else {
        dec_rep(n / 10).push((48 + n % 10) as u8)
    }
}

/// Every byte of a decimal representation is an ASCII digit.
pub proof fn lemma_dec_rep_ascii(n: nat)
    ensures
        forall|i: int| 0 <= i < dec_rep(n).len() ==> 48 <= #[trigger] dec_rep(n)[i] <= 57,
    decreases n,
{
    if n >= 10 {
        lemma_dec_rep_ascii(n / 10);
        assert forall|i: int| 0 <= i < dec_rep(n).len() implies 48 <= #[trigger] dec_rep(n)[i]
            <= 57 by {
            if i < dec_rep(n / 10).len() {
                assert(dec_rep(n)[i] == dec_rep(n / 10)[i]);
            }
        }
    }
}

/// `pow10(k)` is ten to the `k`-th power.
pub open spec fn pow10(k: nat) -> nat
    decreases k,
{
    if k == 0 {
        1
    } else {
        10 * pow10((k - 1) as nat)
    }
}

/// A number below `pow10(k)` has at most `k` decimal digits.
pub proof fn lemma_dec_rep_len(n: nat, k: nat)
    requires
        1 <= k,
        n < pow10(k),
    ensures
        dec_rep(n).len() <= k,
    decreases n,
{
    if n >= 10 {
        assert(k >= 2) by {
            if k == 1 {
                assert(pow10(1nat) == 10);
            }
        }
        assert(n / 10 < pow10((k - 1) as nat)) by (nonlinear_arith)
            requires
                n < pow10(k),
                pow10(k) == 10 * pow10((k - 1) as nat),
                n >= 10,
        ;
        lemma_dec_rep_len(n / 10, (k - 1) as nat);
    }
}

/// Any `u64` has at most 20 decimal digits.
pub proof fn lemma_dec_rep_len_u64(n: u64)
    ensures
        dec_rep(n as nat).len() <= 20,
{
    assert(pow10(20nat) == 0x56bc75e2d63100000) by {
        reveal_with_fuel(pow10, 21);
    }
    lemma_dec_rep_len(n as nat, 20nat);
}

/// Reversing a sequence extended by one element puts that element first.
proof fn lemma_reverse_push(s: Seq<u8>, d: u8)
    ensures
        s.push(d).reverse() =~= seq![d] + s.reverse(),
{
    assert forall|j: int| 0 <= j < s.len() + 1 implies s.push(d).reverse()[j] == (seq![d]
        + s.reverse())[j] by {
        if j == 0 {
            assert(s.push(d).reverse()[0] == s.push(d)[s.len() as int]);
        } else {
            assert(s.push(d).reverse()[j] == s.push(d)[s.len() - j]);
            assert((seq![d] + s.reverse())[j] == s.reverse()[j - 1]);
            assert(s.reverse()[j - 1] == s[s.len() - j]);
        }
    }
}

/// Appends the decimal ASCII digits of `n` to `buf`.
pub fn push_decimal(buf: &mut Vec<u8>, n: u64)
    ensures
        final(buf)@ == old(buf)@ + dec_rep(n as nat),
{
    let ghost target: Seq<u8> = dec_rep(n as nat);
    let mut digits: Vec<u8> = Vec::new();
    let mut m: u64 = n;
    digits.push(48 + (m % 10) as u8);
    proof {
        lemma_reverse_push(Seq::<u8>::empty(), (48 + (n % 10) as u8) as u8);
        assert(Seq::<u8>::empty().reverse() =~= Seq::<u8>::empty());
        assert(digits@ =~= Seq::<u8>::empty().push((48 + (n % 10) as u8) as u8));
        if n < 10 {
            assert(digits@.reverse() =~= target);
        } else {
            assert(target =~= dec_rep((n / 10) as nat) + digits@.reverse());
        }
    }
    m = m / 10;
    while m > 0
        invariant
            m > 0 ==> target == dec_rep(m as nat) + digits@.reverse(),
            m == 0 ==> target == digits@.reverse(),
            target == dec_rep(n as nat),
        decreases m,
    {
        let d: u8 = 48 + (m % 10) as u8;
        let ghost old_digits: Seq<u8> = digits@;
        let ghost m_old: nat = m as nat;
        digits.push(d);
        proof {
            lemma_reverse_push(old_digits, d);
            assert(digits@ =~= old_digits.push(d));
            if m_old < 10 {
                assert(dec_rep(m_old) =~= seq![d]);
                assert(digits@.reverse() =~= seq![d] + old_digits.reverse());
                assert(target =~= digits@.reverse());
            } else {
                assert(dec_rep(m_old) == dec_rep(m_old / 10).push(d));
                assert(dec_rep(m_old / 10).push(d) =~= dec_rep(m_old / 10) + seq![d]);
                assert(target =~= dec_rep(m_old / 10) + digits@.reverse());
            }
        }
        m = m / 10;
    }
    let ghost rev: Seq<u8> = digits@.reverse();
    let mut i: usize = digits.len();
    while i > 0
        invariant
            i <= digits@.len(),
            rev == digits@.reverse(),
            rev == target,
            buf@ == old(buf)@ + rev.subrange(0, digits@.len() - i),
        decreases i,
    {
        i = i - 1;
        buf.push(digits[i]);
        proof {
            let k: int = digits@.len() - i - 1;
            assert(rev[k] == digits@[digits@.len() - 1 - k]);
            assert(rev.subrange(0, k + 1) =~= rev.subrange(0, k).push(rev[k]));
        }
    }
    proof {
        assert(rev.subrange(0, digits@.len() as int) =~= rev);
    }
}

} // verus!
