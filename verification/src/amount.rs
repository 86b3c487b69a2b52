//! Conversion of a credits amount, written as a decimal numeral, into
//! microcredits (1 credit = 1,000,000 microcredits), truncating toward
//! zero; and validation of a requested amount against a funding record.

use vstd::prelude::*;
use vstd::arithmetic::div_mod::lemma_fundamental_div_mod_converse_div;
use crate::errors::TransferError;
use crate::record::Record;

verus! {

/// Whether a byte is an ASCII decimal digit.
pub open spec fn is_digit_byte(c: u8) -> bool {
    0x30 <= c && c <= 0x39
}

/// The numeric value of an ASCII digit byte.
pub open spec fn digit_val(c: u8) -> nat {
    (c - 0x30) as nat
}

/// Whether every byte of the sequence is an ASCII digit.
pub open spec fn all_digits(s: Seq<u8>) -> bool {
    forall|i: int| 0 <= i < s.len() ==> is_digit_byte(s[i])
}

/// The base-ten value of a digit sequence, most significant digit first.
pub open spec fn digits_value(s: Seq<u8>) -> nat
    decreases s.len(),
{
    if s.len() == 0 {
        0
    } else {
        digits_value(s.drop_last()) * 10 + digit_val(s.last())
    }
}

/// Ten to the `n`.
pub open spec fn pow10(n: nat) -> nat
    decreases n,
{
    if n == 0 {
        1nat
    } else {
        10 * pow10((n - 1) as nat)
    }
}

/// Whether `k` is the position of the decimal point of a well-formed
/// numeral: digits before it (at least one), digits after it (at least one).
pub open spec fn is_dot_split(s: Seq<u8>, k: int) -> bool {
    &&& 1 <= k
    &&& k + 1 < s.len()
    &&& s[k] == 0x2eu8
    &&& all_digits(s.take(k))
    &&& all_digits(s.skip(k + 1))
}

/// A well-formed decimal numeral: one or more digits, optionally followed
/// by a decimal point and one or more digits.
pub open spec fn valid_decimal(s: Seq<u8>) -> bool {
    (s.len() >= 1 && all_digits(s)) || (exists|k: int| is_dot_split(s, k))
}

/// The fractional digits padded or truncated to exactly six places.
pub open spec fn padded6(f: Seq<u8>) -> Seq<u8> {
    if f.len() >= 6 {
        f.take(6)
    } else {
        f + Seq::new((6 - f.len()) as nat, |i: int| 0x30u8)
    }
}

/// The microcredits contributed by the fractional part: its first six
/// digits, scaled to six places; further digits are truncated.
pub open spec fn frac_micro(f: Seq<u8>) -> nat {
    digits_value(padded6(f))
}

/// The value of a well-formed decimal numeral of credits, in microcredits,
/// truncating toward zero.
pub open spec fn decimal_micro(s: Seq<u8>) -> nat {
    if all_digits(s) {
        digits_value(s) * 1_000_000
    } else {
        let k = choose|k: int| is_dot_split(s, k);
        digits_value(s.take(k)) * 1_000_000 + frac_micro(s.skip(k + 1))
    }
}

/// Appending one digit multiplies the value by ten and adds the digit.
proof fn lemma_digits_take_step(s: Seq<u8>, j: int)
    requires
        0 <= j < s.len(),
    ensures
        digits_value(s.take(j + 1)) == digits_value(s.take(j)) * 10 + digit_val(s[j]),
{
    assert(s.take(j + 1).drop_last() =~= s.take(j));
    assert(s.take(j + 1).last() == s[j]);
}

/// The value of a prefix never exceeds the value of a longer prefix.
proof fn lemma_digits_take_le(s: Seq<u8>, i: int, j: int)
    requires
        0 <= i <= j <= s.len(),
    ensures
        digits_value(s.take(i)) <= digits_value(s.take(j)),
    decreases j - i,
{
    if i < j {
        lemma_digits_take_le(s, i, j - 1);
        lemma_digits_take_step(s, j - 1);
    }
}

/// Ten to the `n` grows with `n`.
proof fn lemma_pow10_le(a: nat, b: nat)
    requires
        a <= b,
    ensures
        pow10(a) <= pow10(b),
    decreases b,
{
    if a < b {
        lemma_pow10_le(a, (b - 1) as nat);
        assert(pow10(b) == 10 * pow10((b - 1) as nat));
    }
}

/// Ten to the `n` is positive.
proof fn lemma_pow10_pos(n: nat)
    ensures
        pow10(n) >= 1,
    decreases n,
{
    if n > 0 {
        lemma_pow10_pos((n - 1) as nat);
    }
}

/// Exponents of ten add.
proof fn lemma_pow10_add(a: nat, b: nat)
    ensures
        pow10(a + b) == pow10(a) * pow10(b),
    decreases b,
{
    if b == 0 {
        assert(pow10(a + 0) == pow10(a) * 1);
    } else {
        lemma_pow10_add(a, (b - 1) as nat);
        assert(pow10(a + b) == 10 * pow10((a + b - 1) as nat));
        assert(10 * (pow10(a) * pow10((b - 1) as nat)) == pow10(a) * (10 * pow10(
            (b - 1) as nat,
        ))) by (nonlinear_arith);
    }
}

/// A digit sequence's value is below ten to its length.
proof fn lemma_digits_value_bound(s: Seq<u8>)
    requires
        all_digits(s),
    ensures
        digits_value(s) < pow10(s.len()),
    decreases s.len(),
{
    if s.len() > 0 {
        assert(forall|i: int| 0 <= i < s.drop_last().len() ==> s.drop_last()[i] == s[i]);
        lemma_digits_value_bound(s.drop_last());
        assert(digit_val(s.last()) <= 9);
        assert(pow10(s.len()) == 10 * pow10((s.len() - 1) as nat));
    }
}

/// Appending zeros multiplies a digit sequence's value by ten per zero.
proof fn lemma_append_zeros(f: Seq<u8>, k: nat)
    ensures
        digits_value(f + Seq::new(k, |i: int| 0x30u8)) == digits_value(f) * pow10(k),
    decreases k,
{
    if k == 0 {
        assert(f + Seq::new(0, |i: int| 0x30u8) =~= f);
    } else {
        lemma_append_zeros(f, (k - 1) as nat);
        let s = f + Seq::new(k, |i: int| 0x30u8);
        assert(s.drop_last() =~= f + Seq::new((k - 1) as nat, |i: int| 0x30u8));
        assert(s.last() == 0x30u8);
        assert((digits_value(f) * pow10((k - 1) as nat)) * 10 == digits_value(f) * (10 * pow10(
            (k - 1) as nat,
        ))) by (nonlinear_arith);
    }
}

/// Splitting a digit sequence splits its value positionally.
proof fn lemma_digits_split(f: Seq<u8>, j: int)
    requires
        0 <= j <= f.len(),
    ensures
        digits_value(f) == digits_value(f.take(j)) * pow10((f.len() - j) as nat) + digits_value(
            f.skip(j),
        ),
    decreases f.len() - j,
{
    if j == f.len() {
        assert(f.take(j) =~= f);
        assert(f.skip(j) =~= Seq::<u8>::empty());
        assert(digits_value(f) * 1 == digits_value(f));
    } else {
        let dl = f.drop_last();
        lemma_digits_split(dl, j);
        assert(dl.take(j) =~= f.take(j));
        assert(dl.skip(j) =~= f.skip(j).drop_last());
        assert(f.skip(j).last() == f.last());
        let a = digits_value(f.take(j));
        let p = pow10((f.len() - 1 - j) as nat);
        assert(pow10((f.len() - j) as nat) == 10 * p);
        assert((a * p + digits_value(dl.skip(j))) * 10 + digit_val(f.last()) == a * (10 * p) + (
        digits_value(dl.skip(j)) * 10 + digit_val(f.last()))) by (nonlinear_arith);
    }
}

/// The value of a numeral with a decimal point, in microcredits, is
/// exactly its rational value scaled by one million and truncated toward
/// zero: for whole part `I` and fractional digits `F`, it is
/// `(I * 10^|F| + F) * 1_000_000 / 10^|F|` under euclidean division.
/// (A numeral without a decimal point scales exactly, with nothing to
/// truncate.)
pub proof fn lemma_decimal_micro_is_floor(s: Seq<u8>, k: int)
    requires
        is_dot_split(s, k),
    ensures
        decimal_micro(s) == (digits_value(s.take(k)) * pow10(s.skip(k + 1).len()) + digits_value(
            s.skip(k + 1),
        )) * 1_000_000 / pow10(s.skip(k + 1).len()),
{
    let f = s.skip(k + 1);
    let fl = f.len();
    let iv = digits_value(s.take(k));
    let fv = digits_value(f);
    let d = pow10(fl);
    let q = frac_micro(f);
    lemma_pow10_pos(fl);
    assert(pow10(0) == 1);
    assert(pow10(1) == 10);
    assert(pow10(2) == 100);
    assert(pow10(3) == 1000);
    assert(pow10(4) == 10000);
    assert(pow10(5) == 100000);
    assert(pow10(6) == 1000000);
    assert(!is_digit_byte(s[k]));
    assert(!all_digits(s));
    let k0 = choose|k0: int| is_dot_split(s, k0);
    lemma_dot_split_unique(s, k0, k);
    assert(decimal_micro(s) == iv * 1_000_000 + q);
    let total = (iv * d + fv) * 1_000_000;
    if fl >= 6 {
        lemma_digits_split(f, 6);
        let rest = digits_value(f.skip(6));
        assert(forall|i: int| 0 <= i < f.skip(6).len() ==> f.skip(6)[i] == f[i + 6]);
        lemma_digits_value_bound(f.skip(6));
        lemma_pow10_add(6, (fl - 6) as nat);
        assert(q == digits_value(f.take(6)));
        assert(fv == q * pow10((fl - 6) as nat) + rest);
        assert(total == (iv * 1_000_000 + q) * d + rest * 1_000_000) by (nonlinear_arith)
            requires
                total == (iv * d + fv) * 1_000_000,
                fv == q * pow10((fl - 6) as nat) + rest,
                d == 1_000_000 * pow10((fl - 6) as nat),
        ;
        assert(rest * 1_000_000 < d) by (nonlinear_arith)
            requires
                rest < pow10((fl - 6) as nat),
                d == 1_000_000 * pow10((fl - 6) as nat),
        ;
        lemma_fundamental_div_mod_converse_div(
            total as int,
            d as int,
            (iv * 1_000_000 + q) as int,
            (rest * 1_000_000) as int,
        );
    } else {
        lemma_append_zeros(f, (6 - fl) as nat);
        assert(padded6(f) == f + Seq::new((6 - fl) as nat, |i: int| 0x30u8));
        assert(q == fv * pow10((6 - fl) as nat));
        lemma_pow10_add(fl, (6 - fl) as nat);
        assert(total == (iv * 1_000_000 + q) * d + 0) by (nonlinear_arith)
            requires
                total == (iv * d + fv) * 1_000_000,
                q == fv * pow10((6 - fl) as nat),
                1_000_000 == d * pow10((6 - fl) as nat),
        ;
        lemma_fundamental_div_mod_converse_div(
            total as int,
            d as int,
            (iv * 1_000_000 + q) as int,
            0,
        );
    }
}

/// A numeral has at most one decimal point position.
proof fn lemma_dot_split_unique(s: Seq<u8>, k1: int, k2: int)
    requires
        is_dot_split(s, k1),
        is_dot_split(s, k2),
    ensures
        k1 == k2,
{
    if k1 < k2 {
        assert(s.take(k2)[k1] == s[k1]);
        assert(!is_digit_byte(s[k1]));
    } else if k2 < k1 {
        assert(s.take(k1)[k2] == s[k2]);
        assert(!is_digit_byte(s[k2]));
    }
}

/// A position holding neither a digit nor a well-placed decimal point
/// rules out every split.
proof fn lemma_no_split(s: Seq<u8>, p: int)
    requires
        0 <= p < s.len(),
        !is_digit_byte(s[p]),
        forall|k: int| is_dot_split(s, k) ==> k != p,
    ensures
        !valid_decimal(s),
{
    assert(!all_digits(s));
    assert forall|k: int| !is_dot_split(s, k) by {
        if is_dot_split(s, k) {
            if p < k {
                assert(s.take(k)[p] == s[p]);
            } else if p > k {
                assert(s.skip(k + 1)[p - (k + 1)] == s[p]);
            }
        }
    }
}

/// Parses a non-negative decimal numeral of credits into microcredits,
/// scaling by 1,000,000 and truncating toward zero. Rejects with
/// `InvalidInputs` any byte string that is not a well-formed numeral, and
/// any value that does not fit in a `u64`.
pub fn parse_credits(s: &[u8]) -> (r: Result<u64, TransferError>)
    ensures
        match r {
            Ok(m) => valid_decimal(s@) && m == decimal_micro(s@),
            Err(e) => e == TransferError::InvalidInputs && (!valid_decimal(s@)
                || decimal_micro(s@) > u64::MAX),
        },
{
    let n = s.len();
    let mut i: usize = 0;
    let mut dot: usize = n;
    while i < n
        invariant
            n == s@.len(),
            0 <= i <= n,
            dot <= n,
            dot == n ==> all_digits(s@.take(i as int)),
            dot < n ==> {
                &&& 1 <= dot < i
                &&& s@[dot as int] == 0x2eu8
                &&& all_digits(s@.take(dot as int))
                &&& all_digits(s@.subrange(dot as int + 1, i as int))
            },
        decreases n - i,
    {
        let c = s[i];
        if c == 0x2e {
            if dot == n && i >= 1 {
                dot = i;
            } else if dot == n {
                // leading decimal point: no digits before it
                proof {
                    assert(i == 0);
                    lemma_no_split(s@, 0);
                }
                return Err(TransferError::InvalidInputs);
            } else {
                // a second decimal point
                proof {
                    let d = dot as int;
                    let p = i as int;
                    assert(!all_digits(s@));
                    assert forall|k: int| !is_dot_split(s@, k) by {
                        if is_dot_split(s@, k) {
                            if k < d {
                                assert(s@.skip(k + 1)[d - (k + 1)] == s@[d]);
                            } else if k == d {
                                assert(s@.skip(k + 1)[p - (k + 1)] == s@[p]);
                            } else {
                                assert(s@.take(k)[d] == s@[d]);
                            }
                        }
                    }
                }
                return Err(TransferError::InvalidInputs);
            }
        } else if c < 0x30 || c > 0x39 {
            proof {
                let p = i as int;
                assert forall|k: int| is_dot_split(s@, k) implies k != p by {
                    if is_dot_split(s@, k) && k == p {
                        assert(s@[k] == 0x2eu8);
                    }
                }
                lemma_no_split(s@, p);
            }
            return Err(TransferError::InvalidInputs);
        }
        proof {
            if dot == n {
                assert(s@.take(i + 1).drop_last() =~= s@.take(i as int));
                assert(s@.take(i + 1).last() == s@[i as int]);
            } else if dot < i {
                assert(s@.subrange(dot as int + 1, i + 1).drop_last() =~= s@.subrange(
                    dot as int + 1,
                    i as int,
                ));
                assert(s@.subrange(dot as int + 1, i + 1).last() == s@[i as int]);
            } else {
                assert(s@.subrange(dot as int + 1, i + 1) =~= Seq::<u8>::empty());
            }
        }
        i = i + 1;
    }
    if n == 0 {
        proof {
            assert(!valid_decimal(s@));
        }
        return Err(TransferError::InvalidInputs);
    }
    if dot < n && dot + 1 == n {
        // trailing decimal point: no digits after it
        proof {
            let d = dot as int;
            assert(!all_digits(s@));
            assert forall|k: int| !is_dot_split(s@, k) by {
                if is_dot_split(s@, k) {
                    if k < d {
                        assert(s@.skip(k + 1)[d - (k + 1)] == s@[d]);
                    } else if k > d {
                        assert(s@.take(k)[d] == s@[d]);
                    }
                }
            }
        }
        return Err(TransferError::InvalidInputs);
    }
    let ilen = if dot < n { dot } else { n };
    proof {
        if dot < n {
            assert(s@.subrange(dot as int + 1, n as int) =~= s@.skip(dot as int + 1));
            assert(is_dot_split(s@, dot as int));
        } else {
            assert(s@.take(n as int) =~= s@);
        }
        assert(all_digits(s@.take(ilen as int)));
    }
    // Accumulate the whole-credit digits; once the value exceeds u64::MAX
    // the amount can only grow, so stop accumulating exactly.
    let max64: u128 = 18_446_744_073_709_551_615;
    let mut iv: u128 = 0;
    let mut i: usize = 0;
    while i < ilen && iv <= max64
        invariant
            max64 == u64::MAX,
            n == s@.len(),
            ilen <= n,
            all_digits(s@.take(ilen as int)),
            0 <= i <= ilen,
            iv == digits_value(s@.take(i as int)),
            iv <= max64 * 10 + 9,
        decreases ilen - i,
    {
        let c = s[i];
        proof {
            assert(s@.take(ilen as int)[i as int] == s@[i as int]);
            lemma_digits_take_step(s@, i as int);
        }
        iv = iv * 10 + (c - 0x30) as u128;
        i = i + 1;
    }
    if iv > max64 {
        proof {
            lemma_digits_take_le(s@, i as int, ilen as int);
            let whole = digits_value(s@.take(ilen as int));
            assert(whole > u64::MAX);
            assert(whole * 1_000_000 >= whole * 1) by (nonlinear_arith)
                requires whole >= 0;
            if dot < n {
                let k = choose|j: int| is_dot_split(s@, j);
                lemma_dot_split_unique(s@, k, dot as int);
                assert(decimal_micro(s@) >= whole * 1_000_000);
            } else {
                assert(decimal_micro(s@) == whole * 1_000_000);
            }
        }
        return Err(TransferError::InvalidInputs);
    }
    proof {
        lemma_digits_take_le(s@, i as int, ilen as int);
        assert(i == ilen);
    }
    // Accumulate exactly six fractional places, padding with zeros.
    let flen = if dot < n { n - dot - 1 } else { 0 };
    let mut fm: u64 = 0;
    let mut j: usize = 0;
    while j < 6
        invariant
            n == s@.len(),
            dot <= n,
            dot < n ==> 1 <= dot && dot + 1 + flen == n && is_dot_split(s@, dot as int),
            dot == n ==> flen == 0,
            0 <= j <= 6,
            dot < n ==> fm == digits_value(padded6(s@.skip(dot as int + 1)).take(j as int)),
            dot == n ==> fm == 0,
            fm < pow10(j as nat),
        decreases 6 - j,
    {
        proof {
            assert(pow10(j as nat + 1) == 10 * pow10(j as nat));
            assert(pow10(0) == 1);
            assert(pow10(1) == 10);
            assert(pow10(2) == 100);
            assert(pow10(3) == 1000);
            assert(pow10(4) == 10000);
            assert(pow10(5) == 100000);
            assert(pow10(6) == 1000000);
            lemma_pow10_le(j as nat + 1, 6);
            assert(fm * 10 + 9 < pow10(j as nat + 1)) by (nonlinear_arith)
                requires
                    fm < pow10(j as nat),
                    pow10(j as nat + 1) == 10 * pow10(j as nat),
            ;
        }
        if dot < n && j < flen {
            let c = s[dot + 1 + j];
            proof {
                let f = s@.skip(dot as int + 1);
                assert(f[j as int] == s@[dot as int + 1 + j]);
                assert(all_digits(f));
                assert(padded6(f)[j as int] == f[j as int]);
                lemma_digits_take_step(padded6(f), j as int);
                assert(is_digit_byte(padded6(f)[j as int]));
            }
            fm = fm * 10 + (c - 0x30) as u64;
        } else {
            proof {
                if dot < n {
                    let f = s@.skip(dot as int + 1);
                    assert(padded6(f)[j as int] == 0x30u8);
                    lemma_digits_take_step(padded6(f), j as int);
                }
            }
            fm = fm * 10;
        }
        j = j + 1;
    }
    proof {
        assert(pow10(0) == 1);
        assert(pow10(1) == 10);
        assert(pow10(2) == 100);
        assert(pow10(3) == 1000);
        assert(pow10(4) == 10000);
        assert(pow10(5) == 100000);
        assert(pow10(6) == 1000000);
        if dot < n {
            let f = s@.skip(dot as int + 1);
            assert(padded6(f).take(6) =~= padded6(f));
            assert(fm == frac_micro(f));
        }
    }
    let total: u128 = iv * 1_000_000 + fm as u128;
    proof {
        let whole = digits_value(s@.take(ilen as int));
        if dot < n {
            assert(!is_digit_byte(s@[dot as int]));
            assert(!all_digits(s@));
            assert(valid_decimal(s@));
            let k = choose|j0: int| is_dot_split(s@, j0);
            lemma_dot_split_unique(s@, k, dot as int);
            assert(decimal_micro(s@) == whole * 1_000_000 + frac_micro(
                s@.skip(dot as int + 1),
            ));
        } else {
            assert(s@.take(ilen as int) =~= s@);
            assert(decimal_micro(s@) == whole * 1_000_000);
        }
        assert(total == decimal_micro(s@));
    }
    if total > max64 {
        return Err(TransferError::InvalidInputs);
    }
    Ok(total as u64)
}

/// Validates a requested amount, in microcredits, against a funding
/// record: the record must hold a `microcredits` field at least as large
/// as the request, otherwise the call fails with `InsufficientFunds`
/// before any execution is attempted.
pub fn validate_amount(amount_microcredits: u64, record: &Record) -> (r: Result<
    u64,
    TransferError,
>)
    ensures
        match r {
            Ok(m) => m == amount_microcredits && (record.spec_microcredits() matches Some(v)
                && amount_microcredits <= v),
            Err(e) => (record.spec_microcredits() is None && e == TransferError::InvalidInputs) || (
            record.spec_microcredits() matches Some(v) && amount_microcredits > v && e
                == TransferError::InsufficientFunds),
        },
{
    match record.microcredits() {
        Ok(v) => {
            if amount_microcredits <= v {
                Ok(amount_microcredits)
            } else {
                Err(TransferError::InsufficientFunds)
            }
        },
        Err(e) => Err(e),
    }
}

} // verus!
