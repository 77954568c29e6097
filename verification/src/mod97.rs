//! Incremental modulus-97 arithmetic over decimal digit sequences, as used by
//! the IBAN checksum: the digits are folded left to right against a running
//! remainder, which equals the remainder of the whole number they spell.

use vstd::prelude::*;
use vstd::arithmetic::div_mod::{
    lemma_add_mod_noop, lemma_mod_add_multiples_vanish, lemma_mod_multiples_vanish,
    lemma_mul_mod_noop_left, lemma_small_mod, lemma_sub_mod_noop,
};

verus! {

/// Remainder modulo 97 of the decimal number spelled by `ds`, computed one
/// digit at a time against a running remainder.
pub open spec fn mod97_fold(ds: Seq<int>) -> int
    decreases ds.len(),
{
    if ds.len() == 0 {
        0
    } else {
        (mod97_fold(ds.drop_last()) * 10 + ds.last()) % 97
    }
}

/// The decimal number spelled by `ds`.
pub open spec fn decimal_num(ds: Seq<int>) -> int
    decreases ds.len(),
{
    if ds.len() == 0 {
        0
    } else {
        decimal_num(ds.drop_last()) * 10 + ds.last()
    }
}

/// The power of ten with exponent `k`.
pub open spec fn pow10(k: nat) -> int
    decreases k,
{
    if k == 0 {
        1
    } else {
        10 * pow10((k - 1) as nat)
    }
}

/// The decimal number spelled by one digit.
pub proof fn lemma_decimal_num_one(x: int)
    ensures
        decimal_num(seq![x]) == x,
{
    reveal_with_fuel(decimal_num, 2);
    assert(seq![x].drop_last() =~= Seq::<int>::empty());
}

/// The decimal number spelled by two digits.
pub proof fn lemma_decimal_num_two(x: int, y: int)
    ensures
        decimal_num(seq![x, y]) == x * 10 + y,
{
    assert(seq![x, y].drop_last() =~= seq![x]);
    lemma_decimal_num_one(x);
}

/// The incremental fold equals the remainder of the whole number.
pub proof fn lemma_mod97_fold_is_mod(ds: Seq<int>)
    ensures
        mod97_fold(ds) == decimal_num(ds) % 97,
    decreases ds.len(),
{
    if ds.len() == 0 {
    } else {
        lemma_mod97_fold_is_mod(ds.drop_last());
        let a = decimal_num(ds.drop_last());
        let d = ds.last();
        assert(((a % 97) * 10 + d) % 97 == (a * 10 + d) % 97) by {
            lemma_mul_mod_noop_left(a, 10, 97);
            lemma_add_mod_noop((a % 97) * 10, d, 97);
            lemma_add_mod_noop(a * 10, d, 97);
        };
    }
}

/// Appending digit sequences multiplies the left number by a power of ten.
pub proof fn lemma_decimal_num_append(a: Seq<int>, b: Seq<int>)
    ensures
        decimal_num(a + b) == decimal_num(a) * pow10(b.len()) + decimal_num(b),
    decreases b.len(),
{
    if b.len() == 0 {
        assert(a + b =~= a);
    } else {
        let b0 = b.drop_last();
        lemma_decimal_num_append(a, b0);
        assert((a + b).drop_last() =~= a + b0);
        assert((a + b).last() == b.last());
        let x = decimal_num(a);
        let p0 = pow10(b0.len());
        assert((x * p0) * 10 == x * (10 * p0)) by (nonlinear_arith);
        assert(pow10(b.len()) == 10 * p0);
    }
}

/// A nonzero multiple of a power of ten by a factor in `(-97, 97)` is not
/// divisible by 97: dividing out tens preserves divisibility of the factor.
pub proof fn lemma_mod97_pow10_cancel(x: int, k: nat)
    requires
        (x * pow10(k)) % 97 == 0,
    ensures
        x % 97 == 0,
    decreases k,
{
    if k == 0 {
        assert(x * 1 == x) by (nonlinear_arith);
    } else {
        let p0 = pow10((k - 1) as nat);
        assert(pow10(k) == 10 * p0);
        assert(x * (10 * p0) == (x * 10) * p0) by (nonlinear_arith);
        lemma_mod97_pow10_cancel(x * 10, (k - 1) as nat);
        // (x * 10) % 97 == 0; multiply by 68 (10 * 68 = 680 = 7 * 97 + 1).
        let y = x * 10;
        lemma_mul_mod_noop_left(y, 68, 97);
        assert((y * 68) % 97 == 0);
        assert((x * 10) * 68 == 97 * (7 * x) + x) by (nonlinear_arith);
        lemma_mod_multiples_vanish(7 * x, x, 97);
    }
}

/// The remainder modulo 97 of a number strictly between -97 and 97 vanishes
/// only for zero.
pub proof fn lemma_mod97_small_nonzero(c: int)
    requires
        -97 < c < 97,
        c != 0,
    ensures
        c % 97 != 0,
{
    if c > 0 {
        lemma_small_mod(c as nat, 97);
    } else {
        lemma_mod_add_multiples_vanish(c, 97);
        lemma_small_mod((c + 97) as nat, 97);
    }
}

/// Two digit sequences that agree outside a window whose spelled values
/// differ by less than 97 have different remainders modulo 97: this is why
/// the IBAN check catches every single-position error.
pub proof fn lemma_mod97_window(a: Seq<int>, m1: Seq<int>, m2: Seq<int>, b: Seq<int>)
    requires
        m1.len() == m2.len(),
        decimal_num(m1) != decimal_num(m2),
        -97 < decimal_num(m1) - decimal_num(m2) < 97,
    ensures
        mod97_fold(a + m1 + b) != mod97_fold(a + m2 + b),
{
    lemma_mod97_fold_is_mod(a + m1 + b);
    lemma_mod97_fold_is_mod(a + m2 + b);
    lemma_decimal_num_append(a, m1);
    lemma_decimal_num_append(a + m1, b);
    lemma_decimal_num_append(a, m2);
    lemma_decimal_num_append(a + m2, b);
    let x1 = decimal_num(a + m1);
    let x2 = decimal_num(a + m2);
    let n1 = decimal_num(a + m1 + b);
    let n2 = decimal_num(a + m2 + b);
    let c = decimal_num(m1) - decimal_num(m2);
    let pk = pow10(b.len());
    assert(x1 - x2 == c);
    assert((x1 * pk + decimal_num(b)) - (x2 * pk + decimal_num(b)) == (x1 - x2) * pk)
        by (nonlinear_arith);
    assert(n1 - n2 == c * pk);
    if n1 % 97 == n2 % 97 {
        lemma_sub_mod_noop(n1, n2, 97);
        assert((n1 - n2) % 97 == ((n1 % 97) - (n2 % 97)) % 97);
        assert((n1 - n2) % 97 == 0);
        lemma_mod97_pow10_cancel(c, b.len());
        lemma_mod97_small_nonzero(c);
        assert(false);
    }
}

} // verus!
