//! Character classes and numeral values shared by the identifier formats.
//!
//! CUSIP, ISIN and IBAN all map characters to numeric values before running
//! their checksum arithmetic: decimal digits stand for themselves and letters
//! stand for their position in the alphabet plus 9 (`A` = 10 ... `Z` = 35).

use vstd::prelude::*;

verus! {

/// `c` is an ASCII decimal digit.
pub open spec fn is_digit(c: char) -> bool {
    48 <= c as u32 <= 57
}

/// Numeric value of an ASCII decimal digit.
pub open spec fn digit_val(c: char) -> int {
    c as u32 - 48
}

/// `c` is an ASCII uppercase letter.
pub open spec fn is_upper(c: char) -> bool {
    65 <= c as u32 <= 90
}

/// `c` is an ASCII lowercase letter.
pub open spec fn is_lower(c: char) -> bool {
    97 <= c as u32 <= 122
}

/// Numeral value of an uppercase letter: position in the alphabet plus 9.
pub open spec fn upper_val(c: char) -> int {
    c as u32 - 55
}

/// `c` is an ASCII digit or uppercase letter.
pub open spec fn is_upper_alnum(c: char) -> bool {
    is_digit(c) || is_upper(c)
}

/// Numeral value of a digit or uppercase letter (0-9, A=10 ... Z=35).
pub open spec fn upper_alnum_val(c: char) -> int {
    if is_digit(c) {
        digit_val(c)
    } else {
        upper_val(c)
    }
}

/// Sum of the two decimal digits of a value below 100.
pub open spec fn digsum(x: int) -> int {
    x / 10 + x % 10
}

/// Numeral expansion of a digit-or-uppercase-letter sequence: a digit
/// contributes itself, a letter contributes its two-digit numeral value.
pub open spec fn expand_alnum(s: Seq<char>) -> Seq<int>
    decreases s.len(),
{
    if s.len() == 0 {
        Seq::empty()
    } else {
        let rest = expand_alnum(s.drop_last());
        let c = s.last();
        if is_digit(c) {
            rest.push(digit_val(c))
        } else {
            rest.push(upper_val(c) / 10).push(upper_val(c) % 10)
        }
    }
}

/// Every element of the expansion of a well-formed sequence is a decimal digit.
pub proof fn lemma_expand_alnum_digits(s: Seq<char>)
    requires
        forall|i: int| 0 <= i < s.len() ==> is_upper_alnum(#[trigger] s[i]),
    ensures
        forall|j: int| 0 <= j < expand_alnum(s).len() ==> 0 <= #[trigger] expand_alnum(s)[j] < 10,
    decreases s.len(),
{
    if s.len() > 0 {
        assert(forall|i: int| 0 <= i < s.drop_last().len() ==> is_upper_alnum(
            #[trigger] s.drop_last()[i],
        ));
        lemma_expand_alnum_digits(s.drop_last());
        let rest = expand_alnum(s.drop_last());
        let c = s.last();
        assert(is_upper_alnum(c));
        if is_digit(c) {
            assert(forall|j: int|
                0 <= j < expand_alnum(s).len() ==> expand_alnum(s)[j] == rest.push(digit_val(c))[j]);
        } else {
            assert(1 <= upper_val(c) / 10 <= 3);
            assert(forall|j: int|
                0 <= j < expand_alnum(s).len() ==> expand_alnum(s)[j] == rest.push(
                    upper_val(c) / 10,
                ).push(upper_val(c) % 10)[j]);
        }
    }
}

/// Numeral expansion distributes over concatenation.
pub proof fn lemma_expand_alnum_append(a: Seq<char>, b: Seq<char>)
    ensures
        expand_alnum(a + b) == expand_alnum(a) + expand_alnum(b),
    decreases b.len(),
{
    if b.len() == 0 {
        assert(a + b =~= a);
        assert(expand_alnum(b) =~= Seq::<int>::empty());
        assert(expand_alnum(a) + expand_alnum(b) =~= expand_alnum(a));
    } else {
        let b0 = b.drop_last();
        lemma_expand_alnum_append(a, b0);
        assert((a + b).drop_last() =~= a + b0);
        assert((a + b).last() == b.last());
        let c = b.last();
        if is_digit(c) {
            assert(expand_alnum(a + b) =~= expand_alnum(a) + expand_alnum(b0).push(digit_val(c)));
            assert(expand_alnum(b) =~= expand_alnum(b0).push(digit_val(c)));
            assert(expand_alnum(a) + expand_alnum(b0).push(digit_val(c)) =~= expand_alnum(a)
                + expand_alnum(b));
        } else {
            let d1 = upper_val(c) / 10;
            let d2 = upper_val(c) % 10;
            assert(expand_alnum(a + b) =~= expand_alnum(a) + expand_alnum(b0).push(d1).push(d2));
            assert(expand_alnum(b) =~= expand_alnum(b0).push(d1).push(d2));
            assert(expand_alnum(a) + expand_alnum(b0).push(d1).push(d2) =~= expand_alnum(a)
                + expand_alnum(b));
        }
    }
}

/// Numeral expansion of a single character.
pub proof fn lemma_expand_alnum_singleton(c: char)
    ensures
        is_digit(c) ==> expand_alnum(seq![c]) == seq![digit_val(c)],
        !is_digit(c) ==> expand_alnum(seq![c]) == seq![upper_val(c) / 10, upper_val(c) % 10],
{
    reveal_with_fuel(expand_alnum, 2);
    let s = seq![c];
    assert(s.drop_last() =~= Seq::<char>::empty());
    assert(s.last() == c);
    if is_digit(c) {
        assert(expand_alnum(s) =~= seq![digit_val(c)]);
    } else {
        assert(expand_alnum(s) =~= seq![upper_val(c) / 10, upper_val(c) % 10]);
    }
}

/// The expansion of a sequence has at least one and at most two digits per character.
pub proof fn lemma_expand_alnum_len(s: Seq<char>)
    ensures
        s.len() <= expand_alnum(s).len() <= 2 * s.len(),
    decreases s.len(),
{
    if s.len() > 0 {
        lemma_expand_alnum_len(s.drop_last());
    }
}

/// The decimal-digit value of `c`, when `c` is a digit.
pub fn try_digit_val(c: char) -> (r: Option<u8>)
    ensures
        r matches Some(v) ==> is_digit(c) && v == digit_val(c),
        r is None <==> !is_digit(c),
{
    let u = c as u32;
    if 48 <= u && u <= 57 {
        Some((u - 48) as u8)
    } else {
        None
    }
}

/// The numeral value of `c`, when `c` is a digit or an uppercase letter.
pub fn try_upper_alnum_val(c: char) -> (r: Option<u8>)
    ensures
        r matches Some(v) ==> is_upper_alnum(c) && v == upper_alnum_val(c),
        r is None <==> !is_upper_alnum(c),
{
    let u = c as u32;
    if 48 <= u && u <= 57 {
        Some((u - 48) as u8)
    } else if 65 <= u && u <= 90 {
        Some((u - 55) as u8)
    } else {
        None
    }
}

/// `c` is an ASCII uppercase letter, decided in executable code.
pub fn char_is_upper(c: char) -> (r: bool)
    ensures
        r == is_upper(c),
{
    let u = c as u32;
    65 <= u && u <= 90
}

} // verus!
