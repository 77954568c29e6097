//! ISIN recognizer: 12-character ISO 6166 international securities
//! identifiers, consisting of a 2-letter prefix, a 9-character alphanumeric
//! basic code (NSIN) and one numeric check digit.
//!
//! The check digit is derived by the double-add-double (Luhn) algorithm over
//! the numeral expansion of the first 11 characters: letters expand to the
//! two digits of their numeral value, the digits are processed right to left
//! with every second one doubled starting from the rightmost, the decimal
//! digits of the results are summed, and the check digit must equal
//! `(10 - sum % 10) % 10`.

use vstd::prelude::*;
use vstd::string::*;
use crate::charval::{
    digit_val, digsum, expand_alnum, is_digit, is_upper, is_upper_alnum,
    lemma_expand_alnum_digits, lemma_expand_alnum_len, try_digit_val, try_upper_alnum_val,
    char_is_upper,
};

verus! {

/// Reason a string was rejected as an ISIN.
#[derive(Clone, Copy, Debug, PartialEq, Eq)]
pub enum IsinError {
    /// The string is not exactly 12 characters long.
    InvalidLength,
    /// The prefix is not two uppercase letters, the basic code is not
    /// uppercase alphanumeric, or the check digit is not a digit.
    InvalidCharacter,
    /// The twelfth character does not equal the computed check digit.
    ChecksumMismatch,
}

/// The characters of `s` fit the ISIN grammar: two uppercase letters, nine
/// uppercase alphanumerics, one digit.
pub open spec fn isin_chars_ok(s: Seq<char>) -> bool {
    &&& is_upper(s[0])
    &&& is_upper(s[1])
    &&& forall|i: int| 2 <= i < 11 ==> is_upper_alnum(#[trigger] s[i])
    &&& is_digit(s[11])
}

/// Luhn contribution of digit position `i`: the digit, doubled when its
/// distance from the right end is even, with its decimal digits summed.
pub open spec fn luhn_contrib(ds: Seq<int>, i: int) -> int {
    if (ds.len() - 1 - i) % 2 == 0 {
        digsum(2 * ds[i])
    } else {
        digsum(ds[i])
    }
}

/// Sum of the Luhn contributions of positions `i` onward.
pub open spec fn luhn_from(ds: Seq<int>, i: int) -> int
    decreases ds.len() - i,
{
    if 0 <= i < ds.len() {
        luhn_contrib(ds, i) + luhn_from(ds, i + 1)
    } else {
        0
    }
}

/// Luhn double-add-double sum of a digit sequence.
pub open spec fn luhn_sum(ds: Seq<int>) -> int {
    luhn_from(ds, 0)
}

/// Check digit value derived from the first 11 characters of `s`.
pub open spec fn isin_check_digit_val(s: Seq<char>) -> int {
    (10 - luhn_sum(expand_alnum(s.subrange(0, 11))) % 10) % 10
}

/// `s` is a valid ISIN: 12 characters fitting the grammar, whose final
/// character is the check digit derived from the first eleven.
pub open spec fn isin_valid(s: Seq<char>) -> bool {
    &&& s.len() == 12
    &&& isin_chars_ok(s)
    &&& digit_val(s[11]) == isin_check_digit_val(s)
}

/// The error reported for an invalid ISIN candidate.
pub open spec fn isin_error(s: Seq<char>) -> IsinError
    recommends
        !isin_valid(s),
{
    if s.len() != 12 {
        IsinError::InvalidLength
    } else if !isin_chars_ok(s) {
        IsinError::InvalidCharacter
    } else {
        IsinError::ChecksumMismatch
    }
}

/// Run the ISIN grammar and checksum over `s` without building a result.
fn isin_scan(s: &str) -> (r: Result<(), IsinError>)
    ensures
        r is Ok <==> isin_valid(s@),
        r matches Err(e) ==> e == isin_error(s@),
{
    let n = s.unicode_len();
    if n != 12 {
        return Err(IsinError::InvalidLength);
    }
    if !char_is_upper(s.get_char(0)) || !char_is_upper(s.get_char(1)) {
        return Err(IsinError::InvalidCharacter);
    }
    let mut i: usize = 2;
    while i < 11
        invariant
            2 <= i <= 11,
            s@.len() == 12,
            forall|j: int| 2 <= j < i ==> is_upper_alnum(#[trigger] s@[j]),
        decreases 11 - i,
    {
        if try_upper_alnum_val(s.get_char(i)).is_none() {
            return Err(IsinError::InvalidCharacter);
        }
        i += 1;
    }
    let cdv: u8 = match try_digit_val(s.get_char(11)) {
        Some(v) => v,
        None => {
            return Err(IsinError::InvalidCharacter);
        },
    };
    // Expand the 11-character payload into its numeral digits.
    let mut digits: Vec<u8> = Vec::new();
    let mut i: usize = 0;
    while i < 11
        invariant
            i <= 11,
            s@.len() == 12,
            is_upper(s@[0]),
            is_upper(s@[1]),
            forall|j: int| 2 <= j < 11 ==> is_upper_alnum(#[trigger] s@[j]),
            digits@.map_values(|d: u8| d as int) == expand_alnum(s@.subrange(0, i as int)),
        decreases 11 - i,
    {
        let c = s.get_char(i);
        let v: u8 = match try_upper_alnum_val(c) {
            Some(v) => v,
            None => {
                proof {
                    assert(false);
                }
                0
            },
        };
        proof {
            assert(s@.subrange(0, i + 1).drop_last() =~= s@.subrange(0, i as int));
            assert(s@.subrange(0, i + 1).last() == s@[i as int]);
        }
        if v < 10 {
            digits.push(v);
        } else {
            digits.push(v / 10);
            digits.push(v % 10);
        }
        proof {
            assert(digits@.map_values(|d: u8| d as int) =~= expand_alnum(
                s@.subrange(0, i + 1),
            ));
        }
        i += 1;
    }
    proof {
        assert(s@.subrange(0, 11) =~= s@.subrange(0, 11int));
        assert(forall|j: int|
            0 <= j < 11 ==> is_upper_alnum(#[trigger] s@.subrange(0, 11int)[j]));
        lemma_expand_alnum_digits(s@.subrange(0, 11int));
        lemma_expand_alnum_len(s@.subrange(0, 11int));
    }
    let ghost ds = expand_alnum(s@.subrange(0, 11int));
    let n = digits.len();
    let mut sum: u32 = 0;
    let mut k: usize = n;
    while k > 0
        invariant
            k <= n,
            n == digits@.len(),
            n <= 22,
            digits@.map_values(|d: u8| d as int) == ds,
            forall|j: int| 0 <= j < ds.len() ==> 0 <= #[trigger] ds[j] < 10,
            sum == luhn_from(ds, k as int),
            sum <= (n - k) * 9,
        decreases k,
    {
        k -= 1;
        let d = digits[k];
        assert(d == ds[k as int]);
        assert(d < 10);
        let vv: u32 = if (n - 1 - k) % 2 == 0 {
            2 * (d as u32)
        } else {
            d as u32
        };
        assert(vv <= 18);
        assert(vv / 10 + vv % 10 <= 9);
        sum = sum + vv / 10 + vv % 10;
    }
    let check: u32 = (10 - sum % 10) % 10;
    if cdv as u32 != check {
        return Err(IsinError::ChecksumMismatch);
    }
    Ok(())
}

/// Boolean-only fast path: whether `s` is a valid ISIN.
pub fn validate(s: &str) -> (r: bool)
    ensures
        r == isin_valid(s@),
{
    isin_scan(s).is_ok()
}

/// A successfully recognized ISIN. The embedded check digit is guaranteed to
/// verify against the payload under the double-add-double algorithm.
#[derive(Debug)]
pub struct Isin {
    s: String,
}

impl View for Isin {
    type V = Seq<char>;

    closed spec fn view(&self) -> Seq<char> {
        self.s@
    }
}

impl Isin {
    #[verifier::type_invariant]
    spec fn inv(self) -> bool {
        isin_valid(self.s@)
    }

    /// Recognize `s` as an ISIN, or report why it is not one.
    pub fn parse(s: &str) -> (r: Result<Isin, IsinError>)
        ensures
            r matches Ok(x) ==> isin_valid(s@) && x@ == s@,
            r matches Err(e) ==> !isin_valid(s@) && e == isin_error(s@),
    {
        match isin_scan(s) {
            Ok(_) => Ok(Isin { s: s.to_owned() }),
            Err(e) => Err(e),
        }
    }

    /// The 2-letter country or supranational prefix.
    pub fn prefix(&self) -> (r: String)
        ensures
            r@ == self@.subrange(0, 2),
    {
        proof {
            use_type_invariant(&*self);
        }
        self.s.as_str().substring_char(0, 2).to_owned()
    }

    /// The 9-character basic code (NSIN).
    pub fn basic_code(&self) -> (r: String)
        ensures
            r@ == self@.subrange(2, 11),
    {
        proof {
            use_type_invariant(&*self);
        }
        self.s.as_str().substring_char(2, 11).to_owned()
    }

    /// The check digit (position 12).
    pub fn check_digit(&self) -> (r: char)
        ensures
            r == self@[11],
    {
        proof {
            use_type_invariant(&*self);
        }
        self.s.as_str().get_char(11)
    }

    /// The check digit as a 1-character string.
    pub fn check_digit_str(&self) -> (r: String)
        ensures
            r@ == self@.subrange(11, 12),
    {
        proof {
            use_type_invariant(&*self);
        }
        self.s.as_str().substring_char(11, 12).to_owned()
    }
}

/// For every valid ISIN, the double-add-double algorithm over the numeral
/// expansion of the 11-character payload reproduces the twelfth character.
pub proof fn lemma_isin_check_digit_round_trip(s: Seq<char>)
    requires
        isin_valid(s),
    ensures
        digit_val(s[11]) == (10 - luhn_sum(expand_alnum(s.subrange(0, 11))) % 10) % 10,
        0 <= digit_val(s[11]) <= 9,
{
}

} // verus!
