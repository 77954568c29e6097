//! CUSIP recognizer: 9-character North American securities identifiers with a
//! weighted-sum check digit, including the CINS (CUSIP International Numbering
//! System) interpretation for identifiers whose first character is a letter.
//!
//! Characters are mapped to numeral values (digits stand for themselves,
//! letters case-insensitively for their alphabet position plus 9, and the
//! extension characters `*`, `@`, `#` for 36, 37 and 38). The value at every
//! odd 0-indexed position of the 8-character payload is doubled, the decimal
//! digits of all resulting values are summed, and the check digit must equal
//! `(10 - sum % 10) % 10`.

use vstd::prelude::*;
use vstd::string::*;
use crate::charval::{digit_val, digsum, is_digit, is_lower, is_upper, try_digit_val, upper_val};

verus! {

/// Reason a string was rejected as a CUSIP.
#[derive(Clone, Copy, Debug, PartialEq, Eq)]
pub enum CusipError {
    /// The string is not exactly 9 characters long.
    InvalidLength,
    /// A payload character has no numeral value, or the check digit is not a digit.
    InvalidCharacter,
    /// The ninth character does not equal the computed check digit.
    ChecksumMismatch,
}

/// `c` has a CUSIP numeral value: digit, letter of either case, or one of `*`, `@`, `#`.
pub open spec fn cusip_char_ok(c: char) -> bool {
    is_digit(c) || is_upper(c) || is_lower(c) || c == '*' || c == '@' || c == '#'
}

/// CUSIP numeral value of `c`: digits 0-9, letters 10-35, `*` 36, `@` 37, `#` 38.
pub open spec fn cusip_char_val(c: char) -> int {
    if is_digit(c) {
        digit_val(c)
    } else if is_upper(c) {
        upper_val(c)
    } else if is_lower(c) {
        c as u32 - 87
    } else if c == '*' {
        36
    } else if c == '@' {
        37
    } else {
        38
    }
}

/// Checksum contribution of payload position `i`: the numeral value, doubled
/// at odd 0-indexed positions, with its decimal digits summed.
pub open spec fn cusip_contrib(s: Seq<char>, i: int) -> int {
    if i % 2 == 1 {
        digsum(2 * cusip_char_val(s[i]))
    } else {
        digsum(cusip_char_val(s[i]))
    }
}

/// Sum of the checksum contributions of payload positions `i` to 7.
pub open spec fn cusip_sum_from(s: Seq<char>, i: int) -> int
    decreases 8 - i,
{
    if 0 <= i < 8 {
        cusip_contrib(s, i) + cusip_sum_from(s, i + 1)
    } else {
        0
    }
}

/// Check digit value derived from the 8-character payload of `s`.
pub open spec fn cusip_check_digit_val(s: Seq<char>) -> int {
    (10 - cusip_sum_from(s, 0) % 10) % 10
}

/// Every payload character of `s` has a CUSIP numeral value.
pub open spec fn cusip_payload_chars_ok(s: Seq<char>) -> bool {
    forall|i: int| 0 <= i < 8 ==> cusip_char_ok(#[trigger] s[i])
}

/// `s` is a valid CUSIP: 9 characters, all with numeral values, whose ninth
/// character is the check digit derived from the first eight.
pub open spec fn cusip_valid(s: Seq<char>) -> bool {
    &&& s.len() == 9
    &&& cusip_payload_chars_ok(s)
    &&& is_digit(s[8])
    &&& digit_val(s[8]) == cusip_check_digit_val(s)
}

/// The error reported for an invalid CUSIP candidate.
pub open spec fn cusip_error(s: Seq<char>) -> CusipError
    recommends
        !cusip_valid(s),
{
    if s.len() != 9 {
        CusipError::InvalidLength
    } else if !(cusip_payload_chars_ok(s) && is_digit(s[8])) {
        CusipError::InvalidCharacter
    } else {
        CusipError::ChecksumMismatch
    }
}

/// Uppercase ordinal of a letter of either case (`'a'` and `'A'` both map to 65).
pub open spec fn letter_ord(c: char) -> int {
    if is_lower(c) {
        c as u32 - 32
    } else {
        c as u32 + 0
    }
}

/// The first character is alphabetic, so the identifier reads as a CINS number.
pub open spec fn spec_is_cins(s: Seq<char>) -> bool {
    is_upper(s[0]) || is_lower(s[0])
}

/// CINS with a base country code: first letter in A-H, J-N or P-Y.
pub open spec fn spec_is_cins_base(s: Seq<char>) -> bool {
    spec_is_cins(s) && {
        let u = letter_ord(s[0]);
        (65 <= u <= 72) || (74 <= u <= 78) || (80 <= u <= 89)
    }
}

/// CINS with an extended country code: first letter I, O or Z.
pub open spec fn spec_is_cins_extended(s: Seq<char>) -> bool {
    spec_is_cins(s) && {
        let u = letter_ord(s[0]);
        u == 73 || u == 79 || u == 90
    }
}

/// The issuer number lies in a range reserved for private use: positions 4-5
/// are `99`, or positions 1-2 are `99` followed by three digits.
pub open spec fn spec_has_private_issuer(s: Seq<char>) -> bool {
    (s[3] == '9' && s[4] == '9') || (s[0] == '9' && s[1] == '9' && is_digit(s[2]) && is_digit(s[3])
        && is_digit(s[4]))
}

/// The issue number lies in the range reserved for private use: `9` followed
/// by a digit or a letter A-Y.
pub open spec fn spec_is_private_issue(s: Seq<char>) -> bool {
    s[6] == '9' && (is_digit(s[7]) || {
        let u = letter_ord(s[7]);
        65 <= u <= 89
    })
}

/// The identifier is reserved for private use, by issuer or by issue.
pub open spec fn spec_is_private_use(s: Seq<char>) -> bool {
    spec_has_private_issuer(s) || spec_is_private_issue(s)
}

/// The CUSIP numeral value of `c`, when it has one.
pub fn try_cusip_val(c: char) -> (r: Option<u8>)
    ensures
        r matches Some(v) ==> cusip_char_ok(c) && v == cusip_char_val(c),
        r is None <==> !cusip_char_ok(c),
{
    let u = c as u32;
    if 48 <= u && u <= 57 {
        Some((u - 48) as u8)
    } else if 65 <= u && u <= 90 {
        Some((u - 55) as u8)
    } else if 97 <= u && u <= 122 {
        Some((u - 87) as u8)
    } else if c == '*' {
        Some(36)
    } else if c == '@' {
        Some(37)
    } else if c == '#' {
        Some(38)
    } else {
        None
    }
}

/// A successfully recognized CUSIP. The embedded check digit is guaranteed to
/// verify against the payload under the weighted-sum algorithm.
#[derive(Debug)]
pub struct Cusip {
    s: String,
}

impl View for Cusip {
    type V = Seq<char>;

    closed spec fn view(&self) -> Seq<char> {
        self.s@
    }
}

impl Cusip {
    #[verifier::type_invariant]
    spec fn inv(self) -> bool {
        cusip_valid(self.s@)
    }

    /// Recognize `s` as a CUSIP, or report why it is not one.
    pub fn parse(s: &str) -> (r: Result<Cusip, CusipError>)
        ensures
            r matches Ok(c) ==> cusip_valid(s@) && c@ == s@,
            r matches Err(e) ==> !cusip_valid(s@) && e == cusip_error(s@),
    {
        let n = s.unicode_len();
        if n != 9 {
            return Err(CusipError::InvalidLength);
        }
        let mut i: usize = 0;
        while i < 8
            invariant
                i <= 8,
                s@.len() == 9,
                forall|j: int| 0 <= j < i ==> cusip_char_ok(#[trigger] s@[j]),
            decreases 8 - i,
        {
            if try_cusip_val(s.get_char(i)).is_none() {
                return Err(CusipError::InvalidCharacter);
            }
            i += 1;
        }
        let cdv: u8 = match try_digit_val(s.get_char(8)) {
            Some(v) => v,
            None => {
                return Err(CusipError::InvalidCharacter);
            },
        };
        let mut sum: u32 = 0;
        let mut k: usize = 8;
        while k > 0
            invariant
                k <= 8,
                s@.len() == 9,
                forall|j: int| 0 <= j < 8 ==> cusip_char_ok(#[trigger] s@[j]),
                sum == cusip_sum_from(s@, k as int),
                sum <= (8 - k) * 14,
            decreases k,
        {
            k -= 1;
            let v: u8 = match try_cusip_val(s.get_char(k)) {
                Some(v) => v,
                None => {
                    proof {
                        assert(false);
                    }
                    0
                },
            };
            assert(v <= 38);
            let vv: u32 = if k % 2 == 1 {
                2 * (v as u32)
            } else {
                v as u32
            };
            assert(vv <= 76);
            assert(vv / 10 + vv % 10 <= 14);
            sum = sum + vv / 10 + vv % 10;
        }
        let check: u32 = (10 - sum % 10) % 10;
        if cdv as u32 != check {
            return Err(CusipError::ChecksumMismatch);
        }
        Ok(Cusip { s: s.to_owned() })
    }

    /// The full 6-character issuer number (positions 1-6). For a CINS
    /// identifier this includes the leading country letter; the narrower CINS
    /// issuer reading is available through `country_code`.
    pub fn issuer_num(&self) -> (r: String)
        ensures
            r@ == self@.subrange(0, 6),
    {
        proof {
            use_type_invariant(&*self);
        }
        self.s.as_str().substring_char(0, 6).to_owned()
    }

    /// The 2-character issue number (positions 7-8).
    pub fn issue_num(&self) -> (r: String)
        ensures
            r@ == self@.subrange(6, 8),
    {
        proof {
            use_type_invariant(&*self);
        }
        self.s.as_str().substring_char(6, 8).to_owned()
    }

    /// The 8-character payload: issuer number followed by issue number.
    pub fn payload(&self) -> (r: String)
        ensures
            r@ == self@.subrange(0, 8),
    {
        proof {
            use_type_invariant(&*self);
        }
        self.s.as_str().substring_char(0, 8).to_owned()
    }

    /// The check digit (position 9).
    pub fn check_digit(&self) -> (r: char)
        ensures
            r == self@[8],
    {
        proof {
            use_type_invariant(&*self);
        }
        self.s.as_str().get_char(8)
    }

    /// The check digit as a 1-character string.
    pub fn check_digit_str(&self) -> (r: String)
        ensures
            r@ == self@.subrange(8, 9),
    {
        proof {
            use_type_invariant(&*self);
        }
        self.s.as_str().substring_char(8, 9).to_owned()
    }

    /// Whether the identifier reads as a CINS number (first character a letter).
    pub fn is_cins(&self) -> (r: bool)
        ensures
            r == spec_is_cins(self@),
    {
        proof {
            use_type_invariant(&*self);
        }
        let c = self.s.as_str().get_char(0);
        let u = c as u32;
        (65 <= u && u <= 90) || (97 <= u && u <= 122)
    }

    /// The CINS country code, as a 1-character string, when the identifier is
    /// a CINS number.
    pub fn country_code(&self) -> (r: Option<String>)
        ensures
            r matches Some(cc) ==> spec_is_cins(self@) && cc@ == self@.subrange(0, 1),
            r is None <==> !spec_is_cins(self@),
    {
        proof {
            use_type_invariant(&*self);
        }
        if self.is_cins() {
            Some(self.s.as_str().substring_char(0, 1).to_owned())
        } else {
            None
        }
    }

    /// Whether the identifier is a CINS number with a base country code.
    pub fn is_cins_base(&self) -> (r: bool)
        ensures
            r == spec_is_cins_base(self@),
    {
        proof {
            use_type_invariant(&*self);
        }
        let c = self.s.as_str().get_char(0);
        let u0 = c as u32;
        let u = if 97 <= u0 && u0 <= 122 {
            u0 - 32
        } else {
            u0
        };
        (65 <= u && u <= 72) || (74 <= u && u <= 78) || (80 <= u && u <= 89)
    }

    /// Whether the identifier is a CINS number with an extended country code.
    pub fn is_cins_extended(&self) -> (r: bool)
        ensures
            r == spec_is_cins_extended(self@),
    {
        proof {
            use_type_invariant(&*self);
        }
        let c = self.s.as_str().get_char(0);
        let u0 = c as u32;
        let u = if 97 <= u0 && u0 <= 122 {
            u0 - 32
        } else {
            u0
        };
        u == 73 || u == 79 || u == 90
    }

    /// Whether the issuer number lies in a range reserved for private use.
    pub fn has_private_issuer(&self) -> (r: bool)
        ensures
            r == spec_has_private_issuer(self@),
    {
        proof {
            use_type_invariant(&*self);
        }
        let s = self.s.as_str();
        let case1 = s.get_char(3) == '9' && s.get_char(4) == '9';
        let case2 = s.get_char(0) == '9' && s.get_char(1) == '9' && try_digit_val(
            s.get_char(2),
        ).is_some() && try_digit_val(s.get_char(3)).is_some() && try_digit_val(
            s.get_char(4),
        ).is_some();
        case1 || case2
    }

    /// Whether the issue number lies in the range reserved for private use.
    pub fn is_private_issue(&self) -> (r: bool)
        ensures
            r == spec_is_private_issue(self@),
    {
        proof {
            use_type_invariant(&*self);
        }
        let s = self.s.as_str();
        let nine_tens = s.get_char(6) == '9';
        let c = s.get_char(7);
        let u0 = c as u32;
        let u = if 97 <= u0 && u0 <= 122 {
            u0 - 32
        } else {
            u0
        };
        nine_tens && (try_digit_val(c).is_some() || (65 <= u && u <= 89))
    }

    /// Whether the identifier is reserved for private use.
    pub fn is_private_use(&self) -> (r: bool)
        ensures
            r == spec_is_private_use(self@),
    {
        self.has_private_issuer() || self.is_private_issue()
    }
}

/// For every valid CUSIP, re-deriving the check digit from the issuer and
/// issue characters via the weighted-sum algorithm reproduces the original
/// check digit.
pub proof fn lemma_cusip_check_digit_round_trip(s: Seq<char>)
    requires
        cusip_valid(s),
    ensures
        digit_val(s[8]) == cusip_check_digit_val(s),
        0 <= cusip_check_digit_val(s) <= 9,
{
}

} // verus!
