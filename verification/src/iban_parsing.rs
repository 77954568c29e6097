//! IBAN recognizer: International Bank Account Numbers, up to 34 characters,
//! made of a 2-letter country code, 2 check digits and a country-specific
//! BBAN (Basic Bank Account Number).
//!
//! Validation is two-phase. First the structure: the length and the character
//! classes of the BBAN must match the country's registered layout (an
//! unregistered country code is rejected as unknown). Then the checksum: the
//! string is rearranged to BBAN + country + check digits, letters are
//! expanded to their two-digit numeral values, and the resulting decimal
//! number must be congruent to 1 modulo 97, computed incrementally one digit
//! at a time.
//!
//! Bank and branch identifiers are carved out of the BBAN by an independent
//! per-country table; a country without a registered position yields absent
//! identifiers without affecting validity.

use vstd::prelude::*;
use vstd::string::*;
use vstd::arithmetic::div_mod::lemma_fundamental_div_mod;
use vstd::utf8::char_u32_cast;
use crate::charval::{
    digit_val, expand_alnum, is_digit, is_upper, is_upper_alnum, lemma_expand_alnum_append,
    lemma_expand_alnum_singleton, try_digit_val, try_upper_alnum_val, char_is_upper, upper_val,
};
use crate::iban_registry::{
    bban_len_exec, bban_len_of, char_in_class, char_in_class_exec, class_at, class_at_exec,
    country_layout, lookup_country_layout, IbanLayout,
};
use crate::mod97::{
    decimal_num, lemma_decimal_num_one, lemma_decimal_num_two, lemma_mod97_window, mod97_fold,
};

verus! {

/// Reason a string was rejected as an IBAN.
#[derive(Clone, Copy, Debug, PartialEq, Eq)]
pub enum IbanError {
    /// The basic shape is wrong (bad length or character for the country),
    /// or the string does not read as country code + check digits + BBAN.
    InvalidFormat,
    /// The country code is not in the registry.
    UnknownCountry,
    /// The BBAN does not match the country's registered character classes.
    InvalidBban,
    /// The rearranged numeral form is not congruent to 1 modulo 97.
    InvalidChecksum,
}

/// `s` has the country-independent IBAN shape: two uppercase letters, two
/// digits, then uppercase alphanumerics.
pub open spec fn iban_basic_ok(s: Seq<char>) -> bool {
    &&& s.len() >= 4
    &&& is_upper(s[0])
    &&& is_upper(s[1])
    &&& is_digit(s[2])
    &&& is_digit(s[3])
    &&& forall|i: int| 4 <= i < s.len() ==> is_upper_alnum(#[trigger] s[i])
}

/// The BBAN characters of `s` match the character classes of layout `l`.
pub open spec fn iban_bban_matches(s: Seq<char>, l: IbanLayout) -> bool {
    forall|i: int| 4 <= i < s.len() ==> char_in_class(#[trigger] s[i], class_at(l, i - 4))
}

/// `s` passes the structural phase: basic shape, registered country, the
/// country's total length, and its BBAN character classes.
pub open spec fn iban_structural(s: Seq<char>) -> bool {
    &&& iban_basic_ok(s)
    &&& match country_layout(s[0], s[1]) {
        Some(l) => s.len() == 4 + bban_len_of(l) && iban_bban_matches(s, l),
        None => false,
    }
}

/// `s` rearranged for the checksum: BBAN, then country code and check digits.
pub open spec fn iban_rearranged(s: Seq<char>) -> Seq<char> {
    s.subrange(4, s.len() as int) + s.subrange(0, 4)
}

/// The numeral form of the rearranged string is congruent to 1 modulo 97.
pub open spec fn iban_checksum_ok(s: Seq<char>) -> bool {
    mod97_fold(expand_alnum(iban_rearranged(s))) == 1
}

/// `s` is a valid IBAN: structurally correct for its country and with a
/// verifying modulus-97 checksum.
pub open spec fn iban_valid(s: Seq<char>) -> bool {
    iban_structural(s) && iban_checksum_ok(s)
}

/// The error reported for an invalid IBAN candidate.
pub open spec fn iban_error(s: Seq<char>) -> IbanError
    recommends
        !iban_valid(s),
{
    if !iban_basic_ok(s) {
        IbanError::InvalidFormat
    } else {
        match country_layout(s[0], s[1]) {
            None => IbanError::UnknownCountry,
            Some(l) => if s.len() != 4 + bban_len_of(l) {
                IbanError::InvalidFormat
            } else if !iban_bban_matches(s, l) {
                IbanError::InvalidBban
            } else {
                IbanError::InvalidChecksum
            },
        }
    }
}

/// The registered bank identifier of `s`, when the country defines one and
/// its range lies inside the string.
pub open spec fn spec_bank_id(s: Seq<char>) -> Option<Seq<char>> {
    match country_layout(s[0], s[1]) {
        Some(l) => match l.bank {
            Some(r) => if r.0 <= r.1 && 4 + r.1 <= s.len() {
                Some(s.subrange(4 + r.0, 4 + r.1))
            } else {
                None
            },
            None => None,
        },
        None => None,
    }
}

/// The registered branch identifier of `s`, when the country defines one and
/// its range lies inside the string.
pub open spec fn spec_branch_id(s: Seq<char>) -> Option<Seq<char>> {
    match country_layout(s[0], s[1]) {
        Some(l) => match l.branch {
            Some(r) => if r.0 <= r.1 && 4 + r.1 <= s.len() {
                Some(s.subrange(4 + r.0, 4 + r.1))
            } else {
                None
            },
            None => None,
        },
        None => None,
    }
}

/// Fold the rearranged numeral form of `s` (BBAN + country + check digits)
/// one decimal digit at a time against a running remainder modulo 97.
fn iban_mod97(s: &str) -> (r: u32)
    requires
        iban_basic_ok(s@),
    ensures
        r == mod97_fold(expand_alnum(iban_rearranged(s@))),
{
    let ghost rearranged = iban_rearranged(s@);
    let n = s.unicode_len();
    let mut acc: u32 = 0;
    let mut j: usize = 0;
    while j < n
        invariant
            j <= n,
            n == s@.len(),
            4 <= n,
            iban_basic_ok(s@),
            rearranged == iban_rearranged(s@),
            acc == mod97_fold(expand_alnum(rearranged.subrange(0, j as int))),
            acc < 97,
        decreases n - j,
    {
        let idx: usize = if j < n - 4 {
            j + 4
        } else {
            j - (n - 4)
        };
        proof {
            assert(rearranged[j as int] == s@[idx as int]);
            assert(is_upper_alnum(s@[idx as int]));
        }
        let c = s.get_char(idx);
        let v: u8 = match try_upper_alnum_val(c) {
            Some(v) => v,
            None => {
                proof {
                    assert(false);
                }
                0
            },
        };
        let ghost pre = expand_alnum(rearranged.subrange(0, j as int));
        proof {
            assert(rearranged.subrange(0, j + 1).drop_last() =~= rearranged.subrange(0, j as int));
            assert(rearranged.subrange(0, j + 1).last() == rearranged[j as int]);
        }
        if v < 10 {
            acc = (acc * 10 + v as u32) % 97;
            proof {
                let expanded = expand_alnum(rearranged.subrange(0, j + 1));
                assert(is_digit(rearranged[j as int]));
                assert(expanded =~= pre.push(digit_val(rearranged[j as int])));
                assert(expanded.drop_last() =~= pre);
                assert(acc == mod97_fold(expanded));
            }
        } else {
            acc = (acc * 10 + (v / 10) as u32) % 97;
            acc = (acc * 10 + (v % 10) as u32) % 97;
            proof {
                let d1 = upper_val(rearranged[j as int]) / 10;
                let d2 = upper_val(rearranged[j as int]) % 10;
                let expanded = expand_alnum(rearranged.subrange(0, j + 1));
                assert(!is_digit(rearranged[j as int]));
                assert(expanded =~= pre.push(d1).push(d2));
                assert(expanded.drop_last() =~= pre.push(d1));
                assert(pre.push(d1).drop_last() =~= pre);
                assert(mod97_fold(pre.push(d1)) == (mod97_fold(pre) * 10 + d1) % 97);
                assert(mod97_fold(expanded) == (mod97_fold(pre.push(d1)) * 10 + d2) % 97);
                assert(acc == mod97_fold(expanded));
            }
        }
        j += 1;
    }
    proof {
        assert(rearranged.subrange(0, n as int) =~= rearranged);
    }
    acc
}

/// A successfully recognized IBAN. The structure matches the country's
/// registered layout and the modulus-97 checksum verifies.
#[derive(Debug)]
pub struct Iban {
    s: String,
}

impl View for Iban {
    type V = Seq<char>;

    closed spec fn view(&self) -> Seq<char> {
        self.s@
    }
}

impl Iban {
    #[verifier::type_invariant]
    spec fn inv(self) -> bool {
        iban_valid(self.s@)
    }

    /// Recognize `s` as an IBAN, or report why it is not one.
    #[verifier::loop_isolation(false)]
    pub fn parse(s: &str) -> (r: Result<Iban, IbanError>)
        ensures
            r matches Ok(x) ==> iban_valid(s@) && x@ == s@,
            r matches Err(e) ==> !iban_valid(s@) && e == iban_error(s@),
    {
        let n = s.unicode_len();
        if n < 4 {
            return Err(IbanError::InvalidFormat);
        }
        if !char_is_upper(s.get_char(0)) || !char_is_upper(s.get_char(1)) {
            return Err(IbanError::InvalidFormat);
        }
        if try_digit_val(s.get_char(2)).is_none() || try_digit_val(s.get_char(3)).is_none() {
            return Err(IbanError::InvalidFormat);
        }
        let mut i: usize = 4;
        while i < n
            invariant
                4 <= i <= n,
                n == s@.len(),
                forall|j: int| 4 <= j < i ==> is_upper_alnum(#[trigger] s@[j]),
            decreases n - i,
        {
            if try_upper_alnum_val(s.get_char(i)).is_none() {
                return Err(IbanError::InvalidFormat);
            }
            i += 1;
        }
        let c0 = s.get_char(0);
        let c1 = s.get_char(1);
        let layout = match lookup_country_layout(c0, c1) {
            Some(l) => l,
            None => {
                return Err(IbanError::UnknownCountry);
            },
        };
        if n != 4 + bban_len_exec(&layout) {
            return Err(IbanError::InvalidFormat);
        }
        let mut i: usize = 4;
        while i < n
            invariant
                4 <= i <= n,
                n == s@.len(),
                country_layout(s@[0], s@[1]) == Some(layout),
                forall|j: int|
                    4 <= j < i ==> char_in_class(#[trigger] s@[j], class_at(layout, j - 4)),
            decreases n - i,
        {
            if !char_in_class_exec(s.get_char(i), class_at_exec(&layout, i - 4)) {
                return Err(IbanError::InvalidBban);
            }
            i += 1;
        }
        let acc = iban_mod97(s);
        if acc != 1 {
            return Err(IbanError::InvalidChecksum);
        }
        Ok(Iban { s: s.to_owned() })
    }

    /// The 2-letter country code.
    pub fn country_code(&self) -> (r: String)
        ensures
            r@ == self@.subrange(0, 2),
    {
        proof {
            use_type_invariant(&*self);
        }
        self.s.as_str().substring_char(0, 2).to_owned()
    }

    /// The 2 check digits, as a string.
    pub fn check_digits(&self) -> (r: String)
        ensures
            r@ == self@.subrange(2, 4),
    {
        proof {
            use_type_invariant(&*self);
        }
        self.s.as_str().substring_char(2, 4).to_owned()
    }

    /// The country-specific BBAN: everything after the check digits.
    pub fn bban(&self) -> (r: String)
        ensures
            r@ == self@.subrange(4, self@.len() as int),
    {
        proof {
            use_type_invariant(&*self);
        }
        let st = self.s.as_str();
        let n = st.unicode_len();
        st.substring_char(4, n).to_owned()
    }

    /// The registered bank identifier, when the country defines one.
    pub fn bank_identifier(&self) -> (r: Option<String>)
        ensures
            r matches Some(x) ==> spec_bank_id(self@) == Some(x@),
            r is None <==> spec_bank_id(self@) is None,
    {
        proof {
            use_type_invariant(&*self);
        }
        let st = self.s.as_str();
        let layout = match lookup_country_layout(st.get_char(0), st.get_char(1)) {
            Some(l) => l,
            None => {
                proof {
                    assert(false);
                }
                return None;
            },
        };
        match layout.bank {
            Some((a, b)) => {
                let n = st.unicode_len();
                if a <= b && 4 + (b as usize) <= n {
                    Some(st.substring_char(4 + a as usize, 4 + b as usize).to_owned())
                } else {
                    None
                }
            },
            None => None,
        }
    }

    /// The registered branch identifier, when the country defines one.
    pub fn branch_identifier(&self) -> (r: Option<String>)
        ensures
            r matches Some(x) ==> spec_branch_id(self@) == Some(x@),
            r is None <==> spec_branch_id(self@) is None,
    {
        proof {
            use_type_invariant(&*self);
        }
        let st = self.s.as_str();
        let layout = match lookup_country_layout(st.get_char(0), st.get_char(1)) {
            Some(l) => l,
            None => {
                proof {
                    assert(false);
                }
                return None;
            },
        };
        match layout.branch {
            Some((a, b)) => {
                let n = st.unicode_len();
                if a <= b && 4 + (b as usize) <= n {
                    Some(st.substring_char(4 + a as usize, 4 + b as usize).to_owned())
                } else {
                    None
                }
            },
            None => None,
        }
    }
}

/// For every valid IBAN, the rearranged numeral form is congruent to 1
/// modulo 97.
pub proof fn lemma_iban_mod97_round_trip(s: Seq<char>)
    requires
        iban_valid(s),
    ensures
        mod97_fold(expand_alnum(iban_rearranged(s))) == 1,
{
}

/// Substituting a single character of a valid IBAN, digit for digit or
/// letter for letter, always breaks the modulus-97 check: such
/// single-character errors are caught without exception. (A substitution
/// that exchanges a digit for a letter changes the length of the numeral
/// expansion, and the check's detection of it is not a consequence of the
/// modulus argument; it is outside this statement.)
pub proof fn lemma_iban_single_char_error_detected(s1: Seq<char>, s2: Seq<char>, j: int)
    requires
        iban_valid(s1),
        s2.len() == s1.len(),
        0 <= j < s1.len(),
        s1[j] != s2[j],
        forall|i: int| 0 <= i < s1.len() && i != j ==> s1[i] == s2[i],
        is_digit(s1[j]) ==> is_digit(s2[j]),
        !is_digit(s1[j]) ==> is_upper(s2[j]),
    ensures
        !iban_checksum_ok(s2),
        !iban_valid(s2),
{
    let n = s1.len() as int;
    let r1 = iban_rearranged(s1);
    let r2 = iban_rearranged(s2);
    let p: int = if j >= 4 {
        j - 4
    } else {
        j + (n - 4)
    };
    assert(r1[p] == s1[j]);
    assert(r2[p] == s2[j]);
    assert forall|i: int| 0 <= i < n && i != p implies r1[i] == r2[i] by {
        if i < n - 4 {
            assert(r1[i] == s1[i + 4]);
            assert(r2[i] == s2[i + 4]);
        } else {
            assert(r1[i] == s1[i - (n - 4)]);
            assert(r2[i] == s2[i - (n - 4)]);
        }
    }
    let a = r1.subrange(0, p);
    let b = r1.subrange(p + 1, n);
    assert(r1 =~= a + seq![s1[j]] + b);
    assert(r2 =~= a + seq![s2[j]] + b);
    lemma_expand_alnum_append(a + seq![s1[j]], b);
    lemma_expand_alnum_append(a, seq![s1[j]]);
    lemma_expand_alnum_append(a + seq![s2[j]], b);
    lemma_expand_alnum_append(a, seq![s2[j]]);
    let c1 = s1[j];
    let c2 = s2[j];
    assert(is_upper_alnum(c1));
    lemma_expand_alnum_singleton(c1);
    lemma_expand_alnum_singleton(c2);
    let m1 = expand_alnum(seq![c1]);
    let m2 = expand_alnum(seq![c2]);
    if c1 as u32 == c2 as u32 {
        char_u32_cast(c1, c1 as u32);
        char_u32_cast(c2, c2 as u32);
    }
    assert(c1 as u32 != c2 as u32);
    if is_digit(c1) {
        lemma_decimal_num_one(digit_val(c1));
        lemma_decimal_num_one(digit_val(c2));
        assert(decimal_num(m1) != decimal_num(m2));
        assert(-97 < decimal_num(m1) - decimal_num(m2) < 97);
    } else {
        let v1 = upper_val(c1);
        let v2 = upper_val(c2);
        lemma_decimal_num_two(v1 / 10, v1 % 10);
        lemma_decimal_num_two(v2 / 10, v2 % 10);
        lemma_fundamental_div_mod(v1, 10);
        lemma_fundamental_div_mod(v2, 10);
        assert(decimal_num(m1) == v1);
        assert(decimal_num(m2) == v2);
        assert(10 <= v1 <= 35 && 10 <= v2 <= 35);
        assert(decimal_num(m1) != decimal_num(m2));
    }
    lemma_mod97_window(expand_alnum(a), m1, m2, expand_alnum(b));
    assert(expand_alnum(r1) == expand_alnum(a) + m1 + expand_alnum(b));
    assert(expand_alnum(r2) == expand_alnum(a) + m2 + expand_alnum(b));
    assert(mod97_fold(expand_alnum(r2)) != 1);
}

/// Diagnostic category string for an IBAN parse failure.
pub open spec fn iban_diag(e: IbanError) -> Seq<char> {
    match e {
        IbanError::InvalidFormat => "Invalid format (len/char)"@,
        IbanError::InvalidChecksum => "Invalid checksum"@,
        IbanError::InvalidBban => "Invalid Bban"@,
        IbanError::UnknownCountry => "Invalid country code"@,
    }
}

/// Map an IBAN parse failure to its stable diagnostic category string.
pub fn iban_diagnostic(e: IbanError) -> (r: String)
    ensures
        r@ == iban_diag(e),
{
    match e {
        IbanError::InvalidFormat => "Invalid format (len/char)".to_owned(),
        IbanError::InvalidChecksum => "Invalid checksum".to_owned(),
        IbanError::InvalidBban => "Invalid Bban".to_owned(),
        IbanError::UnknownCountry => "Invalid country code".to_owned(),
    }
}

} // verus!
