//! The registered IBAN layouts: for each country in the registry, the length
//! and character-class pattern of its BBAN (Basic Bank Account Number), and
//! the positions of the bank and branch identifiers within the BBAN, when the
//! registry defines them.
//!
//! A country absent from the layout table is an unknown country and cannot be
//! validated. A country whose layout omits a bank or branch position is still
//! perfectly valid; the corresponding identifier is simply not available.

use vstd::prelude::*;
use crate::charval::{is_digit, is_upper, is_upper_alnum};

verus! {

/// Character class of one BBAN position: digit, uppercase letter, or either.
#[derive(Clone, Copy, Debug, PartialEq, Eq)]
pub enum BbanClass {
    /// An ASCII decimal digit.
    Digit,
    /// An ASCII uppercase letter.
    Upper,
    /// A digit or an uppercase letter.
    Alnum,
}

/// A country's registered BBAN layout: up to three runs of a character class
/// (unused runs have length 0), and the half-open bank and branch identifier
/// ranges within the BBAN, where registered.
#[derive(Clone, Copy, Debug)]
pub struct IbanLayout {
    /// Length of the first class run.
    pub g1_len: u8,
    /// Class of the first run.
    pub g1: BbanClass,
    /// Length of the second class run.
    pub g2_len: u8,
    /// Class of the second run.
    pub g2: BbanClass,
    /// Length of the third class run.
    pub g3_len: u8,
    /// Class of the third run.
    pub g3: BbanClass,
    /// Bank identifier range within the BBAN, when registered.
    pub bank: Option<(u8, u8)>,
    /// Branch identifier range within the BBAN, when registered.
    pub branch: Option<(u8, u8)>,
}

/// Total BBAN length of a layout.
pub open spec fn bban_len_of(l: IbanLayout) -> int {
    l.g1_len + l.g2_len + l.g3_len
}

/// Required character class at BBAN position `i`.
pub open spec fn class_at(l: IbanLayout, i: int) -> BbanClass {
    if i < l.g1_len {
        l.g1
    } else if i < l.g1_len + l.g2_len {
        l.g2
    } else {
        l.g3
    }
}

/// Whether `c` belongs to the class `k`.
pub open spec fn char_in_class(c: char, k: BbanClass) -> bool {
    match k {
        BbanClass::Digit => is_digit(c),
        BbanClass::Upper => is_upper(c),
        BbanClass::Alnum => is_upper_alnum(c),
    }
}

/// Registered layout of the country with code `c0 c1`, when the registry has one.
pub open spec fn country_layout(c0: char, c1: char) -> Option<IbanLayout> {
    match (c0, c1) {
        ('A', 'D') => Some(
            IbanLayout { g1_len: 8, g1: BbanClass::Digit, g2_len: 12, g2: BbanClass::Alnum, g3_len: 0, g3: BbanClass::Digit, bank: Some((0, 4)), branch: Some((4, 8)) },
        ),
        ('A', 'E') => Some(
            IbanLayout { g1_len: 19, g1: BbanClass::Digit, g2_len: 0, g2: BbanClass::Digit, g3_len: 0, g3: BbanClass::Digit, bank: Some((0, 3)), branch: None },
        ),
        ('A', 'L') => Some(
            IbanLayout { g1_len: 8, g1: BbanClass::Digit, g2_len: 16, g2: BbanClass::Alnum, g3_len: 0, g3: BbanClass::Digit, bank: Some((0, 3)), branch: Some((3, 7)) },
        ),
        ('A', 'T') => Some(
            IbanLayout { g1_len: 16, g1: BbanClass::Digit, g2_len: 0, g2: BbanClass::Digit, g3_len: 0, g3: BbanClass::Digit, bank: Some((0, 5)), branch: None },
        ),
        ('A', 'Z') => Some(
            IbanLayout { g1_len: 4, g1: BbanClass::Upper, g2_len: 20, g2: BbanClass::Alnum, g3_len: 0, g3: BbanClass::Digit, bank: Some((0, 4)), branch: None },
        ),
        ('B', 'A') => Some(
            IbanLayout { g1_len: 16, g1: BbanClass::Digit, g2_len: 0, g2: BbanClass::Digit, g3_len: 0, g3: BbanClass::Digit, bank: Some((0, 3)), branch: Some((3, 6)) },
        ),
        ('B', 'E') => Some(
            IbanLayout { g1_len: 12, g1: BbanClass::Digit, g2_len: 0, g2: BbanClass::Digit, g3_len: 0, g3: BbanClass::Digit, bank: Some((0, 3)), branch: None },
        ),
        ('B', 'G') => Some(
            IbanLayout { g1_len: 4, g1: BbanClass::Upper, g2_len: 6, g2: BbanClass::Digit, g3_len: 8, g3: BbanClass::Alnum, bank: Some((0, 4)), branch: Some((4, 8)) },
        ),
        ('B', 'H') => Some(
            IbanLayout { g1_len: 4, g1: BbanClass::Upper, g2_len: 14, g2: BbanClass::Alnum, g3_len: 0, g3: BbanClass::Digit, bank: Some((0, 4)), branch: None },
        ),
        ('B', 'I') => Some(
            IbanLayout { g1_len: 23, g1: BbanClass::Digit, g2_len: 0, g2: BbanClass::Digit, g3_len: 0, g3: BbanClass::Digit, bank: Some((0, 5)), branch: Some((5, 10)) },
        ),
        ('B', 'R') => Some(
            IbanLayout { g1_len: 23, g1: BbanClass::Digit, g2_len: 1, g2: BbanClass::Upper, g3_len: 1, g3: BbanClass::Alnum, bank: Some((0, 8)), branch: Some((8, 13)) },
        ),
        ('B', 'Y') => Some(
            IbanLayout { g1_len: 4, g1: BbanClass::Alnum, g2_len: 4, g2: BbanClass::Digit, g3_len: 16, g3: BbanClass::Alnum, bank: Some((0, 4)), branch: None },
        ),
        ('C', 'H') => Some(
            IbanLayout { g1_len: 5, g1: BbanClass::Digit, g2_len: 12, g2: BbanClass::Alnum, g3_len: 0, g3: BbanClass::Digit, bank: Some((0, 5)), branch: None },
        ),
        ('C', 'R') => Some(
            IbanLayout { g1_len: 18, g1: BbanClass::Digit, g2_len: 0, g2: BbanClass::Digit, g3_len: 0, g3: BbanClass::Digit, bank: Some((0, 4)), branch: None },
        ),
        ('C', 'Y') => Some(
            IbanLayout { g1_len: 8, g1: BbanClass::Digit, g2_len: 16, g2: BbanClass::Alnum, g3_len: 0, g3: BbanClass::Digit, bank: Some((0, 3)), branch: Some((3, 8)) },
        ),
        ('C', 'Z') => Some(
            IbanLayout { g1_len: 20, g1: BbanClass::Digit, g2_len: 0, g2: BbanClass::Digit, g3_len: 0, g3: BbanClass::Digit, bank: Some((0, 4)), branch: None },
        ),
        ('D', 'E') => Some(
            IbanLayout { g1_len: 18, g1: BbanClass::Digit, g2_len: 0, g2: BbanClass::Digit, g3_len: 0, g3: BbanClass::Digit, bank: Some((0, 8)), branch: None },
        ),
        ('D', 'J') => Some(
            IbanLayout { g1_len: 23, g1: BbanClass::Digit, g2_len: 0, g2: BbanClass::Digit, g3_len: 0, g3: BbanClass::Digit, bank: Some((0, 5)), branch: Some((5, 10)) },
        ),
        ('D', 'K') => Some(
            IbanLayout { g1_len: 14, g1: BbanClass::Digit, g2_len: 0, g2: BbanClass::Digit, g3_len: 0, g3: BbanClass::Digit, bank: Some((0, 4)), branch: None },
        ),
        ('D', 'O') => Some(
            IbanLayout { g1_len: 4, g1: BbanClass::Alnum, g2_len: 20, g2: BbanClass::Digit, g3_len: 0, g3: BbanClass::Digit, bank: Some((0, 4)), branch: None },
        ),
        ('E', 'E') => Some(
            IbanLayout { g1_len: 16, g1: BbanClass::Digit, g2_len: 0, g2: BbanClass::Digit, g3_len: 0, g3: BbanClass::Digit, bank: Some((0, 2)), branch: None },
        ),
        ('E', 'G') => Some(
            IbanLayout { g1_len: 25, g1: BbanClass::Digit, g2_len: 0, g2: BbanClass::Digit, g3_len: 0, g3: BbanClass::Digit, bank: Some((0, 4)), branch: Some((4, 8)) },
        ),
        ('E', 'S') => Some(
            IbanLayout { g1_len: 20, g1: BbanClass::Digit, g2_len: 0, g2: BbanClass::Digit, g3_len: 0, g3: BbanClass::Digit, bank: Some((0, 4)), branch: Some((4, 8)) },
        ),
        ('F', 'I') => Some(
            IbanLayout { g1_len: 14, g1: BbanClass::Digit, g2_len: 0, g2: BbanClass::Digit, g3_len: 0, g3: BbanClass::Digit, bank: Some((0, 3)), branch: None },
        ),
        ('F', 'K') => Some(
            IbanLayout { g1_len: 2, g1: BbanClass::Upper, g2_len: 12, g2: BbanClass::Digit, g3_len: 0, g3: BbanClass::Digit, bank: Some((0, 2)), branch: None },
        ),
        ('F', 'O') => Some(
            IbanLayout { g1_len: 14, g1: BbanClass::Digit, g2_len: 0, g2: BbanClass::Digit, g3_len: 0, g3: BbanClass::Digit, bank: Some((0, 4)), branch: None },
        ),
        ('F', 'R') => Some(
            IbanLayout { g1_len: 10, g1: BbanClass::Digit, g2_len: 11, g2: BbanClass::Alnum, g3_len: 2, g3: BbanClass::Digit, bank: Some((0, 5)), branch: None },
        ),
        ('G', 'B') => Some(
            IbanLayout { g1_len: 4, g1: BbanClass::Upper, g2_len: 14, g2: BbanClass::Digit, g3_len: 0, g3: BbanClass::Digit, bank: Some((0, 4)), branch: Some((4, 10)) },
        ),
        ('G', 'E') => Some(
            IbanLayout { g1_len: 2, g1: BbanClass::Upper, g2_len: 16, g2: BbanClass::Digit, g3_len: 0, g3: BbanClass::Digit, bank: Some((0, 2)), branch: None },
        ),
        ('G', 'I') => Some(
            IbanLayout { g1_len: 4, g1: BbanClass::Upper, g2_len: 15, g2: BbanClass::Alnum, g3_len: 0, g3: BbanClass::Digit, bank: Some((0, 4)), branch: None },
        ),
        ('G', 'L') => Some(
            IbanLayout { g1_len: 14, g1: BbanClass::Digit, g2_len: 0, g2: BbanClass::Digit, g3_len: 0, g3: BbanClass::Digit, bank: Some((0, 4)), branch: None },
        ),
        ('G', 'R') => Some(
            IbanLayout { g1_len: 7, g1: BbanClass::Digit, g2_len: 16, g2: BbanClass::Alnum, g3_len: 0, g3: BbanClass::Digit, bank: Some((0, 3)), branch: Some((3, 7)) },
        ),
        ('G', 'T') => Some(
            IbanLayout { g1_len: 24, g1: BbanClass::Alnum, g2_len: 0, g2: BbanClass::Digit, g3_len: 0, g3: BbanClass::Digit, bank: Some((0, 4)), branch: None },
        ),
        ('H', 'R') => Some(
            IbanLayout { g1_len: 17, g1: BbanClass::Digit, g2_len: 0, g2: BbanClass::Digit, g3_len: 0, g3: BbanClass::Digit, bank: Some((0, 7)), branch: None },
        ),
        ('H', 'U') => Some(
            IbanLayout { g1_len: 24, g1: BbanClass::Digit, g2_len: 0, g2: BbanClass::Digit, g3_len: 0, g3: BbanClass::Digit, bank: Some((0, 3)), branch: Some((3, 7)) },
        ),
        ('I', 'E') => Some(
            IbanLayout { g1_len: 4, g1: BbanClass::Upper, g2_len: 14, g2: BbanClass::Digit, g3_len: 0, g3: BbanClass::Digit, bank: Some((0, 4)), branch: Some((4, 10)) },
        ),
        ('I', 'L') => Some(
            IbanLayout { g1_len: 19, g1: BbanClass::Digit, g2_len: 0, g2: BbanClass::Digit, g3_len: 0, g3: BbanClass::Digit, bank: Some((0, 3)), branch: Some((3, 6)) },
        ),
        ('I', 'Q') => Some(
            IbanLayout { g1_len: 4, g1: BbanClass::Upper, g2_len: 15, g2: BbanClass::Digit, g3_len: 0, g3: BbanClass::Digit, bank: Some((0, 4)), branch: Some((4, 7)) },
        ),
        ('I', 'S') => Some(
            IbanLayout { g1_len: 22, g1: BbanClass::Digit, g2_len: 0, g2: BbanClass::Digit, g3_len: 0, g3: BbanClass::Digit, bank: Some((0, 2)), branch: Some((2, 4)) },
        ),
        ('I', 'T') => Some(
            IbanLayout { g1_len: 1, g1: BbanClass::Upper, g2_len: 10, g2: BbanClass::Digit, g3_len: 12, g3: BbanClass::Alnum, bank: Some((1, 6)), branch: Some((6, 11)) },
        ),
        ('J', 'O') => Some(
            IbanLayout { g1_len: 4, g1: BbanClass::Upper, g2_len: 4, g2: BbanClass::Digit, g3_len: 18, g3: BbanClass::Alnum, bank: Some((0, 4)), branch: Some((4, 8)) },
        ),
        ('K', 'W') => Some(
            IbanLayout { g1_len: 4, g1: BbanClass::Upper, g2_len: 22, g2: BbanClass::Alnum, g3_len: 0, g3: BbanClass::Digit, bank: Some((0, 4)), branch: None },
        ),
        ('K', 'Z') => Some(
            IbanLayout { g1_len: 3, g1: BbanClass::Digit, g2_len: 13, g2: BbanClass::Alnum, g3_len: 0, g3: BbanClass::Digit, bank: Some((0, 3)), branch: None },
        ),
        ('L', 'B') => Some(
            IbanLayout { g1_len: 4, g1: BbanClass::Digit, g2_len: 20, g2: BbanClass::Alnum, g3_len: 0, g3: BbanClass::Digit, bank: Some((0, 4)), branch: None },
        ),
        ('L', 'C') => Some(
            IbanLayout { g1_len: 4, g1: BbanClass::Upper, g2_len: 24, g2: BbanClass::Alnum, g3_len: 0, g3: BbanClass::Digit, bank: Some((0, 4)), branch: None },
        ),
        ('L', 'I') => Some(
            IbanLayout { g1_len: 5, g1: BbanClass::Digit, g2_len: 12, g2: BbanClass::Alnum, g3_len: 0, g3: BbanClass::Digit, bank: Some((0, 5)), branch: None },
        ),
        ('L', 'T') => Some(
            IbanLayout { g1_len: 16, g1: BbanClass::Digit, g2_len: 0, g2: BbanClass::Digit, g3_len: 0, g3: BbanClass::Digit, bank: Some((0, 5)), branch: None },
        ),
        ('L', 'U') => Some(
            IbanLayout { g1_len: 3, g1: BbanClass::Digit, g2_len: 13, g2: BbanClass::Alnum, g3_len: 0, g3: BbanClass::Digit, bank: Some((0, 3)), branch: None },
        ),
        ('L', 'V') => Some(
            IbanLayout { g1_len: 4, g1: BbanClass::Upper, g2_len: 13, g2: BbanClass::Alnum, g3_len: 0, g3: BbanClass::Digit, bank: Some((0, 4)), branch: None },
        ),
        ('L', 'Y') => Some(
            IbanLayout { g1_len: 21, g1: BbanClass::Digit, g2_len: 0, g2: BbanClass::Digit, g3_len: 0, g3: BbanClass::Digit, bank: Some((0, 3)), branch: Some((3, 6)) },
        ),
        ('M', 'C') => Some(
            IbanLayout { g1_len: 10, g1: BbanClass::Digit, g2_len: 11, g2: BbanClass::Alnum, g3_len: 2, g3: BbanClass::Digit, bank: Some((0, 5)), branch: Some((5, 10)) },
        ),
        ('M', 'D') => Some(
            IbanLayout { g1_len: 20, g1: BbanClass::Alnum, g2_len: 0, g2: BbanClass::Digit, g3_len: 0, g3: BbanClass::Digit, bank: Some((0, 2)), branch: None },
        ),
        ('M', 'E') => Some(
            IbanLayout { g1_len: 18, g1: BbanClass::Digit, g2_len: 0, g2: BbanClass::Digit, g3_len: 0, g3: BbanClass::Digit, bank: Some((0, 3)), branch: None },
        ),
        ('M', 'K') => Some(
            IbanLayout { g1_len: 3, g1: BbanClass::Digit, g2_len: 10, g2: BbanClass::Alnum, g3_len: 2, g3: BbanClass::Digit, bank: Some((0, 3)), branch: None },
        ),
        ('M', 'N') => Some(
            IbanLayout { g1_len: 16, g1: BbanClass::Digit, g2_len: 0, g2: BbanClass::Digit, g3_len: 0, g3: BbanClass::Digit, bank: Some((0, 4)), branch: None },
        ),
        ('M', 'R') => Some(
            IbanLayout { g1_len: 23, g1: BbanClass::Digit, g2_len: 0, g2: BbanClass::Digit, g3_len: 0, g3: BbanClass::Digit, bank: Some((0, 5)), branch: Some((5, 10)) },
        ),
        ('M', 'T') => Some(
            IbanLayout { g1_len: 4, g1: BbanClass::Upper, g2_len: 5, g2: BbanClass::Digit, g3_len: 18, g3: BbanClass::Alnum, bank: Some((0, 4)), branch: Some((4, 9)) },
        ),
        ('M', 'U') => Some(
            IbanLayout { g1_len: 4, g1: BbanClass::Upper, g2_len: 19, g2: BbanClass::Digit, g3_len: 3, g3: BbanClass::Upper, bank: Some((0, 6)), branch: Some((6, 8)) },
        ),
        ('N', 'I') => Some(
            IbanLayout { g1_len: 4, g1: BbanClass::Upper, g2_len: 20, g2: BbanClass::Digit, g3_len: 0, g3: BbanClass::Digit, bank: Some((0, 4)), branch: None },
        ),
        ('N', 'L') => Some(
            IbanLayout { g1_len: 4, g1: BbanClass::Upper, g2_len: 10, g2: BbanClass::Digit, g3_len: 0, g3: BbanClass::Digit, bank: Some((0, 4)), branch: None },
        ),
        ('N', 'O') => Some(
            IbanLayout { g1_len: 11, g1: BbanClass::Digit, g2_len: 0, g2: BbanClass::Digit, g3_len: 0, g3: BbanClass::Digit, bank: Some((0, 4)), branch: None },
        ),
        ('O', 'M') => Some(
            IbanLayout { g1_len: 3, g1: BbanClass::Digit, g2_len: 16, g2: BbanClass::Alnum, g3_len: 0, g3: BbanClass::Digit, bank: Some((0, 3)), branch: None },
        ),
        ('P', 'L') => Some(
            IbanLayout { g1_len: 24, g1: BbanClass::Digit, g2_len: 0, g2: BbanClass::Digit, g3_len: 0, g3: BbanClass::Digit, bank: None, branch: Some((0, 8)) },
        ),
        ('P', 'S') => Some(
            IbanLayout { g1_len: 4, g1: BbanClass::Upper, g2_len: 21, g2: BbanClass::Alnum, g3_len: 0, g3: BbanClass::Digit, bank: Some((0, 4)), branch: None },
        ),
        ('P', 'T') => Some(
            IbanLayout { g1_len: 21, g1: BbanClass::Digit, g2_len: 0, g2: BbanClass::Digit, g3_len: 0, g3: BbanClass::Digit, bank: Some((0, 4)), branch: Some((4, 8)) },
        ),
        ('Q', 'A') => Some(
            IbanLayout { g1_len: 4, g1: BbanClass::Upper, g2_len: 21, g2: BbanClass::Alnum, g3_len: 0, g3: BbanClass::Digit, bank: Some((0, 4)), branch: None },
        ),
        ('R', 'O') => Some(
            IbanLayout { g1_len: 4, g1: BbanClass::Upper, g2_len: 16, g2: BbanClass::Alnum, g3_len: 0, g3: BbanClass::Digit, bank: Some((0, 4)), branch: None },
        ),
        ('R', 'S') => Some(
            IbanLayout { g1_len: 18, g1: BbanClass::Digit, g2_len: 0, g2: BbanClass::Digit, g3_len: 0, g3: BbanClass::Digit, bank: Some((0, 3)), branch: None },
        ),
        ('R', 'U') => Some(
            IbanLayout { g1_len: 14, g1: BbanClass::Digit, g2_len: 15, g2: BbanClass::Alnum, g3_len: 0, g3: BbanClass::Digit, bank: Some((0, 9)), branch: Some((9, 14)) },
        ),
        ('S', 'A') => Some(
            IbanLayout { g1_len: 2, g1: BbanClass::Digit, g2_len: 18, g2: BbanClass::Alnum, g3_len: 0, g3: BbanClass::Digit, bank: Some((0, 2)), branch: None },
        ),
        ('S', 'C') => Some(
            IbanLayout { g1_len: 4, g1: BbanClass::Upper, g2_len: 20, g2: BbanClass::Digit, g3_len: 3, g3: BbanClass::Upper, bank: Some((0, 6)), branch: Some((6, 8)) },
        ),
        ('S', 'D') => Some(
            IbanLayout { g1_len: 14, g1: BbanClass::Digit, g2_len: 0, g2: BbanClass::Digit, g3_len: 0, g3: BbanClass::Digit, bank: Some((0, 2)), branch: None },
        ),
        ('S', 'E') => Some(
            IbanLayout { g1_len: 20, g1: BbanClass::Digit, g2_len: 0, g2: BbanClass::Digit, g3_len: 0, g3: BbanClass::Digit, bank: Some((0, 3)), branch: None },
        ),
        ('S', 'I') => Some(
            IbanLayout { g1_len: 15, g1: BbanClass::Digit, g2_len: 0, g2: BbanClass::Digit, g3_len: 0, g3: BbanClass::Digit, bank: Some((0, 5)), branch: None },
        ),
        ('S', 'K') => Some(
            IbanLayout { g1_len: 20, g1: BbanClass::Digit, g2_len: 0, g2: BbanClass::Digit, g3_len: 0, g3: BbanClass::Digit, bank: Some((0, 4)), branch: None },
        ),
        ('S', 'M') => Some(
            IbanLayout { g1_len: 1, g1: BbanClass::Upper, g2_len: 10, g2: BbanClass::Digit, g3_len: 12, g3: BbanClass::Alnum, bank: Some((1, 6)), branch: Some((6, 11)) },
        ),
        ('S', 'O') => Some(
            IbanLayout { g1_len: 19, g1: BbanClass::Digit, g2_len: 0, g2: BbanClass::Digit, g3_len: 0, g3: BbanClass::Digit, bank: Some((0, 4)), branch: Some((4, 7)) },
        ),
        ('S', 'T') => Some(
            IbanLayout { g1_len: 21, g1: BbanClass::Digit, g2_len: 0, g2: BbanClass::Digit, g3_len: 0, g3: BbanClass::Digit, bank: Some((0, 4)), branch: Some((4, 8)) },
        ),
        ('S', 'V') => Some(
            IbanLayout { g1_len: 4, g1: BbanClass::Upper, g2_len: 20, g2: BbanClass::Digit, g3_len: 0, g3: BbanClass::Digit, bank: Some((0, 4)), branch: None },
        ),
        ('T', 'L') => Some(
            IbanLayout { g1_len: 19, g1: BbanClass::Digit, g2_len: 0, g2: BbanClass::Digit, g3_len: 0, g3: BbanClass::Digit, bank: Some((0, 3)), branch: None },
        ),
        ('T', 'N') => Some(
            IbanLayout { g1_len: 20, g1: BbanClass::Digit, g2_len: 0, g2: BbanClass::Digit, g3_len: 0, g3: BbanClass::Digit, bank: Some((0, 2)), branch: Some((2, 5)) },
        ),
        ('T', 'R') => Some(
            IbanLayout { g1_len: 6, g1: BbanClass::Digit, g2_len: 16, g2: BbanClass::Alnum, g3_len: 0, g3: BbanClass::Digit, bank: Some((0, 5)), branch: None },
        ),
        ('U', 'A') => Some(
            IbanLayout { g1_len: 6, g1: BbanClass::Digit, g2_len: 19, g2: BbanClass::Alnum, g3_len: 0, g3: BbanClass::Digit, bank: Some((0, 6)), branch: None },
        ),
        ('V', 'A') => Some(
            IbanLayout { g1_len: 18, g1: BbanClass::Digit, g2_len: 0, g2: BbanClass::Digit, g3_len: 0, g3: BbanClass::Digit, bank: Some((0, 3)), branch: None },
        ),
        ('V', 'G') => Some(
            IbanLayout { g1_len: 4, g1: BbanClass::Upper, g2_len: 16, g2: BbanClass::Digit, g3_len: 0, g3: BbanClass::Digit, bank: Some((0, 4)), branch: None },
        ),
        ('X', 'K') => Some(
            IbanLayout { g1_len: 16, g1: BbanClass::Digit, g2_len: 0, g2: BbanClass::Digit, g3_len: 0, g3: BbanClass::Digit, bank: Some((0, 2)), branch: Some((2, 4)) },
        ),
        ('Y', 'E') => Some(
            IbanLayout { g1_len: 4, g1: BbanClass::Upper, g2_len: 4, g2: BbanClass::Digit, g3_len: 18, g3: BbanClass::Alnum, bank: Some((0, 4)), branch: Some((4, 8)) },
        ),
        _ => None,
    }
}

/// Executable lookup of a country's registered layout.
pub fn lookup_country_layout(c0: char, c1: char) -> (r: Option<IbanLayout>)
    ensures
        r == country_layout(c0, c1),
{
    match (c0, c1) {
        ('A', 'D') => Some(
            IbanLayout { g1_len: 8, g1: BbanClass::Digit, g2_len: 12, g2: BbanClass::Alnum, g3_len: 0, g3: BbanClass::Digit, bank: Some((0, 4)), branch: Some((4, 8)) },
        ),
        ('A', 'E') => Some(
            IbanLayout { g1_len: 19, g1: BbanClass::Digit, g2_len: 0, g2: BbanClass::Digit, g3_len: 0, g3: BbanClass::Digit, bank: Some((0, 3)), branch: None },
        ),
        ('A', 'L') => Some(
            IbanLayout { g1_len: 8, g1: BbanClass::Digit, g2_len: 16, g2: BbanClass::Alnum, g3_len: 0, g3: BbanClass::Digit, bank: Some((0, 3)), branch: Some((3, 7)) },
        ),
        ('A', 'T') => Some(
            IbanLayout { g1_len: 16, g1: BbanClass::Digit, g2_len: 0, g2: BbanClass::Digit, g3_len: 0, g3: BbanClass::Digit, bank: Some((0, 5)), branch: None },
        ),
        ('A', 'Z') => Some(
            IbanLayout { g1_len: 4, g1: BbanClass::Upper, g2_len: 20, g2: BbanClass::Alnum, g3_len: 0, g3: BbanClass::Digit, bank: Some((0, 4)), branch: None },
        ),
        ('B', 'A') => Some(
            IbanLayout { g1_len: 16, g1: BbanClass::Digit, g2_len: 0, g2: BbanClass::Digit, g3_len: 0, g3: BbanClass::Digit, bank: Some((0, 3)), branch: Some((3, 6)) },
        ),
        ('B', 'E') => Some(
            IbanLayout { g1_len: 12, g1: BbanClass::Digit, g2_len: 0, g2: BbanClass::Digit, g3_len: 0, g3: BbanClass::Digit, bank: Some((0, 3)), branch: None },
        ),
        ('B', 'G') => Some(
            IbanLayout { g1_len: 4, g1: BbanClass::Upper, g2_len: 6, g2: BbanClass::Digit, g3_len: 8, g3: BbanClass::Alnum, bank: Some((0, 4)), branch: Some((4, 8)) },
        ),
        ('B', 'H') => Some(
            IbanLayout { g1_len: 4, g1: BbanClass::Upper, g2_len: 14, g2: BbanClass::Alnum, g3_len: 0, g3: BbanClass::Digit, bank: Some((0, 4)), branch: None },
        ),
        ('B', 'I') => Some(
            IbanLayout { g1_len: 23, g1: BbanClass::Digit, g2_len: 0, g2: BbanClass::Digit, g3_len: 0, g3: BbanClass::Digit, bank: Some((0, 5)), branch: Some((5, 10)) },
        ),
        ('B', 'R') => Some(
            IbanLayout { g1_len: 23, g1: BbanClass::Digit, g2_len: 1, g2: BbanClass::Upper, g3_len: 1, g3: BbanClass::Alnum, bank: Some((0, 8)), branch: Some((8, 13)) },
        ),
        ('B', 'Y') => Some(
            IbanLayout { g1_len: 4, g1: BbanClass::Alnum, g2_len: 4, g2: BbanClass::Digit, g3_len: 16, g3: BbanClass::Alnum, bank: Some((0, 4)), branch: None },
        ),
        ('C', 'H') => Some(
            IbanLayout { g1_len: 5, g1: BbanClass::Digit, g2_len: 12, g2: BbanClass::Alnum, g3_len: 0, g3: BbanClass::Digit, bank: Some((0, 5)), branch: None },
        ),
        ('C', 'R') => Some(
            IbanLayout { g1_len: 18, g1: BbanClass::Digit, g2_len: 0, g2: BbanClass::Digit, g3_len: 0, g3: BbanClass::Digit, bank: Some((0, 4)), branch: None },
        ),
        ('C', 'Y') => Some(
            IbanLayout { g1_len: 8, g1: BbanClass::Digit, g2_len: 16, g2: BbanClass::Alnum, g3_len: 0, g3: BbanClass::Digit, bank: Some((0, 3)), branch: Some((3, 8)) },
        ),
        ('C', 'Z') => Some(
            IbanLayout { g1_len: 20, g1: BbanClass::Digit, g2_len: 0, g2: BbanClass::Digit, g3_len: 0, g3: BbanClass::Digit, bank: Some((0, 4)), branch: None },
        ),
        ('D', 'E') => Some(
            IbanLayout { g1_len: 18, g1: BbanClass::Digit, g2_len: 0, g2: BbanClass::Digit, g3_len: 0, g3: BbanClass::Digit, bank: Some((0, 8)), branch: None },
        ),
        ('D', 'J') => Some(
            IbanLayout { g1_len: 23, g1: BbanClass::Digit, g2_len: 0, g2: BbanClass::Digit, g3_len: 0, g3: BbanClass::Digit, bank: Some((0, 5)), branch: Some((5, 10)) },
        ),
        ('D', 'K') => Some(
            IbanLayout { g1_len: 14, g1: BbanClass::Digit, g2_len: 0, g2: BbanClass::Digit, g3_len: 0, g3: BbanClass::Digit, bank: Some((0, 4)), branch: None },
        ),
        ('D', 'O') => Some(
            IbanLayout { g1_len: 4, g1: BbanClass::Alnum, g2_len: 20, g2: BbanClass::Digit, g3_len: 0, g3: BbanClass::Digit, bank: Some((0, 4)), branch: None },
        ),
        ('E', 'E') => Some(
            IbanLayout { g1_len: 16, g1: BbanClass::Digit, g2_len: 0, g2: BbanClass::Digit, g3_len: 0, g3: BbanClass::Digit, bank: Some((0, 2)), branch: None },
        ),
        ('E', 'G') => Some(
            IbanLayout { g1_len: 25, g1: BbanClass::Digit, g2_len: 0, g2: BbanClass::Digit, g3_len: 0, g3: BbanClass::Digit, bank: Some((0, 4)), branch: Some((4, 8)) },
        ),
        ('E', 'S') => Some(
            IbanLayout { g1_len: 20, g1: BbanClass::Digit, g2_len: 0, g2: BbanClass::Digit, g3_len: 0, g3: BbanClass::Digit, bank: Some((0, 4)), branch: Some((4, 8)) },
        ),
        ('F', 'I') => Some(
            IbanLayout { g1_len: 14, g1: BbanClass::Digit, g2_len: 0, g2: BbanClass::Digit, g3_len: 0, g3: BbanClass::Digit, bank: Some((0, 3)), branch: None },
        ),
        ('F', 'K') => Some(
            IbanLayout { g1_len: 2, g1: BbanClass::Upper, g2_len: 12, g2: BbanClass::Digit, g3_len: 0, g3: BbanClass::Digit, bank: Some((0, 2)), branch: None },
        ),
        ('F', 'O') => Some(
            IbanLayout { g1_len: 14, g1: BbanClass::Digit, g2_len: 0, g2: BbanClass::Digit, g3_len: 0, g3: BbanClass::Digit, bank: Some((0, 4)), branch: None },
        ),
        ('F', 'R') => Some(
            IbanLayout { g1_len: 10, g1: BbanClass::Digit, g2_len: 11, g2: BbanClass::Alnum, g3_len: 2, g3: BbanClass::Digit, bank: Some((0, 5)), branch: None },
        ),
        ('G', 'B') => Some(
            IbanLayout { g1_len: 4, g1: BbanClass::Upper, g2_len: 14, g2: BbanClass::Digit, g3_len: 0, g3: BbanClass::Digit, bank: Some((0, 4)), branch: Some((4, 10)) },
        ),
        ('G', 'E') => Some(
            IbanLayout { g1_len: 2, g1: BbanClass::Upper, g2_len: 16, g2: BbanClass::Digit, g3_len: 0, g3: BbanClass::Digit, bank: Some((0, 2)), branch: None },
        ),
        ('G', 'I') => Some(
            IbanLayout { g1_len: 4, g1: BbanClass::Upper, g2_len: 15, g2: BbanClass::Alnum, g3_len: 0, g3: BbanClass::Digit, bank: Some((0, 4)), branch: None },
        ),
        ('G', 'L') => Some(
            IbanLayout { g1_len: 14, g1: BbanClass::Digit, g2_len: 0, g2: BbanClass::Digit, g3_len: 0, g3: BbanClass::Digit, bank: Some((0, 4)), branch: None },
        ),
        ('G', 'R') => Some(
            IbanLayout { g1_len: 7, g1: BbanClass::Digit, g2_len: 16, g2: BbanClass::Alnum, g3_len: 0, g3: BbanClass::Digit, bank: Some((0, 3)), branch: Some((3, 7)) },
        ),
        ('G', 'T') => Some(
            IbanLayout { g1_len: 24, g1: BbanClass::Alnum, g2_len: 0, g2: BbanClass::Digit, g3_len: 0, g3: BbanClass::Digit, bank: Some((0, 4)), branch: None },
        ),
        ('H', 'R') => Some(
            IbanLayout { g1_len: 17, g1: BbanClass::Digit, g2_len: 0, g2: BbanClass::Digit, g3_len: 0, g3: BbanClass::Digit, bank: Some((0, 7)), branch: None },
        ),
        ('H', 'U') => Some(
            IbanLayout { g1_len: 24, g1: BbanClass::Digit, g2_len: 0, g2: BbanClass::Digit, g3_len: 0, g3: BbanClass::Digit, bank: Some((0, 3)), branch: Some((3, 7)) },
        ),
        ('I', 'E') => Some(
            IbanLayout { g1_len: 4, g1: BbanClass::Upper, g2_len: 14, g2: BbanClass::Digit, g3_len: 0, g3: BbanClass::Digit, bank: Some((0, 4)), branch: Some((4, 10)) },
        ),
        ('I', 'L') => Some(
            IbanLayout { g1_len: 19, g1: BbanClass::Digit, g2_len: 0, g2: BbanClass::Digit, g3_len: 0, g3: BbanClass::Digit, bank: Some((0, 3)), branch: Some((3, 6)) },
        ),
        ('I', 'Q') => Some(
            IbanLayout { g1_len: 4, g1: BbanClass::Upper, g2_len: 15, g2: BbanClass::Digit, g3_len: 0, g3: BbanClass::Digit, bank: Some((0, 4)), branch: Some((4, 7)) },
        ),
        ('I', 'S') => Some(
            IbanLayout { g1_len: 22, g1: BbanClass::Digit, g2_len: 0, g2: BbanClass::Digit, g3_len: 0, g3: BbanClass::Digit, bank: Some((0, 2)), branch: Some((2, 4)) },
        ),
        ('I', 'T') => Some(
            IbanLayout { g1_len: 1, g1: BbanClass::Upper, g2_len: 10, g2: BbanClass::Digit, g3_len: 12, g3: BbanClass::Alnum, bank: Some((1, 6)), branch: Some((6, 11)) },
        ),
        ('J', 'O') => Some(
            IbanLayout { g1_len: 4, g1: BbanClass::Upper, g2_len: 4, g2: BbanClass::Digit, g3_len: 18, g3: BbanClass::Alnum, bank: Some((0, 4)), branch: Some((4, 8)) },
        ),
        ('K', 'W') => Some(
            IbanLayout { g1_len: 4, g1: BbanClass::Upper, g2_len: 22, g2: BbanClass::Alnum, g3_len: 0, g3: BbanClass::Digit, bank: Some((0, 4)), branch: None },
        ),
        ('K', 'Z') => Some(
            IbanLayout { g1_len: 3, g1: BbanClass::Digit, g2_len: 13, g2: BbanClass::Alnum, g3_len: 0, g3: BbanClass::Digit, bank: Some((0, 3)), branch: None },
        ),
        ('L', 'B') => Some(
            IbanLayout { g1_len: 4, g1: BbanClass::Digit, g2_len: 20, g2: BbanClass::Alnum, g3_len: 0, g3: BbanClass::Digit, bank: Some((0, 4)), branch: None },
        ),
        ('L', 'C') => Some(
            IbanLayout { g1_len: 4, g1: BbanClass::Upper, g2_len: 24, g2: BbanClass::Alnum, g3_len: 0, g3: BbanClass::Digit, bank: Some((0, 4)), branch: None },
        ),
        ('L', 'I') => Some(
            IbanLayout { g1_len: 5, g1: BbanClass::Digit, g2_len: 12, g2: BbanClass::Alnum, g3_len: 0, g3: BbanClass::Digit, bank: Some((0, 5)), branch: None },
        ),
        ('L', 'T') => Some(
            IbanLayout { g1_len: 16, g1: BbanClass::Digit, g2_len: 0, g2: BbanClass::Digit, g3_len: 0, g3: BbanClass::Digit, bank: Some((0, 5)), branch: None },
        ),
        ('L', 'U') => Some(
            IbanLayout { g1_len: 3, g1: BbanClass::Digit, g2_len: 13, g2: BbanClass::Alnum, g3_len: 0, g3: BbanClass::Digit, bank: Some((0, 3)), branch: None },
        ),
        ('L', 'V') => Some(
            IbanLayout { g1_len: 4, g1: BbanClass::Upper, g2_len: 13, g2: BbanClass::Alnum, g3_len: 0, g3: BbanClass::Digit, bank: Some((0, 4)), branch: None },
        ),
        ('L', 'Y') => Some(
            IbanLayout { g1_len: 21, g1: BbanClass::Digit, g2_len: 0, g2: BbanClass::Digit, g3_len: 0, g3: BbanClass::Digit, bank: Some((0, 3)), branch: Some((3, 6)) },
        ),
        ('M', 'C') => Some(
            IbanLayout { g1_len: 10, g1: BbanClass::Digit, g2_len: 11, g2: BbanClass::Alnum, g3_len: 2, g3: BbanClass::Digit, bank: Some((0, 5)), branch: Some((5, 10)) },
        ),
        ('M', 'D') => Some(
            IbanLayout { g1_len: 20, g1: BbanClass::Alnum, g2_len: 0, g2: BbanClass::Digit, g3_len: 0, g3: BbanClass::Digit, bank: Some((0, 2)), branch: None },
        ),
        ('M', 'E') => Some(
            IbanLayout { g1_len: 18, g1: BbanClass::Digit, g2_len: 0, g2: BbanClass::Digit, g3_len: 0, g3: BbanClass::Digit, bank: Some((0, 3)), branch: None },
        ),
        ('M', 'K') => Some(
            IbanLayout { g1_len: 3, g1: BbanClass::Digit, g2_len: 10, g2: BbanClass::Alnum, g3_len: 2, g3: BbanClass::Digit, bank: Some((0, 3)), branch: None },
        ),
        ('M', 'N') => Some(
            IbanLayout { g1_len: 16, g1: BbanClass::Digit, g2_len: 0, g2: BbanClass::Digit, g3_len: 0, g3: BbanClass::Digit, bank: Some((0, 4)), branch: None },
        ),
        ('M', 'R') => Some(
            IbanLayout { g1_len: 23, g1: BbanClass::Digit, g2_len: 0, g2: BbanClass::Digit, g3_len: 0, g3: BbanClass::Digit, bank: Some((0, 5)), branch: Some((5, 10)) },
        ),
        ('M', 'T') => Some(
            IbanLayout { g1_len: 4, g1: BbanClass::Upper, g2_len: 5, g2: BbanClass::Digit, g3_len: 18, g3: BbanClass::Alnum, bank: Some((0, 4)), branch: Some((4, 9)) },
        ),
        ('M', 'U') => Some(
            IbanLayout { g1_len: 4, g1: BbanClass::Upper, g2_len: 19, g2: BbanClass::Digit, g3_len: 3, g3: BbanClass::Upper, bank: Some((0, 6)), branch: Some((6, 8)) },
        ),
        ('N', 'I') => Some(
            IbanLayout { g1_len: 4, g1: BbanClass::Upper, g2_len: 20, g2: BbanClass::Digit, g3_len: 0, g3: BbanClass::Digit, bank: Some((0, 4)), branch: None },
        ),
        ('N', 'L') => Some(
            IbanLayout { g1_len: 4, g1: BbanClass::Upper, g2_len: 10, g2: BbanClass::Digit, g3_len: 0, g3: BbanClass::Digit, bank: Some((0, 4)), branch: None },
        ),
        ('N', 'O') => Some(
            IbanLayout { g1_len: 11, g1: BbanClass::Digit, g2_len: 0, g2: BbanClass::Digit, g3_len: 0, g3: BbanClass::Digit, bank: Some((0, 4)), branch: None },
        ),
        ('O', 'M') => Some(
            IbanLayout { g1_len: 3, g1: BbanClass::Digit, g2_len: 16, g2: BbanClass::Alnum, g3_len: 0, g3: BbanClass::Digit, bank: Some((0, 3)), branch: None },
        ),
        ('P', 'L') => Some(
            IbanLayout { g1_len: 24, g1: BbanClass::Digit, g2_len: 0, g2: BbanClass::Digit, g3_len: 0, g3: BbanClass::Digit, bank: None, branch: Some((0, 8)) },
        ),
        ('P', 'S') => Some(
            IbanLayout { g1_len: 4, g1: BbanClass::Upper, g2_len: 21, g2: BbanClass::Alnum, g3_len: 0, g3: BbanClass::Digit, bank: Some((0, 4)), branch: None },
        ),
        ('P', 'T') => Some(
            IbanLayout { g1_len: 21, g1: BbanClass::Digit, g2_len: 0, g2: BbanClass::Digit, g3_len: 0, g3: BbanClass::Digit, bank: Some((0, 4)), branch: Some((4, 8)) },
        ),
        ('Q', 'A') => Some(
            IbanLayout { g1_len: 4, g1: BbanClass::Upper, g2_len: 21, g2: BbanClass::Alnum, g3_len: 0, g3: BbanClass::Digit, bank: Some((0, 4)), branch: None },
        ),
        ('R', 'O') => Some(
            IbanLayout { g1_len: 4, g1: BbanClass::Upper, g2_len: 16, g2: BbanClass::Alnum, g3_len: 0, g3: BbanClass::Digit, bank: Some((0, 4)), branch: None },
        ),
        ('R', 'S') => Some(
            IbanLayout { g1_len: 18, g1: BbanClass::Digit, g2_len: 0, g2: BbanClass::Digit, g3_len: 0, g3: BbanClass::Digit, bank: Some((0, 3)), branch: None },
        ),
        ('R', 'U') => Some(
            IbanLayout { g1_len: 14, g1: BbanClass::Digit, g2_len: 15, g2: BbanClass::Alnum, g3_len: 0, g3: BbanClass::Digit, bank: Some((0, 9)), branch: Some((9, 14)) },
        ),
        ('S', 'A') => Some(
            IbanLayout { g1_len: 2, g1: BbanClass::Digit, g2_len: 18, g2: BbanClass::Alnum, g3_len: 0, g3: BbanClass::Digit, bank: Some((0, 2)), branch: None },
        ),
        ('S', 'C') => Some(
            IbanLayout { g1_len: 4, g1: BbanClass::Upper, g2_len: 20, g2: BbanClass::Digit, g3_len: 3, g3: BbanClass::Upper, bank: Some((0, 6)), branch: Some((6, 8)) },
        ),
        ('S', 'D') => Some(
            IbanLayout { g1_len: 14, g1: BbanClass::Digit, g2_len: 0, g2: BbanClass::Digit, g3_len: 0, g3: BbanClass::Digit, bank: Some((0, 2)), branch: None },
        ),
        ('S', 'E') => Some(
            IbanLayout { g1_len: 20, g1: BbanClass::Digit, g2_len: 0, g2: BbanClass::Digit, g3_len: 0, g3: BbanClass::Digit, bank: Some((0, 3)), branch: None },
        ),
        ('S', 'I') => Some(
            IbanLayout { g1_len: 15, g1: BbanClass::Digit, g2_len: 0, g2: BbanClass::Digit, g3_len: 0, g3: BbanClass::Digit, bank: Some((0, 5)), branch: None },
        ),
        ('S', 'K') => Some(
            IbanLayout { g1_len: 20, g1: BbanClass::Digit, g2_len: 0, g2: BbanClass::Digit, g3_len: 0, g3: BbanClass::Digit, bank: Some((0, 4)), branch: None },
        ),
        ('S', 'M') => Some(
            IbanLayout { g1_len: 1, g1: BbanClass::Upper, g2_len: 10, g2: BbanClass::Digit, g3_len: 12, g3: BbanClass::Alnum, bank: Some((1, 6)), branch: Some((6, 11)) },
        ),
        ('S', 'O') => Some(
            IbanLayout { g1_len: 19, g1: BbanClass::Digit, g2_len: 0, g2: BbanClass::Digit, g3_len: 0, g3: BbanClass::Digit, bank: Some((0, 4)), branch: Some((4, 7)) },
        ),
        ('S', 'T') => Some(
            IbanLayout { g1_len: 21, g1: BbanClass::Digit, g2_len: 0, g2: BbanClass::Digit, g3_len: 0, g3: BbanClass::Digit, bank: Some((0, 4)), branch: Some((4, 8)) },
        ),
        ('S', 'V') => Some(
            IbanLayout { g1_len: 4, g1: BbanClass::Upper, g2_len: 20, g2: BbanClass::Digit, g3_len: 0, g3: BbanClass::Digit, bank: Some((0, 4)), branch: None },
        ),
        ('T', 'L') => Some(
            IbanLayout { g1_len: 19, g1: BbanClass::Digit, g2_len: 0, g2: BbanClass::Digit, g3_len: 0, g3: BbanClass::Digit, bank: Some((0, 3)), branch: None },
        ),
        ('T', 'N') => Some(
            IbanLayout { g1_len: 20, g1: BbanClass::Digit, g2_len: 0, g2: BbanClass::Digit, g3_len: 0, g3: BbanClass::Digit, bank: Some((0, 2)), branch: Some((2, 5)) },
        ),
        ('T', 'R') => Some(
            IbanLayout { g1_len: 6, g1: BbanClass::Digit, g2_len: 16, g2: BbanClass::Alnum, g3_len: 0, g3: BbanClass::Digit, bank: Some((0, 5)), branch: None },
        ),
        ('U', 'A') => Some(
            IbanLayout { g1_len: 6, g1: BbanClass::Digit, g2_len: 19, g2: BbanClass::Alnum, g3_len: 0, g3: BbanClass::Digit, bank: Some((0, 6)), branch: None },
        ),
        ('V', 'A') => Some(
            IbanLayout { g1_len: 18, g1: BbanClass::Digit, g2_len: 0, g2: BbanClass::Digit, g3_len: 0, g3: BbanClass::Digit, bank: Some((0, 3)), branch: None },
        ),
        ('V', 'G') => Some(
            IbanLayout { g1_len: 4, g1: BbanClass::Upper, g2_len: 16, g2: BbanClass::Digit, g3_len: 0, g3: BbanClass::Digit, bank: Some((0, 4)), branch: None },
        ),
        ('X', 'K') => Some(
            IbanLayout { g1_len: 16, g1: BbanClass::Digit, g2_len: 0, g2: BbanClass::Digit, g3_len: 0, g3: BbanClass::Digit, bank: Some((0, 2)), branch: Some((2, 4)) },
        ),
        ('Y', 'E') => Some(
            IbanLayout { g1_len: 4, g1: BbanClass::Upper, g2_len: 4, g2: BbanClass::Digit, g3_len: 18, g3: BbanClass::Alnum, bank: Some((0, 4)), branch: Some((4, 8)) },
        ),
        _ => None,
    }
}

/// Total BBAN length of a layout, computed in executable code.
pub fn bban_len_exec(l: &IbanLayout) -> (r: usize)
    ensures
        r == bban_len_of(*l),
{
    l.g1_len as usize + l.g2_len as usize + l.g3_len as usize
}

/// Required character class at BBAN position `i`, computed in executable code.
pub fn class_at_exec(l: &IbanLayout, i: usize) -> (r: BbanClass)
    ensures
        r == class_at(*l, i as int),
{
    if i < l.g1_len as usize {
        l.g1
    } else if i < l.g1_len as usize + l.g2_len as usize {
        l.g2
    } else {
        l.g3
    }
}

/// Whether `c` belongs to the class `k`, decided in executable code.
pub fn char_in_class_exec(c: char, k: BbanClass) -> (r: bool)
    ensures
        r == char_in_class(c, k),
{
    let u = c as u32;
    match k {
        BbanClass::Digit => 48 <= u && u <= 57,
        BbanClass::Upper => 65 <= u && u <= 90,
        BbanClass::Alnum => (48 <= u && u <= 57) || (65 <= u && u <= 90),
    }
}

} // verus!
