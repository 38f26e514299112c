//! Semantic version tags of the `major.minor.patch` form, with each
//! component a decimal number between 0 and 255.

use vstd::prelude::*;
use vstd::string::*;

use crate::errors::{WalletError, WalletResult};
use crate::strutil::{split_sep, split_sep_str};

verus! {

/// The character is a decimal digit.
pub open spec fn is_dec_digit(c: char) -> bool {
    '0' <= c && c <= '9'
}

/// The numeric value of a string of decimal digits, most significant first.
pub open spec fn dec_val(s: Seq<char>) -> int
    decreases s.len(),
{
    if s.len() == 0 {
        0
    } else {
        dec_val(s.drop_last()) * 10 + (s.last() as int - '0' as int)
    }
}

/// A well-formed version component: non-empty, all decimal digits, value at
/// most 255.
pub open spec fn valid_component(s: Seq<char>) -> bool {
    &&& s.len() > 0
    &&& forall|j: int| 0 <= j < s.len() ==> is_dec_digit(#[trigger] s[j])
    &&& dec_val(s) <= 255
}

/// Appending digits never decreases the value.
proof fn lemma_dec_val_mono(s: Seq<char>, i: int)
    requires
        0 <= i <= s.len(),
        forall|j: int| 0 <= j < s.len() ==> is_dec_digit(#[trigger] s[j]),
    ensures
        dec_val(s.take(i)) <= dec_val(s),
    decreases s.len() - i,
{
    lemma_dec_val_nonneg(s.take(i));
    if i == s.len() {
        assert(s.take(i) =~= s);
    } else {
        lemma_dec_val_nonneg(s.take(i + 1));
        assert(s.take(i + 1).drop_last() =~= s.take(i));
        assert(dec_val(s.take(i + 1)) == dec_val(s.take(i)) * 10 + (s[i] as int - '0' as int));
        assert(dec_val(s.take(i)) * 10 >= dec_val(s.take(i))) by (nonlinear_arith)
            requires
                dec_val(s.take(i)) >= 0,
        ;
        assert(s[i] as int - '0' as int >= 0);
        lemma_dec_val_mono(s, i + 1);
    }
}

/// The value of a digit string is never negative.
proof fn lemma_dec_val_nonneg(s: Seq<char>)
    ensures
        (forall|j: int| 0 <= j < s.len() ==> is_dec_digit(#[trigger] s[j])) ==> dec_val(s) >= 0,
    decreases s.len(),
{
    if s.len() > 0 {
        lemma_dec_val_nonneg(s.drop_last());
        if forall|j: int| 0 <= j < s.len() ==> is_dec_digit(#[trigger] s[j]) {
            assert(forall|j: int| 0 <= j < s.drop_last().len() ==> is_dec_digit(
                #[trigger] s.drop_last()[j],
            ));
            assert(dec_val(s.drop_last()) * 10 >= 0) by (nonlinear_arith)
                requires
                    dec_val(s.drop_last()) >= 0,
            ;
        }
    }
}

/// Reads a version component: `Some` exactly on well-formed components, with
/// their value.
fn parse_component(s: &str) -> (r: Option<u8>)
    ensures
        match r {
            Some(v) => valid_component(s@) && v as int == dec_val(s@),
            None => !valid_component(s@),
        },
{
    let len = s.unicode_len();
    if len == 0 {
        return None;
    }
    let mut acc: u32 = 0;
    let mut i: usize = 0;
    while i < len
        invariant
            0 < len == s@.len(),
            i <= len,
            forall|j: int| 0 <= j < i ==> is_dec_digit(#[trigger] s@[j]),
            acc as int == dec_val(s@.take(i as int)),
            acc <= 255,
        decreases len - i,
    {
        let c = s.get_char(i);
        if c < '0' || c > '9' {
            return None;
        }
        let d = (c as u32) - ('0' as u32);
        proof {
            assert(s@.take(i as int + 1).drop_last() =~= s@.take(i as int));
        }
        acc = acc * 10 + d;
        if acc > 255 {
            proof {
                if forall|j: int| 0 <= j < s@.len() ==> is_dec_digit(#[trigger] s@[j]) {
                    lemma_dec_val_mono(s@, i as int + 1);
                    assert(s@.take(s@.len() as int) =~= s@);
                }
            }
            return None;
        }
        i += 1;
    }
    proof {
        assert(s@.take(len as int) =~= s@);
    }
    Some(acc as u8)
}

/// A semantic version: major, minor and patch numbers.
#[derive(Debug, Default, Clone, Copy, PartialEq, Eq, PartialOrd, Ord, Hash, Structural)]
pub struct SemverVersion {
    /// The major version number.
    pub major: u8,
    /// The minor version number.
    pub minor: u8,
    /// The patch version number.
    pub patch: u8,
}

impl SemverVersion {
    /// The major version number.
    pub fn major(&self) -> (r: u8)
        ensures
            r == self.major,
    {
        self.major
    }

    /// The minor version number.
    pub fn minor(&self) -> (r: u8)
        ensures
            r == self.minor,
    {
        self.minor
    }

    /// The patch version number.
    pub fn patch(&self) -> (r: u8)
        ensures
            r == self.patch,
    {
        self.patch
    }

    /// Reads a `major.minor.patch` string: fails with
    /// [`WalletError::InvalidWalletVersion`] unless the string has exactly
    /// three dot-separated components, and with
    /// [`WalletError::InvalidSemVerNumber`] on the first component that is
    /// not a decimal number between 0 and 255; the errors carry the raw
    /// text.
    pub fn parse(version: &str) -> (r: WalletResult<Self>)
        ensures
            ({
                let chunks = split_sep(version@, '.');
                match r {
                    Ok(v) => chunks.len() == 3 && valid_component(chunks[0]) && valid_component(
                        chunks[1],
                    ) && valid_component(chunks[2]) && v.major as int == dec_val(chunks[0])
                        && v.minor as int == dec_val(chunks[1]) && v.patch as int == dec_val(
                        chunks[2],
                    ),
                    Err(e) => match e {
                        WalletError::InvalidWalletVersion(t) => chunks.len() != 3 && t@
                            == version@,
                        WalletError::InvalidSemVerNumber(t) => chunks.len() == 3 && exists|k: int|
                            0 <= k < 3 && t@ == chunks[k] && !valid_component(chunks[k]),
                        _ => false,
                    },
                }
            }),
    {
        let chunks = split_sep_str(version, '.');
        if chunks.len() != 3 {
            return Err(WalletError::InvalidWalletVersion(version.to_owned()));
        }
        let ghost cv = split_sep(version@, '.');
        proof {
            assert(chunks@[0].deep_view() == cv[0]);
            assert(chunks@[1].deep_view() == cv[1]);
            assert(chunks@[2].deep_view() == cv[2]);
        }
        let major = match parse_component(chunks[0].as_str()) {
            Some(v) => v,
            None => {
                return Err(WalletError::InvalidSemVerNumber(chunks[0].clone()));
            },
        };
        let minor = match parse_component(chunks[1].as_str()) {
            Some(v) => v,
            None => {
                return Err(WalletError::InvalidSemVerNumber(chunks[1].clone()));
            },
        };
        let patch = match parse_component(chunks[2].as_str()) {
            Some(v) => v,
            None => {
                return Err(WalletError::InvalidSemVerNumber(chunks[2].clone()));
            },
        };
        Ok(SemverVersion { major, minor, patch })
    }

    /// The `major.minor.patch` rendering of the version.
    pub fn stringify_version(&self) -> (r: String)
        ensures
            r@ == dec_str(self.major as int) + "."@ + dec_str(self.minor as int) + "."@ + dec_str(
                self.patch as int,
            ),
    {
        let mut out = u8_to_string(self.major);
        out.append(".");
        let minor = u8_to_string(self.minor);
        out.append(minor.as_str());
        out.append(".");
        let patch = u8_to_string(self.patch);
        out.append(patch.as_str());
        out
    }
}

/// The decimal rendering of a non-negative number, without leading zeros.
pub open spec fn dec_str(n: int) -> Seq<char>
    decreases n,
{
    if n < 0 {
        Seq::empty()
    } else if n < 10 {
        seq![(('0' as int + n) as char)]
    } else {
        dec_str(n / 10) + seq![(('0' as int + n % 10) as char)]
    }
}

/// Renders a number of at most three decimal digits.
fn u8_to_string(v: u8) -> (r: String)
    ensures
        r@ == dec_str(v as int),
{
    let mut out = String::new();
    if v >= 100 {
        out.append(digit_str(v / 100));
        out.append(digit_str((v / 10) % 10));
        out.append(digit_str(v % 10));
        proof {
            assert(v as int / 10 / 10 == v as int / 100);
            assert(dec_str(v as int) == dec_str(v as int / 10) + seq![
                (('0' as int + v as int % 10) as char),
            ]);
            assert(dec_str(v as int / 10) == dec_str(v as int / 100) + seq![
                (('0' as int + (v as int / 10) % 10) as char),
            ]);
            assert(out@ =~= dec_str(v as int));
        }
    } else if v >= 10 {
        out.append(digit_str(v / 10));
        out.append(digit_str(v % 10));
        proof {
            assert(dec_str(v as int) == dec_str(v as int / 10) + seq![
                (('0' as int + v as int % 10) as char),
            ]);
            assert(out@ =~= dec_str(v as int));
        }
    } else {
        out.append(digit_str(v));
        proof {
            assert(out@ =~= dec_str(v as int));
        }
    }
    out
}

/// The text of one decimal digit.
fn digit_str(d: u8) -> (r: &'static str)
    requires
        d < 10,
    ensures
        r@ == seq![(('0' as int + d as int) as char)],
{
    proof {
        reveal_strlit("0");
        reveal_strlit("1");
        reveal_strlit("2");
        reveal_strlit("3");
        reveal_strlit("4");
        reveal_strlit("5");
        reveal_strlit("6");
        reveal_strlit("7");
        reveal_strlit("8");
        reveal_strlit("9");
    }
    let r = match d {
        0 => "0",
        1 => "1",
        2 => "2",
        3 => "3",
        4 => "4",
        5 => "5",
        6 => "6",
        7 => "7",
        8 => "8",
        _ => "9",
    };
    proof {
        assert(r@ =~= seq![(('0' as int + d as int) as char)]);
    }
    r
}

} // verus!
