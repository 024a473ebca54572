//! Traffic-class handles and their textual form.
//!
//! A handle addresses a class in the traffic-control hierarchy as a
//! major:minor pair.  Its textual form, as `tc` prints and accepts it, is
//! two nonempty hexadecimal numbers separated by a single colon, each
//! fitting 16 bits.

use vstd::prelude::*;
use vstd::string::StringSliceAdditionalSpecFns;

verus! {

/// Why a piece of text could not be parsed.
#[derive(Clone, Copy, Debug, PartialEq, Eq, Structural)]
pub enum ParseError {
    /// The class id lacks the (major):(minor) shape entirely.
    ClassIdFormat,
    /// The class id has the shape but not two hexadecimal 16-bit parts.
    TcHandleFormat,
    /// The CPU id is not a hexadecimal 32-bit number.
    CpuFormat,
}

/// A traffic-control class handle: the major:minor pair.
#[derive(Clone, Copy, Debug, PartialEq, Eq, Structural)]
pub struct TcHandle {
    pub major: u16,
    pub minor: u16,
}

/// An ASCII hexadecimal digit.
pub open spec fn spec_is_hex_digit(b: u8) -> bool {
    (48 <= b <= 57) || (97 <= b <= 102) || (65 <= b <= 70)
}

/// The value of one hexadecimal digit.
pub open spec fn spec_hex_digit_val(b: u8) -> int {
    if 48 <= b <= 57 {
        b - 48
    } else if 97 <= b <= 102 {
        b - 97 + 10
    } else {
        b - 65 + 10
    }
}

/// Every byte is a hexadecimal digit.
pub open spec fn spec_all_hex(s: Seq<u8>) -> bool {
    forall|i: int| 0 <= i < s.len() ==> spec_is_hex_digit(#[trigger] s[i])
}

/// The number a big-endian string of hexadecimal digits stands for.
pub open spec fn spec_hex_value(s: Seq<u8>) -> int
    decreases s.len(),
{
    if s.len() == 0 {
        0
    } else {
        spec_hex_value(s.drop_last()) * 16 + spec_hex_digit_val(s.last())
    }
}

/// A nonempty, all-hexadecimal string whose value fits 16 bits.
pub open spec fn spec_valid_hex_u16(s: Seq<u8>) -> bool {
    s.len() > 0 && spec_all_hex(s) && spec_hex_value(s) <= u16::MAX
}

/// An all-hexadecimal string's value is nonnegative.
pub proof fn lemma_hex_value_nonneg(s: Seq<u8>)
    requires
        spec_all_hex(s),
    ensures
        spec_hex_value(s) >= 0,
    decreases s.len(),
{
    if s.len() > 0 {
        assert(spec_all_hex(s.drop_last()));
        lemma_hex_value_nonneg(s.drop_last());
    }
}

/// A hexadecimal prefix never exceeds the whole string's value, and no
/// prefix value is negative.
pub proof fn lemma_hex_prefix_le(s: Seq<u8>, i: int)
    requires
        spec_all_hex(s),
        0 <= i <= s.len(),
    ensures
        0 <= spec_hex_value(s.take(i)) <= spec_hex_value(s),
    decreases s.len() - i,
{
    assert(spec_all_hex(s.take(i)));
    lemma_hex_value_nonneg(s.take(i));
    if i < s.len() {
        assert(s.take(i + 1).drop_last() =~= s.take(i));
        assert(s.take(i + 1).last() == s[i]);
        lemma_hex_prefix_le(s, i + 1);
    } else {
        assert(s.take(i) =~= s);
    }
}

/// The value of one digit, or `None` when the byte is no hexadecimal
/// digit.
pub fn hex_digit_val(b: u8) -> (r: Option<u8>)
    ensures
        r is Some <==> spec_is_hex_digit(b),
        r matches Some(v) ==> v == spec_hex_digit_val(b) && v < 16,
{
    if 48 <= b && b <= 57 {
        Some(b - 48)
    } else if 97 <= b && b <= 102 {
        Some(b - 97 + 10)
    } else if 65 <= b && b <= 70 {
        Some(b - 65 + 10)
    } else {
        None
    }
}

/// Parses a string of hexadecimal digits into a 16-bit number: defined
/// exactly for nonempty all-hexadecimal strings whose value fits.
pub fn parse_hex_u16(digits: &[u8]) -> (r: Option<u16>)
    ensures
        r is Some <==> spec_valid_hex_u16(digits@),
        r matches Some(v) ==> v == spec_hex_value(digits@),
{
    let n = digits.len();
    if n == 0 {
        return None;
    }
    let mut acc: u16 = 0;
    let mut i: usize = 0;
    while i < n
        invariant
            0 <= i <= n,
            n == digits@.len(),
            n > 0,
            spec_all_hex(digits@.take(i as int)),
            acc == spec_hex_value(digits@.take(i as int)),
        decreases n - i,
    {
        let d = match hex_digit_val(digits[i]) {
            Some(d) => d,
            None => {
                return None;
            },
        };
        proof {
            assert(digits@.take(i + 1).drop_last() =~= digits@.take(i as int));
            assert(digits@.take(i + 1).last() == digits@[i as int]);
        }
        if acc > (u16::MAX - d as u16) / 16 {
            proof {
                if spec_all_hex(digits@) {
                    lemma_hex_prefix_le(digits@, i + 1);
                }
            }
            return None;
        }
        acc = acc * 16 + d as u16;
        i += 1;
    }
    proof {
        assert(digits@.take(n as int) =~= digits@);
    }
    Some(acc)
}

/// Parses a string of hexadecimal digits into a 32-bit number: defined
/// exactly for nonempty all-hexadecimal strings whose value fits.
pub fn parse_hex_u32(digits: &[u8]) -> (r: Option<u32>)
    ensures
        r is Some <==> digits@.len() > 0 && spec_all_hex(digits@) && spec_hex_value(digits@)
            <= u32::MAX,
        r matches Some(v) ==> v == spec_hex_value(digits@),
{
    let n = digits.len();
    if n == 0 {
        return None;
    }
    let mut acc: u32 = 0;
    let mut i: usize = 0;
    while i < n
        invariant
            0 <= i <= n,
            n == digits@.len(),
            n > 0,
            spec_all_hex(digits@.take(i as int)),
            acc == spec_hex_value(digits@.take(i as int)),
        decreases n - i,
    {
        let d = match hex_digit_val(digits[i]) {
            Some(d) => d,
            None => {
                return None;
            },
        };
        proof {
            assert(digits@.take(i + 1).drop_last() =~= digits@.take(i as int));
            assert(digits@.take(i + 1).last() == digits@[i as int]);
        }
        if acc > (u32::MAX - d as u32) / 16 {
            proof {
                if spec_all_hex(digits@) {
                    lemma_hex_prefix_le(digits@, i + 1);
                }
            }
            return None;
        }
        acc = acc * 16 + d as u32;
        i += 1;
    }
    proof {
        assert(digits@.take(n as int) =~= digits@);
    }
    Some(acc)
}

/// The first colon's index, if any.
pub open spec fn spec_find_colon(s: Seq<u8>) -> Option<int>
    decreases s.len(),
{
    if s.len() == 0 {
        None
    } else if s[0] == 58 {
        Some(0)
    } else {
        match spec_find_colon(s.skip(1)) {
            Some(i) => Some(i + 1),
            None => None,
        }
    }
}

/// What the first colon's index means: it is a colon with no colon before
/// it, and `None` means there is no colon at all.
pub proof fn lemma_find_colon_characterization(s: Seq<u8>)
    ensures
        (match spec_find_colon(s) {
            Some(i) => 0 <= i < s.len() && s[i] == 58 && (forall|j: int|
                0 <= j < i ==> s[j] != 58),
            None => forall|j: int| 0 <= j < s.len() ==> s[j] != 58,
        }),
    decreases s.len(),
{
    if s.len() > 0 && s[0] != 58 {
        lemma_find_colon_characterization(s.skip(1));
        let t = s.skip(1);
        assert forall|j: int| 0 <= j < t.len() implies t[j] == s[j + 1] by {}
        match spec_find_colon(t) {
            Some(i) => {
                assert(s[i + 1] == t[i]);
                assert forall|j: int| 0 <= j < i + 1 implies s[j] != 58 by {
                    if j > 0 {
                        assert(t[j - 1] != 58);
                    }
                }
            },
            None => {
                assert forall|j: int| 0 <= j < s.len() implies s[j] != 58 by {
                    if j > 0 {
                        assert(t[j - 1] != 58);
                    }
                }
            },
        }
    }
}

/// The textual form of a handle, as a function: the byte string parses to
/// a handle exactly when a single colon separates two nonempty
/// hexadecimal parts that each fit 16 bits.
pub open spec fn spec_parse_tc_handle(s: Seq<u8>) -> Option<TcHandle> {
    match spec_find_colon(s) {
        None => None,
        Some(i) => {
            let left = s.take(i);
            let right = s.skip(i + 1);
            if spec_find_colon(right) is Some {
                None
            } else if spec_valid_hex_u16(left) && spec_valid_hex_u16(right) {
                Some(
                    TcHandle {
                        major: spec_hex_value(left) as u16,
                        minor: spec_hex_value(right) as u16,
                    },
                )
            } else {
                None
            }
        },
    }
}

/// Finds the first colon in a byte slice.
pub fn find_colon_in(bytes: &[u8]) -> (r: Option<usize>)
    ensures
        (match r {
            Some(i) => spec_find_colon(bytes@) == Some(i as int),
            None => spec_find_colon(bytes@) is None,
        }),
{
    proof {
        lemma_find_colon_characterization(bytes@);
    }
    let n = bytes.len();
    let mut i: usize = 0;
    while i < n
        invariant
            0 <= i <= n,
            n == bytes@.len(),
            forall|j: int| 0 <= j < i ==> bytes@[j] != 58,
            (match spec_find_colon(bytes@) {
                Some(k) => 0 <= k < bytes@.len() && bytes@[k] == 58 && (forall|j: int|
                    0 <= j < k ==> bytes@[j] != 58),
                None => forall|j: int| 0 <= j < bytes@.len() ==> bytes@[j] != 58,
            }),
        decreases n - i,
    {
        if bytes[i] == 58 {
            return Some(i);
        }
        i += 1;
    }
    None
}

impl TcHandle {
    /// The major and minor numbers of the handle.
    pub fn get_major_minor(&self) -> (r: (u16, u16))
        ensures
            r == (self.major, self.minor),
    {
        (self.major, self.minor)
    }

    /// Parses the textual (major):(minor) form, both parts hexadecimal,
    /// e.g. `1:12`.
    pub fn from_string(handle: &str) -> (r: Result<TcHandle, ParseError>)
        ensures
            (match spec_parse_tc_handle(handle.spec_bytes()) {
                Some(h) => r == Ok::<TcHandle, ParseError>(h),
                None => r == Err::<TcHandle, ParseError>(ParseError::TcHandleFormat),
            }),
    {
        let bytes = handle.as_bytes();
        proof {
            lemma_find_colon_characterization(bytes@);
        }
        let n = bytes.len();
        let i = match find_colon_in(bytes) {
            Some(i) => i,
            None => {
                return Err(ParseError::TcHandleFormat);
            },
        };
        assert(i < n);
        let left = &bytes[0..i];
        let right = &bytes[i + 1..n];
        if find_colon_in(right).is_some() {
            return Err(ParseError::TcHandleFormat);
        }
        let major = match parse_hex_u16(left) {
            Some(v) => v,
            None => {
                return Err(ParseError::TcHandleFormat);
            },
        };
        let minor = match parse_hex_u16(right) {
            Some(v) => v,
            None => {
                return Err(ParseError::TcHandleFormat);
            },
        };
        Ok(TcHandle { major, minor })
    }
}

} // verus!
