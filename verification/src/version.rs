//! Version-string parsing.
//!
//! The native library encodes a dotted version string as one integer by
//! concatenating its digits; that computation is stated and implemented
//! here exactly: dots are skipped, digits are accumulated, and the first
//! other character stops the parse.

use vstd::prelude::*;

use crate::err::BlkidErr;

verus! {

/// True for an ASCII decimal digit.
pub open spec fn is_digit(c: char) -> bool {
    48 <= c as u32 <= 57
}

/// The numeric value of an ASCII decimal digit.
pub open spec fn digit_val(c: char) -> int {
    c as u32 - 48
}

/// The version code accumulated from `s` onto `acc`: dots are skipped,
/// digits append in base ten, and any other character stops the parse.
pub open spec fn spec_parse_version(s: Seq<char>, acc: int) -> int
    decreases s.len(),
{
    if s.len() == 0 {
        acc
    } else if s[0] == '.' {
        spec_parse_version(s.skip(1), acc)
    } else if is_digit(s[0]) {
        spec_parse_version(s.skip(1), acc * 10 + digit_val(s[0]))
    } else {
        acc
    }
}

/// The accumulated version code never falls below what was already
/// accumulated.
proof fn lemma_parse_version_monotone(s: Seq<char>, acc: int)
    requires
        acc >= 0,
    ensures
        spec_parse_version(s, acc) >= acc,
    decreases s.len(),
{
    if s.len() == 0 {
    } else if s[0] == '.' {
        lemma_parse_version_monotone(s.skip(1), acc);
    } else if is_digit(s[0]) {
        lemma_parse_version_monotone(s.skip(1), acc * 10 + digit_val(s[0]));
    }
}

/// Parse a dotted version string into the native version code.  A string
/// holding an embedded null character fails with a conversion error, as
/// does a version code too large for the native integer type.
pub fn parse_version_string(version_str: &str) -> (r: Result<i32, BlkidErr>)
    ensures
        version_str@.contains('\u{0}') ==> r == Err::<i32, BlkidErr>(BlkidErr::InvalidConversion),
        !version_str@.contains('\u{0}') && spec_parse_version(version_str@, 0) <= i32::MAX ==> r
            == Ok::<i32, BlkidErr>(spec_parse_version(version_str@, 0) as i32),
        !version_str@.contains('\u{0}') && spec_parse_version(version_str@, 0) > i32::MAX ==> r
            == Err::<i32, BlkidErr>(BlkidErr::InvalidConversion),
{
    let n = version_str.unicode_len();
    let mut i: usize = 0;
    while i < n
        invariant
            i <= n,
            n == version_str@.len(),
            forall|j: int| 0 <= j < i ==> version_str@[j] != '\u{0}',
        decreases n - i,
    {
        if version_str.get_char(i) == '\u{0}' {
            return Err(BlkidErr::InvalidConversion);
        }
        i = i + 1;
    }
    proof {
        if version_str@.contains('\u{0}') {
            let j = choose|j: int| 0 <= j < version_str@.len() && version_str@[j] == '\u{0}';
            assert(version_str@[j] != '\u{0}');
        }
    }
    let mut acc: i64 = 0;
    let mut i: usize = 0;
    proof {
        assert(version_str@.skip(0) =~= version_str@);
    }
    while i < n
        invariant
            i <= n,
            n == version_str@.len(),
            !version_str@.contains('\u{0}'),
            0 <= acc <= i32::MAX,
            spec_parse_version(version_str@.skip(i as int), acc as int) == spec_parse_version(
                version_str@,
                0,
            ),
        decreases n - i,
    {
        let c = version_str.get_char(i);
        let ghost rest = version_str@.skip(i as int);
        proof {
            assert(rest[0] == version_str@[i as int]);
            assert(rest.skip(1) =~= version_str@.skip(i + 1));
        }
        let u = c as u32;
        if c == '.' {
            i = i + 1;
        } else if 48 <= u && u <= 57 {
            let next: i64 = acc * 10 + ((u - 48) as i64);
            if next > (i32::MAX as i64) {
                proof {
                    lemma_parse_version_monotone(rest.skip(1), next as int);
                }
                return Err(BlkidErr::InvalidConversion);
            }
            acc = next;
            i = i + 1;
        } else {
            return Ok(acc as i32);
        }
    }
    proof {
        assert(version_str@.skip(n as int) =~= Seq::<char>::empty());
    }
    Ok(acc as i32)
}

} // verus!
