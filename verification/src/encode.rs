//! String encoding and native-string validation.
//!
//! The native library exchanges text as C strings, so a string can only
//! cross the boundary when it holds no embedded null byte; every entry
//! point taking such a string fails with a conversion error otherwise.
//! The two encoding helpers mirror the native library's documented
//! behaviour exactly: one hex-escapes every potentially unsafe character,
//! the other replaces unsafe characters with underscores.

use vstd::prelude::*;
use vstd::string::*;
use vstd::utf8::{decode_utf8, valid_utf8};

use crate::err::BlkidErr;

verus! {

/// True when the byte sequence holds no null byte, so it is representable
/// as a native C string.
pub open spec fn nul_free(b: Seq<u8>) -> bool {
    forall|i: int| 0 <= i < b.len() ==> b[i] != 0
}

/// Validate that a string can cross into the native layer as a C string:
/// hand back its bytes when it holds no embedded null byte, and fail with
/// a conversion error otherwise.
pub fn to_native_text(s: &str) -> (r: Result<Vec<u8>, BlkidErr>)
    ensures
        nul_free(s.spec_bytes()) ==> (r matches Ok(b) && b@ == s.spec_bytes()),
        !nul_free(s.spec_bytes()) ==> r == Err::<Vec<u8>, BlkidErr>(BlkidErr::InvalidConversion),
{
    let bytes = s.as_bytes_vec();
    let mut i: usize = 0;
    while i < bytes.len()
        invariant
            i <= bytes.len(),
            bytes@ == s.spec_bytes(),
            forall|j: int| 0 <= j < i ==> bytes@[j] != 0,
        decreases bytes.len() - i,
    {
        if bytes[i] == 0 {
            return Err(BlkidErr::InvalidConversion);
        }
        i = i + 1;
    }
    Ok(bytes)
}

/// Decode native bytes into a string.
///
/// Relies on `String::from_utf8`: it succeeds exactly on UTF-8 input, the
/// resulting string reads back as the decoded characters, and failure
/// reports nothing but the encoding error, which is mapped to this
/// library's conversion error.
#[verifier::external_body]
pub(crate) fn bytes_to_string(b: Vec<u8>) -> (r: Result<String, BlkidErr>)
    ensures
        r matches Ok(s) ==> valid_utf8(b@) && s@ == decode_utf8(b@),
        r matches Err(e) ==> !valid_utf8(b@) && e == BlkidErr::InvalidConversion,
        r is Ok <==> valid_utf8(b@),
{
    match String::from_utf8(b) {
        Ok(s) => Ok(s),
        Err(_) => Err(BlkidErr::InvalidConversion),
    }
}

/// How a nullable text outcome of a native call translates: null is a
/// native failure, bytes decode when they are text and fail with a
/// conversion error otherwise.
pub open spec fn spec_text_outcome(o: Option<Vec<u8>>, r: Result<String, BlkidErr>) -> bool {
    match o {
        None => r == Err::<String, BlkidErr>(BlkidErr::NativeFailure),
        Some(b) => (if valid_utf8(b@) {
            r matches Ok(s) && s@ == decode_utf8(b@)
        } else {
            r == Err::<String, BlkidErr>(BlkidErr::InvalidConversion)
        }),
    }
}

/// True when the character sequence holds an embedded null character.
pub open spec fn has_nul_char(s: Seq<char>) -> bool {
    s.contains('\u{0}')
}

/// Check a string for an embedded null character.
pub fn contains_nul_char(s: &str) -> (r: bool)
    ensures
        r == has_nul_char(s@),
{
    let n = s.unicode_len();
    let mut i: usize = 0;
    while i < n
        invariant
            i <= n,
            n == s@.len(),
            forall|j: int| 0 <= j < i ==> s@[j] != '\u{0}',
        decreases n - i,
    {
        if s.get_char(i) == '\u{0}' {
            return true;
        }
        i = i + 1;
    }
    proof {
        if s@.contains('\u{0}') {
            let j = choose|j: int| 0 <= j < s@.len() && s@[j] == '\u{0}';
            assert(s@[j] != '\u{0}');
        }
    }
    false
}

/// The characters the native encoder copies through unchanged: ASCII
/// letters and digits plus a small punctuation list.
pub open spec fn whitelisted_char(c: char) -> bool {
    let u = c as u32;
    (48 <= u && u <= 57) || (65 <= u && u <= 90) || (97 <= u && u <= 122) || u == 35 || u == 43
        || u == 45 || u == 46 || u == 58 || u == 61 || u == 64 || u == 95
}

/// The lower-case hex digit for a value below sixteen.
pub open spec fn hex_digit(d: u32) -> char {
    if d == 0 {
        '0'
    } else if d == 1 {
        '1'
    } else if d == 2 {
        '2'
    } else if d == 3 {
        '3'
    } else if d == 4 {
        '4'
    } else if d == 5 {
        '5'
    } else if d == 6 {
        '6'
    } else if d == 7 {
        '7'
    } else if d == 8 {
        '8'
    } else if d == 9 {
        '9'
    } else if d == 10 {
        'a'
    } else if d == 11 {
        'b'
    } else if d == 12 {
        'c'
    } else if d == 13 {
        'd'
    } else if d == 14 {
        'e'
    } else {
        'f'
    }
}

/// What the encoder emits for one character: whitelisted characters and
/// everything beyond ASCII pass through, anything else becomes a
/// backslash-x escape of its byte value in lower-case hex.
pub open spec fn encode_char(c: char) -> Seq<char> {
    if whitelisted_char(c) || (c as u32) >= 128 {
        seq![c]
    } else {
        seq!['\\', 'x', hex_digit((c as u32) / 16), hex_digit((c as u32) % 16)]
    }
}

/// What the encoder emits for a whole character sequence.
pub open spec fn encode_chars(s: Seq<char>) -> Seq<char>
    decreases s.len(),
{
    if s.len() == 0 {
        Seq::empty()
    } else {
        encode_chars(s.drop_last()) + encode_char(s.last())
    }
}

/// The number of bytes the UTF-8 encoding of a character occupies.
pub open spec fn utf8_width(c: char) -> nat {
    let u = c as u32;
    if u < 0x80 {
        1
    } else if u < 0x800 {
        2
    } else if u < 0x10000 {
        3
    } else {
        4
    }
}

/// What the safe-string transformation emits for one character: ASCII
/// letters, digits, dot, underscore and dash are kept; any other ASCII
/// character becomes one underscore, and a character beyond ASCII becomes
/// one underscore per byte of its encoding.
pub open spec fn safe_char(c: char) -> Seq<char> {
    let u = c as u32;
    if (48 <= u && u <= 57) || (65 <= u && u <= 90) || (97 <= u && u <= 122) || u == 46 || u == 95
        || u == 45 {
        seq![c]
    } else {
        Seq::new(utf8_width(c), |i: int| '_')
    }
}

/// What the safe-string transformation emits for a whole sequence.
pub open spec fn safe_chars(s: Seq<char>) -> Seq<char>
    decreases s.len(),
{
    if s.len() == 0 {
        Seq::empty()
    } else {
        safe_chars(s.drop_last()) + safe_char(s.last())
    }
}

/// One-character string for the lower-case hex digit of a value below
/// sixteen.
fn hex_digit_str(d: u32) -> (r: &'static str)
    requires
        d < 16,
    ensures
        r@ == seq![hex_digit(d)],
{
    proof {
        reveal_strlit("0");
        reveal_strlit("1");
        reveal_strlit("2");
        reveal_strlit("3");
        reveal_strlit("4");
        reveal_strlit("5");
        reveal_strlit("6");
        reveal_strlit("7");
        reveal_strlit("8");
        reveal_strlit("9");
        reveal_strlit("a");
        reveal_strlit("b");
        reveal_strlit("c");
        reveal_strlit("d");
        reveal_strlit("e");
        reveal_strlit("f");
    }
    let r: &'static str = if d == 0 {
        "0"
    } else if d == 1 {
        "1"
    } else if d == 2 {
        "2"
    } else if d == 3 {
        "3"
    } else if d == 4 {
        "4"
    } else if d == 5 {
        "5"
    } else if d == 6 {
        "6"
    } else if d == 7 {
        "7"
    } else if d == 8 {
        "8"
    } else if d == 9 {
        "9"
    } else if d == 10 {
        "a"
    } else if d == 11 {
        "b"
    } else if d == 12 {
        "c"
    } else if d == 13 {
        "d"
    } else if d == 14 {
        "e"
    } else {
        "f"
    };
    proof {
        assert(r@ =~= seq![hex_digit(d)]);
    }
    r
}

/// True when the character is kept by the whitelist check of the encoder.
fn is_whitelisted(c: char) -> (r: bool)
    ensures
        r == whitelisted_char(c),
{
    let u = c as u32;
    (48 <= u && u <= 57) || (65 <= u && u <= 90) || (97 <= u && u <= 122) || u == 35 || u == 43
        || u == 45 || u == 46 || u == 58 || u == 61 || u == 64 || u == 95
}

/// Encode every potentially unsafe character of `string` as a two-digit
/// hex escape, as the native encoder does.  Fails with a conversion error
/// on a string holding an embedded null character, and on the empty
/// string, for which the native call has no room to write its terminator.
pub fn encode_string(string: &str) -> (r: Result<String, BlkidErr>)
    ensures
        r matches Ok(out) ==> out@ == encode_chars(string@),
        r is Ok <==> string@.len() > 0 && !string@.contains('\u{0}'),
        r is Err ==> r == Err::<String, BlkidErr>(BlkidErr::InvalidConversion),
{
    if string.is_empty() {
        return Err(BlkidErr::InvalidConversion);
    }
    let n = string.unicode_len();
    let mut out = String::new();
    let mut i: usize = 0;
    while i < n
        invariant
            i <= n,
            n == string@.len(),
            out@ == encode_chars(string@.take(i as int)),
            forall|j: int| 0 <= j < i ==> string@[j] != '\u{0}',
        decreases n - i,
    {
        let c = string.get_char(i);
        if c == '\u{0}' {
            return Err(BlkidErr::InvalidConversion);
        }
        let u = c as u32;
        if is_whitelisted(c) || u >= 128 {
            let piece = string.substring_char(i, i + 1);
            proof {
                assert(piece@ =~= seq![string@[i as int]]);
            }
            out.append(piece);
        } else {
            proof {
                reveal_strlit("\\x");
            }
            out.append("\\x");
            out.append(hex_digit_str(u / 16));
            out.append(hex_digit_str(u % 16));
        }
        proof {
            assert(string@.take(i + 1).drop_last() =~= string@.take(i as int));
            assert(string@.take(i + 1).last() == string@[i as int]);
        }
        i = i + 1;
    }
    proof {
        assert(string@.take(n as int) =~= string@);
        if string@.contains('\u{0}') {
            let j = choose|j: int| 0 <= j < string@.len() && string@[j] == '\u{0}';
            assert(string@[j] != '\u{0}');
        }
    }
    Ok(out)
}

/// A string of `w` underscores, for `w` up to the widest UTF-8 encoding.
fn underscores(w: usize) -> (r: &'static str)
    requires
        1 <= w <= 4,
    ensures
        r@ == Seq::new(w as nat, |i: int| '_'),
{
    proof {
        reveal_strlit("_");
        reveal_strlit("__");
        reveal_strlit("___");
        reveal_strlit("____");
    }
    let r: &'static str = if w == 1 {
        "_"
    } else if w == 2 {
        "__"
    } else if w == 3 {
        "___"
    } else {
        "____"
    };
    proof {
        assert(r@ =~= Seq::new(w as nat, |i: int| '_'));
    }
    r
}

/// Replace every character of `string` that is not an ASCII letter, digit,
/// dot, underscore or dash with underscores, one per byte of its encoding,
/// as the native safe-string helper does.  Fails with a conversion error
/// on a string holding an embedded null character, and on the empty
/// string, for which the native call has no room to write its terminator.
pub fn safe_string(string: &str) -> (r: Result<String, BlkidErr>)
    ensures
        r matches Ok(out) ==> out@ == safe_chars(string@),
        r is Ok <==> string@.len() > 0 && !string@.contains('\u{0}'),
        r is Err ==> r == Err::<String, BlkidErr>(BlkidErr::InvalidConversion),
{
    if string.is_empty() {
        return Err(BlkidErr::InvalidConversion);
    }
    let n = string.unicode_len();
    let mut out = String::new();
    let mut i: usize = 0;
    while i < n
        invariant
            i <= n,
            n == string@.len(),
            out@ == safe_chars(string@.take(i as int)),
            forall|j: int| 0 <= j < i ==> string@[j] != '\u{0}',
        decreases n - i,
    {
        let c = string.get_char(i);
        if c == '\u{0}' {
            return Err(BlkidErr::InvalidConversion);
        }
        let u = c as u32;
        if (48 <= u && u <= 57) || (65 <= u && u <= 90) || (97 <= u && u <= 122) || u == 46 || u
            == 95 || u == 45 {
            let piece = string.substring_char(i, i + 1);
            proof {
                assert(piece@ =~= seq![string@[i as int]]);
            }
            out.append(piece);
        } else {
            let w: usize = if u < 0x80 {
                1
            } else if u < 0x800 {
                2
            } else if u < 0x10000 {
                3
            } else {
                4
            };
            out.append(underscores(w));
        }
        proof {
            assert(string@.take(i + 1).drop_last() =~= string@.take(i as int));
            assert(string@.take(i + 1).last() == string@[i as int]);
        }
        i = i + 1;
    }
    proof {
        assert(string@.take(n as int) =~= string@);
        if string@.contains('\u{0}') {
            let j = choose|j: int| 0 <= j < string@.len() && string@[j] == '\u{0}';
            assert(string@[j] != '\u{0}');
        }
    }
    Ok(out)
}

} // verus!
