//! Validation of handles and mapping types, and clipping of free-text fields.

use vstd::prelude::*;
use vstd::utf8::*;
use vstd::string::StringSliceAdditionalSpecFns;
use crate::error::ErrorCode;

verus! {

broadcast use vstd::string::group_string_axioms;

pub const MAX_USERNAME: usize = 32;
pub const MAX_ADDR_TYPE: usize = 16;

pub open spec fn is_handle_char(c: char) -> bool {
    ('a' <= c && c <= 'z') || ('0' <= c && c <= '9') || c == '.' || c == '_' || c == '-'
}

pub open spec fn is_mapping_type_char(c: char) -> bool {
    ('a' <= c && c <= 'z') || ('0' <= c && c <= '9') || c == '.' || c == '-'
}

/// A handle: 1 to 32 characters, each one of `[a-z0-9._-]` (so ASCII, lowercase, no `@`).
pub open spec fn valid_handle(s: Seq<char>) -> bool {
    &&& 1 <= s.len() <= MAX_USERNAME
    &&& forall|i: int| 0 <= i < s.len() ==> is_handle_char(#[trigger] s[i])
}

/// A mapping type: 1 to 16 characters, each one of `[a-z0-9.-]`.
pub open spec fn valid_mapping_type(s: Seq<char>) -> bool {
    &&& 1 <= s.len() <= MAX_ADDR_TYPE
    &&& forall|i: int| 0 <= i < s.len() ==> is_mapping_type_char(#[trigger] s[i])
}

// The bytes of 'a'..='z', '0'..='9', '.', '-' and '_'.
fn is_handle_byte(b: u8, allow_underscore: bool) -> (r: bool)
    ensures
        r == if allow_underscore {
            is_handle_char(b as char)
        } else {
            is_mapping_type_char(b as char)
        },
{
    (97 <= b && b <= 122) || (48 <= b && b <= 57) || b == 46 || b == 45 || (allow_underscore && b
        == 95)
}

/// Checks `s` byte by byte against the handle or the mapping-type alphabet and
/// against the length bound `max`.
fn check_token(s: &str, max: usize, allow_underscore: bool) -> (r: bool)
    ensures
        r == if allow_underscore {
            1 <= s@.len() <= max && forall|i: int| 0 <= i < s@.len() ==> is_handle_char(#[trigger] s@[i])
        } else {
            1 <= s@.len() <= max && forall|i: int| 0 <= i < s@.len() ==> is_mapping_type_char(
                #[trigger] s@[i],
            )
        },
{
    if !s.is_ascii() {
        proof {
            let j = choose|j: int| 0 <= j < s@.len() && !('\0' <= #[trigger] s@[j] <= '\u{7f}');
            assert(!is_handle_char(s@[j]) && !is_mapping_type_char(s@[j]));
        }
        return false;
    }
    let bytes = s.as_bytes();
    proof {
        is_ascii_chars_encode_utf8(s@);
    }
    let n = bytes.len();
    if n == 0 || n > max {
        return false;
    }
    let mut i: usize = 0;
    while i < n
        invariant
            n == bytes@.len(),
            n == s@.len(),
            i <= n,
            forall|j: int| 0 <= j < n ==> #[trigger] bytes@[j] == s@[j] as u8,
            forall|j: int| 0 <= j < n ==> '\0' <= #[trigger] s@[j] <= '\u{7f}',
            forall|j: int|
                0 <= j < i ==> if allow_underscore {
                    is_handle_char(#[trigger] s@[j])
                } else {
                    is_mapping_type_char(s@[j])
                },
        decreases n - i,
    {
        let b = bytes[i];
        if !is_handle_byte(b, allow_underscore) {
            assert(b as char == s@[i as int]);
            return false;
        }
        assert(b as char == s@[i as int]);
        i = i + 1;
    }
    true
}

/// Accepts exactly the handles of `valid_handle`.
pub fn validate_username(u: &str) -> (r: Result<(), ErrorCode>)
    ensures
        r is Ok <==> valid_handle(u@),
        r is Err ==> r == Err::<(), ErrorCode>(ErrorCode::InvalidHandle),
{
    if check_token(u, MAX_USERNAME, true) {
        Ok(())
    } else {
        Err(ErrorCode::InvalidHandle)
    }
}

/// Accepts exactly the mapping types of `valid_mapping_type`.
pub fn validate_addr_type(t: &str) -> (r: Result<(), ErrorCode>)
    ensures
        r is Ok <==> valid_mapping_type(t@),
        r is Err ==> r == Err::<(), ErrorCode>(ErrorCode::InvalidMappingType),
{
    if check_token(t, MAX_ADDR_TYPE, false) {
        Ok(())
    } else {
        Err(ErrorCode::InvalidMappingType)
    }
}

/// The largest character boundary of `bytes` that is at most `n`.
pub open spec fn boundary_at_most(bytes: Seq<u8>, n: int) -> int
    decreases n,
{
    if n <= 0 {
        0
    } else if is_char_boundary(bytes, n) {
        n
    } else {
        boundary_at_most(bytes, n - 1)
    }
}

/// The bytes of `bytes` cut to at most `max` bytes, at a character boundary.
pub open spec fn clip_bytes(bytes: Seq<u8>, max: int) -> Seq<u8> {
    if bytes.len() <= max {
        bytes
    } else {
        bytes.subrange(0, boundary_at_most(bytes, max))
    }
}

/// The UTF-8 bytes of an optional text, empty when it is absent.
pub open spec fn opt_bytes(v: Option<String>) -> Seq<u8> {
    match v {
        Some(s) => encode_utf8(s@),
        None => Seq::empty(),
    }
}

/// The text of `v`, or the empty text, cut to at most `max` bytes without
/// splitting a character.
pub fn clip_opt(v: Option<String>, max: usize) -> (r: String)
    ensures
        encode_utf8(r@) == clip_bytes(opt_bytes(v), max as int),
{
    match v {
        None => {
            proof {
                assert(encode_utf8(Seq::<char>::empty()) =~= Seq::<u8>::empty());
            }
            String::new()
        },
        Some(s) => {
            let text = s.as_str();
            assert(text.spec_bytes() == encode_utf8(s@));
            if text.as_bytes().len() <= max {
                return s;
            }
            let ghost bytes = text.spec_bytes();
            proof {
                encode_utf8_valid_utf8(s@);
            }
            let mut cut = max;
            while cut > 0 && !text.is_char_boundary(cut)
                invariant
                    cut <= max,
                    bytes == text.spec_bytes(),
                    valid_utf8(bytes),
                    boundary_at_most(bytes, cut as int) == boundary_at_most(bytes, max as int),
                decreases cut,
            {
                cut = cut - 1;
            }
            assert(is_char_boundary(bytes, cut as int));
            let (head, _) = text.split_at(cut);
            head.to_owned()
        },
    }
}

} // verus!
