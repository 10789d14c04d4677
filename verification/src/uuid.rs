//! The validated job identifier.
//!
//! A health-check job is named by a 36-byte token of the shape
//! `XXXXXXXX-XXXX-XXXX-XXXX-XXXXXXXXXXXX`, where every `X` is an ASCII
//! alphanumeric character.  The token is deliberately laxer than an RFC-4122
//! UUID: any alphanumeric is admitted, not only a hex digit.

use vstd::prelude::*;
use vstd::slice::{slice_index_get, slice_subrange};
use vstd::string::StringSliceAdditionalSpecFns;
use vstd::utf8::encode_utf8;

verus! {

/// An ASCII alphanumeric byte: `0`-`9`, `A`-`Z` or `a`-`z`.
pub open spec fn is_token_byte(b: u8) -> bool {
    (48 <= b <= 57) || (65 <= b <= 90) || (97 <= b <= 122)
}

/// Every byte of `s` is ASCII alphanumeric.
pub open spec fn all_token_bytes(s: Seq<u8>) -> bool {
    forall|i: int| 0 <= i < s.len() ==> is_token_byte(#[trigger] s[i])
}

/// The byte at a hyphen position of the token.
pub open spec fn is_hyphen_pos(i: int) -> bool {
    i == 8 || i == 13 || i == 18 || i == 23
}

/// A well-formed token: 36 bytes, hyphens exactly at positions 8, 13, 18
/// and 23, ASCII alphanumerics everywhere else.
pub open spec fn valid_token(s: Seq<u8>) -> bool {
    &&& s.len() == 36
    &&& forall|i: int|
        0 <= i < 36 ==> (if is_hyphen_pos(i) {
            s[i] == 45
        } else {
            is_token_byte(#[trigger] s[i])
        })
}

/// Reports whether every byte of `buf` is ASCII alphanumeric.
pub fn is_hex(buf: &[u8]) -> (r: bool)
    ensures
        r == all_token_bytes(buf@),
{
    let mut i: usize = 0;
    while i < buf.len()
        invariant
            i <= buf@.len(),
            forall|j: int| 0 <= j < i ==> is_token_byte(#[trigger] buf@[j]),
        decreases buf@.len() - i,
    {
        let b = *slice_index_get(buf, i);
        if !((48 <= b && b <= 57) || (65 <= b && b <= 90) || (97 <= b && b <= 122)) {
            return false;
        }
        i = i + 1;
    }
    true
}

/// A job identifier that exists only in valid form: constructing it checks
/// the token, so a held value is always 36 ASCII bytes in the hyphenated
/// shape, and prints back exactly as it was given.
#[derive(Debug, Clone, PartialEq)]
pub struct Uuid {
    token: String,
}

impl View for Uuid {
    type V = Seq<char>;

    closed spec fn view(&self) -> Seq<char> {
        self.token@
    }
}

impl Uuid {
    /// The characters of the token encode, byte for byte, to a valid token.
    pub closed spec fn wf(&self) -> bool {
        valid_token(encode_utf8(self.token@))
    }

    /// Validates `s` and wraps it.  Succeeds exactly on well-formed tokens;
    /// the wrapped identifier reads back as the very characters of `s`.
    pub fn from_str(s: &str) -> (r: Option<Uuid>)
        ensures
            r is Some <==> valid_token(s.spec_bytes()),
            r matches Some(u) ==> u@ == s@ && u.wf(),
    {
        let b = s.as_bytes();
        if b.len() != 36 {
            return None;
        }
        let ok = is_hex(slice_subrange(b, 0, 8)) && *slice_index_get(b, 8) == 45
            && is_hex(slice_subrange(b, 9, 13)) && *slice_index_get(b, 13) == 45
            && is_hex(slice_subrange(b, 14, 18)) && *slice_index_get(b, 18) == 45
            && is_hex(slice_subrange(b, 19, 23)) && *slice_index_get(b, 23) == 45
            && is_hex(slice_subrange(b, 24, 36));
        proof {
            if ok {
                assert forall|i: int| 0 <= i < 36 implies (if is_hyphen_pos(i) {
                    b@[i] == 45
                } else {
                    is_token_byte(#[trigger] b@[i])
                }) by {
                    if i < 8 {
                        assert(b@.subrange(0, 8)[i] == b@[i]);
                    } else if 8 < i < 13 {
                        assert(b@.subrange(9, 13)[i - 9] == b@[i]);
                    } else if 13 < i < 18 {
                        assert(b@.subrange(14, 18)[i - 14] == b@[i]);
                    } else if 18 < i < 23 {
                        assert(b@.subrange(19, 23)[i - 19] == b@[i]);
                    } else if 23 < i {
                        assert(b@.subrange(24, 36)[i - 24] == b@[i]);
                    }
                }
                assert(valid_token(b@));
            } else {
                if valid_token(b@) {
                    assert forall|j: int| 0 <= j < 8 implies is_token_byte(
                        #[trigger] b@.subrange(0, 8)[j],
                    ) by {
                        assert(b@.subrange(0, 8)[j] == b@[j]);
                    }
                    assert forall|j: int| 0 <= j < 4 implies is_token_byte(
                        #[trigger] b@.subrange(9, 13)[j],
                    ) by {
                        assert(b@.subrange(9, 13)[j] == b@[j + 9]);
                    }
                    assert forall|j: int| 0 <= j < 4 implies is_token_byte(
                        #[trigger] b@.subrange(14, 18)[j],
                    ) by {
                        assert(b@.subrange(14, 18)[j] == b@[j + 14]);
                    }
                    assert forall|j: int| 0 <= j < 4 implies is_token_byte(
                        #[trigger] b@.subrange(19, 23)[j],
                    ) by {
                        assert(b@.subrange(19, 23)[j] == b@[j + 19]);
                    }
                    assert forall|j: int| 0 <= j < 12 implies is_token_byte(
                        #[trigger] b@.subrange(24, 36)[j],
                    ) by {
                        assert(b@.subrange(24, 36)[j] == b@[j + 24]);
                    }
                    assert(ok);
                }
            }
        }
        if ok {
            Some(Uuid { token: s.to_owned() })
        } else {
            None
        }
    }

    /// The token, exactly as it was validated.
    pub fn as_str(&self) -> (r: &str)
        ensures
            r@ == self@,
    {
        self.token.as_str()
    }
}

} // verus!
