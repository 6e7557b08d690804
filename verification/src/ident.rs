use vstd::prelude::*;

verus! {

/// A lowercase hexadecimal digit.
pub open spec fn is_hex_lower(c: char) -> bool {
    ('0' <= c && c <= '9') || ('a' <= c && c <= 'f')
}

/// What the character at position `i` of a textual identifier must be:
/// a hyphen at positions 8, 13, 18 and 23, a lowercase hexadecimal digit
/// everywhere else.
pub open spec fn uuid_char_ok(s: Seq<char>, i: int) -> bool {
    if i == 8 || i == 13 || i == 18 || i == 23 {
        s[i] == '-'
    } else {
        is_hex_lower(s[i])
    }
}

/// The standard textual form of a 128-bit identifier: 36 characters in
/// five hyphen-separated groups of lowercase hexadecimal digits.
pub open spec fn is_uuid_text(s: Seq<char>) -> bool {
    s.len() == 36 && forall|i: int| 0 <= i < 36 ==> #[trigger] uuid_char_ok(s, i)
}

/// Relies on `uuid::Uuid::new_v4` and `Uuid`'s `Display` impl: a freshly
/// drawn random 128-bit identifier, rendered hyphenated in lowercase hex
/// (36 characters). The value is random, so nothing beyond the textual
/// shape is promised.
#[verifier::external_body]
pub(crate) fn fresh_uuid() -> (r: String)
    ensures
        is_uuid_text(r@),
{
    uuid::Uuid::new_v4().to_string()
}

/// Checks whether `s` is the standard textual form of a 128-bit
/// identifier.
pub fn is_valid_uuid(s: &str) -> (r: bool)
    ensures
        r == is_uuid_text(s@),
{
    let n = s.unicode_len();
    if n != 36 {
        return false;
    }
    let mut i: usize = 0;
    while i < 36
        invariant
            0 <= i <= 36,
            s@.len() == 36,
            forall|j: int| 0 <= j < i ==> #[trigger] uuid_char_ok(s@, j),
        decreases 36 - i,
    {
        let c = s.get_char(i);
        if i == 8 || i == 13 || i == 18 || i == 23 {
            if c != '-' {
                assert(!uuid_char_ok(s@, i as int));
                return false;
            }
        } else {
            if !(('0' <= c && c <= '9') || ('a' <= c && c <= 'f')) {
                assert(!uuid_char_ok(s@, i as int));
                return false;
            }
        }
        i = i + 1;
    }
    true
}

} // verus!
