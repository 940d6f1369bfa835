//! The text form of a Stellar public key.

use vstd::prelude::*;
use vstd::string::StrSliceExecFns;

verus! {

/// Why a text is not a Stellar public key.
#[derive(Clone, Copy, Debug, PartialEq, Eq)]
pub enum PubkeyError {
    /// The text does not take 56 bytes or does not start with `G`.
    BadShape,
    /// The text holds a character outside the base-32 alphabet.
    BadCharacter,
}

/// Whether `c` belongs to the base-32 alphabet of address texts: the
/// capital letters and the digits 2 to 7.
pub open spec fn is_base32(c: char) -> bool {
    ('A' <= c && c <= 'Z') || ('2' <= c && c <= '7')
}

/// Whether a text has the outer shape of a public key: 56 bytes, the first
/// of them `G`.
pub open spec fn has_key_shape(pubkey: Seq<char>) -> bool {
    vstd::utf8::encode_utf8(pubkey).len() == 56 && pubkey.len() > 0 && pubkey[0] == 'G'
}

/// Whether every character of a text belongs to the base-32 alphabet.
pub open spec fn all_base32(pubkey: Seq<char>) -> bool {
    forall|i: int| 0 <= i < pubkey.len() ==> is_base32(#[trigger] pubkey[i])
}

/// Whether a text looks like a Stellar public key.  The checksum that the
/// text carries is not examined.
pub open spec fn is_stellar_pubkey(pubkey: Seq<char>) -> bool {
    has_key_shape(pubkey) && all_base32(pubkey)
}

/// A text that looks like a public key has exactly 56 characters.
pub proof fn lemma_pubkey_has_56_characters(pubkey: Seq<char>)
    requires
        is_stellar_pubkey(pubkey),
    ensures
        pubkey.len() == 56,
{
    assert(vstd::utf8::is_ascii_chars(pubkey)) by {
        assert forall|i: int| 0 <= i < pubkey.len() implies '\0' <= #[trigger] pubkey[i]
            <= '\u{7f}' by {
            assert(is_base32(pubkey[i]));
        }
    }
    vstd::utf8::is_ascii_chars_encode_utf8(pubkey);
}

/// Whether `c` belongs to the base-32 alphabet.
fn is_base32_char(c: char) -> (yes: bool)
    ensures
        yes == is_base32(c),
{
    ('A' <= c && c <= 'Z') || ('2' <= c && c <= '7')
}

/// Checks that `pubkey` looks like a Stellar public key: 56 bytes, starting
/// with `G`, all from the base-32 alphabet.
pub fn validate_stellar_pubkey(pubkey: &str) -> (result: Result<(), PubkeyError>)
    ensures
        result == (if !has_key_shape(pubkey@) {
            Err::<(), PubkeyError>(PubkeyError::BadShape)
        } else if !all_base32(pubkey@) {
            Err(PubkeyError::BadCharacter)
        } else {
            Ok(())
        }),
        result is Ok <==> is_stellar_pubkey(pubkey@),
        result is Ok ==> pubkey@.len() == 56,
{
    proof {
        if is_stellar_pubkey(pubkey@) {
            lemma_pubkey_has_56_characters(pubkey@);
        }
    }
    let n = pubkey.unicode_len();
    if pubkey.as_bytes().len() != 56 || n == 0 || pubkey.get_char(0) != 'G' {
        return Err(PubkeyError::BadShape);
    }
    let mut i: usize = 0;
    while i < n
        invariant
            i <= n,
            n == pubkey@.len(),
            has_key_shape(pubkey@),
            forall|j: int| 0 <= j < i ==> is_base32(#[trigger] pubkey@[j]),
        decreases n - i,
    {
        if !is_base32_char(pubkey.get_char(i)) {
            assert(!is_base32(pubkey@[i as int]));
            return Err(PubkeyError::BadCharacter);
        }
        i = i + 1;
    }
    Ok(())
}

} // verus!
