//! Slugs: the public addresses of pastes.
//!
//! A slug is either chosen by the caller, and then only checked for its
//! length, or generated at random from a fixed URL-safe alphabet. Neither way
//! makes a slug unique: that is the repository's part.

use crate::error::PasteError;
use vstd::prelude::*;
use vstd::utf8::*;

verus! {

/// The least length of a slug, and the length of a generated one.
pub const DEFAULT_SLUG_LEN: usize = 8;

/// The length of a text in bytes of UTF-8, which is how slugs are measured.
pub open spec fn byte_len(text: Seq<char>) -> nat {
    encode_utf8(text).len()
}

/// The alphabet of generated slugs: `_`, `-`, digits and ASCII letters.
pub open spec fn is_slug_symbol(c: char) -> bool {
    ||| c == '_'
    ||| c == '-'
    ||| '0' <= c <= '9'
    ||| 'a' <= c <= 'z'
    ||| 'A' <= c <= 'Z'
}

/// `slug` is made of `length` symbols of the alphabet.
pub open spec fn is_generated(slug: Seq<char>, length: nat) -> bool {
    &&& slug.len() == length
    &&& forall|i: int| 0 <= i < slug.len() ==> is_slug_symbol(#[trigger] slug[i])
}

/// `slug` is long enough to be the address of a paste.
pub open spec fn is_valid_slug(slug: Seq<char>) -> bool {
    byte_len(slug) >= DEFAULT_SLUG_LEN
}

/// A generated slug takes one byte per symbol.
pub proof fn lemma_generated_byte_len(slug: Seq<char>, length: nat)
    requires
        is_generated(slug, length),
    ensures
        byte_len(slug) == length,
{
    assert(is_ascii_chars(slug)) by {
        assert forall|i: int| 0 <= i < slug.len() implies '\0' <= #[trigger] slug[i] <= '\u{7f}' by {
            assert(is_slug_symbol(slug[i]));
        }
    }
    is_ascii_chars_encode_utf8(slug);
}

/// Calls `nanoid::format` with `nanoid::rngs::default` and
/// `nanoid::alphabet::SAFE`, which is what `nanoid!(size)` stands for.
/// Trusted: whatever the random bytes, the result has `size` symbols, each
/// from the 64 of `SAFE`. The outside function does not return for size 0 and
/// computes `8 * size`; both are excluded.
#[verifier::external_body]
fn random_id(size: usize) -> (id: String)
    requires
        0 < size <= usize::MAX / 8,
    ensures
        is_generated(id@, size as nat),
{
    nanoid::format(nanoid::rngs::default, &nanoid::alphabet::SAFE, size)
}

/// Generates a random slug of `length` symbols.
///
/// Two calls may return the same slug; with 64 symbols and the default length
/// that is unlikely, not impossible.
pub fn generate(length: usize) -> (slug: String)
    requires
        length <= usize::MAX / 8,
    ensures
        is_generated(slug@, length as nat),
        byte_len(slug@) == length,
{
    let slug = if length == 0 {
        String::new()
    } else {
        random_id(length)
    };
    proof {
        lemma_generated_byte_len(slug@, length as nat);
    }
    slug
}

/// Checks a slug that a caller asked for: it must have at least `min_length`
/// bytes.
pub fn validate(candidate: &str, min_length: usize) -> (checked: Result<(), PasteError>)
    ensures
        checked == if byte_len(candidate@) < min_length {
            Err::<(), PasteError>(PasteError::Validation)
        } else {
            Ok::<(), PasteError>(())
        },
{
    if candidate.as_bytes().len() < min_length {
        Err(PasteError::Validation)
    } else {
        Ok(())
    }
}

} // verus!
