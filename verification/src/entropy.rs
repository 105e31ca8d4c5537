//! Random tokens for names that must not collide.

use rand::distributions::Alphanumeric;
use rand::Rng;
use vstd::prelude::*;

verus! {

/// Whether `c` is an ASCII letter or an ASCII digit.
pub open spec fn is_alphanumeric(c: char) -> bool {
    ('0' <= c && c <= '9') || ('a' <= c && c <= 'z') || ('A' <= c && c <= 'Z')
}

/// Whether `text` is a token of `len` characters: ASCII letters and digits only.
pub open spec fn is_token(text: Seq<char>, len: nat) -> bool {
    text.len() == len && forall|i: int| 0 <= i < text.len() ==> is_alphanumeric(#[trigger] text[i])
}

/// Draws `len` characters from `rand`'s `Alphanumeric` distribution with the
/// thread's generator (`thread_rng().sample_iter(..).take(len)`).
///
/// Believed, not proved: the iterator never ends early, so the token has
/// exactly `len` characters, and `Alphanumeric` only ever gives one of the 62
/// ASCII letters and digits. Which ones is up to chance.
#[verifier::external_body]
pub(crate) fn random_string(len: usize) -> (token: String)
    ensures
        is_token(token@, len as nat),
{
    rand::thread_rng().sample_iter(&Alphanumeric).take(len).collect::<String>()
}

} // verus!
