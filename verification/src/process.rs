//! What a finished external command hands back.

use vstd::prelude::*;

verus! {

/// Exit status and captured standard output of a command that ran to its end.
pub struct CommandStdout {
    pub success: bool,
    pub stdout: Vec<u8>,
}

/// What `String::from_utf8_lossy` makes of a byte sequence (each invalid
/// sequence becomes U+FFFD).
pub uninterp spec fn utf8_lossy(bytes: Seq<u8>) -> Seq<char>;

/// Decodes bytes as UTF-8, replacing invalid sequences (`String::from_utf8_lossy`).
#[verifier::external_body]
pub(crate) fn decode_utf8_lossy(bytes: &[u8]) -> (r: String)
    ensures
        r@ == utf8_lossy(bytes@),
{
    String::from_utf8_lossy(bytes).into_owned()
}

} // verus!
