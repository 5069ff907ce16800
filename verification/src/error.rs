use vstd::prelude::*;

verus! {

/// The fatal failures of the decoder.
///
/// Tag rewriting never produces one of these: its failures are non-fatal
/// warnings (see `tag::TagWarning`).
#[derive(Clone, Copy, Debug, PartialEq, Eq, Structural)]
pub enum RncmError {
    /// Bad signature, or a truncated or inconsistent length field.
    MalformedContainer,
    /// Block-cipher decryption failed (length or padding), or the recovered
    /// key material is too short to seed the keystream.
    CryptoError,
    /// Invalid base64, a missing prefix, or a structured-text parse failure
    /// in the metadata.
    EncodingError,
}

} // verus!
