use vstd::prelude::*;

verus! {

/// Why a segment could not be decrypted.
#[derive(Debug, Clone, Copy, PartialEq, Eq, Structural)]
pub enum CryptoError {
    /// The segment is shorter than the 16-byte initialisation vector.
    Truncated,
    /// The key is not exactly 16 bytes long.
    InvalidKeyLength,
    /// The part after the IV is empty or not a whole number of blocks.
    InvalidCiphertextLength,
    /// The last decrypted block does not end in valid PKCS#7 padding.
    PaddingInvalid,
}

/// Why one episode's download failed.
#[derive(Debug, Clone, Copy, PartialEq, Eq, Structural)]
pub enum PipelineError {
    /// A fetch failed or answered with a non-success status.
    Network,
    /// A document (or a URL) could not be parsed.
    Parse,
    /// A required field or structure is absent.
    MissingData,
    /// A well-formed document of the wrong kind.
    Protocol,
    /// A segment could not be decrypted.
    Crypto(CryptoError),
    /// The transcoder exited with a failure status.
    Process,
    /// A local file could not be created, written or read.
    Io,
}

} // verus!
