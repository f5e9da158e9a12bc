//! Retrieval of AES-128 encrypted HLS audio: playlist resolution, key lookup,
//! per-segment decryption and in-order assembly, as verified decision logic.
pub mod cipher;
pub mod error;
pub mod playlist;
pub mod resolver;
pub mod pipeline;
pub mod episode;
