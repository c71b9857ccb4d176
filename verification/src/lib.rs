//! Verified core of the QUIC video-relay toolkit: zstd packet compression,
//! wall-clock timestamps, video frame messages, PEM key material and the
//! decisions of the relay.

use vstd::prelude::*;

pub mod clock;
pub mod compress;
pub mod pem;
pub mod relay;
pub mod video;

verus! {

/// The error type of std's I/O, which zstd and rustls-pemfile report failures with.
#[verifier::external_type_specification]
#[verifier::external_body]
pub struct ExIoError(std::io::Error);

} // verus!
