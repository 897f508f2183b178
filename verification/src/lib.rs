//! Core of a Sign-In-With-Bitcoin (SIWB) provider: a challenge generator and
//! an ECDSA signature verifier over secp256k1.
//!
//! The verifier uses the recover-and-compare strategy: clients must submit a
//! 65-byte recoverable signature (64 bytes of `(r, s)` followed by one
//! recovery-id byte, 0 or 1) over the SHA-256 digest of the signed message,
//! hex-encoded, together with the hex encoding of the expected SEC1 public key.

pub mod challenge;
pub mod crypto;
pub mod hexcode;
pub mod service;
pub mod verify;

pub use challenge::challenge_from_entropy;
pub use challenge::generate_challenge;
pub use hexcode::hex_decode;
pub use hexcode::hex_encode;
pub use service::get_service_info;
pub use service::ping;
pub use service::set_status;
pub use service::ServiceInfo;
pub use verify::verify_signature;
