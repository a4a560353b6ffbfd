//! Authorization of administrative requests by detached Ed25519 signatures.
//!
//! A reverse proxy hands each administrative request to this library before
//! it lets it through: the method, the request target, the body and the
//! signature header. The library rebuilds the canonical payload that the
//! administrator signed, checks the signature against the administrator's
//! public key, and answers with accept or deny.

pub mod gateway;
pub mod key;
pub mod payload;
pub mod signature;
