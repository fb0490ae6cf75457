//! The pieces of the remote-debug protocol that are pure computation:
//! packet framing and checksums, hex conversions, and the request
//! vocabulary. The TCP transport and the serve loop live outside the
//! verified core.

pub mod packet;
pub mod query;
