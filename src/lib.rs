//! Golden fixtures for the ListClients operation of the Parsec wire
//! protocol: each fixture pairs a request and a response envelope, in base64,
//! with the logical values that they carry.
pub mod fixture;
pub mod laws;
pub mod protocol;
