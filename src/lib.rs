//! Light-client verification layer: per-algorithm client logic behind one
//! polymorphic dispatcher, with a decoding adapter for type-tagged payloads.
pub mod client_def;
pub mod client_type;
pub mod commitment;
pub mod connection;
pub mod error;
pub mod height;
pub mod lemmas;
pub mod mock_client;
pub mod proto;
pub mod tendermint_client;
