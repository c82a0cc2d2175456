//! Verified core of a telemetry auditor: nodes sign self-reported resource
//! observations with a per-node keypair, a collector pins each host to the
//! public key seen on first contact, appends observations to a persisted
//! store, and reduces a host's history to a proof-of-computation score.

pub mod client_benchmark;
pub mod client_config;
pub mod client_requests;
pub mod client_statistics;
pub mod config;
pub mod db;
pub mod db_record;
pub mod db_statistics;
pub mod de;
pub mod info;
pub mod mode;
pub mod request_post_statistics;
pub mod response_get_proof_of_computation;
pub mod response_post_statistics;
pub mod score;
pub mod server_config;
pub mod server_handle_requests;
pub mod snapshot;
