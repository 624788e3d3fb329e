//! Repair of blocks in a cluster: the requests for blocks by their id and the responses to them,
//! and a repair handler that equivocates on purpose, to try out how a cluster copes with it.
pub mod block_cache;
pub mod block_generation;
pub mod block_id_repair;
pub mod clock;
pub mod datapoint;
pub mod hashing;
pub mod malicious_repair_handler;
pub mod repair_response;
pub mod request_loop;
pub mod request_statuses;
pub mod response_loop;
pub mod shred_generation;
pub mod shredding;
