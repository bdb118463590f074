//! Client-side orchestration of a byte tunnel: destinations and routing
//! claims, request identities, the forward and reverse tunnel loops as state
//! machines, and the two directions of the duplex relay.
pub mod addr;
pub mod forward;
pub mod relay;
pub mod request_id;
pub mod reverse;
pub mod transport;
