//! The two websocket transports: connection pools, the managers over them,
//! the routing index and the handlers of what arrives.

pub mod client_manager;
pub mod error;
pub mod federation_manager;
pub mod handlers;
pub mod pools;
pub mod routing;
pub mod socket_loops;
pub mod table;
