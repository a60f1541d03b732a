//! A Port Control Protocol (RFC 6887) client engine with a mapping lifecycle
//! manager.
//!
//! The library obtains and keeps port forwards at a NAT gateway. It holds
//! everything but the socket: the wire format, the matching of responses to
//! requests, the table of active mappings and their renewal, the order in
//! which commands are served, and what a controller decides when a service
//! changes. Whoever owns the socket is handed the datagrams to send and hands
//! back what the socket reported.
//!
//! - [`proto`]: requests and responses and their wire format.
//! - [`client`]: one exchange with the gateway, and the operations built from
//!   it: register, release and probe.
//! - [`mapper`]: the lifecycle manager, which owns the table of mappings.
//! - [`lease`]: when a mapping is renewed, and when its renewal is given up.
//! - [`manager`]: the queue of the commands that wait to be served.
//! - [`port_manager`]: from the forwards of a controller to mapping requests.
//! - [`reconciler`]: the decisions of the controller.
//! - [`addr`]: addresses as plain octets.

pub mod addr;
pub mod client;
pub mod lease;
pub mod manager;
pub mod mapper;
pub mod port_manager;
pub mod proto;
pub mod reconciler;
