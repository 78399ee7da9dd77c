//! Control-plane client for a firewall appliance, without the I/O.
//!
//! The library holds everything that is decided when the appliance's
//! management API is called, as functions from plain values to plain values
//! with proved contracts:
//!
//! * [`gateway`]: validation of a request, Basic authorization, the transport
//!   policy, and the classification of statuses and transport failures;
//! * [`error`]: the failure taxonomy and the text shown for each failure;
//! * [`profile`]: the connection profile and the URLs built from it;
//! * [`call`]: the request of one operation against an endpoint;
//! * [`payload`]: the JSON bodies of the requests;
//! * [`devices`]: the ARP and neighbour-discovery records, the calls that
//!   fetch and flush them, and the parser of the flush output;
//! * [`reconcile`]: the merge of both tables into one record per hardware
//!   address, with the properties of every merged inventory;
//! * [`power`], [`snapshots`]: the calls of the administrative operations;
//! * [`text`]: the character-level helpers the others are built on.
//!
//! Sending a prepared request and decoding a response body are left to the
//! caller.

pub mod text;
pub mod error;
pub mod profile;
pub mod payload;
pub mod gateway;
pub mod call;
pub mod devices;
pub mod reconcile;
pub mod power;
pub mod snapshots;
