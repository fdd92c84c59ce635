//! Control plane of a networked cook-chamber controller: shared device state,
//! request routing and handlers for the HTTP control API, and the decision
//! logic of the access-point supervisor, the address-lease service, the
//! bring-up sequence and the HTTP connection workers.
pub mod config;
pub mod state;
pub mod decimal;
pub mod bytes;
pub mod urlenc;
pub mod form;
pub mod routing;
pub mod web;
pub mod supervisor;
pub mod lease;
pub mod bringup;
pub mod worker;
