//! Verified decision core of a Lightning-to-federated-mint payment gateway.
//!
//! The gateway actor intercepts Lightning HTLCs, resolves their preimages
//! either through a federation-held escrow or by paying over Lightning, and
//! settles or cancels each HTLC based on the outcome. All network calls go to
//! two independently failing collaborators (the Lightning node and the
//! federation client), so the library models every pipeline as an explicit
//! state machine: each step takes the current state and the collaborator's
//! answer, and returns the next state together with the call the driver must
//! make next. The drivers themselves (async plumbing, RPC transports) live
//! outside the library and merely feed results back in.

pub mod actor;
pub mod htlc;
pub mod outgoing;
pub mod registration;
pub mod values;
