//! Publishing a Wasm component to an OCI registry.
//!
//! [`reference`] makes the push target, [`artifact`] turns the component
//! into a config blob and a layer blob, [`credential`] holds who pushes,
//! and [`pusher`] is the push itself: a state machine that allows the
//! manifest only after both blobs are confirmed present. [`publish`] plans
//! a push from plain inputs. The machine sends nothing; a transport makes
//! the requests it allows and reports their outcomes ([`report`]).
//! [`laws`] and [`registry`] state what holds of every push.

pub mod artifact;
pub mod blob;
pub mod credential;
pub mod describe;
pub mod digest;
pub mod error;
pub mod laws;
pub mod manifest;
pub mod publish;
pub mod pusher;
pub mod reference;
pub mod registry;
pub mod report;
pub mod step;
