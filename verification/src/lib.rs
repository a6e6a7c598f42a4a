//! A verified core for a camera-device capture stack.
//!
//! The crate models the part of an image-capture stack that is worth
//! getting right: the per-device session state machine, the rule that at
//! most one transfer request is pending per device, delegate registration
//! with a process-wide namespace, capability gating of requests, and the
//! text bridge that carries device names across the native boundary.
//! The native object system itself (dynamic dispatch, class registration,
//! the main run loop) is assumed to exist outside this crate; the
//! controller here decides, and hands back actions for that layer to
//! perform.

pub mod capability;
pub mod controller;
pub mod device;
pub mod errors;
pub mod registry;
pub mod runloop;
pub mod session;
pub mod text;
