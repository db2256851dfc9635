//! Layered-gate composition for a secret-store stack: sticky existence gates
//! the render of dependent resources, readiness gates Usage locks only.
//!
//! - `state`: the stack's input with its defaults filled in, the observed
//!   signals, and the status.
//! - `gate`: existence and readiness signals.
//! - `json`: unstructured documents, the bodies of composed resources.
//! - `resources`: the body of each composed resource.
//! - `desired`: the desired resources with layered gates.
//! - `compose`: gate graph of one reconcile.
pub mod compose;
pub mod desired;
pub mod gate;
pub mod json;
pub mod resources;
pub mod state;

pub use compose::{compose, ComposeResult};
pub use desired::Desired;
pub use gate::{Exists, ObservedSlice, Ready};
pub use state::{Backend, EffectiveState, Observed, SecretStackSpec, SecretStoreScope};
