//! Event correlation for a callback-driven BLE host stack.
//!
//! Operations issued to the native stack complete later through one of two
//! callback entry points. This crate holds the part that decides where each
//! callback event goes: the correlation keys, the registry of one-shot sinks
//! and persistent handlers, the event router, the request bridge and the
//! single-instance guard. It also holds the value types the stack is driven
//! with: security parameters, GATT applications and services, and the
//! advertising payload encoding. All of it works on plain values; the native
//! calls themselves are made by the caller.
pub mod advertise;
pub mod bridge;
pub mod event;
pub mod gatt_server;
pub mod key;
pub mod laws;
pub mod lifecycle;
pub mod outcome;
pub mod registry;
pub mod router;
pub mod security;

pub use bridge::Request;
pub use event::{GapEvent, GattServiceEvent};
pub use gatt_server::{BtUuid, GattApplication, GattService};
pub use key::CorrelationKey;
pub use lifecycle::{InstanceGuard, LifecycleState};
pub use outcome::{BleError, Completion, Outcome};
pub use registry::Registry;
pub use router::{ConnUpdate, Dispatch, Route};
pub use security::{AuthenticationRequest, BleEncryption, IOCapabilities, KeyMask, SecurityConfig};
