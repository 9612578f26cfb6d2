//! Rolls cluster services onto freshly pushed container images.
//!
//! A registry announces every image push on a queue. This library holds the
//! decisions taken on such a notification: whether it is a successful push,
//! which running service it concerns, what the service's new specification
//! is, and when the notification may be acknowledged. Queue, registry and
//! orchestrator are reached by the caller; the library tells it what to ask
//! them next.

pub mod error;
pub mod text;
pub mod string_map;
pub mod json;
pub mod events;
pub mod options;
pub mod service;
pub mod credentials;
pub mod reconcile;

pub use credentials::{
    credentials_from_authorization, credentials_from_bytes, docker_credentials_from_auth_token,
    RegistryCredentials,
};
pub use error::{EventField, SeedyError};
pub use events::{decode_event, parse_ecr_event, Event};
pub use options::{split_label, Opt};
pub use reconcile::{process_one, step, Action, Batch, Decision, LoopState, Message, Outcome, SkipReason};
pub use service::{
    build_service_index, extract_service_image, update_spec, ContainerSpec, ServiceRecord,
    ServiceSpec, TaskSpec, STACK_IMAGE_LABEL,
};
pub use string_map::StringMap;
