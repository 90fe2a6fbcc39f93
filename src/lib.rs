//! Composable request pipelines: services, layers that wrap them, and two
//! middleware built on that contract (an authorization gate and a response
//! mapper), each with its behaviour stated and proved.

pub mod auth;
pub mod call_state;
pub mod map_response;
pub mod service;

pub use auth::{AsyncAuthorizeRequest, AsyncRequireAuthorization, AsyncRequireAuthorizationLayer};
pub use call_state::{auth_step, AuthAction, AuthEvent, AuthPhase};
pub use map_response::{map_success, MapResponse, MapResponseLayer};
pub use service::{Layer, Service, Stack};
