//! Ready-made authenticators.
//!
//! Each is an independent chain element. Adding a mechanism means registering one more, not
//! editing a middleware. Those that have to ask an identity provider do so in steps: one function
//! says what to ask, another takes the reply.
pub mod api_token;
pub mod basic;
pub mod bearer;
pub mod disabled;
pub mod introspection;
pub mod session;

pub use api_token::{ApiTokenAuthenticator, StaticTokenError, StaticTokenSpec, TokenValidator};
pub use basic::BasicAuthenticator;
pub use bearer::BearerAuthenticator;
pub use disabled::DisabledAuthenticator;
pub use introspection::IntrospectionValidator;
pub use session::SessionAuthenticator;
