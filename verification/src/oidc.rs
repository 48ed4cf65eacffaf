//! OpenID Connect provider support.
//!
//! The rules of everything that talks to an OpenID Provider: the login flow, ID-token
//! verification, sessions and claim extraction. An ID token becomes `IdentityClaims`, and the
//! application's `TryFrom` turns that into its own principal. What goes over the network is left
//! to the caller, who hands back what came of it.
//!
//! Only the single-issuer topology is modelled.
pub mod callback;
pub mod claims;
pub mod config;
pub mod error;
pub mod login;
pub mod metadata;
pub mod protection;
pub mod provider;
pub mod redirect;
pub mod session;

pub use callback::CallbackParams;
pub use claims::identity_from_id_token_claims;
pub use config::{OidcConfig, OidcConfigError};
pub use login::{AuthorizationRedirect, LoginComplete, LoginFlow};
pub use metadata::{discovered_introspection_endpoint, IntrospectionMetadata};
pub use protection::ProtectionData;
pub use provider::{NonceCheck, OidcProvider};
pub use redirect::RedirectPolicy;
pub use session::{CookieSettings, IdTokenCodec, Session, SessionCodec};
