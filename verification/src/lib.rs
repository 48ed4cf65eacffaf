//! Framework- and protocol-agnostic authentication primitives for web services.
//!
//! `authn_kit` separates four concerns:
//!
//! | Concern | Abstraction |
//! |---|---|
//! | What credential did the client present? | [`Credential`] |
//! | Is it valid, and who does it identify? | [`Authenticator`], composed by [`AuthChain`] |
//! | What does "who" mean to this application? | [`IdentityClaims`], turned into your type by `TryFrom` |
//! | How is a failure rendered? | [`AuthError`], rendered by a framework adapter |
//!
//! The library holds the rules and no I/O. Where a mechanism has to ask an identity provider, one
//! function says what to ask and another takes the reply, so the same rules serve any web
//! framework and any HTTP client. What each function returns is stated in its contract.
pub mod adapters;
pub mod authenticator;
pub mod builder;
pub mod cache;
pub mod claims;
pub mod cookie;
pub mod credential;
pub mod encoding;
pub mod env;
pub mod error;
pub mod gateway;
pub mod json;
pub mod mechanisms;
pub mod names;
pub mod oidc;
pub mod outcome;
pub mod request;
pub mod scope;
pub mod secret;
pub mod text;
pub mod time;

pub use authenticator::{
    AuthChain, AuthContext, AuthProfile, Authenticator, ChainStep, PublicScopePolicy,
};
pub use builder::AuthnBuilder;
pub use cache::{CacheConfig, CacheKey, CredentialCache};
pub use claims::{ClaimSource, ClaimValue, IdentityClaims, Principal};
pub use cookie::{CookieDirective, SameSite};
pub use credential::Credential;
pub use error::AuthError;
pub use gateway::{AuthGateway, GatewayStep};
pub use mechanisms::{ApiTokenAuthenticator, DisabledAuthenticator};
pub use outcome::{Outcome, Verdict};
pub use request::{AuthRequest, AuthRequestBuilder};
pub use scope::{AuthScope, NoScope, ScopeResolver, SingleScope};
pub use secret::SecretString;
