//! Provider metadata beyond OIDC Core discovery.
use vstd::prelude::*;

use crate::text;

verus! {

/// The RFC 7662 introspection endpoint, defined by RFC 8414. Optional, since a provider may support
/// introspection without advertising it.
#[derive(Debug)]
pub struct IntrospectionMetadata {
    pub introspection_endpoint: Option<String>,
}

impl Clone for IntrospectionMetadata {
    fn clone(&self) -> (copy: IntrospectionMetadata)
        ensures
            text::optional(copy.introspection_endpoint) == text::optional(
                self.introspection_endpoint,
            ),
    {
        IntrospectionMetadata {
            introspection_endpoint: text::copy_optional(&self.introspection_endpoint),
        }
    }
}

/// The introspection endpoint the provider advertises, if any.
pub fn discovered_introspection_endpoint(metadata: &IntrospectionMetadata) -> (endpoint: Option<
    String,
>)
    ensures
        text::optional(endpoint) == text::optional(metadata.introspection_endpoint),
{
    text::copy_optional(&metadata.introspection_endpoint)
}

/// The endpoint that is asked is the one the provider advertises, and there is none where it
/// advertises none.
pub proof fn advertised_endpoint_is_found(
    metadata: IntrospectionMetadata,
    endpoint: Option<String>,
)
    requires
        call_ensures(discovered_introspection_endpoint, (&metadata,), endpoint),
    ensures
        (endpoint is Some) == (metadata.introspection_endpoint is Some),
        endpoint is Some ==> endpoint->Some_0@ == metadata.introspection_endpoint->Some_0@,
{
}

} // verus!
