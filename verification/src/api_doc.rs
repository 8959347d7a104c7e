//! What the OpenAPI document of the API declares beyond its routes.
use vstd::prelude::*;

verus! {

/// The OpenAPI document of the API.
pub struct ApiDoc;

/// An HTTP bearer authentication scheme, as declared in the document's components.
pub struct BearerSecurityScheme {
    /// The name under which the scheme is registered.
    pub name: String,
    /// The format of the bearer token.
    pub bearer_format: String,
    /// A description of the token.
    pub description: String,
}

impl ApiDoc {
    /// The security scheme that the document registers: bearer tokens that
    /// are HS256 JWTs of type `access`, under the name `bearer_auth`.
    pub fn bearer_auth_scheme() -> (s: BearerSecurityScheme)
        ensures
            s.name@ == "bearer_auth"@,
            s.bearer_format@ == "JWT"@,
            s.description@ == "HS256 JWT（typ: access）"@,
    {
        BearerSecurityScheme {
            name: "bearer_auth".to_owned(),
            bearer_format: "JWT".to_owned(),
            description: "HS256 JWT（typ: access）".to_owned(),
        }
    }
}

} // verus!
