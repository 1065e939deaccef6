//! The authentication token chain: from a token of the identity platform, over
//! the console identity broker, to a session token of the game service.
pub mod account;
pub mod error;
pub mod microsoft;
pub mod minecraft;
pub mod transport;
pub mod utils;
pub mod xbox;

use vstd::prelude::*;

verus! {

/// What identifies this application to the identity platform.
#[derive(Debug)]
pub struct AuthProperties {
    /// The client id under which the application is registered.
    pub azura_microsoft_client: String,
}

impl Clone for AuthProperties {
    fn clone(&self) -> (copy: Self)
        ensures
            copy == *self,
    {
        AuthProperties { azura_microsoft_client: self.azura_microsoft_client.clone() }
    }
}

/// The settings with which every request of the chain is built.
#[derive(Debug)]
pub struct AuthenticationClient {
    pub auth_properties: AuthProperties,
}

impl Clone for AuthenticationClient {
    fn clone(&self) -> (copy: Self)
        ensures
            copy == *self,
    {
        AuthenticationClient { auth_properties: self.auth_properties.clone() }
    }
}

impl AuthenticationClient {
    /// A client that builds its requests with `auth_properties`.
    pub fn new(auth_properties: AuthProperties) -> (client: Self)
        ensures
            client.auth_properties == auth_properties,
    {
        AuthenticationClient { auth_properties }
    }
}

} // verus!
