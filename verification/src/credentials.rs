//! What is needed to log into the game server.

use vstd::prelude::*;

verus! {

/// The credentials used to log into the game server.
#[derive(Debug, PartialEq, Eq)]
pub struct RconCredentials {
    /// The address to connect to, as `host:port`.
    pub address: String,
    /// The password used to authenticate.
    pub password: String,
}

/// Mathematical model of [`RconCredentials`].
pub struct RconCredentialsView {
    pub address: Seq<char>,
    pub password: Seq<char>,
}

impl View for RconCredentials {
    type V = RconCredentialsView;

    open spec fn view(&self) -> RconCredentialsView {
        RconCredentialsView { address: self.address@, password: self.password@ }
    }
}

impl Clone for RconCredentials {
    fn clone(&self) -> (copy: Self)
        ensures
            copy@ == self@,
    {
        RconCredentials { address: self.address.clone(), password: self.password.clone() }
    }
}

} // verus!
