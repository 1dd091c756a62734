//! The account record used to authenticate with the hub.

use vstd::prelude::*;

verus! {

/// Mathematical value of a [`Credentials`] record: the two fields as
/// character sequences.
#[verifier::ext_equal]
pub ghost struct CredentialsView {
    pub identifier: Seq<char>,
    pub secret: Seq<char>,
}

/// The account used to authenticate with the hub.  Created from a login
/// request; persisted after each successful login; loaded once at process
/// start.
pub struct Credentials {
    pub identifier: String,
    pub secret: String,
}

impl View for Credentials {
    type V = CredentialsView;

    open spec fn view(&self) -> CredentialsView {
        CredentialsView { identifier: self.identifier@, secret: self.secret@ }
    }
}

impl Clone for Credentials {
    fn clone(&self) -> (r: Self)
        ensures
            r@ == self@,
    {
        Credentials { identifier: self.identifier.clone(), secret: self.secret.clone() }
    }
}

impl Credentials {
    pub fn new(identifier: String, secret: String) -> (r: Credentials)
        ensures
            r@ == (CredentialsView { identifier: identifier@, secret: secret@ }),
    {
        Credentials { identifier, secret }
    }
}

} // verus!
