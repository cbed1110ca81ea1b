//! The user account a credential is created for.

use vstd::prelude::*;

verus! {

/// The account a creation request is for.
#[derive(Clone, Debug)]
pub struct User {
    /// The user handle: an opaque, stable identifier (at most 64 bytes).
    pub id: Vec<u8>,
    /// A human-readable account name.
    pub name: String,
    /// A human-readable display name.
    pub display_name: String,
}

impl User {
    /// The user with this handle, name and display name.
    pub fn new(id: Vec<u8>, name: &str, display_name: &str) -> (r: User)
        ensures
            r.id == id,
            r.name@ == name@,
            r.display_name@ == display_name@,
    {
        User { id, name: name.to_string(), display_name: display_name.to_string() }
    }
}

/// An account type of the caller's that can be presented as a `User`.
pub trait WebAuthnUser {
    /// The user handle.
    fn id(&self) -> &[u8];

    /// The account name, also shown as the display name.
    fn name(&self) -> &str;

    /// The `User` for this account.
    fn to_user(&self) -> User {
        let id = self.id();
        let name = self.name();
        User { id: vstd::slice::slice_to_vec(id), name: name.to_string(), display_name: name.to_string() }
    }
}

} // verus!
