//! The values that the sign-up and log-in exchanges carry.
use vstd::prelude::*;
use vstd::utf8::encode_utf8;

verus! {

/// The reply to a request that changes state.
#[derive(Clone, Debug, PartialEq, Eq)]
pub struct MessageResponse {
    pub message: String,
    pub success: bool,
}

/// A stored account. The password hash stays private.
#[derive(Clone)]
pub struct User {
    id: i32,
    pub username: String,
    password_hash: String,
}

/// What a visitor submits to sign up or log in.
#[derive(Clone, Debug, PartialEq, Eq)]
pub struct Credentials {
    pub username: String,
    pub password: String,
}

impl User {
    pub closed spec fn spec_id(&self) -> i32 {
        self.id
    }

    pub closed spec fn spec_username(&self) -> Seq<char> {
        self.username@
    }

    pub closed spec fn spec_password_hash(&self) -> Seq<char> {
        self.password_hash@
    }

    pub fn new(id: i32, username: String, password_hash: String) -> (r: User)
        ensures
            r.spec_id() == id,
            r.spec_username() == username@,
            r.spec_password_hash() == password_hash@,
    {
        User { id, username, password_hash }
    }

    pub fn id(&self) -> (r: i32)
        ensures
            r == self.spec_id(),
    {
        self.id
    }

    /// The bytes that tie a session to the current password: the hash itself.
    pub fn session_auth_hash(&self) -> (r: &[u8])
        ensures
            r@ == encode_utf8(self.spec_password_hash()),
    {
        self.password_hash.as_str().as_bytes()
    }
}

} // verus!
