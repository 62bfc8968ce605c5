use vstd::prelude::*;

verus! {

/// An access key id, its secret key and, for temporary credentials, a
/// session token.
#[derive(Clone)]
pub struct Credentials {
    pub id: String,
    pub secret: String,
    pub token: Option<String>,
}

impl Credentials {
    /// The session token, if there is one.
    pub fn get_token(&self) -> (token: Option<String>)
        ensures
            token == self.token,
    {
        match &self.token {
            Some(t) => Some(t.clone()),
            None => None,
        }
    }

    /// The access key id.
    pub fn get_id(&self) -> (id: String)
        ensures
            id == self.id,
    {
        self.id.clone()
    }

    /// The secret access key.
    pub fn get_secret(&self) -> (secret: String)
        ensures
            secret == self.secret,
    {
        self.secret.clone()
    }
}

} // verus!
