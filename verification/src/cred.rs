use vstd::prelude::*;

verus! {

/// A basic username/password credential, attached to a request when the
/// remote asks for authentication.  Immutable once submitted.
#[derive(Clone, Debug)]
pub struct BasicAuthCredential {
    /// The user name, if one was provided.
    pub username: Option<String>,
    /// The password, if one was provided.
    pub password: Option<String>,
}

/// Copies an optional string; the copy holds the same characters.
pub(crate) fn clone_opt_string(s: &Option<String>) -> (r: Option<String>)
    ensures
        r == *s,
{
    match s {
        Some(v) => Some(v.clone()),
        None => None,
    }
}

impl BasicAuthCredential {
    /// Copies the credential; the copy equals the original.
    pub fn duplicate(&self) -> (r: BasicAuthCredential)
        ensures
            r == *self,
    {
        BasicAuthCredential {
            username: clone_opt_string(&self.username),
            password: clone_opt_string(&self.password),
        }
    }
}

/// Copies an optional credential; the copy equals the original.
pub(crate) fn clone_opt_credential(c: &Option<BasicAuthCredential>) -> (r: Option<
    BasicAuthCredential,
>)
    ensures
        r == *c,
{
    match c {
        Some(v) => Some(v.duplicate()),
        None => None,
    }
}

} // verus!
