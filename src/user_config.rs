use vstd::prelude::*;

verus! {

/// What is kept on disk about the signed-in user.
#[derive(Clone, Debug)]
pub struct UserInfo {
    pub email: Option<String>,
    pub name: Option<String>,
    pub user_id: Option<String>,
    pub access_token: Option<String>,
    pub refresh_token: Option<String>,
}

/// No one is signed in: every field is absent.
pub open spec fn is_signed_out(u: UserInfo) -> bool {
    &&& u.email is None
    &&& u.name is None
    &&& u.user_id is None
    &&& u.access_token is None
    &&& u.refresh_token is None
}

impl UserInfo {
    /// A record with nothing in it.
    pub fn empty() -> (r: UserInfo)
        ensures
            is_signed_out(r),
    {
        UserInfo { email: None, name: None, user_id: None, access_token: None, refresh_token: None }
    }
}

/// The user record together with the file it is kept in.
#[derive(Clone, Debug)]
pub struct UserConfig {
    pub user: UserInfo,
    pub config_path: String,
}

impl UserConfig {
    /// Forgets the signed-in user; the file location is kept. Writing the
    /// emptied record back is left to the caller.
    pub fn clear(&mut self)
        ensures
            is_signed_out(final(self).user),
            final(self).config_path == old(self).config_path,
    {
        self.user = UserInfo::empty();
    }

    /// Whether an access token is at hand, so that remote calls can be made.
    pub fn has_access_token(&self) -> (r: bool)
        ensures
            r == self.user.access_token is Some,
    {
        self.user.access_token.is_some()
    }
}

} // verus!
