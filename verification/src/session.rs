//! The session of a logged-in user.

use crate::snapshot::Snapshot;
use vstd::prelude::*;

verus! {

#[derive(Clone, Debug, PartialEq, Eq)]
/// An authenticated identity.  It is set at login and replaced as a whole at
/// the next login.
pub struct Session {
    /// The token that authenticates requests.
    pub access_token: String,
    /// The user that the session belongs to.
    pub user_id: String,
    /// The device that the session belongs to.
    pub device_id: String,
}

/// The model of [`Session`].
pub struct SessionView {
    pub access_token: Seq<char>,
    pub user_id: Seq<char>,
    pub device_id: Seq<char>,
}

impl DeepView for Session {
    type V = SessionView;

    open spec fn deep_view(&self) -> SessionView {
        SessionView {
            access_token: self.access_token@,
            user_id: self.user_id@,
            device_id: self.device_id@,
        }
    }
}

impl Snapshot for Session {
    open spec fn wf(&self) -> bool {
        true
    }

    fn snapshot(&self) -> (copy: Self) {
        Session {
            access_token: self.access_token.clone(),
            user_id: self.user_id.clone(),
            device_id: self.device_id.clone(),
        }
    }
}

} // verus!
