//! Who may use which route, and read-only access to the model REST API.
use vstd::prelude::*;

use crate::models::UserRole;
use crate::text::{parse_i64, parsed_i64};

verus! {

/// The audience a route is for.
#[derive(Clone, Copy, Debug, PartialEq, Eq, Structural)]
pub enum RoutePolicy {
    Player,
    Manager,
    Admin,
}

/// Why a request was not authorized.
#[derive(Clone, Copy, Debug, PartialEq, Eq, Structural)]
pub enum AuthorizationError {
    InvalidIdentity,
    Forbidden,
    SubjectMismatch,
}

/// The authenticated caller: the user's primary key as text, and the staff and
/// superuser flags of the auth user.
#[derive(Clone, Debug, PartialEq, Eq)]
pub struct AuthIdentity {
    pub user_id: String,
    pub is_staff: bool,
    pub is_superuser: bool,
}

/// Whether `role` may use a route for `policy`: players the player routes,
/// managers and their staff the manager routes, and no profile role the admin
/// routes.
pub open spec fn role_allows(policy: RoutePolicy, role: UserRole) -> bool {
    match policy {
        RoutePolicy::Player => role == UserRole::Player,
        RoutePolicy::Manager => role == UserRole::Manager || role == UserRole::ManagerStaff,
        RoutePolicy::Admin => false,
    }
}

/// The outcome of `authorize`: the caller's user id, or why it is refused.
pub open spec fn authorization(
    policy: RoutePolicy,
    user_id: Seq<char>,
    is_superuser: bool,
    profile_role: Option<UserRole>,
    subject_user_id: Option<i64>,
) -> Result<i64, AuthorizationError> {
    match parsed_i64(user_id) {
        None => Err(AuthorizationError::InvalidIdentity),
        Some(id) => if !is_superuser && !role_allows(policy, match profile_role { Some(r) => r, None => UserRole::Player }) {
            Err(AuthorizationError::Forbidden)
        } else if subject_user_id matches Some(s) && s != id {
            Err(AuthorizationError::SubjectMismatch)
        } else {
            Ok(id)
        },
    }
}

/// Decides whether the caller may use a route for `policy`, acting for
/// `subject_user_id` when one is given. A superuser may use any route; anyone
/// else needs a role the policy admits (a user without a profile counts as a
/// player). Nobody, a superuser included, may act for another user. Refused first
/// when the identity's user id is not an integer, then for the role, then for the
/// subject.
pub fn authorize(
    policy: RoutePolicy,
    identity: &AuthIdentity,
    profile_role: Option<UserRole>,
    subject_user_id: Option<i64>,
) -> (r: Result<i64, AuthorizationError>)
    ensures
        r == authorization(policy, identity.user_id@, identity.is_superuser, profile_role, subject_user_id),
{
    let user_id = match parse_i64(identity.user_id.as_str()) {
        Some(id) => id,
        None => return Err(AuthorizationError::InvalidIdentity),
    };
    let role = match profile_role {
        Some(r) => r,
        None => UserRole::Player,
    };
    let has_role = match policy {
        RoutePolicy::Player => role == UserRole::Player,
        RoutePolicy::Manager => role == UserRole::Manager || role == UserRole::ManagerStaff,
        RoutePolicy::Admin => false,
    };
    if !identity.is_superuser && !has_role {
        return Err(AuthorizationError::Forbidden);
    }
    if let Some(subject) = subject_user_id {
        if subject != user_id {
            return Err(AuthorizationError::SubjectMismatch);
        }
    }
    Ok(user_id)
}

/// Admin routes need the auth user's superuser flag: a profile role, `Admin`
/// included, never admits a caller who is not a superuser.
pub proof fn lemma_admin_requires_superuser(user_id: Seq<char>, profile_role: Option<UserRole>, subject_user_id: Option<i64>)
    ensures
        authorization(RoutePolicy::Admin, user_id, false, profile_role, subject_user_id) is Err,
{
}

/// No caller, a superuser included, is ever authorized to act for another user.
pub proof fn lemma_no_acting_for_another_user(policy: RoutePolicy, user_id: Seq<char>, is_superuser: bool, profile_role: Option<UserRole>, subject: i64)
    ensures
        authorization(policy, user_id, is_superuser, profile_role, Some(subject)) matches Ok(id) ==> id == subject,
{
}

/// A user without a profile is treated as a player.
pub proof fn lemma_missing_profile_is_player(policy: RoutePolicy, user_id: Seq<char>, is_superuser: bool, subject_user_id: Option<i64>)
    ensures
        authorization(policy, user_id, is_superuser, None, subject_user_id)
            == authorization(policy, user_id, is_superuser, Some(UserRole::Player), subject_user_id),
{
}

/// An action on the model REST API.
#[derive(Clone, Debug, PartialEq, Eq)]
pub enum RestAction {
    List,
    Retrieve,
    Create,
    Update,
    Delete,
    Custom(String),
}

impl RestAction {
    /// Listing and retrieving are the read-only actions.
    pub open spec fn reads(&self) -> bool {
        self matches RestAction::List || self matches RestAction::Retrieve
    }

    /// Whether this is a read-only action.
    pub fn is_read(&self) -> (r: bool)
        ensures
            r == self.reads(),
    {
        match self {
            RestAction::List | RestAction::Retrieve => true,
            _ => false,
        }
    }
}

/// Why the model REST API refused a request.
#[derive(Clone, Copy, Debug, PartialEq, Eq, Structural)]
pub enum RestPermissionError {
    Unauthenticated,
    Forbidden,
}

/// The model REST API's permission: staff and superusers may read, and
/// nobody may write.
#[derive(Clone, Copy, Debug, PartialEq, Eq, Structural)]
pub struct StaffOrSuperuserReadOnly;

impl StaffOrSuperuserReadOnly {
    /// Allows reads by authenticated staff or superusers; refuses an anonymous
    /// caller as unauthenticated and everything else as forbidden.
    pub fn check(&self, action: &RestAction, identity: Option<&AuthIdentity>) -> (r: Result<(), RestPermissionError>)
        ensures
            r == match identity {
                None => Err::<(), RestPermissionError>(RestPermissionError::Unauthenticated),
                Some(id) => if !id.is_staff && !id.is_superuser {
                    Err::<(), RestPermissionError>(RestPermissionError::Forbidden)
                } else if !action.reads() {
                    Err::<(), RestPermissionError>(RestPermissionError::Forbidden)
                } else {
                    Ok::<(), RestPermissionError>(())
                },
            },
            !action.reads() ==> r is Err,
    {
        let identity = match identity {
            Some(i) => i,
            None => return Err(RestPermissionError::Unauthenticated),
        };
        if !identity.is_staff && !identity.is_superuser {
            return Err(RestPermissionError::Forbidden);
        }
        if !action.is_read() {
            return Err(RestPermissionError::Forbidden);
        }
        Ok(())
    }
}

} // verus!
