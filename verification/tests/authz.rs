use umbral::auth::Identity;

use turfzone::authz::{authorize, AuthIdentity, AuthorizationError, RestAction, RestPermissionError, RoutePolicy, StaffOrSuperuserReadOnly};
use turfzone::models::UserRole;

fn auth(identity: &Identity) -> AuthIdentity {
    AuthIdentity { user_id: identity.user_id.clone(), is_staff: identity.is_staff, is_superuser: identity.is_superuser }
}

#[test]
fn new_authenticated_users_default_to_player_access() {
    let identity = auth(&Identity::user(7));

    assert_eq!(authorize(RoutePolicy::Player, &identity, None, Some(7)), Ok(7));
}

#[test]
fn player_cannot_act_for_another_user() {
    let identity = auth(&Identity::user(7));

    assert_eq!(
        authorize(RoutePolicy::Player, &identity, Some(UserRole::Player), Some(8)),
        Err(AuthorizationError::SubjectMismatch)
    );
}

#[test]
fn manager_routes_accept_managers_and_manager_staff_only() {
    let identity = auth(&Identity::user(7));

    for role in [UserRole::Manager, UserRole::ManagerStaff] {
        assert_eq!(authorize(RoutePolicy::Manager, &identity, Some(role), None), Ok(7));
    }
    assert_eq!(
        authorize(RoutePolicy::Manager, &identity, Some(UserRole::Player), None),
        Err(AuthorizationError::Forbidden)
    );
}

#[test]
fn admin_routes_require_the_auth_user_superuser_flag() {
    let profile_admin = auth(&Identity::user(7));
    let superuser = auth(&Identity::user(8).with_superuser(true));

    assert_eq!(
        authorize(RoutePolicy::Admin, &profile_admin, Some(UserRole::Admin), None),
        Err(AuthorizationError::Forbidden)
    );
    assert_eq!(authorize(RoutePolicy::Admin, &superuser, None, None), Ok(8));
}

#[test]
fn generated_rest_is_privileged_read_only() {
    let permission = StaffOrSuperuserReadOnly;
    let user = auth(&Identity::user(1));
    let staff = auth(&Identity::user(2).with_staff(true));
    let superuser = auth(&Identity::user(3).with_superuser(true));

    assert_eq!(permission.check(&RestAction::List, None), Err(RestPermissionError::Unauthenticated));
    assert_eq!(permission.check(&RestAction::List, Some(&user)), Err(RestPermissionError::Forbidden));
    assert!(permission.check(&RestAction::List, Some(&staff)).is_ok());
    assert!(permission.check(&RestAction::Retrieve, Some(&superuser)).is_ok());
    assert_eq!(permission.check(&RestAction::Create, Some(&staff)), Err(RestPermissionError::Forbidden));
    assert_eq!(permission.check(&RestAction::Delete, Some(&superuser)), Err(RestPermissionError::Forbidden));
}
