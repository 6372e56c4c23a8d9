use token_auth::error::ServiceError;
use token_auth::jwt::Claims;
use token_auth::rbac::{check_permission, has_permission, permission_table, PermissionRule, RbacMiddleware};

fn claims(role: &str) -> Claims {
    Claims { id: "1".to_string(), role: role.to_string(), exp: 0 }
}

#[test]
fn admin_path_forbidden_to_user_and_open_to_admin() {
    let stage = RbacMiddleware.new_transform();
    let user = claims("user");
    let admin = claims("admin");
    assert_eq!(stage.call(Some(&user), "/api/admin/users/"), Err(ServiceError::Forbidden));
    assert_eq!(stage.call(Some(&admin), "/api/admin/users/"), Ok(()));
}

#[test]
fn user_path_open_to_users_and_admins() {
    assert!(has_permission(claims("user"), "/api/user/profile"));
    assert!(has_permission(claims("admin"), "/api/user/profile"));
    assert!(!has_permission(claims("guest"), "/api/user/profile"));
}

#[test]
fn unlisted_path_is_refused() {
    assert!(!has_permission(claims("admin"), "/api/other"));
    assert!(!has_permission(claims("admin"), ""));
}

#[test]
fn missing_identity_is_internal_error() {
    let stage = RbacMiddleware.new_transform();
    assert_eq!(stage.call(None, "/api/admin"), Err(ServiceError::InternalError));
}

#[test]
fn longest_prefix_decides() {
    let mut table = permission_table();
    table.push(PermissionRule {
        prefix: "/api/admin/reports".to_string(),
        roles: vec!["auditor".to_string()],
    });
    assert!(check_permission(&table, "/api/admin/reports/1", "auditor"));
    assert!(!check_permission(&table, "/api/admin/reports/1", "admin"));
    assert!(check_permission(&table, "/api/admin/users", "admin"));
    assert!(!check_permission(&table, "/api/admin/users", "auditor"));
}
