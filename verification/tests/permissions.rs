use auth_service::components::auth::functions::grants::{resolve, AccessTables};
use auth_service::entity::enums::user_role::UserRole;
use auth_service::entity::{permissions, role_permissions, roles, user_permission_overrides};

fn role(id: u128, code: &str) -> roles::Model {
    roles::Model {
        id,
        code: code.to_string(),
        description: None,
        priority: 0,
        created_at: 0,
        updated_at: 0,
    }
}

fn permission(id: u128, code: &str) -> permissions::Model {
    permissions::Model { id, code: code.to_string(), description: None, created_at: 0, updated_at: 0 }
}

fn seeded() -> AccessTables {
    AccessTables {
        roles: vec![role(1, "ADMIN"), role(2, "USER"), role(3, "GUEST")],
        permissions: vec![
            permission(10, "project.read"),
            permission(11, "token.read"),
            permission(12, "admin.special"),
            permission(13, "user.read"),
        ],
        role_permissions: vec![
            role_permissions::Model { role_id: 2, permission_id: 10 },
            role_permissions::Model { role_id: 2, permission_id: 11 },
            role_permissions::Model { role_id: 3, permission_id: 10 },
            role_permissions::Model { role_id: 1, permission_id: 13 },
        ],
        user_roles: vec![],
        overrides: vec![],
    }
}

#[test]
fn deny_override_removes_a_granted_permission() {
    let mut tables = seeded();
    tables.overrides.push(user_permission_overrides::Model {
        user_id: 7,
        permission_id: 10,
        allow: false,
    });
    let (roles, perms) = resolve(&tables, Some(UserRole::User), 7);
    assert_eq!(roles, vec!["USER".to_string()]);
    assert_eq!(perms, vec!["token.read".to_string()]);
}

#[test]
fn allow_override_adds_a_permission_no_role_grants() {
    let mut tables = seeded();
    tables.overrides.push(user_permission_overrides::Model {
        user_id: 7,
        permission_id: 12,
        allow: true,
    });
    let (roles, perms) = resolve(&tables, Some(UserRole::Guest), 7);
    assert_eq!(roles, vec!["GUEST".to_string()]);
    assert_eq!(perms, vec!["admin.special".to_string(), "project.read".to_string()]);
}
