use nimbus_auth::types::UserRole;
use nimbus_auth::user_role::UserRoleDb;

#[test]
fn roles_map_to_database_roles_and_back() {
    assert_eq!(UserRoleDb::from(&UserRole::Default), UserRoleDb::Default);
    assert_eq!(UserRoleDb::from(&UserRole::Admin), UserRoleDb::Admin);
    assert!(matches!(UserRole::from(&UserRoleDb::Default), UserRole::Default));
    assert!(matches!(UserRole::from(&UserRoleDb::Admin), UserRole::Admin));
    for role in [UserRoleDb::Default, UserRoleDb::Admin] {
        assert_eq!(UserRoleDb::from(&UserRole::from(&role)), role);
    }
}
