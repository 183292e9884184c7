use vault::{Principal, Role, Vault, VaultError};

#[test]
fn test_initialize() {
    let mut vault = Vault::new();
    let admin = Principal::new(1);

    assert_eq!(vault.initialize(admin), Ok(()));

    assert_eq!(vault.get_admin(), Ok(admin));
    assert!(vault.has_role(admin, Role::Admin));
}

#[test]
fn test_cannot_reinitialize() {
    let mut vault = Vault::new();
    let admin = Principal::new(1);

    assert_eq!(vault.initialize(admin), Ok(()));
    assert_eq!(vault.initialize(admin), Err(VaultError::AlreadyInitialized));
}

#[test]
fn test_grant_role() {
    let mut vault = Vault::new();
    let admin = Principal::new(1);
    let operator = Principal::new(2);

    vault.initialize(admin).unwrap();

    vault.grant_role(admin, operator, Role::Operator, true).unwrap();

    assert!(vault.has_role(operator, Role::Operator));
}

#[test]
fn test_revoke_role() {
    let mut vault = Vault::new();
    let admin = Principal::new(1);
    let operator = Principal::new(2);

    vault.initialize(admin).unwrap();
    vault.grant_role(admin, operator, Role::Operator, true).unwrap();

    vault.revoke_role(admin, operator, Role::Operator, true).unwrap();

    assert!(!vault.has_role(operator, Role::Operator));
}

#[test]
fn test_only_admin_can_grant() {
    let mut vault = Vault::new();
    let admin = Principal::new(1);
    let non_admin = Principal::new(2);
    let operator = Principal::new(3);

    vault.initialize(admin).unwrap();

    assert_eq!(
        vault.grant_role(non_admin, operator, Role::Operator, true),
        Err(VaultError::MissingRole)
    );
    assert!(!vault.has_role(operator, Role::Operator));
}

#[test]
fn test_multiple_roles() {
    let mut vault = Vault::new();
    let admin = Principal::new(1);
    let user = Principal::new(2);

    vault.initialize(admin).unwrap();

    vault.grant_role(admin, user, Role::Operator, true).unwrap();
    vault.grant_role(admin, user, Role::Treasurer, true).unwrap();

    assert!(vault.has_role(user, Role::Operator));
    assert!(vault.has_role(user, Role::Treasurer));
}

#[test]
fn test_has_role_returns_false() {
    let mut vault = Vault::new();
    let admin = Principal::new(1);
    let user = Principal::new(2);

    vault.initialize(admin).unwrap();

    assert!(!vault.has_role(user, Role::Operator));
}
