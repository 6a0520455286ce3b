use meridian_contracts::access_control::{AccessControlRole, RoleTable};

const ADMIN: [u8; 32] = [1u8; 32];
const CLAIMS_ADDR: [u8; 32] = [2u8; 32];

fn initialized() -> RoleTable {
    let mut roles = RoleTable::new();
    roles.init_access_control(&ADMIN);
    roles
}

#[test]
fn test_admin_role_granted_on_init() {
    let roles = initialized();
    assert!(roles.has_role(&ADMIN, AccessControlRole::Admin));
    assert!(!roles.has_role(&ADMIN, AccessControlRole::Claims));
    assert!(!roles.has_role(&ADMIN, AccessControlRole::Governance));
}

#[test]
fn test_set_grants_claims_role() {
    let mut roles = initialized();
    roles.set_role(&CLAIMS_ADDR, AccessControlRole::Claims);
    assert!(roles.has_role(&CLAIMS_ADDR, AccessControlRole::Claims));
    assert!(roles.has_role(&ADMIN, AccessControlRole::Admin));
}

#[test]
fn test_role_revoke_removes_access() {
    let mut roles = initialized();
    roles.set_role(&CLAIMS_ADDR, AccessControlRole::Claims);
    assert!(roles.has_role(&CLAIMS_ADDR, AccessControlRole::Claims));
    roles.revoke_role(&CLAIMS_ADDR, AccessControlRole::Claims);
    assert!(!roles.has_role(&CLAIMS_ADDR, AccessControlRole::Claims));
    assert!(roles.has_role(&ADMIN, AccessControlRole::Admin));
}

#[test]
fn revoking_removes_every_copy_of_a_grant() {
    let mut roles = initialized();
    roles.set_role(&CLAIMS_ADDR, AccessControlRole::Claims);
    roles.set_role(&CLAIMS_ADDR, AccessControlRole::Claims);
    roles.set_role(&CLAIMS_ADDR, AccessControlRole::Policy);
    roles.revoke_role(&CLAIMS_ADDR, AccessControlRole::Claims);
    assert!(!roles.has_role(&CLAIMS_ADDR, AccessControlRole::Claims));
    assert!(roles.has_role(&CLAIMS_ADDR, AccessControlRole::Policy));
}

#[test]
fn test_all_role_variants_exist() {
    let _admin = AccessControlRole::Admin;
    let _governance = AccessControlRole::Governance;
    let _claims = AccessControlRole::Claims;
    let _policy = AccessControlRole::Policy;
    let _risk_pool = AccessControlRole::RiskPool;
    let _slashing = AccessControlRole::Slashing;
}
