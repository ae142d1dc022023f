use kora_protocol::access_control::{AccessControlContract, AccessControlError, AdminAction, Role};
use kora_protocol::audit::AdminActionType;
use kora_protocol::types::{Addr, ParameterKey};

/// This contract's own address in every test.
const CONTRACT: Addr = 9_999;

/// A fresh address, distinct from every other one a test uses.
struct Addresses(Addr);

impl Addresses {
    fn new() -> Self {
        Addresses(100)
    }
    fn generate(&mut self) -> Addr {
        self.0 += 1;
        self.0
    }
}

/// An initialized contract and its admin.
fn setup() -> (Addresses, Addr, AccessControlContract) {
    let mut addrs = Addresses::new();
    let mut client = AccessControlContract::new();
    let admin = addrs.generate();
    client.initialize(CONTRACT, admin).unwrap();
    (addrs, admin, client)
}

/// A deployed contract that was never initialized.
fn deploy_uninit() -> (Addresses, AccessControlContract) {
    (Addresses::new(), AccessControlContract::new())
}

/// Configure a multisig of two fresh signers with threshold 2.
fn two_signers(addrs: &mut Addresses, admin: Addr, client: &mut AccessControlContract) -> (Addr, Addr) {
    let signer1 = addrs.generate();
    let signer2 = addrs.generate();
    client.configure_multisig(0, admin, vec![signer1, signer2], 2).unwrap();
    (signer1, signer2)
}

#[test]
fn test_initialize_success() {
    let (mut addrs, mut client) = deploy_uninit();
    let admin = addrs.generate();
    assert!(client.initialize(CONTRACT, admin).is_ok());
    assert_eq!(client.get_admin(), Ok(admin));
    assert_eq!(client.get_role(admin), Role::Admin);
    assert!(!client.is_paused());
}

#[test]
fn test_initialize_already_initialized_returns_correct_error() {
    let (_, admin, mut client) = setup();
    assert_eq!(client.initialize(CONTRACT, admin), Err(AccessControlError::AlreadyInitialized));
}

#[test]
fn test_initialize_second_admin_ignored() {
    let (mut addrs, admin, mut client) = setup();
    let attacker = addrs.generate();
    let _ = client.initialize(CONTRACT, attacker);
    assert_eq!(client.get_admin(), Ok(admin));
}

#[test]
fn test_pause_sets_paused_flag() {
    let (_, admin, mut client) = setup();
    assert!(!client.is_paused());
    client.pause(0, admin).unwrap();
    assert!(client.is_paused());
}

#[test]
fn test_pause_requires_admin_auth() {
    let (_, admin, mut client) = setup();
    assert!(client.pause(0, admin).is_ok());
}

#[test]
fn test_pause_non_admin_returns_not_admin() {
    let (mut addrs, _, mut client) = setup();
    let stranger = addrs.generate();
    assert_eq!(client.pause(0, stranger), Err(AccessControlError::NotAdmin));
}

#[test]
fn test_pause_already_paused_returns_correct_error() {
    let (_, admin, mut client) = setup();
    client.pause(0, admin).unwrap();
    assert_eq!(client.pause(0, admin), Err(AccessControlError::AlreadyPaused));
}

#[test]
fn test_pause_state_unchanged_after_double_pause() {
    let (_, admin, mut client) = setup();
    client.pause(0, admin).unwrap();
    let _ = client.pause(0, admin);
    assert!(client.is_paused());
}

#[test]
fn test_unpause_clears_paused_flag() {
    let (_, admin, mut client) = setup();
    client.pause(0, admin).unwrap();
    client.unpause(0, admin).unwrap();
    assert!(!client.is_paused());
}

#[test]
fn test_unpause_requires_admin_auth() {
    let (_, admin, mut client) = setup();
    client.pause(0, admin).unwrap();
    assert!(client.unpause(0, admin).is_ok());
}

#[test]
fn test_unpause_non_admin_returns_not_admin() {
    let (mut addrs, admin, mut client) = setup();
    client.pause(0, admin).unwrap();
    let stranger = addrs.generate();
    assert_eq!(client.unpause(0, stranger), Err(AccessControlError::NotAdmin));
}

#[test]
fn test_unpause_when_not_paused_returns_correct_error() {
    let (_, admin, mut client) = setup();
    assert_eq!(client.unpause(0, admin), Err(AccessControlError::NotPaused));
}

#[test]
fn test_unpause_state_unchanged_after_failed_unpause() {
    let (_, admin, mut client) = setup();
    let _ = client.unpause(0, admin);
    assert!(!client.is_paused());
}

#[test]
fn test_pause_unpause_cycle_multiple_times() {
    let (_, admin, mut client) = setup();
    for _ in 0..5 {
        client.pause(0, admin).unwrap();
        assert!(client.is_paused());
        client.unpause(0, admin).unwrap();
        assert!(!client.is_paused());
    }
}

#[test]
fn test_grant_role_operator_success() {
    let (mut addrs, admin, mut client) = setup();
    let operator = addrs.generate();
    client.grant_role(0, admin, operator, Role::Operator).unwrap();
    assert_eq!(client.get_role(operator), Role::Operator);
}

#[test]
fn test_grant_role_verifier_success() {
    let (mut addrs, admin, mut client) = setup();
    let verifier = addrs.generate();
    client.grant_role(0, admin, verifier, Role::Verifier).unwrap();
    assert_eq!(client.get_role(verifier), Role::Verifier);
}

#[test]
fn test_grant_role_requires_admin_auth() {
    let (mut addrs, admin, mut client) = setup();
    let target = addrs.generate();
    assert!(client.grant_role(0, admin, target, Role::Verifier).is_ok());
}

#[test]
fn test_grant_role_non_admin_returns_not_admin() {
    let (mut addrs, _, mut client) = setup();
    let stranger = addrs.generate();
    let target = addrs.generate();
    assert_eq!(client.grant_role(0, stranger, target, Role::Verifier), Err(AccessControlError::NotAdmin));
}

#[test]
fn test_grant_role_admin_variant_returns_unauthorized() {
    let (mut addrs, admin, mut client) = setup();
    let target = addrs.generate();
    assert_eq!(client.grant_role(0, admin, target, Role::Admin), Err(AccessControlError::Unauthorized));
}

#[test]
fn test_grant_role_none_variant_returns_unauthorized() {
    let (mut addrs, admin, mut client) = setup();
    let target = addrs.generate();
    assert_eq!(client.grant_role(0, admin, target, Role::NoRole), Err(AccessControlError::Unauthorized));
}

#[test]
fn test_grant_role_to_self_returns_unauthorized() {
    let (_, admin, mut client) = setup();
    assert_eq!(client.grant_role(0, admin, admin, Role::Operator), Err(AccessControlError::Unauthorized));
}

#[test]
fn test_grant_role_state_unchanged_after_failed_grant() {
    let (mut addrs, admin, mut client) = setup();
    let target = addrs.generate();
    let _ = client.grant_role(0, admin, target, Role::Admin);
    assert_eq!(client.get_role(target), Role::NoRole);
}

#[test]
fn test_grant_role_override_operator_to_verifier() {
    let (mut addrs, admin, mut client) = setup();
    let user = addrs.generate();
    client.grant_role(0, admin, user, Role::Operator).unwrap();
    client.grant_role(0, admin, user, Role::Verifier).unwrap();
    assert_eq!(client.get_role(user), Role::Verifier);
}

#[test]
fn test_grant_role_override_verifier_to_operator() {
    let (mut addrs, admin, mut client) = setup();
    let user = addrs.generate();
    client.grant_role(0, admin, user, Role::Verifier).unwrap();
    client.grant_role(0, admin, user, Role::Operator).unwrap();
    assert_eq!(client.get_role(user), Role::Operator);
}

#[test]
fn test_grant_role_same_role_twice_idempotent() {
    let (mut addrs, admin, mut client) = setup();
    let user = addrs.generate();
    client.grant_role(0, admin, user, Role::Verifier).unwrap();
    client.grant_role(0, admin, user, Role::Verifier).unwrap();
    assert_eq!(client.get_role(user), Role::Verifier);
}

#[test]
fn test_grant_role_multiple_users_independent() {
    let (mut addrs, admin, mut client) = setup();
    let v1 = addrs.generate();
    let v2 = addrs.generate();
    let op = addrs.generate();
    client.grant_role(0, admin, v1, Role::Verifier).unwrap();
    client.grant_role(0, admin, v2, Role::Verifier).unwrap();
    client.grant_role(0, admin, op, Role::Operator).unwrap();
    assert_eq!(client.get_role(v1), Role::Verifier);
    assert_eq!(client.get_role(v2), Role::Verifier);
    assert_eq!(client.get_role(op), Role::Operator);
    client.revoke_role(0, admin, v1).unwrap();
    assert_eq!(client.get_role(v1), Role::NoRole);
    assert_eq!(client.get_role(v2), Role::Verifier);
}

#[test]
fn test_revoke_role_success() {
    let (mut addrs, admin, mut client) = setup();
    let operator = addrs.generate();
    client.grant_role(0, admin, operator, Role::Operator).unwrap();
    client.revoke_role(0, admin, operator).unwrap();
    assert_eq!(client.get_role(operator), Role::NoRole);
}

#[test]
fn test_revoke_role_requires_admin_auth() {
    let (mut addrs, admin, mut client) = setup();
    let target = addrs.generate();
    client.grant_role(0, admin, target, Role::Operator).unwrap();
    assert!(client.revoke_role(0, admin, target).is_ok());
}

#[test]
fn test_revoke_role_non_admin_returns_not_admin() {
    let (mut addrs, admin, mut client) = setup();
    let operator = addrs.generate();
    let stranger = addrs.generate();
    client.grant_role(0, admin, operator, Role::Operator).unwrap();
    assert_eq!(client.revoke_role(0, stranger, operator), Err(AccessControlError::NotAdmin));
}

#[test]
fn test_revoke_role_admin_returns_unauthorized() {
    let (_, admin, mut client) = setup();
    assert_eq!(client.revoke_role(0, admin, admin), Err(AccessControlError::Unauthorized));
}

#[test]
fn test_revoke_role_not_assigned_returns_correct_error() {
    let (mut addrs, admin, mut client) = setup();
    let stranger = addrs.generate();
    assert_eq!(client.revoke_role(0, admin, stranger), Err(AccessControlError::RoleNotAssigned));
}

#[test]
fn test_revoke_role_state_unchanged_after_failed_revoke() {
    let (mut addrs, admin, mut client) = setup();
    let stranger = addrs.generate();
    let _ = client.revoke_role(0, admin, stranger);
    assert_eq!(client.get_role(stranger), Role::NoRole);
}

#[test]
fn test_revoke_role_twice_fails_second_time() {
    let (mut addrs, admin, mut client) = setup();
    let user = addrs.generate();
    client.grant_role(0, admin, user, Role::Verifier).unwrap();
    client.revoke_role(0, admin, user).unwrap();
    assert_eq!(client.revoke_role(0, admin, user), Err(AccessControlError::RoleNotAssigned));
}

#[test]
fn test_revoke_then_re_grant() {
    let (mut addrs, admin, mut client) = setup();
    let user = addrs.generate();
    client.grant_role(0, admin, user, Role::Verifier).unwrap();
    client.revoke_role(0, admin, user).unwrap();
    client.grant_role(0, admin, user, Role::Operator).unwrap();
    assert_eq!(client.get_role(user), Role::Operator);
}

#[test]
fn test_transfer_admin_success() {
    let (mut addrs, admin, mut client) = setup();
    let new_admin = addrs.generate();
    client.transfer_admin(0, CONTRACT, admin, new_admin).unwrap();
    assert_eq!(client.get_admin(), Ok(new_admin));
    assert_eq!(client.get_role(new_admin), Role::Admin);
    assert_eq!(client.get_role(admin), Role::NoRole);
}

#[test]
fn test_transfer_admin_requires_current_admin_auth() {
    let (mut addrs, admin, mut client) = setup();
    let new_admin = addrs.generate();
    assert!(client.transfer_admin(0, CONTRACT, admin, new_admin).is_ok());
}

#[test]
fn test_transfer_admin_non_admin_returns_not_admin() {
    let (mut addrs, _, mut client) = setup();
    let stranger = addrs.generate();
    let new_admin = addrs.generate();
    assert_eq!(client.transfer_admin(0, CONTRACT, stranger, new_admin), Err(AccessControlError::NotAdmin));
}

#[test]
fn test_transfer_admin_to_self_returns_invalid_address() {
    let (_, admin, mut client) = setup();
    assert_eq!(client.transfer_admin(0, CONTRACT, admin, admin), Err(AccessControlError::InvalidAddress));
}

#[test]
fn test_transfer_admin_to_operator_returns_unauthorized() {
    let (mut addrs, admin, mut client) = setup();
    let operator = addrs.generate();
    client.grant_role(0, admin, operator, Role::Operator).unwrap();
    assert_eq!(client.transfer_admin(0, CONTRACT, admin, operator), Err(AccessControlError::Unauthorized));
}

#[test]
fn test_transfer_admin_to_verifier_returns_unauthorized() {
    let (mut addrs, admin, mut client) = setup();
    let verifier = addrs.generate();
    client.grant_role(0, admin, verifier, Role::Verifier).unwrap();
    assert_eq!(client.transfer_admin(0, CONTRACT, admin, verifier), Err(AccessControlError::Unauthorized));
}

#[test]
fn test_transfer_admin_state_unchanged_after_failed_transfer() {
    let (_, admin, mut client) = setup();
    let _ = client.transfer_admin(0, CONTRACT, admin, admin);
    assert_eq!(client.get_admin(), Ok(admin));
    assert_eq!(client.get_role(admin), Role::Admin);
}

#[test]
fn test_transfer_admin_old_admin_loses_all_privileges() {
    let (mut addrs, admin, mut client) = setup();
    let new_admin = addrs.generate();
    client.transfer_admin(0, CONTRACT, admin, new_admin).unwrap();
    assert!(client.pause(0, admin).is_err());
    let target = addrs.generate();
    assert!(client.grant_role(0, admin, target, Role::Verifier).is_err());
    assert!(client.transfer_admin(0, CONTRACT, admin, target).is_err());
}

#[test]
fn test_transfer_admin_new_admin_has_full_privileges() {
    let (mut addrs, admin, mut client) = setup();
    let new_admin = addrs.generate();
    client.transfer_admin(0, CONTRACT, admin, new_admin).unwrap();
    client.pause(0, new_admin).unwrap();
    assert!(client.is_paused());
    client.unpause(0, new_admin).unwrap();
    let target = addrs.generate();
    client.grant_role(0, new_admin, target, Role::Verifier).unwrap();
    assert_eq!(client.get_role(target), Role::Verifier);
}

#[test]
fn test_transfer_admin_chain_a_to_b_to_c() {
    let (mut addrs, admin_a, mut client) = setup();
    let admin_b = addrs.generate();
    let admin_c = addrs.generate();
    client.transfer_admin(0, CONTRACT, admin_a, admin_b).unwrap();
    assert_eq!(client.get_admin(), Ok(admin_b));
    client.transfer_admin(0, CONTRACT, admin_b, admin_c).unwrap();
    assert_eq!(client.get_admin(), Ok(admin_c));
    assert_eq!(client.get_role(admin_a), Role::NoRole);
    assert_eq!(client.get_role(admin_b), Role::NoRole);
    assert_eq!(client.get_role(admin_c), Role::Admin);
}

#[test]
fn test_transfer_admin_to_clean_address_succeeds() {
    let (mut addrs, admin, mut client) = setup();
    let new_admin = addrs.generate();
    assert_eq!(client.get_role(new_admin), Role::NoRole);
    assert!(client.transfer_admin(0, CONTRACT, admin, new_admin).is_ok());
}

#[test]
fn test_pause_before_init_returns_not_initialized() {
    let (mut addrs, mut client) = deploy_uninit();
    let admin = addrs.generate();
    assert_eq!(client.pause(0, admin), Err(AccessControlError::NotInitialized));
}

#[test]
fn test_initialize_self_as_admin_rejected() {
    let mut client = AccessControlContract::new();
    assert!(client.initialize(CONTRACT, CONTRACT).is_err());
}

#[test]
fn test_transfer_admin_to_self_contract_rejected() {
    let (_, admin, mut client) = setup();
    assert!(client.transfer_admin(0, CONTRACT, admin, CONTRACT).is_err());
}

#[test]
fn test_grant_role_before_init_returns_not_initialized() {
    let (mut addrs, mut client) = deploy_uninit();
    let admin = addrs.generate();
    let target = addrs.generate();
    assert_eq!(client.grant_role(0, admin, target, Role::Verifier), Err(AccessControlError::NotInitialized));
}

#[test]
fn test_revoke_role_before_init_returns_not_initialized() {
    let (mut addrs, mut client) = deploy_uninit();
    let admin = addrs.generate();
    let target = addrs.generate();
    assert_eq!(client.revoke_role(0, admin, target), Err(AccessControlError::NotInitialized));
}

#[test]
fn test_transfer_admin_before_init_returns_not_initialized() {
    let (mut addrs, mut client) = deploy_uninit();
    let admin = addrs.generate();
    let new_admin = addrs.generate();
    assert_eq!(client.transfer_admin(0, CONTRACT, admin, new_admin), Err(AccessControlError::NotInitialized));
}

#[test]
fn test_get_role_falls_back_to_admin_when_role_key_missing() {
    let (_, admin, mut client) = setup();
    client.roles.remove(&admin);
    assert_eq!(client.get_role(admin), Role::Admin);
}

#[test]
fn test_get_admin_before_init_returns_not_initialized() {
    let (_, client) = deploy_uninit();
    assert_eq!(client.get_admin(), Err(AccessControlError::NotInitialized));
}

#[test]
fn lib_test_get_admin_returns_correct_address() {
    let (_, admin, client) = setup();
    assert_eq!(client.get_admin(), Ok(admin));
}

#[test]
fn test_get_role_unknown_address_returns_none() {
    let (mut addrs, _, client) = setup();
    let unknown = addrs.generate();
    assert_eq!(client.get_role(unknown), Role::NoRole);
}

#[test]
fn test_get_role_admin_returns_admin() {
    let (_, admin, client) = setup();
    assert_eq!(client.get_role(admin), Role::Admin);
}

#[test]
fn test_is_paused_default_false() {
    let (_, _, client) = setup();
    assert!(!client.is_paused());
}

#[test]
fn test_is_paused_reflects_state_correctly() {
    let (_, admin, mut client) = setup();
    assert!(!client.is_paused());
    client.pause(0, admin).unwrap();
    assert!(client.is_paused());
    client.unpause(0, admin).unwrap();
    assert!(!client.is_paused());
}

#[test]
fn test_revoke_role_then_transfer_admin_to_that_address_succeeds() {
    let (mut addrs, admin, mut client) = setup();
    let user = addrs.generate();
    client.grant_role(0, admin, user, Role::Operator).unwrap();
    client.revoke_role(0, admin, user).unwrap();
    assert_eq!(client.get_role(user), Role::NoRole);
    assert!(client.transfer_admin(0, CONTRACT, admin, user).is_ok());
    assert_eq!(client.get_admin(), Ok(user));
}

#[test]
fn test_pause_does_not_affect_role_state() {
    let (mut addrs, admin, mut client) = setup();
    let verifier = addrs.generate();
    client.grant_role(0, admin, verifier, Role::Verifier).unwrap();
    client.pause(0, admin).unwrap();
    assert_eq!(client.get_role(verifier), Role::Verifier);
    assert_eq!(client.get_role(admin), Role::Admin);
}

#[test]
fn test_grant_and_revoke_do_not_affect_pause_state() {
    let (mut addrs, admin, mut client) = setup();
    let user = addrs.generate();
    client.pause(0, admin).unwrap();
    client.grant_role(0, admin, user, Role::Verifier).unwrap();
    assert!(client.is_paused());
    client.revoke_role(0, admin, user).unwrap();
    assert!(client.is_paused());
}

#[test]
fn test_transfer_admin() {
    let (mut addrs, admin, mut client) = setup();
    let new_admin = addrs.generate();
    client.transfer_admin(0, CONTRACT, admin, new_admin).unwrap();
    assert_eq!(client.get_admin(), Ok(new_admin));
    assert_eq!(client.get_role(new_admin), Role::Admin);
    assert_eq!(client.get_role(admin), Role::NoRole);
}

#[test]
fn test_transfer_admin_self_rejected() {
    let (_, admin, mut client) = setup();
    assert!(client.transfer_admin(0, CONTRACT, admin, admin).is_err());
}

#[test]
fn test_non_admin_cannot_transfer_admin() {
    let (mut addrs, _admin, mut client) = setup();
    let stranger = addrs.generate();
    let new_admin = addrs.generate();
    assert!(client.transfer_admin(0, CONTRACT, stranger, new_admin).is_err());
}

#[test]
fn test_has_role_returns_false_for_unassigned() {
    let (mut addrs, _admin, client) = setup();
    let user = addrs.generate();
    assert!(!client.has_role(user, Role::Verifier));
    assert!(!client.has_role(user, Role::Operator));
}

#[test]
fn test_has_role_returns_true_after_grant() {
    let (mut addrs, admin, mut client) = setup();
    let user = addrs.generate();
    client.grant_role(0, admin, user, Role::Verifier).unwrap();
    assert!(client.has_role(user, Role::Verifier));
    assert!(!client.has_role(user, Role::Operator));
}

#[test]
fn test_initialize_already_initialized_fails() {
    let (_, admin, mut client) = setup();
    assert!(client.initialize(CONTRACT, admin).is_err());
}

#[test]
fn test_interleaved_pause_and_role_operations_remain_independent() {
    let (mut addrs, admin, mut client) = setup();
    let target1 = addrs.generate();
    let target2 = addrs.generate();

    client.grant_role(0, admin, target1, Role::Verifier).unwrap();
    client.grant_role(0, admin, target2, Role::Operator).unwrap();
    assert!(client.has_role(target1, Role::Verifier));
    assert!(client.has_role(target2, Role::Operator));
    assert!(!client.is_paused());

    client.pause(0, admin).unwrap();
    assert!(client.is_paused());
    assert!(client.has_role(target1, Role::Verifier), "Role should survive pause");
    assert!(client.has_role(target2, Role::Operator), "Role should survive pause");

    client.revoke_role(0, admin, target1).unwrap();
    assert!(client.is_paused(), "Pause state should persist after revoke");
    assert!(!client.has_role(target1, Role::Verifier));
    assert!(client.has_role(target2, Role::Operator), "Other role should be unaffected");

    client.unpause(0, admin).unwrap();
    assert!(!client.is_paused());
    assert!(!client.has_role(target1, Role::Verifier), "Revoked role should stay revoked");
    assert!(client.has_role(target2, Role::Operator), "Role should survive unpause");

    client.grant_role(0, admin, target1, Role::Verifier).unwrap();
    assert!(!client.is_paused(), "Pause state should remain unpaused");
    assert!(client.has_role(target1, Role::Verifier), "Re-granted role should be assigned");
    assert!(client.has_role(target2, Role::Operator), "Other role should be unaffected");
}

#[test]
fn test_multisig_grant_role_to_admin_rejected() {
    let (mut addrs, admin, mut client) = setup();
    let (signer1, signer2) = two_signers(&mut addrs, admin, &mut client);
    let prop_id = client.propose_action(0, signer1, AdminAction::GrantRole(admin, 1)).unwrap();
    client.approve_action(0, signer2, prop_id).unwrap();
    assert_eq!(client.execute_action(0, CONTRACT, signer1, prop_id), Err(AccessControlError::Unauthorized));
}

#[test]
fn test_multisig_transfer_admin_to_self_rejected() {
    let (mut addrs, admin, mut client) = setup();
    let (signer1, signer2) = two_signers(&mut addrs, admin, &mut client);
    let prop_id = client.propose_action(0, signer1, AdminAction::TransferAdmin(admin)).unwrap();
    client.approve_action(0, signer2, prop_id).unwrap();
    assert_eq!(client.execute_action(0, CONTRACT, signer1, prop_id), Err(AccessControlError::InvalidAddress));
}

#[test]
fn test_multisig_transfer_admin_to_operator_rejected() {
    let (mut addrs, admin, mut client) = setup();
    let (signer1, signer2) = two_signers(&mut addrs, admin, &mut client);
    let operator = addrs.generate();
    client.grant_role(0, admin, operator, Role::Operator).unwrap();
    assert_eq!(client.get_role(operator), Role::Operator);
    let prop_id = client.propose_action(0, signer1, AdminAction::TransferAdmin(operator)).unwrap();
    client.approve_action(0, signer2, prop_id).unwrap();
    assert_eq!(client.execute_action(0, CONTRACT, signer1, prop_id), Err(AccessControlError::Unauthorized));
}

#[test]
fn test_multisig_grant_role_valid_succeeds() {
    let (mut addrs, admin, mut client) = setup();
    let (signer1, signer2) = two_signers(&mut addrs, admin, &mut client);
    let target = addrs.generate();
    let prop_id = client.propose_action(0, signer1, AdminAction::GrantRole(target, 1)).unwrap();
    client.approve_action(0, signer2, prop_id).unwrap();
    assert!(client.execute_action(0, CONTRACT, signer1, prop_id).is_ok());
    assert_eq!(client.get_role(target), Role::Operator);
}

#[test]
fn test_multisig_transfer_admin_valid_succeeds() {
    let (mut addrs, admin, mut client) = setup();
    let (signer1, signer2) = two_signers(&mut addrs, admin, &mut client);
    let new_admin = addrs.generate();
    let prop_id = client.propose_action(0, signer1, AdminAction::TransferAdmin(new_admin)).unwrap();
    client.approve_action(0, signer2, prop_id).unwrap();
    assert!(client.execute_action(0, CONTRACT, signer1, prop_id).is_ok());
    assert_eq!(client.get_admin(), Ok(new_admin));
}

#[test]
fn test_get_role_members_empty_initially() {
    let (_, _, client) = setup();
    assert_eq!(client.get_role_members(Role::Operator, 0, 50).len(), 0);
}

#[test]
fn test_get_role_members_after_grant() {
    let (mut addrs, admin, mut client) = setup();
    let op1 = addrs.generate();
    let op2 = addrs.generate();
    let verifier = addrs.generate();
    client.grant_role(0, admin, op1, Role::Operator).unwrap();
    client.grant_role(0, admin, op2, Role::Operator).unwrap();
    client.grant_role(0, admin, verifier, Role::Verifier).unwrap();
    assert_eq!(client.get_role_members(Role::Operator, 0, 50).len(), 2);
    assert_eq!(client.get_role_members(Role::Verifier, 0, 50).len(), 1);
}

#[test]
fn test_get_role_members_pagination() {
    let (mut addrs, admin, mut client) = setup();
    for _ in 0..5 {
        let addr = addrs.generate();
        client.grant_role(0, admin, addr, Role::Operator).unwrap();
    }
    assert_eq!(client.get_role_members(Role::Operator, 0, 2).len(), 2);
    assert_eq!(client.get_role_members(Role::Operator, 1, 2).len(), 2);
    assert_eq!(client.get_role_members(Role::Operator, 2, 2).len(), 1);
    assert_eq!(client.get_role_members(Role::Operator, 3, 2).len(), 0);
}

#[test]
fn test_get_role_members_after_revoke() {
    let (mut addrs, admin, mut client) = setup();
    let op1 = addrs.generate();
    let op2 = addrs.generate();
    client.grant_role(0, admin, op1, Role::Operator).unwrap();
    client.grant_role(0, admin, op2, Role::Operator).unwrap();
    assert_eq!(client.get_role_members(Role::Operator, 0, 50).len(), 2);
    client.revoke_role(0, admin, op1).unwrap();
    assert_eq!(client.get_role_members(Role::Operator, 0, 50).len(), 1);
}

#[test]
fn test_get_role_members_grant_revoke_regrant() {
    let (mut addrs, admin, mut client) = setup();
    let addr = addrs.generate();
    client.grant_role(0, admin, addr, Role::Operator).unwrap();
    assert_eq!(client.get_role_members(Role::Operator, 0, 50).len(), 1);
    client.revoke_role(0, admin, addr).unwrap();
    assert_eq!(client.get_role_members(Role::Operator, 0, 50).len(), 0);
    client.grant_role(0, admin, addr, Role::Verifier).unwrap();
    assert_eq!(client.get_role_members(Role::Verifier, 0, 50).len(), 1);
    assert_eq!(client.get_role_members(Role::Operator, 0, 50).len(), 0);
}

#[test]
fn test_get_role_members_multisig_grant() {
    let (mut addrs, admin, mut client) = setup();
    let (signer1, signer2) = two_signers(&mut addrs, admin, &mut client);
    let target = addrs.generate();
    let prop_id = client.propose_action(0, signer1, AdminAction::GrantRole(target, 1)).unwrap();
    client.approve_action(0, signer2, prop_id).unwrap();
    client.execute_action(0, CONTRACT, signer1, prop_id).unwrap();
    assert_eq!(client.get_role_members(Role::Operator, 0, 50).len(), 1);
}

#[test]
fn test_get_role_members_multisig_revoke() {
    let (mut addrs, admin, mut client) = setup();
    let (signer1, signer2) = two_signers(&mut addrs, admin, &mut client);
    let target = addrs.generate();
    let prop_id = client.propose_action(0, signer1, AdminAction::GrantRole(target, 1)).unwrap();
    client.approve_action(0, signer2, prop_id).unwrap();
    client.execute_action(0, CONTRACT, signer1, prop_id).unwrap();
    assert_eq!(client.get_role_members(Role::Operator, 0, 50).len(), 1);
    let prop_id2 = client.propose_action(0, signer1, AdminAction::RevokeRole(target)).unwrap();
    client.approve_action(0, signer2, prop_id2).unwrap();
    client.execute_action(0, CONTRACT, signer1, prop_id2).unwrap();
    assert_eq!(client.get_role_members(Role::Operator, 0, 50).len(), 0);
}

#[test]
fn test_audit_log_grant_role_has_payload() {
    let (mut addrs, admin, mut client) = setup();
    let target = addrs.generate();
    client.grant_role(0, admin, target, Role::Operator).unwrap();
    let entries = client.get_audit_log(0, 50);
    assert!(entries.len() > 0);
    let grant_entry = entries[0];
    assert_eq!(grant_entry.action, AdminActionType::GrantRole);
    assert!(!grant_entry.details.is_empty(), "Payload should be present");
}

#[test]
fn test_audit_log_transfer_admin_has_payload() {
    let (mut addrs, admin, mut client) = setup();
    let new_admin = addrs.generate();
    client.transfer_admin(0, CONTRACT, admin, new_admin).unwrap();
    let entries = client.get_audit_log(0, 50);
    assert!(entries.len() > 0);
    let transfer_entry = entries[0];
    assert_eq!(transfer_entry.action, AdminActionType::TransferAdmin);
    assert!(!transfer_entry.details.is_empty(), "Payload should be present");
}

#[test]
fn test_audit_log_revoke_role_has_payload() {
    let (mut addrs, admin, mut client) = setup();
    let target = addrs.generate();
    client.grant_role(0, admin, target, Role::Verifier).unwrap();
    client.revoke_role(0, admin, target).unwrap();
    let entries = client.get_audit_log(0, 50);
    assert!(entries.len() > 0);
    let revoke_entry = entries[0];
    assert_eq!(revoke_entry.action, AdminActionType::RevokeRole);
    assert!(!revoke_entry.details.is_empty(), "Payload should be present");
}

#[test]
fn test_audit_log_pause_has_payload() {
    let (_, admin, mut client) = setup();
    client.pause(0, admin).unwrap();
    let entries = client.get_audit_log(0, 50);
    assert!(entries.len() > 0);
    let pause_entry = entries[0];
    assert_eq!(pause_entry.action, AdminActionType::Pause);
    assert!(pause_entry.details.is_empty());
}

/// A multisig of two signers and a recovery proposal to two fresh signers.
fn recovery_setup() -> (Addresses, Addr, Addr, AccessControlContract, u64) {
    let (mut addrs, admin, mut client) = setup();
    let (signer1, signer2) = two_signers(&mut addrs, admin, &mut client);
    let new_signers = vec![addrs.generate(), addrs.generate()];
    let prop_id = client.propose_signer_recovery(0, signer1, new_signers, 2).unwrap();
    (addrs, signer1, signer2, client, prop_id)
}

#[test]
fn test_propose_signer_recovery_success() {
    let (_, signer1, _, client, prop_id) = recovery_setup();
    assert!(prop_id > 0);
    let proposal = client.get_recovery_proposal(prop_id).unwrap();
    assert_eq!(proposal.proposer, signer1);
    assert!(!proposal.executed);
    assert_eq!(proposal.objections.len(), 0);
}

#[test]
fn test_object_signer_recovery_success() {
    let (_, _, signer2, mut client, prop_id) = recovery_setup();
    assert!(client.object_signer_recovery(signer2, prop_id).is_ok());
    let proposal = client.get_recovery_proposal(prop_id).unwrap();
    assert_eq!(proposal.objections.len(), 1);
}

#[test]
fn test_execute_signer_recovery_before_timelock_fails() {
    let (_, signer1, _, mut client, prop_id) = recovery_setup();
    assert_eq!(
        client.execute_signer_recovery(0, signer1, prop_id),
        Err(AccessControlError::GovernanceTimelockNotElapsed)
    );
}

#[test]
fn test_execute_signer_recovery_fails_if_objections_exist() {
    let (_, signer1, signer2, mut client, prop_id) = recovery_setup();
    client.object_signer_recovery(signer2, prop_id).unwrap();
    let proposal = client.get_recovery_proposal(prop_id).unwrap();
    assert_eq!(proposal.objections.len(), 1);
    assert_eq!(client.execute_signer_recovery(0, signer1, prop_id), Err(AccessControlError::AlreadyApproved));
}

#[test]
fn test_propose_signer_recovery_invalid_threshold() {
    let (mut addrs, admin, mut client) = setup();
    let (signer1, _) = two_signers(&mut addrs, admin, &mut client);
    let new_signer1 = addrs.generate();
    assert_eq!(
        client.propose_signer_recovery(0, signer1, vec![new_signer1], 2),
        Err(AccessControlError::InvalidThreshold)
    );
    assert_eq!(
        client.propose_signer_recovery(0, signer1, vec![new_signer1], 0),
        Err(AccessControlError::InvalidThreshold)
    );
}

#[test]
fn test_object_recovery_twice_fails() {
    let (_, _, signer2, mut client, prop_id) = recovery_setup();
    assert!(client.object_signer_recovery(signer2, prop_id).is_ok());
    assert_eq!(client.object_signer_recovery(signer2, prop_id), Err(AccessControlError::AlreadyApproved));
}

#[test]
fn test_non_signer_cannot_propose_recovery() {
    let (mut addrs, admin, mut client) = setup();
    two_signers(&mut addrs, admin, &mut client);
    let stranger = addrs.generate();
    let new_signers = vec![addrs.generate(), addrs.generate()];
    assert_eq!(
        client.propose_signer_recovery(0, stranger, new_signers, 2),
        Err(AccessControlError::SignerNotFound)
    );
}

// ── Further cases ───────────────────────────────────────────────────────────

#[test]
fn execute_signer_recovery_after_timelock_installs_new_signers() {
    let (_, signer1, _, mut client, prop_id) = recovery_setup();
    let new_signers = client.get_recovery_proposal(prop_id).unwrap().new_signers.clone();
    let later = kora_protocol::access_control::RECOVERY_TIMELOCK_DELAY;
    assert_eq!(client.execute_signer_recovery(later, signer1, prop_id), Ok(()));
    let cfg = client.get_multisig_config().unwrap();
    assert_eq!(cfg.threshold, 2);
    assert_eq!(cfg.signers, new_signers);
    assert!(client.get_recovery_proposal(prop_id).unwrap().executed);
}

#[test]
fn multisig_action_below_threshold_is_rejected() {
    let (mut addrs, admin, mut client) = setup();
    let (signer1, _) = two_signers(&mut addrs, admin, &mut client);
    let prop_id = client.propose_action(0, signer1, AdminAction::Pause).unwrap();
    assert_eq!(client.execute_action(0, CONTRACT, signer1, prop_id), Err(AccessControlError::ThresholdNotMet));
    assert!(!client.is_paused());
}

#[test]
fn multisig_pause_executes_once() {
    let (mut addrs, admin, mut client) = setup();
    let (signer1, signer2) = two_signers(&mut addrs, admin, &mut client);
    let prop_id = client.propose_action(0, signer1, AdminAction::Pause).unwrap();
    assert_eq!(client.approve_action(0, signer1, prop_id), Err(AccessControlError::AlreadyApproved));
    client.approve_action(0, signer2, prop_id).unwrap();
    client.execute_action(0, CONTRACT, signer1, prop_id).unwrap();
    assert!(client.is_paused());
    assert!(client.get_proposal(prop_id).unwrap().executed);
    assert_eq!(
        client.execute_action(0, CONTRACT, signer1, prop_id),
        Err(AccessControlError::ProposalAlreadyExecuted)
    );
}

#[test]
fn multisig_proposal_expires_after_its_lifetime() {
    let (mut addrs, admin, mut client) = setup();
    let (signer1, signer2) = two_signers(&mut addrs, admin, &mut client);
    let prop_id = client.propose_action(0, signer1, AdminAction::Pause).unwrap();
    let expiry = client.get_proposal(prop_id).unwrap().expires_at;
    assert_eq!(expiry, kora_protocol::access_control::PROPOSAL_TTL_LEDGERS);
    assert_eq!(client.approve_action(expiry + 1, signer2, prop_id), Err(AccessControlError::ProposalExpired));
}

#[test]
fn parameter_change_needs_threshold_and_timelock() {
    let (mut addrs, admin, mut client) = setup();
    let (signer1, signer2) = two_signers(&mut addrs, admin, &mut client);
    assert_eq!(
        client.propose_parameter_change(0, signer1, ParameterKey::FeeBps, 10_001),
        Err(AccessControlError::InvalidParameterValue)
    );
    let id = client.propose_parameter_change(0, signer1, ParameterKey::FeeBps, 250).unwrap();
    let delay = kora_protocol::access_control::GOVERNANCE_TIMELOCK_DELAY;
    assert_eq!(
        client.execute_parameter_change(delay, signer1, id),
        Err(AccessControlError::GovernanceThresholdNotMet)
    );
    client.vote_parameter_change(signer2, id).unwrap();
    assert_eq!(client.vote_parameter_change(signer2, id), Err(AccessControlError::AlreadyVoted));
    assert_eq!(
        client.execute_parameter_change(delay - 1, signer1, id),
        Err(AccessControlError::GovernanceTimelockNotElapsed)
    );
    assert_eq!(client.get_parameter(ParameterKey::FeeBps), None);
    client.execute_parameter_change(delay, signer1, id).unwrap();
    assert_eq!(client.get_parameter(ParameterKey::FeeBps), Some(250));
    assert_eq!(
        client.execute_parameter_change(delay, signer1, id),
        Err(AccessControlError::ParameterProposalAlreadyExecuted)
    );
}

#[test]
fn upgrade_waits_for_the_timelock() {
    let (_, admin, mut client) = setup();
    let hash = [7u8; 32];
    assert_eq!(client.execute_upgrade(0, admin), Err(AccessControlError::NoUpgradeProposed));
    client.propose_upgrade(10, admin, hash).unwrap();
    let delay = kora_protocol::types::UPGRADE_TIMELOCK_DELAY;
    assert_eq!(client.execute_upgrade(10 + delay - 1, admin), Err(AccessControlError::UpgradeTimelockNotElapsed));
    assert_eq!(client.execute_upgrade(10 + delay, admin), Ok(hash));
    assert_eq!(client.execute_upgrade(10 + delay, admin), Err(AccessControlError::NoUpgradeProposed));
}

#[test]
fn audit_log_pages_newest_first_and_numbers_entries() {
    let (_, admin, mut client) = setup();
    for i in 0..3u64 {
        client.pause(i, admin).unwrap();
        client.unpause(i, admin).unwrap();
    }
    let page = client.get_audit_log(0, 4);
    assert_eq!(page.len(), 4);
    assert_eq!(page[0].sequence, 5);
    assert_eq!(page[0].action, AdminActionType::Unpause);
    assert_eq!(page[1].sequence, 4);
    assert_eq!(page[1].action, AdminActionType::Pause);
    let rest = client.get_audit_log(1, 4);
    assert_eq!(rest.len(), 2);
    assert_eq!(rest[1].sequence, 0);
    assert_eq!(client.get_audit_log(0, 0).len(), 1);
}

#[test]
fn audit_log_keeps_only_the_most_recent_entries() {
    let (_, admin, mut client) = setup();
    for i in 0..60u64 {
        client.pause(i, admin).unwrap();
        client.unpause(i, admin).unwrap();
    }
    let mut seen = 0;
    let mut page = 0;
    loop {
        let entries = client.get_audit_log(page, 50);
        if entries.is_empty() {
            break;
        }
        seen += entries.len();
        page += 1;
    }
    assert_eq!(seen, kora_protocol::audit::MAX_AUDIT_LOG_SIZE as usize);
    assert_eq!(client.get_audit_log(0, 1)[0].sequence, 119);
}

#[test]
fn outsiders_are_refused_as_multisig_signers() {
    let (mut addrs, admin, mut client) = setup();
    let (signer1, _) = two_signers(&mut addrs, admin, &mut client);
    let outsider = addrs.generate();
    assert_eq!(client.propose_action(0, outsider, AdminAction::Pause), Err(AccessControlError::NotMultisigSigner));
    assert!(client.get_proposal(0).is_err());
    let prop_id = client.propose_action(0, signer1, AdminAction::Pause).unwrap();
    assert_eq!(client.approve_action(0, outsider, prop_id), Err(AccessControlError::NotMultisigSigner));
    assert_eq!(client.execute_action(0, CONTRACT, outsider, prop_id), Err(AccessControlError::NotMultisigSigner));
    let param_id = client.propose_parameter_change(0, signer1, ParameterKey::FeeBps, 250).unwrap();
    assert_eq!(client.vote_parameter_change(outsider, param_id), Err(AccessControlError::NotMultisigSigner));
}

#[test]
fn a_role_change_moves_the_address_between_registries() {
    let (mut addrs, admin, mut client) = setup();
    let user = addrs.generate();
    client.grant_role(0, admin, user, Role::Operator).unwrap();
    client.grant_role(0, admin, user, Role::Verifier).unwrap();
    assert_eq!(client.get_role(user), Role::Verifier);
    assert_eq!(client.get_role_members(Role::Verifier, 0, 50), vec![user]);
    assert!(client.get_role_members(Role::Operator, 0, 50).is_empty());
    client.revoke_role(0, admin, user).unwrap();
    assert!(client.get_role_members(Role::Verifier, 0, 50).is_empty());
    assert_eq!(client.revoke_role(0, admin, user), Err(AccessControlError::RoleNotAssigned));
}

#[test]
fn proposal_ids_increase_and_executed_proposals_stay_executed() {
    let (mut addrs, admin, mut client) = setup();
    let (signer1, signer2) = two_signers(&mut addrs, admin, &mut client);
    let first = client.propose_action(0, signer1, AdminAction::Pause).unwrap();
    let second = client.propose_action(0, signer2, AdminAction::Unpause).unwrap();
    assert_eq!(second, first + 1);
    client.approve_action(0, signer2, first).unwrap();
    client.execute_action(0, CONTRACT, signer1, first).unwrap();
    assert_eq!(
        client.execute_action(10, CONTRACT, signer2, first),
        Err(AccessControlError::ProposalAlreadyExecuted)
    );
    assert_eq!(client.get_proposal(second).unwrap().id, second);
}
