//! Protocol-wide access control: the admin, the pause switch, roles, an N-of-M
//! multisig for admin actions, governance of protocol parameters, signer
//! recovery, timelocked upgrades and an audit log of every admin action.
//!
//! The contract's storage is the `AccessControlContract` value. Each entry
//! point takes the ledger time and the authenticated caller as arguments; an
//! entry point that returns `Err` leaves the storage as it was.
use vstd::prelude::*;
use std::collections::HashMap;
use crate::types::{
    Addr, CommonError, MultisigConfig, ParameterKey, WasmHash, UPGRADE_TIMELOCK_DELAY, seq_has,
    vec_contains, require_not_self,
};
use crate::audit::{
    AdminActionType, AdminAuditEntry, AuditDetails, AuditLog, AuditLogView, MAX_PAGE_SIZE,
};

verus! {

broadcast use vstd::std_specs::hash::group_hash_axioms;

/// Delay between a parameter proposal and its execution.
pub const GOVERNANCE_TIMELOCK_DELAY: u64 = UPGRADE_TIMELOCK_DELAY;

/// Delay before a signer recovery can be executed (about 30 days of ledgers).
pub const RECOVERY_TIMELOCK_DELAY: u64 = 518_400;

/// Lifetime of a multisig action proposal (about 7 days of ledgers).
pub const PROPOSAL_TTL_LEDGERS: u64 = 120_960;

/// Errors of the access-control contract.
#[derive(Clone, Copy, Debug, PartialEq, Eq, Structural)]
pub enum AccessControlError {
    AlreadyApproved,
    AlreadyInitialized,
    AlreadyPaused,
    AlreadyVoted,
    ArithmeticOverflow,
    GovernanceThresholdNotMet,
    GovernanceTimelockNotElapsed,
    InvalidAddress,
    InvalidParameterValue,
    InvalidThreshold,
    MultisigNotConfigured,
    NoUpgradeProposed,
    NotAdmin,
    NotInitialized,
    NotMultisigSigner,
    NotPaused,
    ParameterProposalAlreadyExecuted,
    ParameterProposalNotFound,
    ProposalAlreadyExecuted,
    ProposalExpired,
    ProposalNotFound,
    Reentrancy,
    RoleNotAssigned,
    SignerNotFound,
    ThresholdNotMet,
    Unauthorized,
    UpgradeTimelockNotElapsed,
}

/// The error that a shared validation error becomes in this contract.
pub open spec fn common_to_access_control(e: CommonError) -> AccessControlError {
    match e {
        CommonError::InvalidAddress => AccessControlError::InvalidAddress,
        CommonError::ArithmeticOverflow => AccessControlError::ArithmeticOverflow,
        CommonError::Reentrancy => AccessControlError::Reentrancy,
        _ => AccessControlError::InvalidParameterValue,
    }
}

impl AccessControlError {
    /// Convert a shared validation error.
    pub fn from(e: CommonError) -> (r: AccessControlError)
        ensures
            r == common_to_access_control(e),
    {
        match e {
            CommonError::InvalidAddress => AccessControlError::InvalidAddress,
            CommonError::ArithmeticOverflow => AccessControlError::ArithmeticOverflow,
            CommonError::Reentrancy => AccessControlError::Reentrancy,
            _ => AccessControlError::InvalidParameterValue,
        }
    }
}

/// A role an address may hold.
#[derive(Clone, Copy, Debug, PartialEq, Eq, Structural)]
pub enum Role {
    Admin,
    Operator,
    Verifier,
    NoRole,
}

/// An admin action that a multisig proposal carries.
#[derive(Clone, Copy, Debug, PartialEq, Eq, Structural)]
pub enum AdminAction {
    Pause,
    Unpause,
    /// Grant a role: 1 is Operator, 2 is Verifier.
    GrantRole(Addr, u32),
    RevokeRole(Addr),
    TransferAdmin(Addr),
}

/// A multisig proposal of an admin action.
#[derive(Debug)]
pub struct Proposal {
    pub id: u64,
    pub action: AdminAction,
    pub proposer: Addr,
    pub approvals: Vec<Addr>,
    pub executed: bool,
    pub created_at: u64,
    pub expires_at: u64,
}

/// A governance proposal to change a protocol parameter.
#[derive(Debug)]
pub struct ParameterProposal {
    pub id: u64,
    pub key: ParameterKey,
    pub new_value: u32,
    pub proposer: Addr,
    pub approvals: Vec<Addr>,
    pub created_at: u64,
    pub executed: bool,
}

/// A proposal to replace the multisig signer set.
#[derive(Debug)]
pub struct RecoveryProposal {
    pub id: u64,
    pub proposer: Addr,
    pub new_signers: Vec<Addr>,
    pub new_threshold: u32,
    pub created_at: u64,
    pub objections: Vec<Addr>,
    pub executed: bool,
}

/// Values of the governed parameters that governance has set.
#[derive(Clone, Copy, Debug, PartialEq, Eq)]
pub struct GovernedParameters {
    pub fee_bps: Option<u32>,
    pub late_penalty_bps: Option<u32>,
    pub max_risk_score: Option<u32>,
}

impl GovernedParameters {
    /// The value set for `key`.
    pub open spec fn value(self, key: ParameterKey) -> Option<u32> {
        match key {
            ParameterKey::FeeBps => self.fee_bps,
            ParameterKey::LatePenaltyBps => self.late_penalty_bps,
            ParameterKey::MaxRiskScore => self.max_risk_score,
        }
    }

    /// These parameters with `key` set to `v`.
    pub open spec fn with_value(self, key: ParameterKey, v: u32) -> GovernedParameters {
        match key {
            ParameterKey::FeeBps => GovernedParameters { fee_bps: Some(v), ..self },
            ParameterKey::LatePenaltyBps => GovernedParameters { late_penalty_bps: Some(v), ..self },
            ParameterKey::MaxRiskScore => GovernedParameters { max_risk_score: Some(v), ..self },
        }
    }

    /// The value set for `key`.
    pub fn get(&self, key: ParameterKey) -> (r: Option<u32>)
        ensures
            r == self.value(key),
    {
        match key {
            ParameterKey::FeeBps => self.fee_bps,
            ParameterKey::LatePenaltyBps => self.late_penalty_bps,
            ParameterKey::MaxRiskScore => self.max_risk_score,
        }
    }

    /// Set the value of `key`.
    pub fn set(&mut self, key: ParameterKey, v: u32)
        ensures
            *final(self) == old(self).with_value(key, v),
    {
        match key {
            ParameterKey::FeeBps => self.fee_bps = Some(v),
            ParameterKey::LatePenaltyBps => self.late_penalty_bps = Some(v),
            ParameterKey::MaxRiskScore => self.max_risk_score = Some(v),
        }
    }
}

/// The storage of the access-control contract.
pub struct AccessControlContract {
    pub admin: Option<Addr>,
    pub paused: bool,
    /// Role of each address that holds one.
    pub roles: HashMap<Addr, Role>,
    /// Registry of addresses granted the Operator role, in order of grant.
    pub operators: Vec<Addr>,
    /// Registry of addresses granted the Verifier role, in order of grant.
    pub verifiers: Vec<Addr>,
    /// Pending upgrade: code hash and time of proposal.
    pub upgrade_proposal: Option<(WasmHash, u64)>,
    pub multisig: Option<MultisigConfig>,
    pub next_proposal_id: u64,
    pub proposals: HashMap<u64, Proposal>,
    pub next_param_proposal_id: u64,
    pub param_proposals: HashMap<u64, ParameterProposal>,
    pub parameters: GovernedParameters,
    pub next_recovery_proposal_id: u64,
    pub recovery_proposals: HashMap<u64, RecoveryProposal>,
    pub audit: AuditLog,
}

/// Mathematical content of the contract's storage.
#[verifier::ext_equal]
pub struct AccessControlView {
    pub admin: Option<Addr>,
    pub paused: bool,
    pub roles: Map<Addr, Role>,
    pub operators: Seq<Addr>,
    pub verifiers: Seq<Addr>,
    pub upgrade_proposal: Option<(WasmHash, u64)>,
    pub multisig: Option<MultisigConfig>,
    pub next_proposal_id: u64,
    pub proposals: Map<u64, Proposal>,
    pub next_param_proposal_id: u64,
    pub param_proposals: Map<u64, ParameterProposal>,
    pub parameters: GovernedParameters,
    pub next_recovery_proposal_id: u64,
    pub recovery_proposals: Map<u64, RecoveryProposal>,
    pub audit: AuditLogView,
}

impl View for AccessControlContract {
    type V = AccessControlView;

    open spec fn view(&self) -> AccessControlView {
        AccessControlView {
            admin: self.admin,
            paused: self.paused,
            roles: self.roles@,
            operators: self.operators@,
            verifiers: self.verifiers@,
            upgrade_proposal: self.upgrade_proposal,
            multisig: self.multisig,
            next_proposal_id: self.next_proposal_id,
            proposals: self.proposals@,
            next_param_proposal_id: self.next_param_proposal_id,
            param_proposals: self.param_proposals@,
            parameters: self.parameters,
            next_recovery_proposal_id: self.next_recovery_proposal_id,
            recovery_proposals: self.recovery_proposals@,
            audit: self.audit@,
        }
    }
}

/// `s` with its element `i` replaced by its last element and the last slot dropped.
pub open spec fn swap_removed(s: Seq<Addr>, i: int) -> Seq<Addr> {
    s.update(i, s.last()).drop_last()
}

/// `s` without `a`, by swapping the last element into its slot; `s` itself if
/// `a` does not occur.
pub open spec fn without_member(s: Seq<Addr>, a: Addr) -> Seq<Addr> {
    if seq_has(s, a) {
        swap_removed(s, choose|i: int| 0 <= i < s.len() && s[i] == a)
    } else {
        s
    }
}

/// `s` with `a` appended unless it already occurs.
pub open spec fn with_member(s: Seq<Addr>, a: Addr) -> Seq<Addr> {
    if seq_has(s, a) {
        s
    } else {
        s.push(a)
    }
}

/// The role a multisig grant proposal's number stands for.
pub open spec fn granted_role(v: u32) -> Option<Role> {
    if v == 1 {
        Some(Role::Operator)
    } else if v == 2 {
        Some(Role::Verifier)
    } else {
        None
    }
}

/// Whether `value` lies in the allowed range of `key`.
pub open spec fn valid_parameter(key: ParameterKey, value: u32) -> bool {
    match key {
        ParameterKey::FeeBps | ParameterKey::LatePenaltyBps => value <= 10_000,
        ParameterKey::MaxRiskScore => value <= 100,
    }
}

/// `page_size` clamped to 1..=50.
pub open spec fn clamp_members_page_size(page_size: u32) -> int {
    if page_size < 1 {
        1
    } else if page_size > MAX_PAGE_SIZE {
        MAX_PAGE_SIZE as int
    } else {
        page_size as int
    }
}

/// Page `page` of `members` with pages of `size` elements.
pub open spec fn members_page(members: Seq<Addr>, page: u32, size: int) -> Seq<Addr> {
    let start = page * size;
    if start >= members.len() {
        Seq::empty()
    } else if start + size >= members.len() {
        members.subrange(start, members.len() as int)
    } else {
        members.subrange(start, start + size)
    }
}

impl AccessControlView {
    /// The audit head is a slot, and no registry lists an address twice.
    pub open spec fn structural(self) -> bool {
        &&& self.audit.wf()
        &&& self.operators.no_duplicates()
        &&& self.verifiers.no_duplicates()
    }

    /// Each registry lists exactly the addresses that hold its role; the
    /// admin holds neither registered role; and before initialization no
    /// address holds a role.
    pub open spec fn roles_exact(self) -> bool {
        &&& forall|a: Addr|
            #![trigger self.stored_role(a)]
            #![trigger seq_has(self.operators, a)]
            seq_has(self.operators, a) <==> self.stored_role(a) == Role::Operator
        &&& forall|a: Addr|
            #![trigger self.stored_role(a)]
            #![trigger seq_has(self.verifiers, a)]
            seq_has(self.verifiers, a) <==> self.stored_role(a) == Role::Verifier
        &&& self.admin matches Some(a) ==> self.stored_role(a) != Role::Operator && self.stored_role(a)
            != Role::Verifier
        &&& self.admin is None ==> self.roles.is_empty()
    }

    /// The invariant of the storage.
    pub open spec fn wf(self) -> bool {
        &&& self.structural()
        &&& self.roles_exact()
    }

    /// The role stored for `a`, `None` if there is none.
    pub open spec fn stored_role(self, a: Addr) -> Role {
        if self.roles.contains_key(a) {
            self.roles[a]
        } else {
            Role::NoRole
        }
    }

    /// The role reported for `a`: the stored one, else `Admin` for the admin.
    pub open spec fn reported_role(self, a: Addr) -> Role {
        if self.roles.contains_key(a) {
            self.roles[a]
        } else if self.admin == Some(a) {
            Role::Admin
        } else {
            Role::NoRole
        }
    }

    /// The registry of a role; only Operator and Verifier keep one.
    pub open spec fn members(self, role: Role) -> Seq<Addr> {
        match role {
            Role::Operator => self.operators,
            Role::Verifier => self.verifiers,
            _ => Seq::empty(),
        }
    }

    /// The outcome of checking that `caller` is the admin.
    pub open spec fn admin_check(self, caller: Addr) -> Result<(), AccessControlError> {
        match self.admin {
            None => Err(AccessControlError::NotInitialized),
            Some(a) => if a != caller {
                Err(AccessControlError::NotAdmin)
            } else {
                Ok(())
            },
        }
    }

    /// The outcome of checking that `caller` is a configured multisig signer.
    pub open spec fn signer_check(self, caller: Addr) -> Result<(), AccessControlError> {
        match self.multisig {
            None => Err(AccessControlError::MultisigNotConfigured),
            Some(cfg) => if seq_has(cfg.signers@, caller) {
                Ok(())
            } else {
                Err(AccessControlError::SignerNotFound)
            },
        }
    }

    /// The outcome of checking that `caller` may act on multisig actions and
    /// votes: as `signer_check`, but a caller outside the signer set is
    /// `NotMultisigSigner`.
    pub open spec fn action_signer_check(self, caller: Addr) -> Result<(), AccessControlError> {
        match self.signer_check(caller) {
            Err(AccessControlError::SignerNotFound) => Err(AccessControlError::NotMultisigSigner),
            other => other,
        }
    }

    /// The outcome of `admin` revoking the role of `target`.
    pub open spec fn revoke_check(self, admin: Addr, target: Addr) -> Result<(), AccessControlError> {
        if self.admin_check(admin) is Err {
            self.admin_check(admin)
        } else if self.stored_role(target) == Role::Admin {
            Err(AccessControlError::Unauthorized)
        } else if self.stored_role(target) == Role::NoRole {
            Err(AccessControlError::RoleNotAssigned)
        } else {
            Ok(())
        }
    }

    /// The outcome of `admin` pausing the protocol.
    pub open spec fn pause_check(self, admin: Addr) -> Result<(), AccessControlError> {
        if self.admin_check(admin) is Err {
            self.admin_check(admin)
        } else if self.paused {
            Err(AccessControlError::AlreadyPaused)
        } else {
            Ok(())
        }
    }

    /// The outcome of `admin` unpausing the protocol.
    pub open spec fn unpause_check(self, admin: Addr) -> Result<(), AccessControlError> {
        if self.admin_check(admin) is Err {
            self.admin_check(admin)
        } else if !self.paused {
            Err(AccessControlError::NotPaused)
        } else {
            Ok(())
        }
    }

    /// The outcome of `admin` granting `role` to `target`.
    pub open spec fn grant_check(self, admin: Addr, target: Addr, role: Role) -> Result<(), AccessControlError> {
        if self.admin_check(admin) is Err {
            self.admin_check(admin)
        } else if role == Role::Admin || role == Role::NoRole || target == admin {
            Err(AccessControlError::Unauthorized)
        } else {
            Ok(())
        }
    }

    /// The outcome of `proposer` proposing an admin action: the new
    /// proposal's id.
    pub open spec fn propose_outcome(self, proposer: Addr) -> Result<u64, AccessControlError> {
        if self.action_signer_check(proposer) is Err {
            Err(self.action_signer_check(proposer)->Err_0)
        } else if self.next_proposal_id == u64::MAX {
            Err(AccessControlError::ArithmeticOverflow)
        } else {
            Ok(self.next_proposal_id)
        }
    }

    /// The outcome of `objector` objecting to recovery proposal `id`.
    pub open spec fn objection_check(self, objector: Addr, id: u64) -> Result<(), AccessControlError> {
        if self.signer_check(objector) is Err {
            self.signer_check(objector)
        } else if !self.recovery_proposals.contains_key(id) {
            Err(AccessControlError::ProposalNotFound)
        } else if self.recovery_proposals[id].executed {
            Err(AccessControlError::ProposalAlreadyExecuted)
        } else if seq_has(self.recovery_proposals[id].objections@, objector) {
            Err(AccessControlError::AlreadyApproved)
        } else {
            Ok(())
        }
    }

    /// The outcome of `executor` executing recovery proposal `id` at `now`:
    /// an objection blocks it whether or not its timelock has elapsed.
    pub open spec fn recovery_check(self, executor: Addr, id: u64, now: u64) -> Result<(), AccessControlError> {
        if self.signer_check(executor) is Err {
            self.signer_check(executor)
        } else if !self.recovery_proposals.contains_key(id) {
            Err(AccessControlError::ProposalNotFound)
        } else if self.recovery_proposals[id].executed {
            Err(AccessControlError::ProposalAlreadyExecuted)
        } else if self.recovery_proposals[id].objections@.len() > 0 {
            Err(AccessControlError::AlreadyApproved)
        } else if now < self.recovery_proposals[id].created_at + RECOVERY_TIMELOCK_DELAY {
            Err(AccessControlError::GovernanceTimelockNotElapsed)
        } else {
            Ok(())
        }
    }

    /// The threshold of the configured multisig.
    pub open spec fn threshold(self) -> u32 {
        self.multisig->Some_0.threshold
    }

    /// The outcome of validating `new_admin` as the successor of `current`.
    pub open spec fn transfer_target_check(
        self,
        contract: Addr,
        current: Addr,
        new_admin: Addr,
    ) -> Result<(), AccessControlError> {
        if current == new_admin {
            Err(AccessControlError::InvalidAddress)
        } else if new_admin == contract {
            Err(AccessControlError::InvalidAddress)
        } else if self.stored_role(new_admin) != Role::NoRole && self.stored_role(new_admin)
            != Role::Admin {
            Err(AccessControlError::Unauthorized)
        } else {
            Ok(())
        }
    }

    /// This storage with an action recorded in the audit log.
    pub open spec fn logged(
        self,
        now: u64,
        actor: Addr,
        action: AdminActionType,
        details: AuditDetails,
    ) -> AccessControlView {
        AccessControlView { audit: self.audit.appended(now, actor, action, details), ..self }
    }

    /// This storage with `target` holding `role` (Operator or Verifier),
    /// listed in its registry, and taken out of the registry of the other of
    /// the two roles where it held that one.
    pub open spec fn granted(self, target: Addr, role: Role) -> AccessControlView {
        let prev = self.stored_role(target);
        let s = AccessControlView { roles: self.roles.insert(target, role), ..self };
        if role == Role::Operator {
            AccessControlView {
                operators: with_member(self.operators, target),
                verifiers: if prev == Role::Verifier {
                    without_member(self.verifiers, target)
                } else {
                    self.verifiers
                },
                ..s
            }
        } else {
            AccessControlView {
                verifiers: with_member(self.verifiers, target),
                operators: if prev == Role::Operator {
                    without_member(self.operators, target)
                } else {
                    self.operators
                },
                ..s
            }
        }
    }

    /// This storage with the stored role of `target` removed and `target`
    /// taken out of the registry of the role it held.
    pub open spec fn revoked(self, target: Addr) -> AccessControlView {
        let role = self.stored_role(target);
        let s = AccessControlView { roles: self.roles.remove(target), ..self };
        if role == Role::Operator {
            AccessControlView { operators: without_member(self.operators, target), ..s }
        } else if role == Role::Verifier {
            AccessControlView { verifiers: without_member(self.verifiers, target), ..s }
        } else {
            s
        }
    }
}

/// The proposal `new` is `old` with `a` appended to its approvals.
pub open spec fn approval_added(old: Proposal, new: Proposal, a: Addr) -> bool {
    &&& new.id == old.id
    &&& new.action == old.action
    &&& new.proposer == old.proposer
    &&& new.approvals@ == old.approvals@.push(a)
    &&& new.executed == old.executed
    &&& new.created_at == old.created_at
    &&& new.expires_at == old.expires_at
}

/// The proposal `new` is `old` marked executed.
pub open spec fn proposal_executed(old: Proposal, new: Proposal) -> bool {
    &&& new.id == old.id
    &&& new.action == old.action
    &&& new.proposer == old.proposer
    &&& new.approvals@ == old.approvals@
    &&& new.executed
    &&& new.created_at == old.created_at
    &&& new.expires_at == old.expires_at
}

/// The parameter proposal `new` is `old` with `a` appended to its approvals.
pub open spec fn vote_added(old: ParameterProposal, new: ParameterProposal, a: Addr) -> bool {
    &&& new.id == old.id
    &&& new.key == old.key
    &&& new.new_value == old.new_value
    &&& new.proposer == old.proposer
    &&& new.approvals@ == old.approvals@.push(a)
    &&& new.created_at == old.created_at
    &&& new.executed == old.executed
}

/// The parameter proposal `new` is `old` marked executed.
pub open spec fn parameter_executed(old: ParameterProposal, new: ParameterProposal) -> bool {
    &&& new.id == old.id
    &&& new.key == old.key
    &&& new.new_value == old.new_value
    &&& new.proposer == old.proposer
    &&& new.approvals@ == old.approvals@
    &&& new.created_at == old.created_at
    &&& new.executed
}

/// The recovery proposal `new` is `old` with `a` appended to its objections.
pub open spec fn objection_added(old: RecoveryProposal, new: RecoveryProposal, a: Addr) -> bool {
    &&& new.id == old.id
    &&& new.proposer == old.proposer
    &&& new.new_signers@ == old.new_signers@
    &&& new.new_threshold == old.new_threshold
    &&& new.created_at == old.created_at
    &&& new.objections@ == old.objections@.push(a)
    &&& new.executed == old.executed
}

/// The recovery proposal `new` is `old` marked executed.
pub open spec fn recovery_executed(old: RecoveryProposal, new: RecoveryProposal) -> bool {
    &&& new.id == old.id
    &&& new.proposer == old.proposer
    &&& new.new_signers@ == old.new_signers@
    &&& new.new_threshold == old.new_threshold
    &&& new.created_at == old.created_at
    &&& new.objections@ == old.objections@
    &&& new.executed
}


/// In a sequence without duplicates, an element occurs at one index only.
pub proof fn lemma_unique_index(s: Seq<Addr>, i: int, j: int)
    requires
        s.no_duplicates(),
        0 <= i < s.len(),
        0 <= j < s.len(),
        s[i] == s[j],
    ensures
        i == j,
{
}

/// Swap-removing keeps a sequence free of duplicates.
pub proof fn lemma_swap_removed_no_duplicates(s: Seq<Addr>, i: int)
    requires
        s.no_duplicates(),
        0 <= i < s.len(),
    ensures
        swap_removed(s, i).no_duplicates(),
{
    let t = swap_removed(s, i);
    assert forall|k: int, l: int| 0 <= k < t.len() && 0 <= l < t.len() && k != l implies t[k]
        != t[l] by {
        let last = s.len() - 1;
        let sk = if k == i { last } else { k };
        let sl = if l == i { last } else { l };
        assert(t[k] == s[sk]);
        assert(t[l] == s[sl]);
    }
}

/// Appending an absent element keeps a sequence free of duplicates.
pub proof fn lemma_push_no_duplicates(s: Seq<Addr>, a: Addr)
    requires
        s.no_duplicates(),
        !seq_has(s, a),
    ensures
        s.push(a).no_duplicates(),
{
    let t = s.push(a);
    assert forall|k: int, l: int| 0 <= k < t.len() && 0 <= l < t.len() && k != l implies t[k]
        != t[l] by {
        if k < s.len() && l < s.len() {
            assert(t[k] == s[k] && t[l] == s[l]);
        } else if k < s.len() {
            assert(t[k] == s[k]);
        } else {
            assert(t[l] == s[l]);
        }
    }
}

/// Adding `t` leaves every other address listed exactly where it was.
pub proof fn lemma_with_member_other(s: Seq<Addr>, t: Addr, a: Addr)
    requires
        a != t,
    ensures
        seq_has(with_member(s, t), a) == seq_has(s, a),
{
    if !seq_has(s, t) {
        let u = s.push(t);
        if seq_has(s, a) {
            let i = choose|i: int| 0 <= i < s.len() && s[i] == a;
            assert(u[i] == a);
        }
        if seq_has(u, a) {
            let k = choose|k: int| 0 <= k < u.len() && u[k] == a;
            assert(k < s.len());
            assert(s[k] == a);
        }
    }
}

/// Swap-removing an occurrence of `t` leaves every other address listed
/// exactly where it was.
pub proof fn lemma_swap_removed_other(s: Seq<Addr>, i: int, t: Addr, a: Addr)
    requires
        0 <= i < s.len(),
        s[i] == t,
        a != t,
    ensures
        seq_has(swap_removed(s, i), a) == seq_has(s, a),
{
    let u = swap_removed(s, i);
    let last = s.len() - 1;
    assert(u.len() == last);
    if seq_has(s, a) {
        let k = choose|k: int| 0 <= k < s.len() && s[k] == a;
        assert(k != i);
        if k == last {
            assert(u[i] == a);
        } else {
            assert(u[k] == a);
        }
        assert(seq_has(u, a));
    }
    if seq_has(u, a) {
        let k = choose|k: int| 0 <= k < u.len() && u[k] == a;
        if k == i {
            assert(s[last] == a);
        } else {
            assert(s[k] == a);
        }
        assert(seq_has(s, a));
    }
}

/// Taking `t` out leaves every other address listed exactly where it was.
pub proof fn lemma_without_member_other(s: Seq<Addr>, t: Addr, a: Addr)
    requires
        a != t,
    ensures
        seq_has(without_member(s, t), a) == seq_has(s, a),
{
    assert forall|i: int| 0 <= i < s.len() && s[i] == t implies #[trigger] seq_has(swap_removed(s, i), a)
        == seq_has(s, a) by {
        lemma_swap_removed_other(s, i, t, a);
    }
}

/// Taking an address out of a registry without duplicates keeps it so.
pub proof fn lemma_without_member_no_duplicates(s: Seq<Addr>, t: Addr)
    requires
        s.no_duplicates(),
    ensures
        without_member(s, t).no_duplicates(),
{
    if seq_has(s, t) {
        let i = choose|i: int| 0 <= i < s.len() && s[i] == t;
        lemma_swap_removed_no_duplicates(s, i);
    }
}

/// Adding an address to a registry without duplicates keeps it so.
pub proof fn lemma_with_member_no_duplicates(s: Seq<Addr>, t: Addr)
    requires
        s.no_duplicates(),
    ensures
        with_member(s, t).no_duplicates(),
{
    if !seq_has(s, t) {
        lemma_push_no_duplicates(s, t);
    }
}

/// A grant to an address other than the admin keeps the invariant.
pub proof fn lemma_granted_exact(s: AccessControlView, target: Addr, role: Role)
    requires
        s.wf(),
        role == Role::Operator || role == Role::Verifier,
        s.admin is Some,
        s.admin != Some(target),
    ensures
        s.granted(target, role).wf(),
{
    let g = s.granted(target, role);
    lemma_with_member_no_duplicates(s.operators, target);
    lemma_with_member_no_duplicates(s.verifiers, target);
    lemma_without_member_no_duplicates(s.operators, target);
    lemma_without_member_no_duplicates(s.verifiers, target);
    lemma_with_member_present(s.operators, target);
    lemma_with_member_present(s.verifiers, target);
    lemma_without_member_absent(s.operators, target);
    lemma_without_member_absent(s.verifiers, target);
    assert(!seq_has(s.operators, target) || s.stored_role(target) == Role::Operator);
    assert(!seq_has(s.verifiers, target) || s.stored_role(target) == Role::Verifier);
    assert forall|a: Addr|
        #![trigger g.stored_role(a)]
        (seq_has(g.operators, a) <==> g.stored_role(a) == Role::Operator) && (seq_has(g.verifiers, a)
            <==> g.stored_role(a) == Role::Verifier) by {
        if a != target {
            lemma_with_member_other(s.operators, target, a);
            lemma_with_member_other(s.verifiers, target, a);
            lemma_without_member_other(s.operators, target, a);
            lemma_without_member_other(s.verifiers, target, a);
            assert(g.stored_role(a) == s.stored_role(a));
        }
    }
    assert forall|a: Addr| #![trigger seq_has(g.operators, a)]
        seq_has(g.operators, a) <==> g.stored_role(a) == Role::Operator by {
        if a != target {
            lemma_with_member_other(s.operators, target, a);
            lemma_without_member_other(s.operators, target, a);
            assert(g.stored_role(a) == s.stored_role(a));
        }
    }
    assert forall|a: Addr| #![trigger seq_has(g.verifiers, a)]
        seq_has(g.verifiers, a) <==> g.stored_role(a) == Role::Verifier by {
        if a != target {
            lemma_with_member_other(s.verifiers, target, a);
            lemma_without_member_other(s.verifiers, target, a);
            assert(g.stored_role(a) == s.stored_role(a));
        }
    }
    let adm = s.admin->Some_0;
    assert(g.stored_role(adm) == s.stored_role(adm));
}

/// A revoke keeps the invariant.
pub proof fn lemma_revoked_exact(s: AccessControlView, target: Addr)
    requires
        s.wf(),
        s.admin is Some,
    ensures
        s.revoked(target).wf(),
{
    let g = s.revoked(target);
    lemma_without_member_no_duplicates(s.operators, target);
    lemma_without_member_no_duplicates(s.verifiers, target);
    lemma_without_member_absent(s.operators, target);
    lemma_without_member_absent(s.verifiers, target);
    assert(!seq_has(s.operators, target) || s.stored_role(target) == Role::Operator);
    assert(!seq_has(s.verifiers, target) || s.stored_role(target) == Role::Verifier);
    assert forall|a: Addr| #![trigger g.stored_role(a)]
        (seq_has(g.operators, a) <==> g.stored_role(a) == Role::Operator) && (seq_has(g.verifiers, a)
            <==> g.stored_role(a) == Role::Verifier) by {
        if a != target {
            lemma_without_member_other(s.operators, target, a);
            lemma_without_member_other(s.verifiers, target, a);
            assert(g.stored_role(a) == s.stored_role(a));
        }
    }
    assert forall|a: Addr| #![trigger seq_has(g.operators, a)]
        seq_has(g.operators, a) <==> g.stored_role(a) == Role::Operator by {
        if a != target {
            lemma_without_member_other(s.operators, target, a);
            assert(g.stored_role(a) == s.stored_role(a));
        }
    }
    assert forall|a: Addr| #![trigger seq_has(g.verifiers, a)]
        seq_has(g.verifiers, a) <==> g.stored_role(a) == Role::Verifier by {
        if a != target {
            lemma_without_member_other(s.verifiers, target, a);
            assert(g.stored_role(a) == s.stored_role(a));
        }
    }
    let adm = s.admin->Some_0;
    if adm != target {
        assert(g.stored_role(adm) == s.stored_role(adm));
    }
}

/// Handing the admin to a successor that holds no registered role keeps
/// the invariant, whether or not the former admin's role entry is dropped.
pub proof fn lemma_transfer_exact(s: AccessControlView, current: Addr, new_admin: Addr, drop_current: bool)
    requires
        s.wf(),
        s.admin == Some(current),
        current != new_admin,
        s.stored_role(new_admin) == Role::NoRole || s.stored_role(new_admin) == Role::Admin,
    ensures
        (AccessControlView {
            admin: Some(new_admin),
            roles: if drop_current {
                s.roles.insert(new_admin, Role::Admin).remove(current)
            } else {
                s.roles.insert(new_admin, Role::Admin)
            },
            ..s
        }).wf(),
{
    let g = AccessControlView {
        admin: Some(new_admin),
        roles: if drop_current {
            s.roles.insert(new_admin, Role::Admin).remove(current)
        } else {
            s.roles.insert(new_admin, Role::Admin)
        },
        ..s
    };
    assert(!seq_has(s.operators, new_admin) && !seq_has(s.verifiers, new_admin));
    assert(!seq_has(s.operators, current) && !seq_has(s.verifiers, current));
    assert forall|a: Addr| #![trigger g.stored_role(a)]
        (seq_has(g.operators, a) <==> g.stored_role(a) == Role::Operator) && (seq_has(g.verifiers, a)
            <==> g.stored_role(a) == Role::Verifier) by {
        if a != new_admin && a != current {
            assert(g.stored_role(a) == s.stored_role(a));
        } else if a == current && !drop_current {
            assert(g.stored_role(a) == s.stored_role(a));
        }
    }
    assert forall|a: Addr| #![trigger seq_has(g.operators, a)]
        seq_has(g.operators, a) <==> g.stored_role(a) == Role::Operator by {
        assert(g.stored_role(a) == Role::Operator <==> seq_has(g.operators, a));
    }
    assert forall|a: Addr| #![trigger seq_has(g.verifiers, a)]
        seq_has(g.verifiers, a) <==> g.stored_role(a) == Role::Verifier by {
        assert(g.stored_role(a) == Role::Verifier <==> seq_has(g.verifiers, a));
    }
}

/// Index of the first occurrence of `a` in `v`, if any.
fn find_index(v: &Vec<Addr>, a: Addr) -> (r: Option<usize>)
    ensures
        match r {
            Some(i) => i < v.len() && v@[i as int] == a,
            None => !seq_has(v@, a),
        },
{
    let mut i: usize = 0;
    while i < v.len()
        invariant
            i <= v.len(),
            forall|j: int| 0 <= j < i ==> v@[j] != a,
        decreases v.len() - i,
    {
        if v[i] == a {
            return Some(i);
        }
        i = i + 1;
    }
    None
}

/// Remove `a` from a registry without duplicates by swapping the last element into its slot.
fn remove_member(v: &mut Vec<Addr>, a: Addr)
    requires
        old(v)@.no_duplicates(),
    ensures
        final(v)@ == without_member(old(v)@, a),
        final(v)@.no_duplicates(),
{
    match find_index(v, a) {
        Some(i) => {
            proof {
                let j = choose|j: int| 0 <= j < old(v)@.len() && old(v)@[j] == a;
                lemma_unique_index(old(v)@, i as int, j);
                lemma_swap_removed_no_duplicates(old(v)@, i as int);
            }
            v.swap_remove(i);
        },
        None => {},
    }
}

/// Add `a` to a registry without duplicates unless already present.
fn add_member(v: &mut Vec<Addr>, a: Addr)
    requires
        old(v)@.no_duplicates(),
    ensures
        final(v)@ == with_member(old(v)@, a),
        final(v)@.no_duplicates(),
{
    if !vec_contains(v, a) {
        proof {
            lemma_push_no_duplicates(old(v)@, a);
        }
        v.push(a);
    }
}

/// Whether `a` occurs among the approvals.
fn require_signer(config: &MultisigConfig, caller: Addr) -> (r: Result<(), AccessControlError>)
    ensures
        r is Ok <==> seq_has(config.signers@, caller),
        r is Err ==> r == Err::<(), AccessControlError>(AccessControlError::SignerNotFound),
{
    if vec_contains(&config.signers, caller) {
        Ok(())
    } else {
        Err(AccessControlError::SignerNotFound)
    }
}

/// Validate a proposed parameter value against its allowed range.
fn require_valid_parameter(key: ParameterKey, value: u32) -> (r: Result<(), AccessControlError>)
    ensures
        r is Ok <==> valid_parameter(key, value),
        r is Err ==> r == Err::<(), AccessControlError>(AccessControlError::InvalidParameterValue),
{
    let ok = match key {
        ParameterKey::FeeBps | ParameterKey::LatePenaltyBps => value <= 10_000,
        ParameterKey::MaxRiskScore => value <= 100,
    };
    if ok {
        Ok(())
    } else {
        Err(AccessControlError::InvalidParameterValue)
    }
}

/// Reject granting a role to the admin itself.
fn validate_grant_role_target(target: Addr, admin: Addr) -> (r: Result<(), AccessControlError>)
    ensures
        r is Ok <==> target != admin,
        r is Err ==> r == Err::<(), AccessControlError>(AccessControlError::Unauthorized),
{
    if target == admin {
        return Err(AccessControlError::Unauthorized);
    }
    Ok(())
}

impl AccessControlContract {
    /// Storage of a freshly deployed, uninitialized contract.
    pub fn new() -> (r: AccessControlContract)
        ensures
            r@.admin is None,
            !r@.paused,
            r@.roles == Map::<Addr, Role>::empty(),
            r@.operators == Seq::<Addr>::empty(),
            r@.verifiers == Seq::<Addr>::empty(),
            r@.upgrade_proposal is None,
            r@.multisig is None,
            r@.next_proposal_id == 1,
            r@.proposals == Map::<u64, Proposal>::empty(),
            r@.next_param_proposal_id == 1,
            r@.param_proposals == Map::<u64, ParameterProposal>::empty(),
            r@.parameters == (GovernedParameters {
                fee_bps: None,
                late_penalty_bps: None,
                max_risk_score: None,
            }),
            r@.next_recovery_proposal_id == 1,
            r@.recovery_proposals == Map::<u64, RecoveryProposal>::empty(),
            r@.audit.head == 0,
            r@.audit.total == 0,
            r@.audit.entries == Map::<u64, AdminAuditEntry>::empty(),
            r@.wf(),
    {
        AccessControlContract {
            admin: None,
            paused: false,
            roles: HashMap::new(),
            operators: Vec::new(),
            verifiers: Vec::new(),
            upgrade_proposal: None,
            multisig: None,
            next_proposal_id: 1,
            proposals: HashMap::new(),
            next_param_proposal_id: 1,
            param_proposals: HashMap::new(),
            parameters: GovernedParameters { fee_bps: None, late_penalty_bps: None, max_risk_score: None },
            next_recovery_proposal_id: 1,
            recovery_proposals: HashMap::new(),
            audit: AuditLog::new(),
        }
    }

    fn require_admin(&self, caller: Addr) -> (r: Result<(), AccessControlError>)
        ensures
            r == self@.admin_check(caller),
    {
        match self.admin {
            None => Err(AccessControlError::NotInitialized),
            Some(a) => if a != caller {
                Err(AccessControlError::NotAdmin)
            } else {
                Ok(())
            },
        }
    }

    fn load_multisig_config(&self) -> (r: Result<&MultisigConfig, AccessControlError>)
        ensures
            match r {
                Ok(cfg) => self@.multisig == Some(*cfg),
                Err(e) => self@.multisig is None && e == AccessControlError::MultisigNotConfigured,
            },
    {
        match &self.multisig {
            Some(cfg) => Ok(cfg),
            None => Err(AccessControlError::MultisigNotConfigured),
        }
    }

    /// Check that `caller` is a configured signer; the threshold on success.
    fn require_multisig_signer(&self, caller: Addr) -> (r: Result<u32, AccessControlError>)
        ensures
            match r {
                Ok(t) => self@.signer_check(caller) is Ok && t == self@.threshold(),
                Err(e) => self@.signer_check(caller) == Err::<(), AccessControlError>(e),
            },
    {
        let cfg = self.load_multisig_config()?;
        require_signer(cfg, caller)?;
        Ok(cfg.threshold)
    }

    /// Check that `caller` may act on multisig actions and votes; the
    /// threshold on success.
    fn require_action_signer(&self, caller: Addr) -> (r: Result<u32, AccessControlError>)
        ensures
            match r {
                Ok(t) => self@.action_signer_check(caller) is Ok && t == self@.threshold(),
                Err(e) => self@.action_signer_check(caller) == Err::<(), AccessControlError>(e),
            },
    {
        match self.require_multisig_signer(caller) {
            Ok(t) => Ok(t),
            Err(AccessControlError::SignerNotFound) => Err(AccessControlError::NotMultisigSigner),
            Err(e) => Err(e),
        }
    }

    /// The stored role of `a`.
    fn stored_role(&self, a: Addr) -> (r: Role)
        ensures
            r == self@.stored_role(a),
    {
        match self.roles.get(&a) {
            Some(role) => *role,
            None => Role::NoRole,
        }
    }

    /// Reject a successor admin that is the current admin, the contract
    /// itself, or already holds Operator or Verifier.
    fn validate_transfer_admin_target(&self, contract: Addr, new_admin: Addr, current_admin: Addr) -> (r:
        Result<(), AccessControlError>)
        ensures
            r == self@.transfer_target_check(contract, current_admin, new_admin),
    {
        if current_admin == new_admin {
            return Err(AccessControlError::InvalidAddress);
        }
        match require_not_self(contract, new_admin) {
            Ok(()) => {},
            Err(e) => {
                return Err(AccessControlError::from(e));
            },
        }
        let existing = self.stored_role(new_admin);
        if existing != Role::NoRole && existing != Role::Admin {
            return Err(AccessControlError::Unauthorized);
        }
        Ok(())
    }

    /// Add `a` to the registry of `role` (Operator or Verifier).
    fn add_to_role_members(&mut self, role: Role, a: Addr)
        requires
            old(self)@.structural(),
            role == Role::Operator || role == Role::Verifier,
        ensures
            final(self)@ == (if role == Role::Operator {
                AccessControlView { operators: with_member(old(self)@.operators, a), ..old(self)@ }
            } else {
                AccessControlView { verifiers: with_member(old(self)@.verifiers, a), ..old(self)@ }
            }),
            final(self)@.structural(),
    {
        if role == Role::Operator {
            add_member(&mut self.operators, a);
        } else {
            add_member(&mut self.verifiers, a);
        }
    }

    /// Take `a` out of the registry of `role`; only Operator and Verifier keep one.
    fn remove_from_role_members(&mut self, role: Role, a: Addr)
        requires
            old(self)@.structural(),
        ensures
            final(self)@ == (if role == Role::Operator {
                AccessControlView { operators: without_member(old(self)@.operators, a), ..old(self)@ }
            } else if role == Role::Verifier {
                AccessControlView { verifiers: without_member(old(self)@.verifiers, a), ..old(self)@ }
            } else {
                old(self)@
            }),
            final(self)@.structural(),
    {
        if role == Role::Operator {
            remove_member(&mut self.operators, a);
        } else if role == Role::Verifier {
            remove_member(&mut self.verifiers, a);
        }
    }

    /// Record an action in the audit log.
    fn append_audit_entry(&mut self, now: u64, actor: Addr, action: AdminActionType, details: AuditDetails)
        requires
            old(self)@.wf(),
            old(self)@.audit.has_room(),
        ensures
            final(self)@ == old(self)@.logged(now, actor, action, details),
            final(self)@.wf(),
    {
        self.audit.append(now, actor, action, details);
    }

    /// Store `role` for `target` and list `target` in the registry of `role`.
    fn assign_role(&mut self, target: Addr, role: Role)
        requires
            old(self)@.wf(),
            role == Role::Operator || role == Role::Verifier,
            old(self)@.admin is Some,
            old(self)@.admin != Some(target),
        ensures
            final(self)@ == old(self)@.granted(target, role),
            final(self)@.wf(),
    {
        proof {
            lemma_granted_exact(old(self)@, target, role);
        }
        let prev = self.stored_role(target);
        if prev != role {
            self.remove_from_role_members(prev, target);
        }
        self.roles.insert(target, role);
        self.add_to_role_members(role, target);
    }

    /// Remove the stored role of `target` and take it out of that role's registry.
    fn unassign_role(&mut self, target: Addr)
        requires
            old(self)@.wf(),
            old(self)@.admin is Some,
        ensures
            final(self)@ == old(self)@.revoked(target),
            final(self)@.wf(),
    {
        proof {
            lemma_revoked_exact(old(self)@, target);
        }
        let current = self.stored_role(target);
        self.roles.remove(&target);
        self.remove_from_role_members(current, target);
    }
}


impl AccessControlContract {
    /// One-time initialization: `admin` becomes the admin and holds the Admin
    /// role, and the protocol starts unpaused. `contract` is this contract's
    /// own address, which cannot be the admin.
    pub fn initialize(&mut self, contract: Addr, admin: Addr) -> (r: Result<(), AccessControlError>)
        requires
            old(self)@.wf(),
        ensures
            final(self)@.wf(),
            r == (if (old(self)@.admin is Some) {
                Err(AccessControlError::AlreadyInitialized)
            } else if admin == contract {
                Err(AccessControlError::InvalidAddress)
            } else {
                Ok(())
            }),
            r is Err ==> final(self)@ == old(self)@,
            r is Ok ==> final(self)@ == (AccessControlView {
                admin: Some(admin),
                paused: false,
                roles: old(self)@.roles.insert(admin, Role::Admin),
                ..old(self)@
            }),
    {
        if self.admin.is_some() {
            return Err(AccessControlError::AlreadyInitialized);
        }
        match require_not_self(contract, admin) {
            Ok(()) => {},
            Err(e) => {
                return Err(AccessControlError::from(e));
            },
        }
        self.admin = Some(admin);
        self.paused = false;
        self.roles.insert(admin, Role::Admin);
        proof {
            let v = self@;
            assert forall|a: Addr| !seq_has(old(self)@.operators, a) && !seq_has(old(self)@.verifiers, a) by {
                assert(old(self)@.stored_role(a) == Role::NoRole);
            }
            assert forall|a: Addr| #![trigger v.stored_role(a)] !seq_has(v.operators, a) && v.stored_role(a)
                != Role::Operator && !seq_has(v.verifiers, a) && v.stored_role(a) != Role::Verifier by {
                assert(old(self)@.stored_role(a) == Role::NoRole);
            }
        }
        Ok(())
    }

    /// Pause the protocol. Admin only; fails if already paused.
    pub fn pause(&mut self, now: u64, admin: Addr) -> (r: Result<(), AccessControlError>)
        requires
            old(self)@.wf(),
            old(self)@.audit.has_room(),
        ensures
            final(self)@.wf(),
            r == old(self)@.pause_check(admin),
            r is Err ==> final(self)@ == old(self)@,
            r is Ok ==> final(self)@ == (AccessControlView { paused: true, ..old(self)@ }).logged(
                now,
                admin,
                AdminActionType::Pause,
                AuditDetails::Empty,
            ),
    {
        self.require_admin(admin)?;
        if self.paused {
            return Err(AccessControlError::AlreadyPaused);
        }
        self.paused = true;
        self.append_audit_entry(now, admin, AdminActionType::Pause, AuditDetails::Empty);
        Ok(())
    }

    /// Unpause the protocol. Admin only; fails if not paused.
    pub fn unpause(&mut self, now: u64, admin: Addr) -> (r: Result<(), AccessControlError>)
        requires
            old(self)@.wf(),
            old(self)@.audit.has_room(),
        ensures
            final(self)@.wf(),
            r == old(self)@.unpause_check(admin),
            r is Err ==> final(self)@ == old(self)@,
            r is Ok ==> final(self)@ == (AccessControlView { paused: false, ..old(self)@ }).logged(
                now,
                admin,
                AdminActionType::Unpause,
                AuditDetails::Empty,
            ),
    {
        self.require_admin(admin)?;
        if !self.paused {
            return Err(AccessControlError::NotPaused);
        }
        self.paused = false;
        self.append_audit_entry(now, admin, AdminActionType::Unpause, AuditDetails::Empty);
        Ok(())
    }

    /// Assign Operator or Verifier to `target`. Admin only. Granting Admin
    /// (use `transfer_admin`) or NoRole (use `revoke_role`), or granting to
    /// the admin itself, is unauthorized.
    pub fn grant_role(&mut self, now: u64, admin: Addr, target: Addr, role: Role) -> (r: Result<
        (),
        AccessControlError,
    >)
        requires
            old(self)@.wf(),
            old(self)@.audit.has_room(),
        ensures
            final(self)@.wf(),
            r == old(self)@.grant_check(admin, target, role),
            r is Err ==> final(self)@ == old(self)@,
            r is Ok ==> final(self)@ == old(self)@.granted(target, role).logged(
                now,
                admin,
                AdminActionType::GrantRole,
                AuditDetails::AddressRole(target, role),
            ),
    {
        self.require_admin(admin)?;
        if role == Role::Admin {
            return Err(AccessControlError::Unauthorized);
        }
        if role == Role::NoRole {
            return Err(AccessControlError::Unauthorized);
        }
        validate_grant_role_target(target, admin)?;
        self.assign_role(target, role);
        self.append_audit_entry(
            now,
            admin,
            AdminActionType::GrantRole,
            AuditDetails::AddressRole(target, role),
        );
        Ok(())
    }

    /// Remove the role of `target`. Admin only. The admin's own role cannot
    /// be revoked, and a target without a role is an error.
    pub fn revoke_role(&mut self, now: u64, admin: Addr, target: Addr) -> (r: Result<
        (),
        AccessControlError,
    >)
        requires
            old(self)@.wf(),
            old(self)@.revoke_check(admin, target) is Ok ==> old(self)@.audit.has_room(),
        ensures
            final(self)@.wf(),
            r == old(self)@.revoke_check(admin, target),
            r is Err ==> final(self)@ == old(self)@,
            r is Ok ==> final(self)@ == old(self)@.revoked(target).logged(
                now,
                admin,
                AdminActionType::RevokeRole,
                AuditDetails::AddressRole(target, old(self)@.stored_role(target)),
            ),
    {
        self.require_admin(admin)?;
        let current_role = self.stored_role(target);
        if current_role == Role::Admin {
            return Err(AccessControlError::Unauthorized);
        }
        if current_role == Role::NoRole {
            return Err(AccessControlError::RoleNotAssigned);
        }
        self.unassign_role(target);
        self.append_audit_entry(
            now,
            admin,
            AdminActionType::RevokeRole,
            AuditDetails::AddressRole(target, current_role),
        );
        Ok(())
    }

    /// Hand the admin over to `new_admin`. The current admin must call; the
    /// successor cannot be the current admin, this contract, or an address
    /// holding Operator or Verifier. The old admin's role entry is removed.
    pub fn transfer_admin(&mut self, now: u64, contract: Addr, current_admin: Addr, new_admin: Addr) -> (r:
        Result<(), AccessControlError>)
        requires
            old(self)@.wf(),
            old(self)@.audit.has_room(),
        ensures
            final(self)@.wf(),
            r == (if (old(self)@.admin_check(current_admin) is Err) {
                old(self)@.admin_check(current_admin)
            } else {
                old(self)@.transfer_target_check(contract, current_admin, new_admin)
            }),
            r is Err ==> final(self)@ == old(self)@,
            r is Ok ==> final(self)@ == (AccessControlView {
                admin: Some(new_admin),
                roles: old(self)@.roles.insert(new_admin, Role::Admin).remove(current_admin),
                ..old(self)@
            }).logged(now, current_admin, AdminActionType::TransferAdmin, AuditDetails::Address(new_admin)),
    {
        self.require_admin(current_admin)?;
        self.validate_transfer_admin_target(contract, new_admin, current_admin)?;
        self.admin = Some(new_admin);
        self.roles.insert(new_admin, Role::Admin);
        self.roles.remove(&current_admin);
        proof {
            lemma_transfer_exact(old(self)@, current_admin, new_admin, true);
        }
        self.append_audit_entry(
            now,
            current_admin,
            AdminActionType::TransferAdmin,
            AuditDetails::Address(new_admin),
        );
        Ok(())
    }

    /// Configure the N-of-M multisig. Admin only; `threshold` must be between
    /// 1 and the number of signers.
    pub fn configure_multisig(&mut self, now: u64, admin: Addr, signers: Vec<Addr>, threshold: u32) -> (r:
        Result<(), AccessControlError>)
        requires
            old(self)@.wf(),
            old(self)@.audit.has_room(),
            signers.len() <= u32::MAX,
        ensures
            final(self)@.wf(),
            r == (if (old(self)@.admin_check(admin) is Err) {
                old(self)@.admin_check(admin)
            } else if threshold == 0 || threshold > signers.len() {
                Err(AccessControlError::InvalidThreshold)
            } else {
                Ok(())
            }),
            r is Err ==> final(self)@ == old(self)@,
            r is Ok ==> final(self)@ == (AccessControlView {
                multisig: Some(MultisigConfig { threshold, signers }),
                ..old(self)@
            }).logged(
                now,
                admin,
                AdminActionType::ConfigureMultisig,
                AuditDetails::Counts(threshold, signers.len() as u32),
            ),
    {
        self.require_admin(admin)?;
        let signer_count = signers.len() as u32;
        if threshold == 0 || threshold > signer_count {
            return Err(AccessControlError::InvalidThreshold);
        }
        self.multisig = Some(MultisigConfig { threshold, signers });
        self.append_audit_entry(
            now,
            admin,
            AdminActionType::ConfigureMultisig,
            AuditDetails::Counts(threshold, signer_count),
        );
        Ok(())
    }
}


/// `p` is the proposal that `propose_action` creates.
pub open spec fn fresh_proposal(p: Proposal, id: u64, action: AdminAction, proposer: Addr, now: u64) -> bool {
    &&& p.id == id
    &&& p.action == action
    &&& p.proposer == proposer
    &&& p.approvals@ == seq![proposer]
    &&& !p.executed
    &&& p.created_at == now
    &&& p.expires_at == now + PROPOSAL_TTL_LEDGERS
}

/// `p` is the proposal that `propose_parameter_change` creates.
pub open spec fn fresh_parameter_proposal(
    p: ParameterProposal,
    id: u64,
    key: ParameterKey,
    value: u32,
    proposer: Addr,
    now: u64,
) -> bool {
    &&& p.id == id
    &&& p.key == key
    &&& p.new_value == value
    &&& p.proposer == proposer
    &&& p.approvals@ == seq![proposer]
    &&& p.created_at == now
    &&& !p.executed
}

/// `p` is the proposal that `propose_signer_recovery` creates.
pub open spec fn fresh_recovery_proposal(
    p: RecoveryProposal,
    id: u64,
    proposer: Addr,
    new_signers: Seq<Addr>,
    new_threshold: u32,
    now: u64,
) -> bool {
    &&& p.id == id
    &&& p.proposer == proposer
    &&& p.new_signers@ == new_signers
    &&& p.new_threshold == new_threshold
    &&& p.created_at == now
    &&& p.objections@ == Seq::<Addr>::empty()
    &&& !p.executed
}

impl AccessControlView {
    /// The outcome of the checks of `execute_action`.
    pub open spec fn execute_action_check(self, contract: Addr, executor: Addr, id: u64, now: u64) -> Result<
        (),
        AccessControlError,
    > {
        if self.action_signer_check(executor) is Err {
            self.action_signer_check(executor)
        } else if !self.proposals.contains_key(id) {
            Err(AccessControlError::ProposalNotFound)
        } else if self.proposals[id].executed {
            Err(AccessControlError::ProposalAlreadyExecuted)
        } else if now > self.proposals[id].expires_at {
            Err(AccessControlError::ProposalExpired)
        } else if self.proposals[id].approvals@.len() < self.threshold() {
            Err(AccessControlError::ThresholdNotMet)
        } else if self.admin is None {
            Err(AccessControlError::NotInitialized)
        } else {
            match self.proposals[id].action {
                AdminAction::GrantRole(target, v) => if granted_role(v) is None {
                    Err(AccessControlError::Unauthorized)
                } else if Some(target) == self.admin {
                    Err(AccessControlError::Unauthorized)
                } else {
                    Ok(())
                },
                AdminAction::TransferAdmin(new_admin) => self.transfer_target_check(
                    contract,
                    self.admin->Some_0,
                    new_admin,
                ),
                _ => Ok(()),
            }
        }
    }

    /// This storage with `action` applied.
    pub open spec fn applied(self, action: AdminAction) -> AccessControlView {
        match action {
            AdminAction::Pause => AccessControlView { paused: true, ..self },
            AdminAction::Unpause => AccessControlView { paused: false, ..self },
            AdminAction::GrantRole(target, v) => self.granted(target, granted_role(v)->Some_0),
            AdminAction::RevokeRole(target) => self.revoked(target),
            AdminAction::TransferAdmin(new_admin) => AccessControlView {
                admin: Some(new_admin),
                roles: self.roles.insert(new_admin, Role::Admin),
                ..self
            },
        }
    }
}

impl AccessControlContract {
    /// Propose an admin action. The proposer must be a signer; its approval
    /// is recorded, and the proposal expires `PROPOSAL_TTL_LEDGERS` after `now`.
    /// Returns the proposal's id.
    pub fn propose_action(&mut self, now: u64, proposer: Addr, action: AdminAction) -> (r: Result<
        u64,
        AccessControlError,
    >)
        requires
            old(self)@.wf(),
            old(self)@.action_signer_check(proposer) is Ok ==> now + PROPOSAL_TTL_LEDGERS <= u64::MAX,
        ensures
            final(self)@.wf(),
            r == old(self)@.propose_outcome(proposer),
            r is Err ==> final(self)@ == old(self)@,
            r is Ok ==> {
                let id = old(self)@.next_proposal_id;
                &&& final(self)@.proposals == old(self)@.proposals.insert(id, final(self)@.proposals[id])
                &&& fresh_proposal(final(self)@.proposals[id], id, action, proposer, now)
                &&& final(self)@ == (AccessControlView {
                    proposals: final(self)@.proposals,
                    next_proposal_id: (id + 1) as u64,
                    ..old(self)@
                })
            },
    {
        self.require_action_signer(proposer)?;
        let proposal_id = self.next_proposal_id;
        let next = match proposal_id.checked_add(1) {
            Some(n) => n,
            None => {
                return Err(AccessControlError::ArithmeticOverflow);
            },
        };
        let mut approvals: Vec<Addr> = Vec::new();
        approvals.push(proposer);
        let proposal = Proposal {
            id: proposal_id,
            action,
            proposer,
            approvals,
            executed: false,
            created_at: now,
            expires_at: now + PROPOSAL_TTL_LEDGERS,
        };
        self.proposals.insert(proposal_id, proposal);
        self.next_proposal_id = next;
        Ok(proposal_id)
    }

    /// Approve a pending, unexpired proposal. The approver must be a signer
    /// that has not approved it yet.
    pub fn approve_action(&mut self, now: u64, approver: Addr, proposal_id: u64) -> (r: Result<
        (),
        AccessControlError,
    >)
        requires
            old(self)@.wf(),
        ensures
            final(self)@.wf(),
            r == (if old(self)@.action_signer_check(approver) is Err {
                old(self)@.action_signer_check(approver)
            } else if !old(self)@.proposals.contains_key(proposal_id) {
                Err(AccessControlError::ProposalNotFound)
            } else if old(self)@.proposals[proposal_id].executed {
                Err(AccessControlError::ProposalAlreadyExecuted)
            } else if now > old(self)@.proposals[proposal_id].expires_at {
                Err(AccessControlError::ProposalExpired)
            } else if seq_has(old(self)@.proposals[proposal_id].approvals@, approver) {
                Err(AccessControlError::AlreadyApproved)
            } else {
                Ok(())
            }),
            r is Err ==> final(self)@ == old(self)@,
            r is Ok ==> {
                &&& final(self)@.proposals == old(self)@.proposals.insert(
                    proposal_id,
                    final(self)@.proposals[proposal_id],
                )
                &&& approval_added(
                    old(self)@.proposals[proposal_id],
                    final(self)@.proposals[proposal_id],
                    approver,
                )
                &&& final(self)@ == (AccessControlView { proposals: final(self)@.proposals, ..old(self)@ })
            },
    {
        self.require_action_signer(approver)?;
        match self.proposals.get(&proposal_id) {
            None => {
                return Err(AccessControlError::ProposalNotFound);
            },
            Some(p) => {
                if p.executed {
                    return Err(AccessControlError::ProposalAlreadyExecuted);
                }
                if now > p.expires_at {
                    return Err(AccessControlError::ProposalExpired);
                }
                if vec_contains(&p.approvals, approver) {
                    return Err(AccessControlError::AlreadyApproved);
                }
            },
        }
        let mut p = self.proposals.remove(&proposal_id).unwrap();
        p.approvals.push(approver);
        self.proposals.insert(proposal_id, p);
        Ok(())
    }

    /// Execute a proposal whose approvals reach the threshold, before it
    /// expires; any signer may call. The proposal is marked executed and its
    /// action applied: a multisig grant is limited to Operator (1) and
    /// Verifier (2) and cannot target the admin, and a multisig admin
    /// transfer is validated as `transfer_admin` is but keeps the old admin's
    /// role entry.
    pub fn execute_action(&mut self, now: u64, contract: Addr, executor: Addr, proposal_id: u64) -> (r:
        Result<(), AccessControlError>)
        requires
            old(self)@.wf(),
            old(self)@.audit.has_room(),
        ensures
            final(self)@.wf(),
            r == old(self)@.execute_action_check(contract, executor, proposal_id, now),
            r is Err ==> final(self)@ == old(self)@,
            r is Ok ==> {
                &&& final(self)@.proposals == old(self)@.proposals.insert(
                    proposal_id,
                    final(self)@.proposals[proposal_id],
                )
                &&& proposal_executed(
                    old(self)@.proposals[proposal_id],
                    final(self)@.proposals[proposal_id],
                )
                &&& final(self)@ == (AccessControlView {
                    proposals: final(self)@.proposals,
                    ..old(self)@
                }).applied(old(self)@.proposals[proposal_id].action).logged(
                    now,
                    executor,
                    AdminActionType::MultisigExecuteAction,
                    AuditDetails::ProposalId(proposal_id),
                )
            },
    {
        let threshold = self.require_action_signer(executor)?;
        let action = match self.proposals.get(&proposal_id) {
            None => {
                return Err(AccessControlError::ProposalNotFound);
            },
            Some(p) => {
                if p.executed {
                    return Err(AccessControlError::ProposalAlreadyExecuted);
                }
                if now > p.expires_at {
                    return Err(AccessControlError::ProposalExpired);
                }
                if p.approvals.len() < threshold as usize {
                    return Err(AccessControlError::ThresholdNotMet);
                }
                p.action
            },
        };
        let current_admin = match self.admin {
            Some(a) => a,
            None => {
                return Err(AccessControlError::NotInitialized);
            },
        };
        let grant: Option<Role> = match action {
            AdminAction::GrantRole(target, role_val) => {
                let role = if role_val == 1 {
                    Role::Operator
                } else if role_val == 2 {
                    Role::Verifier
                } else {
                    return Err(AccessControlError::Unauthorized);
                };
                validate_grant_role_target(target, current_admin)?;
                Some(role)
            },
            AdminAction::TransferAdmin(new_admin) => {
                self.validate_transfer_admin_target(contract, new_admin, current_admin)?;
                None
            },
            _ => None,
        };
        let mut p = self.proposals.remove(&proposal_id).unwrap();
        p.executed = true;
        self.proposals.insert(proposal_id, p);
        match action {
            AdminAction::Pause => {
                self.paused = true;
            },
            AdminAction::Unpause => {
                self.paused = false;
            },
            AdminAction::GrantRole(target, _) => {
                self.assign_role(target, grant.unwrap());
            },
            AdminAction::RevokeRole(target) => {
                self.unassign_role(target);
            },
            AdminAction::TransferAdmin(new_admin) => {
                proof {
                    lemma_transfer_exact(self@, current_admin, new_admin, false);
                }
                self.admin = Some(new_admin);
                self.roles.insert(new_admin, Role::Admin);
            },
        }
        self.append_audit_entry(
            now,
            executor,
            AdminActionType::MultisigExecuteAction,
            AuditDetails::ProposalId(proposal_id),
        );
        Ok(())
    }

    /// The proposal with id `proposal_id`.
    pub fn get_proposal(&self, proposal_id: u64) -> (r: Result<&Proposal, AccessControlError>)
        ensures
            match r {
                Ok(p) => self@.proposals.contains_key(proposal_id) && *p == self@.proposals[proposal_id],
                Err(e) => !self@.proposals.contains_key(proposal_id) && e
                    == AccessControlError::ProposalNotFound,
            },
    {
        match self.proposals.get(&proposal_id) {
            Some(p) => Ok(p),
            None => Err(AccessControlError::ProposalNotFound),
        }
    }

    /// The multisig configuration.
    pub fn get_multisig_config(&self) -> (r: Result<&MultisigConfig, AccessControlError>)
        ensures
            match r {
                Ok(cfg) => self@.multisig == Some(*cfg),
                Err(e) => self@.multisig is None && e == AccessControlError::MultisigNotConfigured,
            },
    {
        self.load_multisig_config()
    }
}


impl AccessControlContract {
    /// Propose a new value for a governed parameter. The proposer must be a
    /// signer; its vote is recorded. Fee and late-penalty rates are at most
    /// 10_000 bps, the maximum risk score at most 100. Returns the proposal's id.
    pub fn propose_parameter_change(&mut self, now: u64, proposer: Addr, key: ParameterKey, new_value: u32) -> (r:
        Result<u64, AccessControlError>)
        requires
            old(self)@.wf(),
            old(self)@.audit.has_room(),
        ensures
            final(self)@.wf(),
            r == (if old(self)@.signer_check(proposer) is Err {
                Err(old(self)@.signer_check(proposer)->Err_0)
            } else if !valid_parameter(key, new_value) {
                Err(AccessControlError::InvalidParameterValue)
            } else if old(self)@.next_param_proposal_id == u64::MAX {
                Err(AccessControlError::ArithmeticOverflow)
            } else {
                Ok(old(self)@.next_param_proposal_id)
            }),
            r is Err ==> final(self)@ == old(self)@,
            r is Ok ==> {
                let id = old(self)@.next_param_proposal_id;
                &&& final(self)@.param_proposals == old(self)@.param_proposals.insert(
                    id,
                    final(self)@.param_proposals[id],
                )
                &&& fresh_parameter_proposal(final(self)@.param_proposals[id], id, key, new_value, proposer, now)
                &&& final(self)@ == (AccessControlView {
                    param_proposals: final(self)@.param_proposals,
                    next_param_proposal_id: (id + 1) as u64,
                    ..old(self)@
                }).logged(
                    now,
                    proposer,
                    AdminActionType::ProposeParameter,
                    AuditDetails::Parameter(key, new_value),
                )
            },
    {
        self.require_multisig_signer(proposer)?;
        require_valid_parameter(key, new_value)?;
        let proposal_id = self.next_param_proposal_id;
        let next = match proposal_id.checked_add(1) {
            Some(n) => n,
            None => {
                return Err(AccessControlError::ArithmeticOverflow);
            },
        };
        let mut approvals: Vec<Addr> = Vec::new();
        approvals.push(proposer);
        let proposal = ParameterProposal {
            id: proposal_id,
            key,
            new_value,
            proposer,
            approvals,
            created_at: now,
            executed: false,
        };
        self.param_proposals.insert(proposal_id, proposal);
        self.next_param_proposal_id = next;
        self.append_audit_entry(
            now,
            proposer,
            AdminActionType::ProposeParameter,
            AuditDetails::Parameter(key, new_value),
        );
        Ok(proposal_id)
    }

    /// Vote for a pending parameter proposal. The voter must be a signer that
    /// has not voted on it yet.
    pub fn vote_parameter_change(&mut self, signer: Addr, proposal_id: u64) -> (r: Result<
        (),
        AccessControlError,
    >)
        requires
            old(self)@.wf(),
        ensures
            final(self)@.wf(),
            r == (if old(self)@.action_signer_check(signer) is Err {
                old(self)@.action_signer_check(signer)
            } else if !old(self)@.param_proposals.contains_key(proposal_id) {
                Err(AccessControlError::ParameterProposalNotFound)
            } else if old(self)@.param_proposals[proposal_id].executed {
                Err(AccessControlError::ParameterProposalAlreadyExecuted)
            } else if seq_has(old(self)@.param_proposals[proposal_id].approvals@, signer) {
                Err(AccessControlError::AlreadyVoted)
            } else {
                Ok(())
            }),
            r is Err ==> final(self)@ == old(self)@,
            r is Ok ==> {
                &&& final(self)@.param_proposals == old(self)@.param_proposals.insert(
                    proposal_id,
                    final(self)@.param_proposals[proposal_id],
                )
                &&& vote_added(
                    old(self)@.param_proposals[proposal_id],
                    final(self)@.param_proposals[proposal_id],
                    signer,
                )
                &&& final(self)@ == (AccessControlView {
                    param_proposals: final(self)@.param_proposals,
                    ..old(self)@
                })
            },
    {
        self.require_action_signer(signer)?;
        match self.param_proposals.get(&proposal_id) {
            None => {
                return Err(AccessControlError::ParameterProposalNotFound);
            },
            Some(p) => {
                if p.executed {
                    return Err(AccessControlError::ParameterProposalAlreadyExecuted);
                }
                if vec_contains(&p.approvals, signer) {
                    return Err(AccessControlError::AlreadyVoted);
                }
            },
        }
        let mut p = self.param_proposals.remove(&proposal_id).unwrap();
        p.approvals.push(signer);
        self.param_proposals.insert(proposal_id, p);
        Ok(())
    }

    /// Execute a parameter proposal whose votes reach the threshold once the
    /// governance timelock has elapsed; the governed value is set.
    pub fn execute_parameter_change(&mut self, now: u64, caller: Addr, proposal_id: u64) -> (r: Result<
        (),
        AccessControlError,
    >)
        requires
            old(self)@.wf(),
            old(self)@.audit.has_room(),
            old(self)@.param_proposals.contains_key(proposal_id) ==> old(self)@.param_proposals[proposal_id].created_at
                + GOVERNANCE_TIMELOCK_DELAY <= u64::MAX,
        ensures
            final(self)@.wf(),
            r == (if old(self)@.signer_check(caller) is Err {
                old(self)@.signer_check(caller)
            } else if !old(self)@.param_proposals.contains_key(proposal_id) {
                Err(AccessControlError::ParameterProposalNotFound)
            } else if old(self)@.param_proposals[proposal_id].executed {
                Err(AccessControlError::ParameterProposalAlreadyExecuted)
            } else if old(self)@.param_proposals[proposal_id].approvals@.len() < old(self)@.threshold() {
                Err(AccessControlError::GovernanceThresholdNotMet)
            } else if now < old(self)@.param_proposals[proposal_id].created_at + GOVERNANCE_TIMELOCK_DELAY {
                Err(AccessControlError::GovernanceTimelockNotElapsed)
            } else {
                Ok(())
            }),
            r is Err ==> final(self)@ == old(self)@,
            r is Ok ==> {
                let p = old(self)@.param_proposals[proposal_id];
                &&& final(self)@.param_proposals == old(self)@.param_proposals.insert(
                    proposal_id,
                    final(self)@.param_proposals[proposal_id],
                )
                &&& parameter_executed(p, final(self)@.param_proposals[proposal_id])
                &&& final(self)@ == (AccessControlView {
                    param_proposals: final(self)@.param_proposals,
                    parameters: old(self)@.parameters.with_value(p.key, p.new_value),
                    ..old(self)@
                }).logged(
                    now,
                    caller,
                    AdminActionType::ExecuteParameter,
                    AuditDetails::Parameter(p.key, p.new_value),
                )
            },
    {
        let threshold = self.require_multisig_signer(caller)?;
        let (key, value) = match self.param_proposals.get(&proposal_id) {
            None => {
                return Err(AccessControlError::ParameterProposalNotFound);
            },
            Some(p) => {
                if p.executed {
                    return Err(AccessControlError::ParameterProposalAlreadyExecuted);
                }
                if p.approvals.len() < threshold as usize {
                    return Err(AccessControlError::GovernanceThresholdNotMet);
                }
                if now < p.created_at + GOVERNANCE_TIMELOCK_DELAY {
                    return Err(AccessControlError::GovernanceTimelockNotElapsed);
                }
                (p.key, p.new_value)
            },
        };
        let mut p = self.param_proposals.remove(&proposal_id).unwrap();
        p.executed = true;
        self.param_proposals.insert(proposal_id, p);
        self.parameters.set(key, value);
        self.append_audit_entry(
            now,
            caller,
            AdminActionType::ExecuteParameter,
            AuditDetails::Parameter(key, value),
        );
        Ok(())
    }

    /// The value governance has set for `key`, if any.
    pub fn get_parameter(&self, key: ParameterKey) -> (r: Option<u32>)
        ensures
            r == self@.parameters.value(key),
    {
        self.parameters.get(key)
    }

    /// The parameter proposal with id `proposal_id`.
    pub fn get_parameter_proposal(&self, proposal_id: u64) -> (r: Result<&ParameterProposal, AccessControlError>)
        ensures
            match r {
                Ok(p) => self@.param_proposals.contains_key(proposal_id) && *p
                    == self@.param_proposals[proposal_id],
                Err(e) => !self@.param_proposals.contains_key(proposal_id) && e
                    == AccessControlError::ParameterProposalNotFound,
            },
    {
        match self.param_proposals.get(&proposal_id) {
            Some(p) => Ok(p),
            None => Err(AccessControlError::ParameterProposalNotFound),
        }
    }

    /// Propose replacing the signer set. The proposer must be a signer and
    /// `new_threshold` must be between 1 and the number of new signers.
    /// Returns the proposal's id.
    pub fn propose_signer_recovery(
        &mut self,
        now: u64,
        proposer: Addr,
        new_signers: Vec<Addr>,
        new_threshold: u32,
    ) -> (r: Result<u64, AccessControlError>)
        requires
            old(self)@.wf(),
            old(self)@.audit.has_room(),
            new_signers.len() <= u32::MAX,
        ensures
            final(self)@.wf(),
            r == (if old(self)@.signer_check(proposer) is Err {
                Err(old(self)@.signer_check(proposer)->Err_0)
            } else if new_threshold == 0 || new_threshold > new_signers.len() {
                Err(AccessControlError::InvalidThreshold)
            } else if old(self)@.next_recovery_proposal_id == u64::MAX {
                Err(AccessControlError::ArithmeticOverflow)
            } else {
                Ok(old(self)@.next_recovery_proposal_id)
            }),
            r is Err ==> final(self)@ == old(self)@,
            r is Ok ==> {
                let id = old(self)@.next_recovery_proposal_id;
                &&& final(self)@.recovery_proposals == old(self)@.recovery_proposals.insert(
                    id,
                    final(self)@.recovery_proposals[id],
                )
                &&& fresh_recovery_proposal(
                    final(self)@.recovery_proposals[id],
                    id,
                    proposer,
                    new_signers@,
                    new_threshold,
                    now,
                )
                &&& final(self)@ == (AccessControlView {
                    recovery_proposals: final(self)@.recovery_proposals,
                    next_recovery_proposal_id: (id + 1) as u64,
                    ..old(self)@
                }).logged(
                    now,
                    proposer,
                    AdminActionType::ProposeParameter,
                    AuditDetails::Counts(new_threshold, new_signers.len() as u32),
                )
            },
    {
        self.require_multisig_signer(proposer)?;
        let count = new_signers.len() as u32;
        if new_threshold == 0 || new_threshold > count {
            return Err(AccessControlError::InvalidThreshold);
        }
        let proposal_id = self.next_recovery_proposal_id;
        let next = match proposal_id.checked_add(1) {
            Some(n) => n,
            None => {
                return Err(AccessControlError::ArithmeticOverflow);
            },
        };
        let proposal = RecoveryProposal {
            id: proposal_id,
            proposer,
            new_signers,
            new_threshold,
            created_at: now,
            objections: Vec::new(),
            executed: false,
        };
        self.recovery_proposals.insert(proposal_id, proposal);
        self.next_recovery_proposal_id = next;
        self.append_audit_entry(
            now,
            proposer,
            AdminActionType::ProposeParameter,
            AuditDetails::Counts(new_threshold, count),
        );
        Ok(proposal_id)
    }

    /// Object to a pending recovery. The objector must be a signer that has
    /// not objected yet; any objection blocks the recovery.
    pub fn object_signer_recovery(&mut self, objector: Addr, proposal_id: u64) -> (r: Result<
        (),
        AccessControlError,
    >)
        requires
            old(self)@.wf(),
        ensures
            final(self)@.wf(),
            r == old(self)@.objection_check(objector, proposal_id),
            r is Err ==> final(self)@ == old(self)@,
            r is Ok ==> {
                &&& final(self)@.recovery_proposals == old(self)@.recovery_proposals.insert(
                    proposal_id,
                    final(self)@.recovery_proposals[proposal_id],
                )
                &&& objection_added(
                    old(self)@.recovery_proposals[proposal_id],
                    final(self)@.recovery_proposals[proposal_id],
                    objector,
                )
                &&& final(self)@ == (AccessControlView {
                    recovery_proposals: final(self)@.recovery_proposals,
                    ..old(self)@
                })
            },
    {
        self.require_multisig_signer(objector)?;
        match self.recovery_proposals.get(&proposal_id) {
            None => {
                return Err(AccessControlError::ProposalNotFound);
            },
            Some(p) => {
                if p.executed {
                    return Err(AccessControlError::ProposalAlreadyExecuted);
                }
                if vec_contains(&p.objections, objector) {
                    return Err(AccessControlError::AlreadyApproved);
                }
            },
        }
        let mut p = self.recovery_proposals.remove(&proposal_id).unwrap();
        p.objections.push(objector);
        self.recovery_proposals.insert(proposal_id, p);
        Ok(())
    }

    /// Execute a recovery once its timelock has elapsed with no objection:
    /// the proposed signer set and threshold become the multisig configuration.
    pub fn execute_signer_recovery(&mut self, now: u64, executor: Addr, proposal_id: u64) -> (r: Result<
        (),
        AccessControlError,
    >)
        requires
            old(self)@.wf(),
            old(self)@.audit.has_room(),
            old(self)@.recovery_proposals.contains_key(proposal_id) ==> old(
                self,
            )@.recovery_proposals[proposal_id].created_at + RECOVERY_TIMELOCK_DELAY <= u64::MAX,
            old(self)@.recovery_proposals.contains_key(proposal_id) ==> old(
                self,
            )@.recovery_proposals[proposal_id].new_signers.len() <= u32::MAX,
        ensures
            final(self)@.wf(),
            r == old(self)@.recovery_check(executor, proposal_id, now),
            r is Err ==> final(self)@ == old(self)@,
            r is Ok ==> {
                let p = old(self)@.recovery_proposals[proposal_id];
                &&& final(self)@.recovery_proposals == old(self)@.recovery_proposals.insert(
                    proposal_id,
                    final(self)@.recovery_proposals[proposal_id],
                )
                &&& recovery_executed(p, final(self)@.recovery_proposals[proposal_id])
                &&& final(self)@.multisig matches Some(cfg) && cfg.threshold == p.new_threshold
                    && cfg.signers@ == p.new_signers@
                &&& final(self)@ == (AccessControlView {
                    recovery_proposals: final(self)@.recovery_proposals,
                    multisig: final(self)@.multisig,
                    ..old(self)@
                }).logged(
                    now,
                    executor,
                    AdminActionType::ConfigureMultisig,
                    AuditDetails::Counts(p.new_threshold, p.new_signers.len() as u32),
                )
            },
    {
        self.require_multisig_signer(executor)?;
        let (threshold, signers) = match self.recovery_proposals.get(&proposal_id) {
            None => {
                return Err(AccessControlError::ProposalNotFound);
            },
            Some(p) => {
                if p.executed {
                    return Err(AccessControlError::ProposalAlreadyExecuted);
                }
                if !p.objections.is_empty() {
                    return Err(AccessControlError::AlreadyApproved);
                }
                if now < p.created_at + RECOVERY_TIMELOCK_DELAY {
                    return Err(AccessControlError::GovernanceTimelockNotElapsed);
                }
                (p.new_threshold, p.new_signers.clone())
            },
        };
        let count = signers.len() as u32;
        let mut p = self.recovery_proposals.remove(&proposal_id).unwrap();
        p.executed = true;
        self.recovery_proposals.insert(proposal_id, p);
        self.multisig = Some(MultisigConfig { threshold, signers });
        self.append_audit_entry(
            now,
            executor,
            AdminActionType::ConfigureMultisig,
            AuditDetails::Counts(threshold, count),
        );
        Ok(())
    }

    /// The recovery proposal with id `proposal_id`.
    pub fn get_recovery_proposal(&self, proposal_id: u64) -> (r: Result<&RecoveryProposal, AccessControlError>)
        ensures
            match r {
                Ok(p) => self@.recovery_proposals.contains_key(proposal_id) && *p
                    == self@.recovery_proposals[proposal_id],
                Err(e) => !self@.recovery_proposals.contains_key(proposal_id) && e
                    == AccessControlError::ProposalNotFound,
            },
    {
        match self.recovery_proposals.get(&proposal_id) {
            Some(p) => Ok(p),
            None => Err(AccessControlError::ProposalNotFound),
        }
    }

    /// Whether the protocol is paused.
    pub fn is_paused(&self) -> (r: bool)
        ensures
            r == self@.paused,
    {
        self.paused
    }

    /// The role of `address`: the stored one, else Admin if `address` is the
    /// admin, else NoRole.
    pub fn get_role(&self, address: Addr) -> (r: Role)
        ensures
            r == self@.reported_role(address),
    {
        match self.roles.get(&address) {
            Some(role) => *role,
            None => match self.admin {
                Some(a) => if a == address {
                    Role::Admin
                } else {
                    Role::NoRole
                },
                None => Role::NoRole,
            },
        }
    }

    /// Whether the stored role of `address` is `role`.
    pub fn has_role(&self, address: Addr, role: Role) -> (r: bool)
        ensures
            r == (self@.stored_role(address) == role),
    {
        self.stored_role(address) == role
    }

    /// The admin.
    pub fn get_admin(&self) -> (r: Result<Addr, AccessControlError>)
        ensures
            match self@.admin {
                Some(a) => r == Ok::<Addr, AccessControlError>(a),
                None => r == Err::<Addr, AccessControlError>(AccessControlError::NotInitialized),
            },
    {
        match self.admin {
            Some(a) => Ok(a),
            None => Err(AccessControlError::NotInitialized),
        }
    }

    /// Page `page` (0-indexed) of the registry of `role`, in order of grant;
    /// `page_size` is clamped to 1..=50.
    pub fn get_role_members(&self, role: Role, page: u32, page_size: u32) -> (r: Vec<Addr>)
        ensures
            r@ == members_page(self@.members(role), page, clamp_members_page_size(page_size)),
    {
        let size: usize = if page_size < 1 {
            1
        } else if page_size > MAX_PAGE_SIZE {
            MAX_PAGE_SIZE as usize
        } else {
            page_size as usize
        };
        let empty: Vec<Addr> = Vec::new();
        let members: &Vec<Addr> = match role {
            Role::Operator => &self.operators,
            Role::Verifier => &self.verifiers,
            _ => &empty,
        };
        let ghost m = members@;
        assert(m == self@.members(role));
        let len = members.len();
        let mut results: Vec<Addr> = Vec::new();
        if (page as usize) <= len / size {
            assert((page as int) * (size as int) <= len) by (nonlinear_arith)
                requires
                    page <= len / size,
                    1 <= size,
            ;
            let start = (page as usize) * size;
            let end = if len - start < size {
                len
            } else {
                start + size
            };
            let mut j = start;
            while j < end
                invariant
                    start <= j <= end <= len,
                    len == m.len(),
                    m == members@,
                    results@ == m.subrange(start as int, j as int),
                decreases end - j,
            {
                results.push(members[j]);
                assert(m.subrange(start as int, j + 1) == m.subrange(start as int, j as int).push(m[j as int]));
                j = j + 1;
            }
            assert(start == page * size);
            if start >= len {
                assert(results@ == Seq::<Addr>::empty());
            }
        } else {
            assert((page as int) * (size as int) >= len) by (nonlinear_arith)
                requires
                    page > len / size,
                    1 <= size,
            ;
        }
        results
    }

    /// Propose an upgrade to `new_wasm_hash`. Admin only; starts the timelock.
    pub fn propose_upgrade(&mut self, now: u64, admin: Addr, new_wasm_hash: WasmHash) -> (r: Result<
        (),
        AccessControlError,
    >)
        requires
            old(self)@.wf(),
            old(self)@.audit.has_room(),
        ensures
            final(self)@.wf(),
            r == old(self)@.admin_check(admin),
            r is Err ==> final(self)@ == old(self)@,
            r is Ok ==> final(self)@ == (AccessControlView {
                upgrade_proposal: Some((new_wasm_hash, now)),
                ..old(self)@
            }).logged(now, admin, AdminActionType::ProposeUpgrade, AuditDetails::Wasm(new_wasm_hash)),
    {
        self.require_admin(admin)?;
        self.upgrade_proposal = Some((new_wasm_hash, now));
        self.append_audit_entry(now, admin, AdminActionType::ProposeUpgrade, AuditDetails::Wasm(new_wasm_hash));
        Ok(())
    }

    /// Execute the pending upgrade once the timelock has elapsed. Admin only.
    /// The proposal is cleared and the code hash to install is returned.
    pub fn execute_upgrade(&mut self, now: u64, admin: Addr) -> (r: Result<WasmHash, AccessControlError>)
        requires
            old(self)@.wf(),
            old(self)@.audit.has_room(),
            old(self)@.upgrade_proposal matches Some(p) ==> p.1 + UPGRADE_TIMELOCK_DELAY <= u64::MAX,
        ensures
            final(self)@.wf(),
            r == (if old(self)@.admin_check(admin) is Err {
                Err(old(self)@.admin_check(admin)->Err_0)
            } else if old(self)@.upgrade_proposal is None {
                Err(AccessControlError::NoUpgradeProposed)
            } else if now < old(self)@.upgrade_proposal->Some_0.1 + UPGRADE_TIMELOCK_DELAY {
                Err(AccessControlError::UpgradeTimelockNotElapsed)
            } else {
                Ok(old(self)@.upgrade_proposal->Some_0.0)
            }),
            r is Err ==> final(self)@ == old(self)@,
            r is Ok ==> final(self)@ == (AccessControlView { upgrade_proposal: None, ..old(self)@ }).logged(
                now,
                admin,
                AdminActionType::ExecuteUpgrade,
                AuditDetails::Wasm(r->Ok_0),
            ),
    {
        self.require_admin(admin)?;
        let (wasm_hash, proposed_at) = match self.upgrade_proposal {
            Some(p) => p,
            None => {
                return Err(AccessControlError::NoUpgradeProposed);
            },
        };
        if now < proposed_at + UPGRADE_TIMELOCK_DELAY {
            return Err(AccessControlError::UpgradeTimelockNotElapsed);
        }
        self.upgrade_proposal = None;
        self.append_audit_entry(now, admin, AdminActionType::ExecuteUpgrade, AuditDetails::Wasm(wasm_hash));
        Ok(wasm_hash)
    }

    /// Page `page` (0-indexed) of the audit log, newest first; `page_size` is
    /// clamped to 1..=50.
    pub fn get_audit_log(&self, page: u32, page_size: u32) -> (r: Vec<AdminAuditEntry>)
        requires
            self@.wf(),
        ensures
            r@ == self@.audit.page(page, page_size),
    {
        self.audit.page(page, page_size)
    }
}


/// Without duplicates, taking `a` out leaves no occurrence of `a`.
pub proof fn lemma_without_member_absent(s: Seq<Addr>, a: Addr)
    requires
        s.no_duplicates(),
    ensures
        !seq_has(without_member(s, a), a),
{
    if seq_has(s, a) {
        let i = choose|i: int| 0 <= i < s.len() && s[i] == a;
        let t = swap_removed(s, i);
        assert forall|k: int| 0 <= k < t.len() implies t[k] != a by {
            if k == i {
                assert(t[k] == s[s.len() - 1]);
            } else {
                assert(t[k] == s[k]);
            }
        }
    }
}

/// Adding `a` leaves `a` listed.
pub proof fn lemma_with_member_present(s: Seq<Addr>, a: Addr)
    ensures
        seq_has(with_member(s, a), a),
{
    if !seq_has(s, a) {
        assert(s.push(a)[s.len() as int] == a);
    }
}

/// After a grant of Operator or Verifier, the target holds that role, is
/// reported with it, is listed in that role's registry and in no other, and
/// the registries still list exactly the holders of their roles.
pub proof fn law_granted_role_is_held(s: AccessControlView, target: Addr, role: Role)
    requires
        s.wf(),
        s.admin is Some,
        s.admin != Some(target),
        role == Role::Operator || role == Role::Verifier,
    ensures
        s.granted(target, role).wf(),
        s.granted(target, role).stored_role(target) == role,
        s.granted(target, role).reported_role(target) == role,
        seq_has(s.granted(target, role).members(role), target),
        !seq_has(
            s.granted(target, role).members(
                if role == Role::Operator {
                    Role::Verifier
                } else {
                    Role::Operator
                },
            ),
            target,
        ),
{
    lemma_granted_exact(s, target, role);
    let g = s.granted(target, role);
    assert(g.stored_role(target) == role);
    assert(seq_has(g.operators, target) <==> g.stored_role(target) == Role::Operator);
    assert(seq_has(g.verifiers, target) <==> g.stored_role(target) == Role::Verifier);
}

/// After a revoke, the target holds no stored role and is no longer listed
/// in the registry of the role it held.
pub proof fn law_revoked_role_is_gone(s: AccessControlView, target: Addr)
    requires
        s.wf(),
    ensures
        s.revoked(target).stored_role(target) == Role::NoRole,
        !seq_has(s.revoked(target).members(s.stored_role(target)), target),
{
    lemma_without_member_absent(s.operators, target);
    lemma_without_member_absent(s.verifiers, target);
}

/// A successful revoke cannot be repeated: the second one finds no role.
pub proof fn law_revoke_twice_fails(s: AccessControlView, now: u64, admin: Addr, target: Addr)
    requires
        s.wf(),
        s.revoke_check(admin, target) is Ok,
    ensures
        s.revoked(target).logged(
            now,
            admin,
            AdminActionType::RevokeRole,
            AuditDetails::AddressRole(target, s.stored_role(target)),
        ).revoke_check(admin, target) == Err::<(), AccessControlError>(AccessControlError::RoleNotAssigned),
{
}

/// Pausing and then unpausing gives back the storage as it was, apart from
/// the two entries that the audit log records: the pause is then allowed
/// again, so the cycle repeats, and a second unpause is refused as
/// `NotPaused`.
pub proof fn law_pause_unpause_round_trip(s: AccessControlView, now1: u64, now2: u64, admin: Addr)
    requires
        s.pause_check(admin) is Ok,
    ensures
        ({
            let p = (AccessControlView { paused: true, ..s }).logged(
                now1,
                admin,
                AdminActionType::Pause,
                AuditDetails::Empty,
            );
            let u = (AccessControlView { paused: false, ..p }).logged(
                now2,
                admin,
                AdminActionType::Unpause,
                AuditDetails::Empty,
            );
            &&& p.pause_check(admin) == Err::<(), AccessControlError>(AccessControlError::AlreadyPaused)
            &&& p.unpause_check(admin) is Ok
            &&& u == s.logged(now1, admin, AdminActionType::Pause, AuditDetails::Empty).logged(
                now2,
                admin,
                AdminActionType::Unpause,
                AuditDetails::Empty,
            )
            &&& u.pause_check(admin) is Ok
            &&& u.unpause_check(admin) == Err::<(), AccessControlError>(AccessControlError::NotPaused)
        }),
{
}

/// Granting a role that the target already holds changes nothing but the
/// audit log: after a grant, the same grant is again allowed, leaves the
/// roles and registries as they are (the target listed once), and no other
/// address's role or the pause flag has moved.
pub proof fn law_grant_is_idempotent(s: AccessControlView, now: u64, admin: Addr, target: Addr, role: Role)
    requires
        s.wf(),
        s.grant_check(admin, target, role) is Ok,
    ensures
        ({
            let g = s.granted(target, role).logged(
                now,
                admin,
                AdminActionType::GrantRole,
                AuditDetails::AddressRole(target, role),
            );
            &&& g.wf()
            &&& g.grant_check(admin, target, role) is Ok
            &&& g.granted(target, role) == g
            &&& forall|a: Addr| a != target ==> #[trigger] g.stored_role(a) == s.stored_role(a)
            &&& g.paused == s.paused
        }),
{
    law_granted_role_is_held(s, target, role);
    let g0 = s.granted(target, role);
    let g = g0.logged(now, admin, AdminActionType::GrantRole, AuditDetails::AddressRole(target, role));
    assert(g.roles.insert(target, role) =~= g.roles);
    assert(g.granted(target, role) =~= g);
}

/// A proposal runs once: after a successful execution, every later
/// execution of it by a signer is refused as `ProposalAlreadyExecuted`,
/// whenever it comes.
pub proof fn law_execute_action_once(
    s: AccessControlView,
    contract: Addr,
    executor: Addr,
    id: u64,
    now: u64,
    executed: Proposal,
    later_executor: Addr,
    later: u64,
)
    requires
        s.execute_action_check(contract, executor, id, now) is Ok,
        proposal_executed(s.proposals[id], executed),
        s.action_signer_check(later_executor) is Ok,
    ensures
        ({
            let t = (AccessControlView { proposals: s.proposals.insert(id, executed), ..s }).applied(
                s.proposals[id].action,
            ).logged(now, executor, AdminActionType::MultisigExecuteAction, AuditDetails::ProposalId(id));
            &&& t.proposals[id].executed
            &&& t.execute_action_check(contract, later_executor, id, later)
                == Err::<(), AccessControlError>(AccessControlError::ProposalAlreadyExecuted)
        }),
{
}

/// Proposal ids strictly increase: the proposal just made is stored under
/// the id returned, and the next proposal gets the following id.
pub proof fn law_proposal_ids_increase(
    s: AccessControlView,
    now: u64,
    proposer: Addr,
    action: AdminAction,
    made: Proposal,
    next_proposer: Addr,
)
    requires
        s.propose_outcome(proposer) is Ok,
        fresh_proposal(made, s.next_proposal_id, action, proposer, now),
        s.action_signer_check(next_proposer) is Ok,
    ensures
        ({
            let id = s.propose_outcome(proposer)->Ok_0;
            let t = AccessControlView {
                proposals: s.proposals.insert(id, made),
                next_proposal_id: (id + 1) as u64,
                ..s
            };
            &&& t.proposals[id] == made
            &&& t.propose_outcome(next_proposer) == (if id + 1 == u64::MAX {
                Err::<u64, AccessControlError>(AccessControlError::ArithmeticOverflow)
            } else {
                Ok::<u64, AccessControlError>((id + 1) as u64)
            })
        }),
{
}

/// An objection blocks a signer recovery for good: once a signer has
/// objected, executing it is refused as `AlreadyApproved`, whether or not
/// its timelock has elapsed.
pub proof fn law_objection_blocks_recovery(
    s: AccessControlView,
    objector: Addr,
    id: u64,
    objected: RecoveryProposal,
    executor: Addr,
    now: u64,
)
    requires
        s.objection_check(objector, id) is Ok,
        objection_added(s.recovery_proposals[id], objected, objector),
        s.signer_check(executor) is Ok,
    ensures
        (AccessControlView { recovery_proposals: s.recovery_proposals.insert(id, objected), ..s }).recovery_check(
            executor,
            id,
            now,
        ) == Err::<(), AccessControlError>(AccessControlError::AlreadyApproved),
{
    assert(objected.objections@.len() > 0);
}

/// After a transfer of the admin, the former admin fails every admin check
/// and holds no role, while the successor passes and is reported as Admin.
pub proof fn law_transfer_moves_admin(
    s: AccessControlView,
    now: u64,
    contract: Addr,
    current: Addr,
    new_admin: Addr,
)
    requires
        s.admin_check(current) is Ok,
        s.transfer_target_check(contract, current, new_admin) is Ok,
    ensures
        ({
            let t = (AccessControlView {
                admin: Some(new_admin),
                roles: s.roles.insert(new_admin, Role::Admin).remove(current),
                ..s
            }).logged(now, current, AdminActionType::TransferAdmin, AuditDetails::Address(new_admin));
            &&& t.admin_check(current) == Err::<(), AccessControlError>(AccessControlError::NotAdmin)
            &&& t.admin_check(new_admin) is Ok
            &&& t.reported_role(current) == Role::NoRole
            &&& t.reported_role(new_admin) == Role::Admin
        }),
{
}

} // verus!
