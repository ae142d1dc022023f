//! Privileged marketplace actions under a multisig quorum, timelocked
//! upgrades, and timelocked migration of dependency addresses.
use vstd::prelude::*;
use crate::types::{Addr, KoraError, MultisigConfig, UPGRADE_TIMELOCK_DELAY, WasmHash, seq_has, valid_bps, vec_contains};
use crate::marketplace::{
    AdminProposal, DependencyField, MarketplaceAction, MarketplaceConfig, MarketplaceContract, MarketView,
    dependency_ordinal_spec, quorum_required,
};

verus! {

broadcast use vstd::std_specs::hash::group_hash_axioms;

/// The configuration `c` with the dependency `field` pointed at `a`.
pub open spec fn dependency_replaced(c: MarketplaceConfig, field: DependencyField, a: Addr) -> MarketplaceConfig {
    match field {
        DependencyField::InvoiceNft => MarketplaceConfig { invoice_nft: a, ..c },
        DependencyField::FinancingPool => MarketplaceConfig { financing_pool: a, ..c },
        DependencyField::Treasury => MarketplaceConfig { treasury: a, ..c },
        DependencyField::AccessControl => MarketplaceConfig { access_control: a, ..c },
        DependencyField::RiskRegistry => MarketplaceConfig { risk_registry: a, ..c },
    }
}

/// The proposal `new` is `old` with `a` appended to its approvals.
pub open spec fn admin_approval_added(old: AdminProposal, new: AdminProposal, a: Addr) -> bool {
    &&& new.id == old.id
    &&& new.action == old.action
    &&& new.approvals@ == old.approvals@.push(a)
    &&& new.executed == old.executed
    &&& new.created_at == old.created_at
}

/// The proposal `new` is `old` marked executed.
pub open spec fn admin_proposal_executed(old: AdminProposal, new: AdminProposal) -> bool {
    &&& new.id == old.id
    &&& new.action == old.action
    &&& new.approvals@ == old.approvals@
    &&& new.executed
    &&& new.created_at == old.created_at
}

impl MarketView {
    /// The multisig that governs the marketplace: the one access control
    /// reports, where an access-control contract is wired.
    pub open spec fn multisig_of(self, multisig: Option<MultisigConfig>) -> Option<MultisigConfig> {
        if self.legacy.access_control is Some {
            multisig
        } else {
            None
        }
    }

    /// The outcome of checking that `who` is a signer of the governing multisig.
    pub open spec fn signer_outcome(self, who: Addr, multisig: Option<MultisigConfig>) -> Result<(), KoraError> {
        match self.multisig_of(multisig) {
            None => Err(KoraError::MultisigNotConfigured),
            Some(cfg) => if seq_has(cfg.signers@, who) {
                Ok(())
            } else {
                Err(KoraError::NotMultisigSigner)
            },
        }
    }

    /// The outcome of executing the pending upgrade at `now`.
    pub open spec fn upgrade_outcome(self, now: u64) -> Result<WasmHash, KoraError> {
        match self.upgrade_proposal {
            None => Err(KoraError::NoUpgradeProposed),
            Some(p) => if now < p.1 + UPGRADE_TIMELOCK_DELAY {
                Err(KoraError::UpgradeTimelockNotElapsed)
            } else {
                Ok(p.0)
            },
        }
    }

    /// The storage after `action` is applied at `now`, or its error.
    pub open spec fn action_applied(self, now: u64, action: MarketplaceAction) -> Result<MarketView, KoraError> {
        match action {
            MarketplaceAction::SetFeeBps(b) => match self.rate_outcome(b) {
                Ok(()) => Ok(self.fee_set(b)),
                Err(e) => Err(e),
            },
            MarketplaceAction::SetReferrerSplitBps(b) => match self.rate_outcome(b) {
                Ok(()) => Ok(self.split_set(b)),
                Err(e) => Err(e),
            },
            MarketplaceAction::SetTierFeeBps(o, b) => if valid_bps(b) {
                Ok(MarketView { tier_fee_bps: self.tier_fee_bps.insert(o, b), ..self })
            } else {
                Err(KoraError::InvalidFeeRate)
            },
            MarketplaceAction::WhitelistToken(t) => Ok(
                MarketView { whitelisted: self.whitelisted.insert(t, true), ..self },
            ),
            MarketplaceAction::RemoveTokenWhitelist(t) => match self.removal_outcome(t) {
                Ok(()) => Ok(MarketView { whitelisted: self.whitelisted.remove(t), ..self }),
                Err(e) => Err(e),
            },
            MarketplaceAction::ProposeUpgrade(h) => Ok(
                MarketView { upgrade_proposal: Some((h, now)), ..self },
            ),
            MarketplaceAction::ExecuteUpgrade => match self.upgrade_outcome(now) {
                Ok(_) => Ok(MarketView { upgrade_proposal: None, ..self }),
                Err(e) => Err(e),
            },
        }
    }
}

impl MarketplaceContract {
    /// The governing multisig, or `MultisigNotConfigured`.
    fn require_multisig<'a>(&self, multisig: &'a Option<MultisigConfig>) -> (r: Result<&'a MultisigConfig, KoraError>)
        ensures
            match r {
                Ok(cfg) => self@.multisig_of(*multisig) == Some(*cfg),
                Err(e) => self@.multisig_of(*multisig) is None && e == KoraError::MultisigNotConfigured,
            },
    {
        if self.legacy.access_control.is_none() {
            return Err(KoraError::MultisigNotConfigured);
        }
        match multisig {
            Some(cfg) => Ok(cfg),
            None => Err(KoraError::MultisigNotConfigured),
        }
    }

    /// Check that `who` signs for the governing multisig; its threshold on success.
    fn require_signer(&self, who: Addr, multisig: &Option<MultisigConfig>) -> (r: Result<u32, KoraError>)
        ensures
            match r {
                Ok(t) => self@.signer_outcome(who, *multisig) is Ok && t == self@.multisig_of(
                    *multisig,
                )->Some_0.threshold,
                Err(e) => self@.signer_outcome(who, *multisig) == Err::<(), KoraError>(e),
            },
    {
        let cfg = self.require_multisig(multisig)?;
        if !vec_contains(&cfg.signers, who) {
            return Err(KoraError::NotMultisigSigner);
        }
        Ok(cfg.threshold)
    }

    /// Record the upgrade to `new_wasm_hash` proposed at `now`.
    fn apply_propose_upgrade(&mut self, now: u64, new_wasm_hash: WasmHash)
        requires
            old(self)@.wf(),
        ensures
            final(self)@.wf(),
            final(self)@ == (MarketView { upgrade_proposal: Some((new_wasm_hash, now)), ..old(self)@ }),
    {
        self.upgrade_proposal = Some((new_wasm_hash, now));
    }

    /// Consume the pending upgrade once its timelock has elapsed; the code
    /// hash to install comes back.
    fn apply_execute_upgrade(&mut self, now: u64) -> (r: Result<WasmHash, KoraError>)
        requires
            old(self)@.wf(),
        ensures
            final(self)@.wf(),
            r == old(self)@.upgrade_outcome(now),
            r is Err ==> final(self)@ == old(self)@,
            r is Ok ==> final(self)@ == (MarketView { upgrade_proposal: None, ..old(self)@ }),
    {
        let (wasm_hash, proposed_at) = match self.upgrade_proposal {
            Some(p) => p,
            None => {
                return Err(KoraError::NoUpgradeProposed);
            },
        };
        if (now as u128) < (proposed_at as u128) + (UPGRADE_TIMELOCK_DELAY as u128) {
            return Err(KoraError::UpgradeTimelockNotElapsed);
        }
        self.upgrade_proposal = None;
        Ok(wasm_hash)
    }

    /// Apply `action` at `now`; an upgrade's code hash comes back.
    fn apply_action(&mut self, now: u64, action: MarketplaceAction) -> (r: Result<Option<WasmHash>, KoraError>)
        requires
            old(self)@.wf(),
        ensures
            final(self)@.wf(),
            r is Ok <==> old(self)@.action_applied(now, action) is Ok,
            r is Err ==> final(self)@ == old(self)@ && r->Err_0 == old(self)@.action_applied(
                now,
                action,
            )->Err_0,
            r is Ok ==> final(self)@ == old(self)@.action_applied(now, action)->Ok_0,
            r matches Ok(h) ==> (action == MarketplaceAction::ExecuteUpgrade ==> h == Some(
                old(self)@.upgrade_outcome(now)->Ok_0,
            )) && (action != MarketplaceAction::ExecuteUpgrade ==> h is None),
    {
        match action {
            MarketplaceAction::SetFeeBps(b) => {
                self.apply_set_fee_bps(b)?;
                Ok(None)
            },
            MarketplaceAction::SetReferrerSplitBps(b) => {
                self.apply_set_referrer_split_bps(b)?;
                Ok(None)
            },
            MarketplaceAction::SetTierFeeBps(o, b) => {
                self.apply_set_tier_fee_bps(o, b)?;
                Ok(None)
            },
            MarketplaceAction::WhitelistToken(t) => {
                self.apply_whitelist_token(t);
                Ok(None)
            },
            MarketplaceAction::RemoveTokenWhitelist(t) => {
                self.apply_remove_token_whitelist(t)?;
                Ok(None)
            },
            MarketplaceAction::ProposeUpgrade(h) => {
                self.apply_propose_upgrade(now, h);
                Ok(None)
            },
            MarketplaceAction::ExecuteUpgrade => {
                let h = self.apply_execute_upgrade(now)?;
                Ok(Some(h))
            },
        }
    }

    /// Propose an upgrade to `new_wasm_hash` at `now`. Admin only, and not
    /// directly where access control requires a quorum.
    pub fn propose_upgrade(&mut self, now: u64, admin: Addr, new_wasm_hash: WasmHash, multisig: &Option<MultisigConfig>) -> (r:
        Result<(), KoraError>)
        requires
            old(self)@.wf(),
        ensures
            final(self)@.wf(),
            r == old(self)@.direct_gate(admin, *multisig),
            r is Err ==> final(self)@ == old(self)@,
            r is Ok ==> final(self)@ == (MarketView {
                upgrade_proposal: Some((new_wasm_hash, now)),
                ..old(self)@.migrated()
            }),
    {
        self.require_admin(admin)?;
        self.require_direct_admin_allowed(multisig)?;
        self.persist_config();
        self.apply_propose_upgrade(now, new_wasm_hash);
        Ok(())
    }

    /// Execute the pending upgrade once its timelock has elapsed; the code
    /// hash to install comes back. Admin only, and not directly where access
    /// control requires a quorum.
    pub fn execute_upgrade(&mut self, now: u64, admin: Addr, multisig: &Option<MultisigConfig>) -> (r: Result<
        WasmHash,
        KoraError,
    >)
        requires
            old(self)@.wf(),
        ensures
            final(self)@.wf(),
            r == (if old(self)@.direct_gate(admin, *multisig) is Err {
                Err(old(self)@.direct_gate(admin, *multisig)->Err_0)
            } else {
                old(self)@.upgrade_outcome(now)
            }),
            r is Err ==> final(self)@ == old(self)@,
            r is Ok ==> final(self)@ == (MarketView { upgrade_proposal: None, ..old(self)@.migrated() }),
    {
        self.require_admin(admin)?;
        self.require_direct_admin_allowed(multisig)?;
        let h = self.apply_execute_upgrade(now)?;
        self.persist_config();
        Ok(h)
    }

    /// A signer of the governing multisig proposes `action` at `now`; the
    /// proposal carries the proposer's approval and its id comes back.
    pub fn propose_admin_action(
        &mut self,
        now: u64,
        proposer: Addr,
        action: MarketplaceAction,
        multisig: &Option<MultisigConfig>,
    ) -> (r: Result<u64, KoraError>)
        requires
            old(self)@.wf(),
        ensures
            final(self)@.wf(),
            ({
                let id = match old(self)@.next_admin_proposal_id {
                    Some(n) => n,
                    None => 1,
                };
                if old(self)@.signer_outcome(proposer, *multisig) is Err {
                    r == Err::<u64, KoraError>(old(self)@.signer_outcome(proposer, *multisig)->Err_0)
                } else if id == u64::MAX {
                    r == Err::<u64, KoraError>(KoraError::ArithmeticOverflow)
                } else {
                    &&& r == Ok::<u64, KoraError>(id)
                    &&& final(self)@.admin_proposals.contains_key(id)
                    &&& final(self)@.admin_proposals[id].id == id
                    &&& final(self)@.admin_proposals[id].action == action
                    &&& final(self)@.admin_proposals[id].approvals@ == seq![proposer]
                    &&& !final(self)@.admin_proposals[id].executed
                    &&& final(self)@.admin_proposals[id].created_at == now
                    &&& final(self)@ == (MarketView {
                        admin_proposals: final(self)@.admin_proposals,
                        next_admin_proposal_id: Some((id + 1) as u64),
                        ..old(self)@
                    })
                    &&& final(self)@.admin_proposals.remove(id) == old(self)@.admin_proposals.remove(id)
                }
            }),
            r is Err ==> final(self)@ == old(self)@,
    {
        self.require_signer(proposer, multisig)?;
        let id = match self.next_admin_proposal_id {
            Some(n) => n,
            None => 1,
        };
        if id == u64::MAX {
            return Err(KoraError::ArithmeticOverflow);
        }
        let mut approvals: Vec<Addr> = Vec::new();
        approvals.push(proposer);
        self.admin_proposals.insert(id, AdminProposal { id, action, approvals, executed: false, created_at: now });
        self.next_admin_proposal_id = Some(id + 1);
        proof {
            assert(self@.admin_proposals.remove(id) =~= old(self)@.admin_proposals.remove(id));
        }
        Ok(id)
    }

    /// A signer of the governing multisig approves proposal `proposal_id`,
    /// once, while it is not executed.
    pub fn approve_admin_action(&mut self, approver: Addr, proposal_id: u64, multisig: &Option<MultisigConfig>) -> (r:
        Result<(), KoraError>)
        requires
            old(self)@.wf(),
        ensures
            final(self)@.wf(),
            r == (if old(self)@.signer_outcome(approver, *multisig) is Err {
                old(self)@.signer_outcome(approver, *multisig)
            } else if !old(self)@.admin_proposals.contains_key(proposal_id) {
                Err(KoraError::ParameterProposalNotFound)
            } else if old(self)@.admin_proposals[proposal_id].executed {
                Err(KoraError::ParameterProposalAlreadyExecuted)
            } else if seq_has(old(self)@.admin_proposals[proposal_id].approvals@, approver) {
                Err(KoraError::AlreadyVoted)
            } else {
                Ok(())
            }),
            r is Err ==> final(self)@ == old(self)@,
            r is Ok ==> {
                &&& final(self)@.admin_proposals.contains_key(proposal_id)
                &&& admin_approval_added(
                    old(self)@.admin_proposals[proposal_id],
                    final(self)@.admin_proposals[proposal_id],
                    approver,
                )
                &&& final(self)@ == (MarketView { admin_proposals: final(self)@.admin_proposals, ..old(self)@ })
                &&& final(self)@.admin_proposals.remove(proposal_id) == old(self)@.admin_proposals.remove(
                    proposal_id,
                )
            },
    {
        self.require_signer(approver, multisig)?;
        match self.admin_proposals.get(&proposal_id) {
            None => {
                return Err(KoraError::ParameterProposalNotFound);
            },
            Some(p) => {
                if p.executed {
                    return Err(KoraError::ParameterProposalAlreadyExecuted);
                }
                if vec_contains(&p.approvals, approver) {
                    return Err(KoraError::AlreadyVoted);
                }
            },
        }
        let mut p = self.admin_proposals.remove(&proposal_id).unwrap();
        p.approvals.push(approver);
        self.admin_proposals.insert(proposal_id, p);
        proof {
            assert(self@.admin_proposals.remove(proposal_id) =~= old(self)@.admin_proposals.remove(
                proposal_id,
            ));
        }
        Ok(())
    }

    /// A signer of the governing multisig executes proposal `proposal_id`
    /// once it has as many approvals as the threshold: the proposal is marked
    /// executed and its action applied. An upgrade's code hash comes back.
    pub fn execute_admin_action(&mut self, now: u64, executor: Addr, proposal_id: u64, multisig: &Option<MultisigConfig>) -> (r:
        Result<Option<WasmHash>, KoraError>)
        requires
            old(self)@.wf(),
        ensures
            final(self)@.wf(),
            r is Err ==> final(self)@ == old(self)@,
            ({
                let s = old(self)@;
                let p = s.admin_proposals[proposal_id];
                if s.signer_outcome(executor, *multisig) is Err {
                    r == Err::<Option<WasmHash>, KoraError>(s.signer_outcome(executor, *multisig)->Err_0)
                } else if !s.admin_proposals.contains_key(proposal_id) {
                    r == Err::<Option<WasmHash>, KoraError>(KoraError::ParameterProposalNotFound)
                } else if p.executed {
                    r == Err::<Option<WasmHash>, KoraError>(KoraError::ParameterProposalAlreadyExecuted)
                } else if p.approvals@.len() < s.multisig_of(*multisig)->Some_0.threshold {
                    r == Err::<Option<WasmHash>, KoraError>(KoraError::GovernanceThresholdNotMet)
                } else if s.loaded_config() is None {
                    r == Err::<Option<WasmHash>, KoraError>(KoraError::NotInitialized)
                } else {
                    exists|t: MarketView|
                        {
                            &&& #[trigger] t.admin_proposals.contains_key(proposal_id)
                            &&& admin_proposal_executed(p, t.admin_proposals[proposal_id])
                            &&& t == (MarketView { admin_proposals: t.admin_proposals, ..s.migrated() })
                            &&& t.admin_proposals.remove(proposal_id) == s.admin_proposals.remove(proposal_id)
                            &&& match t.action_applied(now, p.action) {
                                Err(e) => r == Err::<Option<WasmHash>, KoraError>(e),
                                Ok(u) => {
                                    &&& final(self)@ == u
                                    &&& r == Ok::<Option<WasmHash>, KoraError>(
                                        if p.action == MarketplaceAction::ExecuteUpgrade {
                                            Some(t.upgrade_outcome(now)->Ok_0)
                                        } else {
                                            None
                                        },
                                    )
                                },
                            }
                        }
                }
            }),
    {
        let threshold = self.require_signer(executor, multisig)?;
        match self.admin_proposals.get(&proposal_id) {
            None => {
                return Err(KoraError::ParameterProposalNotFound);
            },
            Some(p) => {
                if p.executed {
                    return Err(KoraError::ParameterProposalAlreadyExecuted);
                }
                if p.approvals.len() < threshold as usize {
                    return Err(KoraError::GovernanceThresholdNotMet);
                }
            },
        }
        self.load_config()?;
        let ghost s = self@;
        let saved_config = self.config;
        let mut p = self.admin_proposals.remove(&proposal_id).unwrap();
        let action = p.action;
        p.executed = true;
        self.admin_proposals.insert(proposal_id, p);
        self.persist_config();
        let ghost t = self@;
        proof {
            assert(t.admin_proposals.remove(proposal_id) =~= s.admin_proposals.remove(proposal_id));
            assert(t == (MarketView { admin_proposals: t.admin_proposals, ..s.migrated() }));
        }
        let r = self.apply_action(now, action);
        match r {
            Ok(h) => Ok(h),
            Err(e) => {
                self.config = saved_config;
                let mut p = self.admin_proposals.remove(&proposal_id).unwrap();
                p.executed = false;
                self.admin_proposals.insert(proposal_id, p);
                proof {
                    assert(t.admin_proposals.contains_key(proposal_id));
                    assert(self@.admin_proposals =~= s.admin_proposals);
                    assert(self@ =~= s);
                }
                Err(e)
            },
        }
    }

    /// Proposal `proposal_id`.
    pub fn get_admin_proposal(&self, proposal_id: u64) -> (r: Result<&AdminProposal, KoraError>)
        ensures
            match r {
                Ok(p) => self@.admin_proposals.contains_key(proposal_id) && *p == self@.admin_proposals[proposal_id],
                Err(e) => !self@.admin_proposals.contains_key(proposal_id) && e
                    == KoraError::ParameterProposalNotFound,
            },
    {
        match self.admin_proposals.get(&proposal_id) {
            Some(p) => Ok(p),
            None => Err(KoraError::ParameterProposalNotFound),
        }
    }

    /// Whether privileged calls need the multisig quorum rather than the
    /// admin alone.
    pub fn is_multisig_required(&self, multisig: &Option<MultisigConfig>) -> (r: bool)
        ensures
            r == quorum_required(self@.multisig_of(*multisig)),
    {
        match self.require_multisig(multisig) {
            Ok(cfg) => cfg.threshold > 1,
            Err(_) => false,
        }
    }

    /// Propose pointing dependency `field` at `new_address` at `now`; it can
    /// be executed once the timelock has elapsed. Admin only.
    pub fn propose_dependency_update(&mut self, now: u64, admin: Addr, field: DependencyField, new_address: Addr) -> (r:
        Result<(), KoraError>)
        requires
            old(self)@.wf(),
        ensures
            final(self)@.wf(),
            r == old(self)@.admin_check(admin),
            r is Err ==> final(self)@ == old(self)@,
            r is Ok ==> final(self)@ == (MarketView {
                dependency_proposals: old(self)@.dependency_proposals.insert(
                    dependency_ordinal_spec(field),
                    (new_address, now),
                ),
                ..old(self)@.migrated()
            }),
    {
        self.require_admin(admin)?;
        let ordinal = Self::dependency_field_ordinal(field);
        self.persist_config();
        self.dependency_proposals.insert(ordinal, (new_address, now));
        Ok(())
    }

    /// Point dependency `field` at its proposed address once the timelock
    /// has elapsed; the proposal is consumed. Admin only.
    pub fn execute_dependency_update(&mut self, now: u64, admin: Addr, field: DependencyField) -> (r: Result<
        (),
        KoraError,
    >)
        requires
            old(self)@.wf(),
        ensures
            final(self)@.wf(),
            ({
                let s = old(self)@;
                let o = dependency_ordinal_spec(field);
                if s.admin_check(admin) is Err {
                    r == s.admin_check(admin)
                } else if !s.dependency_proposals.contains_key(o) {
                    r == Err::<(), KoraError>(KoraError::NoDependencyUpdateProposed)
                } else if now < s.dependency_proposals[o].1 + UPGRADE_TIMELOCK_DELAY {
                    r == Err::<(), KoraError>(KoraError::DependencyUpdateTimelockNotElapsed)
                } else {
                    &&& r is Ok
                    &&& final(self)@ == (MarketView {
                        dependency_proposals: s.dependency_proposals.remove(o),
                        config: Some(
                            dependency_replaced(s.loaded_config()->Some_0, field, s.dependency_proposals[o].0),
                        ),
                        ..s
                    })
                }
            }),
            r is Err ==> final(self)@ == old(self)@,
    {
        let mut c = self.load_config()?;
        if c.admin != admin {
            return Err(KoraError::NotAdmin);
        }
        let ordinal = Self::dependency_field_ordinal(field);
        let (new_address, proposed_at) = match self.dependency_proposals.get(&ordinal) {
            Some(p) => *p,
            None => {
                return Err(KoraError::NoDependencyUpdateProposed);
            },
        };
        if (now as u128) < (proposed_at as u128) + (UPGRADE_TIMELOCK_DELAY as u128) {
            return Err(KoraError::DependencyUpdateTimelockNotElapsed);
        }
        self.dependency_proposals.remove(&ordinal);
        match field {
            DependencyField::InvoiceNft => c.invoice_nft = new_address,
            DependencyField::FinancingPool => c.financing_pool = new_address,
            DependencyField::Treasury => c.treasury = new_address,
            DependencyField::AccessControl => c.access_control = new_address,
            DependencyField::RiskRegistry => c.risk_registry = new_address,
        }
        self.config = Some(c);
        Ok(())
    }
}

} // verus!
