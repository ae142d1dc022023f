//! Initialization and the admin's settings of the marketplace: fees, the
//! contribution floor and share cap, investor accreditation, the token
//! whitelist with its timelock, token currencies, exposure caps and priority
//! windows.
use vstd::prelude::*;
use crate::types::{
    Addr, KoraError, MultisigConfig, RiskTier, UPGRADE_TIMELOCK_DELAY, require_valid_fee_bps,
    valid_bps, vec_contains,
};
use crate::access_control::with_member;
use crate::marketplace::{
    MarketplaceConfig, MarketplaceContract, MarketView, PriorityWindow, LegacyKeys, tier_ordinal_spec,
};

verus! {

broadcast use vstd::std_specs::hash::group_hash_axioms;

/// `s` without any occurrence of `a`, the others in order.
pub open spec fn without_token(s: Seq<Addr>, a: Addr) -> Seq<Addr>
    decreases s.len(),
{
    if s.len() == 0 {
        s
    } else {
        let rest = without_token(s.drop_last(), a);
        if s.last() != a {
            rest.push(s.last())
        } else {
            rest
        }
    }
}

impl MarketView {
    /// The outcome of an admin's direct call: the admin check, then the
    /// quorum check against the multisig that access control reports.
    pub open spec fn direct_gate(self, admin: Addr, multisig: Option<MultisigConfig>) -> Result<(), KoraError> {
        if self.admin_check(admin) is Err {
            self.admin_check(admin)
        } else {
            self.direct_admin_check(multisig)
        }
    }

    /// The storage with the configuration `c` stored.
    pub open spec fn with_config(self, c: MarketplaceConfig) -> MarketView {
        MarketView { config: Some(c), ..self }
    }

    /// The configuration with the fallback fee set to `fee_bps`.
    pub open spec fn fee_set(self, fee_bps: u32) -> MarketView {
        self.with_config(MarketplaceConfig { fee_bps, ..self.loaded_config()->Some_0 })
    }

    /// The configuration with the referrer split set to `bps`.
    pub open spec fn split_set(self, bps: u32) -> MarketView {
        self.with_config(MarketplaceConfig { referrer_split_bps: bps, ..self.loaded_config()->Some_0 })
    }

    /// The outcome of applying a fee-like rate `bps` to the configuration.
    pub open spec fn rate_outcome(self, bps: u32) -> Result<(), KoraError> {
        if !valid_bps(bps) {
            Err(KoraError::InvalidFeeRate)
        } else if self.loaded_config() is None {
            Err(KoraError::NotInitialized)
        } else {
            Ok(())
        }
    }

    /// The outcome of removing `token` from the whitelist.
    pub open spec fn removal_outcome(self, token: Addr) -> Result<(), KoraError> {
        if !self.is_whitelisted(token) {
            Err(KoraError::TokenNotWhitelisted)
        } else {
            Ok(())
        }
    }
}

impl MarketplaceContract {
    /// One-time initialization. The referrer split starts at zero whatever
    /// `referrer_split_bps` says; `set_referrer_split_bps` configures it.
    pub fn initialize(
        &mut self,
        admin: Addr,
        invoice_nft: Addr,
        financing_pool: Addr,
        treasury: Addr,
        access_control: Addr,
        price_oracle: Addr,
        risk_registry: Addr,
        fee_bps: u32,
        referrer_split_bps: u32,
    ) -> (r: Result<(), KoraError>)
        requires
            old(self)@.wf(),
        ensures
            final(self)@.wf(),
            r == (if old(self)@.config is Some {
                Err(KoraError::AlreadyInitialized)
            } else if !valid_bps(fee_bps) {
                Err(KoraError::InvalidFeeRate)
            } else {
                Ok(())
            }),
            r is Err ==> final(self)@ == old(self)@,
            r is Ok ==> final(self)@ == (MarketView {
                config: Some(
                    MarketplaceConfig {
                        admin,
                        invoice_nft,
                        financing_pool,
                        treasury,
                        access_control,
                        price_oracle,
                        risk_registry,
                        fee_bps,
                        referrer_split_bps: 0,
                    },
                ),
                legacy: LegacyKeys {
                    admin: Some(admin),
                    invoice_nft: Some(invoice_nft),
                    financing_pool: Some(financing_pool),
                    treasury: Some(treasury),
                    access_control: Some(access_control),
                    price_oracle: Some(price_oracle),
                    risk_registry: old(self)@.legacy.risk_registry,
                    fee_bps: Some(fee_bps),
                },
                ..old(self)@
            }),
    {
        if self.config.is_some() {
            return Err(KoraError::AlreadyInitialized);
        }
        match require_valid_fee_bps(fee_bps) {
            Ok(()) => {},
            Err(e) => {
                return Err(KoraError::from(e));
            },
        }
        self.legacy.admin = Some(admin);
        self.legacy.invoice_nft = Some(invoice_nft);
        self.legacy.financing_pool = Some(financing_pool);
        self.legacy.treasury = Some(treasury);
        self.legacy.fee_bps = Some(fee_bps);
        self.legacy.access_control = Some(access_control);
        self.legacy.price_oracle = Some(price_oracle);
        self.config = Some(
            MarketplaceConfig {
                admin,
                invoice_nft,
                financing_pool,
                treasury,
                access_control,
                price_oracle,
                risk_registry,
                fee_bps,
                referrer_split_bps: 0,
            },
        );
        Ok(())
    }

    /// Set the fallback fee: a rate of at most 100%.
    pub(crate) fn apply_set_fee_bps(&mut self, fee_bps: u32) -> (r: Result<(), KoraError>)
        requires
            old(self)@.wf(),
        ensures
            final(self)@.wf(),
            r == old(self)@.rate_outcome(fee_bps),
            r is Err ==> final(self)@ == old(self)@,
            r is Ok ==> final(self)@ == old(self)@.fee_set(fee_bps),
    {
        match require_valid_fee_bps(fee_bps) {
            Ok(()) => {},
            Err(e) => {
                return Err(KoraError::from(e));
            },
        }
        let mut c = self.load_config()?;
        c.fee_bps = fee_bps;
        self.config = Some(c);
        Ok(())
    }

    /// Set the referrer split: a rate of at most 100%.
    pub(crate) fn apply_set_referrer_split_bps(&mut self, bps: u32) -> (r: Result<(), KoraError>)
        requires
            old(self)@.wf(),
        ensures
            final(self)@.wf(),
            r == old(self)@.rate_outcome(bps),
            r is Err ==> final(self)@ == old(self)@,
            r is Ok ==> final(self)@ == old(self)@.split_set(bps),
    {
        match require_valid_fee_bps(bps) {
            Ok(()) => {},
            Err(e) => {
                return Err(KoraError::from(e));
            },
        }
        let mut c = self.load_config()?;
        c.referrer_split_bps = bps;
        self.config = Some(c);
        Ok(())
    }

    /// Set the fee override of the tier with ordinal `ordinal`.
    pub(crate) fn apply_set_tier_fee_bps(&mut self, ordinal: u32, fee_bps: u32) -> (r: Result<(), KoraError>)
        requires
            old(self)@.wf(),
        ensures
            final(self)@.wf(),
            r is Ok <==> valid_bps(fee_bps),
            r is Err ==> r == Err::<(), KoraError>(KoraError::InvalidFeeRate) && final(self)@ == old(self)@,
            r is Ok ==> final(self)@ == (MarketView {
                tier_fee_bps: old(self)@.tier_fee_bps.insert(ordinal, fee_bps),
                ..old(self)@
            }),
    {
        match require_valid_fee_bps(fee_bps) {
            Ok(()) => {},
            Err(e) => {
                return Err(KoraError::from(e));
            },
        }
        self.tier_fee_bps.insert(ordinal, fee_bps);
        Ok(())
    }

    /// Mark `token` whitelisted.
    pub(crate) fn apply_whitelist_token(&mut self, token: Addr)
        requires
            old(self)@.wf(),
        ensures
            final(self)@.wf(),
            final(self)@ == (MarketView {
                whitelisted: old(self)@.whitelisted.insert(token, true),
                ..old(self)@
            }),
    {
        self.whitelisted.insert(token, true);
    }

    /// Take `token` off the whitelist; an error if it is not on it.
    pub(crate) fn apply_remove_token_whitelist(&mut self, token: Addr) -> (r: Result<(), KoraError>)
        requires
            old(self)@.wf(),
        ensures
            final(self)@.wf(),
            r == old(self)@.removal_outcome(token),
            r is Err ==> final(self)@ == old(self)@,
            r is Ok ==> final(self)@ == (MarketView {
                whitelisted: old(self)@.whitelisted.remove(token),
                ..old(self)@
            }),
    {
        if !self.is_token_whitelisted(token) {
            return Err(KoraError::TokenNotWhitelisted);
        }
        self.whitelisted.remove(&token);
        Ok(())
    }

    /// Set the referrer split. Admin only, and not directly where access
    /// control requires a quorum (`multisig` is the configuration it reports).
    pub fn set_referrer_split_bps(&mut self, admin: Addr, referrer_split_bps: u32, multisig: &Option<MultisigConfig>) -> (r:
        Result<(), KoraError>)
        requires
            old(self)@.wf(),
        ensures
            final(self)@.wf(),
            r == (if old(self)@.direct_gate(admin, *multisig) is Err {
                old(self)@.direct_gate(admin, *multisig)
            } else {
                old(self)@.rate_outcome(referrer_split_bps)
            }),
            r is Err ==> final(self)@ == old(self)@,
            r is Ok ==> final(self)@ == old(self)@.split_set(referrer_split_bps),
    {
        self.require_admin(admin)?;
        self.require_direct_admin_allowed(multisig)?;
        self.apply_set_referrer_split_bps(referrer_split_bps)
    }

    /// Set the fallback fee, which applies until access control governs one.
    /// Admin only, and not directly where access control requires a quorum.
    pub fn set_fee_bps(&mut self, admin: Addr, fee_bps: u32, multisig: &Option<MultisigConfig>) -> (r: Result<
        (),
        KoraError,
    >)
        requires
            old(self)@.wf(),
        ensures
            final(self)@.wf(),
            r == (if old(self)@.direct_gate(admin, *multisig) is Err {
                old(self)@.direct_gate(admin, *multisig)
            } else {
                old(self)@.rate_outcome(fee_bps)
            }),
            r is Err ==> final(self)@ == old(self)@,
            r is Ok ==> final(self)@ == old(self)@.fee_set(fee_bps),
    {
        self.require_admin(admin)?;
        self.require_direct_admin_allowed(multisig)?;
        self.apply_set_fee_bps(fee_bps)
    }

    /// Another name for `set_fee_bps`.
    pub fn update_fee_bps(&mut self, admin: Addr, fee_bps: u32, multisig: &Option<MultisigConfig>) -> (r: Result<
        (),
        KoraError,
    >)
        requires
            old(self)@.wf(),
        ensures
            final(self)@.wf(),
            r == (if old(self)@.direct_gate(admin, *multisig) is Err {
                old(self)@.direct_gate(admin, *multisig)
            } else {
                old(self)@.rate_outcome(fee_bps)
            }),
            r is Err ==> final(self)@ == old(self)@,
            r is Ok ==> final(self)@ == old(self)@.fee_set(fee_bps),
    {
        self.set_fee_bps(admin, fee_bps, multisig)
    }

    /// The flat fee: `gov_fee_bps`, the value access control governs, where
    /// there is one, else the configured fallback.
    pub fn get_fee_bps(&mut self, gov_fee_bps: Option<u32>) -> (r: Result<u32, KoraError>)
        requires
            old(self)@.wf(),
        ensures
            final(self)@.wf(),
            r == (match old(self)@.config_check() {
                Err(e) => Err(e),
                Ok(c) => MarketView::base_fee(c, gov_fee_bps),
            }),
            r is Err ==> final(self)@ == old(self)@,
            r is Ok ==> final(self)@ == old(self)@.migrated(),
    {
        let c = self.load_config()?;
        let fee = Self::base_fee_bps(&c, gov_fee_bps)?;
        self.persist_config();
        Ok(fee)
    }

    /// Set the minimum contribution; a negative floor is an invalid amount.
    /// Admin only.
    pub fn set_min_contribution(&mut self, admin: Addr, min_contribution: i128) -> (r: Result<(), KoraError>)
        requires
            old(self)@.wf(),
        ensures
            final(self)@.wf(),
            r == (if old(self)@.admin_check(admin) is Err {
                old(self)@.admin_check(admin)
            } else if min_contribution < 0 {
                Err(KoraError::InvalidAmount)
            } else {
                Ok(())
            }),
            r is Err ==> final(self)@ == old(self)@,
            r is Ok ==> final(self)@ == (MarketView {
                min_contribution: Some(min_contribution),
                ..old(self)@.migrated()
            }),
    {
        self.require_admin(admin)?;
        if min_contribution < 0 {
            return Err(KoraError::InvalidAmount);
        }
        self.persist_config();
        self.min_contribution = Some(min_contribution);
        Ok(())
    }

    /// The minimum contribution, `DEFAULT_MIN_CONTRIBUTION` until set.
    pub fn get_min_contribution(&self) -> (r: i128)
        ensures
            r == self@.min_floor(),
    {
        match self.min_contribution {
            Some(m) => m,
            None => crate::marketplace::DEFAULT_MIN_CONTRIBUTION,
        }
    }

    /// Cap the share of a listing's asking price that one investor may fund,
    /// in basis points; zero is uncapped. Admin only.
    pub fn set_max_investor_share_bps(&mut self, admin: Addr, max_bps: u32) -> (r: Result<(), KoraError>)
        requires
            old(self)@.wf(),
        ensures
            final(self)@.wf(),
            r == (if old(self)@.admin_check(admin) is Err {
                old(self)@.admin_check(admin)
            } else if !valid_bps(max_bps) {
                Err(KoraError::InvalidFeeRate)
            } else {
                Ok(())
            }),
            r is Err ==> final(self)@ == old(self)@,
            r is Ok ==> final(self)@ == (MarketView {
                max_investor_share_bps: Some(max_bps),
                ..old(self)@.migrated()
            }),
    {
        self.require_admin(admin)?;
        match require_valid_fee_bps(max_bps) {
            Ok(()) => {},
            Err(e) => {
                return Err(KoraError::from(e));
            },
        }
        self.persist_config();
        self.max_investor_share_bps = Some(max_bps);
        Ok(())
    }

    /// The per-investor share cap in basis points; zero until set (uncapped).
    pub fn get_max_investor_share_bps(&self) -> (r: u32)
        ensures
            r == self@.share_cap_bps(),
    {
        match self.max_investor_share_bps {
            Some(b) => b,
            None => 0,
        }
    }

    /// Mark `investor` accredited or not; only accredited investors fund.
    /// Admin only.
    pub fn set_investor_accredited(&mut self, admin: Addr, investor: Addr, accredited: bool) -> (r: Result<
        (),
        KoraError,
    >)
        requires
            old(self)@.wf(),
        ensures
            final(self)@.wf(),
            r == old(self)@.admin_check(admin),
            r is Err ==> final(self)@ == old(self)@,
            r is Ok ==> final(self)@ == (MarketView {
                accredited: old(self)@.migrated().accredited.insert(investor, accredited),
                ..old(self)@.migrated()
            }),
    {
        self.require_admin(admin)?;
        self.persist_config();
        self.accredited.insert(investor, accredited);
        Ok(())
    }

    /// Whether `investor` is accredited; false until set.
    pub fn is_investor_accredited(&self, investor: Addr) -> (r: bool)
        ensures
            r == self@.is_accredited(investor),
    {
        match self.accredited.get(&investor) {
            Some(a) => *a,
            None => false,
        }
    }

    /// Override the fee of risk tier `tier`. Admin only, and not directly
    /// where access control requires a quorum.
    pub fn set_tier_fee_bps(&mut self, admin: Addr, tier: RiskTier, fee_bps: u32, multisig: &Option<MultisigConfig>) -> (r:
        Result<(), KoraError>)
        requires
            old(self)@.wf(),
        ensures
            final(self)@.wf(),
            r == (if old(self)@.direct_gate(admin, *multisig) is Err {
                old(self)@.direct_gate(admin, *multisig)
            } else if !valid_bps(fee_bps) {
                Err(KoraError::InvalidFeeRate)
            } else {
                Ok(())
            }),
            r is Err ==> final(self)@ == old(self)@,
            r is Ok ==> final(self)@ == (MarketView {
                tier_fee_bps: old(self)@.tier_fee_bps.insert(tier_ordinal_spec(tier), fee_bps),
                ..old(self)@.migrated()
            }),
    {
        self.require_admin(admin)?;
        self.require_direct_admin_allowed(multisig)?;
        let ordinal = Self::tier_ordinal(tier);
        self.apply_set_tier_fee_bps(ordinal, fee_bps)?;
        self.persist_config();
        Ok(())
    }

    /// The fee of risk tier `tier`: its override, else the flat fee (the
    /// governed `gov_fee_bps` or the configured fallback).
    pub fn get_tier_fee_bps(&mut self, tier: RiskTier, gov_fee_bps: Option<u32>) -> (r: Result<u32, KoraError>)
        requires
            old(self)@.wf(),
        ensures
            final(self)@.wf(),
            old(self)@.tier_fee_bps.contains_key(tier_ordinal_spec(tier)) ==> r == Ok::<u32, KoraError>(
                old(self)@.tier_fee_bps[tier_ordinal_spec(tier)],
            ) && final(self)@ == old(self)@,
            !old(self)@.tier_fee_bps.contains_key(tier_ordinal_spec(tier)) ==> {
                &&& r == (match old(self)@.config_check() {
                    Err(e) => Err(e),
                    Ok(c) => MarketView::base_fee(c, gov_fee_bps),
                })
                &&& r is Err ==> final(self)@ == old(self)@
                &&& r is Ok ==> final(self)@ == old(self)@.migrated()
            },
    {
        let ordinal = Self::tier_ordinal(tier);
        if let Some(fee) = self.tier_fee_bps.get(&ordinal) {
            return Ok(*fee);
        }
        self.get_fee_bps(gov_fee_bps)
    }

    /// The configuration.
    pub fn get_config(&mut self) -> (r: Result<MarketplaceConfig, KoraError>)
        requires
            old(self)@.wf(),
        ensures
            final(self)@.wf(),
            r == old(self)@.config_check(),
            r is Err ==> final(self)@ == old(self)@,
            r is Ok ==> final(self)@ == old(self)@.migrated(),
    {
        let c = self.load_config()?;
        self.persist_config();
        Ok(c)
    }

    /// The admin.
    pub fn get_admin(&mut self) -> (r: Result<Addr, KoraError>)
        requires
            old(self)@.wf(),
        ensures
            final(self)@.wf(),
            match old(self)@.config_check() {
                Ok(c) => r == Ok::<Addr, KoraError>(c.admin) && final(self)@ == old(self)@.migrated(),
                Err(e) => r == Err::<Addr, KoraError>(e) && final(self)@ == old(self)@,
            },
    {
        let c = self.get_config()?;
        Ok(c.admin)
    }

    /// Propose whitelisting `token` at `now`; it can be executed once the
    /// timelock has elapsed. Admin only.
    pub fn propose_token_whitelist(&mut self, now: u64, admin: Addr, token: Addr) -> (r: Result<(), KoraError>)
        requires
            old(self)@.wf(),
        ensures
            final(self)@.wf(),
            r == old(self)@.admin_check(admin),
            r is Err ==> final(self)@ == old(self)@,
            r is Ok ==> final(self)@ == (MarketView {
                whitelist_proposals: old(self)@.whitelist_proposals.insert(token, now),
                ..old(self)@.migrated()
            }),
    {
        self.require_admin(admin)?;
        self.persist_config();
        self.whitelist_proposals.insert(token, now);
        Ok(())
    }

    /// Whitelist `token` once its proposal is older than the timelock; the
    /// proposal is consumed and the token joins the registry. Admin only.
    pub fn execute_token_whitelist(&mut self, now: u64, admin: Addr, token: Addr) -> (r: Result<(), KoraError>)
        requires
            old(self)@.wf(),
        ensures
            final(self)@.wf(),
            r == (if old(self)@.admin_check(admin) is Err {
                old(self)@.admin_check(admin)
            } else if !old(self)@.whitelist_proposals.contains_key(token) {
                Err(KoraError::NoTokenWhitelistProposed)
            } else if now < old(self)@.whitelist_proposals[token] + UPGRADE_TIMELOCK_DELAY {
                Err(KoraError::TokenWhitelistTimelockNotElapsed)
            } else {
                Ok(())
            }),
            r is Err ==> final(self)@ == old(self)@,
            r is Ok ==> final(self)@ == (MarketView {
                whitelist_proposals: old(self)@.whitelist_proposals.remove(token),
                whitelisted: old(self)@.whitelisted.insert(token, true),
                whitelist_registry: with_member(old(self)@.whitelist_registry, token),
                ..old(self)@.migrated()
            }),
    {
        self.require_admin(admin)?;
        let proposed_at = match self.whitelist_proposals.get(&token) {
            Some(t) => *t,
            None => {
                return Err(KoraError::NoTokenWhitelistProposed);
            },
        };
        if (now as u128) < (proposed_at as u128) + (UPGRADE_TIMELOCK_DELAY as u128) {
            return Err(KoraError::TokenWhitelistTimelockNotElapsed);
        }
        self.persist_config();
        self.whitelist_proposals.remove(&token);
        self.whitelisted.insert(token, true);
        if !vec_contains(&self.whitelist_registry, token) {
            self.whitelist_registry.push(token);
        }
        Ok(())
    }

    /// Take `token` off the whitelist and its registry at once. Admin only,
    /// and not directly where access control requires a quorum.
    pub fn remove_token_whitelist(&mut self, admin: Addr, token: Addr, multisig: &Option<MultisigConfig>) -> (r:
        Result<(), KoraError>)
        requires
            old(self)@.wf(),
        ensures
            final(self)@.wf(),
            r == (if old(self)@.direct_gate(admin, *multisig) is Err {
                old(self)@.direct_gate(admin, *multisig)
            } else {
                old(self)@.removal_outcome(token)
            }),
            r is Err ==> final(self)@ == old(self)@,
            r is Ok ==> final(self)@ == (MarketView {
                whitelisted: old(self)@.whitelisted.remove(token),
                whitelist_registry: without_token(old(self)@.whitelist_registry, token),
                ..old(self)@.migrated()
            }),
    {
        self.require_admin(admin)?;
        self.require_direct_admin_allowed(multisig)?;
        self.apply_remove_token_whitelist(token)?;
        self.persist_config();
        self.remove_from_whitelist_registry(token);
        Ok(())
    }

    /// Drop every occurrence of `token` from the whitelist registry.
    fn remove_from_whitelist_registry(&mut self, token: Addr)
        requires
            old(self)@.wf(),
        ensures
            final(self)@.wf(),
            final(self)@ == (MarketView {
                whitelist_registry: without_token(old(self)@.whitelist_registry, token),
                ..old(self)@
            }),
    {
        let mut kept: Vec<Addr> = Vec::new();
        let mut i: usize = 0;
        let ghost list = self.whitelist_registry@;
        while i < self.whitelist_registry.len()
            invariant
                list == self.whitelist_registry@,
                i <= list.len(),
                kept@ == without_token(list.subrange(0, i as int), token),
            decreases list.len() - i,
        {
            let t = self.whitelist_registry[i];
            assert(list.subrange(0, i + 1).drop_last() =~= list.subrange(0, i as int));
            if t != token {
                kept.push(t);
            }
            i = i + 1;
        }
        assert(list.subrange(0, list.len() as int) =~= list);
        self.whitelist_registry = kept;
    }

    /// Whether `token` is whitelisted.
    pub fn is_token_whitelisted(&self, token: Addr) -> (r: bool)
        ensures
            r == self@.is_whitelisted(token),
    {
        match self.whitelisted.get(&token) {
            Some(w) => *w,
            None => false,
        }
    }

    /// Register the oracle currency symbol of `token`. Admin only.
    pub fn set_token_currency(&mut self, admin: Addr, token: Addr, currency: Vec<u8>) -> (r: Result<(), KoraError>)
        requires
            old(self)@.wf(),
        ensures
            final(self)@.wf(),
            r == old(self)@.admin_check(admin),
            r is Err ==> final(self)@ == old(self)@,
            r is Ok ==> final(self)@ == (MarketView {
                token_currency: old(self)@.token_currency.insert(token, currency),
                ..old(self)@.migrated()
            }),
    {
        self.require_admin(admin)?;
        self.persist_config();
        self.token_currency.insert(token, currency);
        Ok(())
    }

    /// The oracle currency symbol of `token`, if registered.
    pub fn get_token_currency(&self, token: Addr) -> (r: Option<&Vec<u8>>)
        ensures
            match r {
                Some(c) => self@.token_currency.contains_key(token) && *c == self@.token_currency[token],
                None => !self@.token_currency.contains_key(token),
            },
    {
        self.token_currency.get(&token)
    }

    /// Cap the outstanding asking price of active listings in `token`; zero
    /// is uncapped and a negative cap an invalid amount. Admin only.
    pub fn set_token_exposure_cap(&mut self, admin: Addr, token: Addr, cap: i128) -> (r: Result<(), KoraError>)
        requires
            old(self)@.wf(),
        ensures
            final(self)@.wf(),
            r == (if old(self)@.admin_check(admin) is Err {
                old(self)@.admin_check(admin)
            } else if cap < 0 {
                Err(KoraError::InvalidAmount)
            } else {
                Ok(())
            }),
            r is Err ==> final(self)@ == old(self)@,
            r is Ok ==> final(self)@ == (MarketView {
                exposure_cap: old(self)@.exposure_cap.insert(token, cap),
                ..old(self)@.migrated()
            }),
    {
        self.require_admin(admin)?;
        if cap < 0 {
            return Err(KoraError::InvalidAmount);
        }
        self.persist_config();
        self.exposure_cap.insert(token, cap);
        Ok(())
    }

    /// The exposure cap of `token`; zero (uncapped) until set.
    pub fn get_token_exposure_cap(&self, token: Addr) -> (r: i128)
        ensures
            r == self@.cap_of(token),
    {
        match self.exposure_cap.get(&token) {
            Some(c) => *c,
            None => 0,
        }
    }

    /// The outstanding asking price of active listings in `token`.
    pub fn get_token_exposure_current(&self, token: Addr) -> (r: i128)
        ensures
            r == self@.current_exposure(token),
    {
        match self.exposure_current.get(&token) {
            Some(c) => *c,
            None => 0,
        }
    }

    /// Open a priority window on listing `listing_id`: until `window_end`,
    /// only investors on `whitelist` may fund it. Admin only.
    pub fn set_priority_window(&mut self, admin: Addr, listing_id: u64, whitelist: Vec<Addr>, window_end: u64) -> (r:
        Result<(), KoraError>)
        requires
            old(self)@.wf(),
        ensures
            final(self)@.wf(),
            r == old(self)@.admin_check(admin),
            r is Err ==> final(self)@ == old(self)@,
            r is Ok ==> final(self)@.priority_windows.contains_key(listing_id)
                && final(self)@.priority_windows[listing_id].whitelist@ == whitelist@
                && final(self)@.priority_windows[listing_id].window_end == window_end
                && final(self)@ == (MarketView {
                priority_windows: final(self)@.priority_windows,
                ..old(self)@.migrated()
            }) && final(self)@.priority_windows.remove(listing_id)
                == old(self)@.priority_windows.remove(listing_id),
    {
        self.require_admin(admin)?;
        self.persist_config();
        self.priority_windows.insert(listing_id, PriorityWindow { whitelist, window_end });
        proof {
            assert(self@.priority_windows.remove(listing_id) =~= old(self)@.priority_windows.remove(listing_id));
        }
        Ok(())
    }
}

} // verus!
