//! The invoice marketplace: sellers list invoice NFTs at a discount, investors
//! fund listings in whitelisted tokens, and listings that do not complete are
//! cancelled and refunded.
//!
//! The contract's storage is the `MarketplaceContract` value. What other
//! contracts report (the pause switch and multisig signers of access control,
//! the governed fee, invoice data, token symbols, oracle conversions,
//! compliance checks) reaches each entry point as an argument; what the
//! marketplace asks of other contracts (token transfers, fee accounting,
//! invoice status changes) comes back in its result. An entry point that
//! returns `Err` leaves the storage as it was.
use vstd::prelude::*;
use std::collections::HashMap;
use crate::types::{Addr, KoraError, MultisigConfig, RiskTier, WasmHash, require_valid_fee_bps, valid_bps};

pub mod settings;
pub mod listings;
pub mod funding;
pub mod governance;
pub mod laws;

verus! {

broadcast use vstd::std_specs::hash::group_hash_axioms;

/// Minimum contribution when none is configured: one unit of a token with
/// seven decimals.
pub const DEFAULT_MIN_CONTRIBUTION: i128 = 10_000_000;

/// Most allocations that one batch may fund.
pub const MAX_BATCH_SIZE: u32 = 20;

/// Decimals in which invoice face values are denominated.
pub const INVOICE_DECIMALS: u32 = 7;

/// Addresses of the contracts the marketplace works with, and its fee rates.
#[derive(Clone, Copy, Debug, PartialEq, Eq, Structural)]
pub struct MarketplaceConfig {
    pub admin: Addr,
    pub invoice_nft: Addr,
    pub financing_pool: Addr,
    pub treasury: Addr,
    pub access_control: Addr,
    pub price_oracle: Addr,
    pub risk_registry: Addr,
    pub fee_bps: u32,
    /// Fraction of the collected fee that goes to a listing's referrer.
    pub referrer_split_bps: u32,
}

/// Settings stored one by one, as deployments before the consolidated
/// configuration kept them; read when no configuration is stored.
#[derive(Clone, Copy, Debug, PartialEq, Eq, Structural)]
pub struct LegacyKeys {
    pub admin: Option<Addr>,
    pub invoice_nft: Option<Addr>,
    pub financing_pool: Option<Addr>,
    pub treasury: Option<Addr>,
    /// The access-control contract that reports the pause switch and the
    /// multisig signers.
    pub access_control: Option<Addr>,
    pub price_oracle: Option<Addr>,
    pub risk_registry: Option<Addr>,
    pub fee_bps: Option<u32>,
}

/// An invoice offered for financing.
#[derive(Clone, Copy, Debug, PartialEq, Eq, Structural)]
pub struct Listing {
    pub invoice_id: u64,
    pub seller: Addr,
    pub asking_price: i128,
    pub face_value: i128,
    pub token: Addr,
    pub funded_amount: i128,
    pub funding_deadline: u64,
    pub is_active: bool,
}

/// Outcome of one allocation of a best-effort batch.
#[derive(Clone, Copy, Debug, PartialEq, Eq, Structural)]
pub struct BatchAllocationResult {
    pub invoice_id: u64,
    pub success: bool,
    /// Zero on success, else the error's code.
    pub error_code: u32,
}

/// A window during which only whitelisted investors may fund a listing.
#[derive(Debug)]
pub struct PriorityWindow {
    pub whitelist: Vec<Addr>,
    pub window_end: u64,
}

/// A privileged marketplace action carried by a multisig proposal.
#[derive(Clone, Copy, Debug, PartialEq, Eq)]
pub enum MarketplaceAction {
    SetFeeBps(u32),
    SetReferrerSplitBps(u32),
    /// A tier's ordinal and its fee.
    SetTierFeeBps(u32, u32),
    WhitelistToken(Addr),
    RemoveTokenWhitelist(Addr),
    ProposeUpgrade(WasmHash),
    ExecuteUpgrade,
}

/// A multisig proposal of a privileged marketplace action.
#[derive(Debug)]
pub struct AdminProposal {
    pub id: u64,
    pub action: MarketplaceAction,
    pub approvals: Vec<Addr>,
    pub executed: bool,
    pub created_at: u64,
}

/// A dependency address of the configuration that can be migrated.
#[derive(Clone, Copy, Debug, PartialEq, Eq, Structural)]
pub enum DependencyField {
    InvoiceNft,
    FinancingPool,
    Treasury,
    AccessControl,
    RiskRegistry,
}

/// The storage of the marketplace contract. Per-investor amounts of a
/// listing are keyed by `pair_key` of the listing and the investor.
pub struct MarketplaceContract {
    pub config: Option<MarketplaceConfig>,
    pub legacy: LegacyKeys,
    pub min_contribution: Option<i128>,
    pub max_investor_share_bps: Option<u32>,
    pub accredited: HashMap<Addr, bool>,
    /// Fee overrides by risk-tier ordinal.
    pub tier_fee_bps: HashMap<u32, u32>,
    pub whitelisted: HashMap<Addr, bool>,
    /// The whitelisted tokens, in order of whitelisting.
    pub whitelist_registry: Vec<Addr>,
    /// Pending whitelist proposals: token and time of proposal.
    pub whitelist_proposals: HashMap<Addr, u64>,
    /// Oracle currency symbol of a token.
    pub token_currency: HashMap<Addr, Vec<u8>>,
    pub listings: HashMap<u64, Listing>,
    pub referrers: HashMap<u64, Addr>,
    pub exposure_cap: HashMap<Addr, i128>,
    pub exposure_current: HashMap<Addr, i128>,
    /// Net (after fee) contribution of an investor to a listing.
    pub contributions: HashMap<u128, i128>,
    /// Fee charged on an investor's contributions to a listing.
    pub fee_contributions: HashMap<u128, i128>,
    /// Gross (before fee) contribution of an investor to a listing.
    pub gross_contributions: HashMap<u128, i128>,
    /// Investors of a listing, in order of first contribution.
    pub listing_investors: HashMap<u64, Vec<Addr>>,
    pub refund_claimed: HashMap<u128, bool>,
    /// Pending cancellation request of a listing and who made it.
    pub cancellation_requests: HashMap<u64, Addr>,
    pub cancellation_confirmed: HashMap<u64, bool>,
    pub priority_windows: HashMap<u64, PriorityWindow>,
    /// Pending upgrade: code hash and time of proposal.
    pub upgrade_proposal: Option<(WasmHash, u64)>,
    pub next_admin_proposal_id: Option<u64>,
    pub admin_proposals: HashMap<u64, AdminProposal>,
    /// Pending dependency updates by field ordinal: new address and time of proposal.
    pub dependency_proposals: HashMap<u32, (Addr, u64)>,
}

/// Mathematical content of the marketplace's storage.
#[verifier::ext_equal]
pub struct MarketView {
    pub config: Option<MarketplaceConfig>,
    pub legacy: LegacyKeys,
    pub min_contribution: Option<i128>,
    pub max_investor_share_bps: Option<u32>,
    pub accredited: Map<Addr, bool>,
    pub tier_fee_bps: Map<u32, u32>,
    pub whitelisted: Map<Addr, bool>,
    pub whitelist_registry: Seq<Addr>,
    pub whitelist_proposals: Map<Addr, u64>,
    pub token_currency: Map<Addr, Vec<u8>>,
    pub listings: Map<u64, Listing>,
    pub referrers: Map<u64, Addr>,
    pub exposure_cap: Map<Addr, i128>,
    pub exposure_current: Map<Addr, i128>,
    pub contributions: Map<u128, i128>,
    pub fee_contributions: Map<u128, i128>,
    pub gross_contributions: Map<u128, i128>,
    pub listing_investors: Map<u64, Seq<Addr>>,
    pub refund_claimed: Map<u128, bool>,
    pub cancellation_requests: Map<u64, Addr>,
    pub cancellation_confirmed: Map<u64, bool>,
    pub priority_windows: Map<u64, PriorityWindow>,
    pub upgrade_proposal: Option<(WasmHash, u64)>,
    pub next_admin_proposal_id: Option<u64>,
    pub admin_proposals: Map<u64, AdminProposal>,
    pub dependency_proposals: Map<u32, (Addr, u64)>,
}

impl View for MarketplaceContract {
    type V = MarketView;

    open spec fn view(&self) -> MarketView {
        MarketView {
            config: self.config,
            legacy: self.legacy,
            min_contribution: self.min_contribution,
            max_investor_share_bps: self.max_investor_share_bps,
            accredited: self.accredited@,
            tier_fee_bps: self.tier_fee_bps@,
            whitelisted: self.whitelisted@,
            whitelist_registry: self.whitelist_registry@,
            whitelist_proposals: self.whitelist_proposals@,
            token_currency: self.token_currency@,
            listings: self.listings@,
            referrers: self.referrers@,
            exposure_cap: self.exposure_cap@,
            exposure_current: self.exposure_current@,
            contributions: self.contributions@,
            fee_contributions: self.fee_contributions@,
            gross_contributions: self.gross_contributions@,
            listing_investors: self.listing_investors@.map_values(|v: Vec<Addr>| v@),
            refund_claimed: self.refund_claimed@,
            cancellation_requests: self.cancellation_requests@,
            cancellation_confirmed: self.cancellation_confirmed@,
            priority_windows: self.priority_windows@,
            upgrade_proposal: self.upgrade_proposal,
            next_admin_proposal_id: self.next_admin_proposal_id,
            admin_proposals: self.admin_proposals@,
            dependency_proposals: self.dependency_proposals@,
        }
    }
}

/// Key of an investor's amounts in a listing.
pub open spec fn pair_key(invoice_id: u64, investor: Addr) -> u128 {
    (invoice_id as int * 0x1_0000_0000_0000_0000 + investor as int) as u128
}

/// Distinct (listing, investor) pairs have distinct keys.
pub proof fn lemma_pair_key_injective(i1: u64, a1: Addr, i2: u64, a2: Addr)
    requires
        pair_key(i1, a1) == pair_key(i2, a2),
    ensures
        i1 == i2,
        a1 == a2,
{
    assert(i1 == i2 && a1 == a2) by (nonlinear_arith)
        requires
            (i1 as int) * 0x1_0000_0000_0000_0000 + (a1 as int) == (i2 as int) * 0x1_0000_0000_0000_0000
                + (a2 as int),
            0 <= a1 < 0x1_0000_0000_0000_0000,
            0 <= a2 < 0x1_0000_0000_0000_0000,
            0 <= i1,
            0 <= i2,
    ;
}

/// The key of an investor's amounts in a listing.
pub fn investor_key(invoice_id: u64, investor: Addr) -> (r: u128)
    ensures
        r == pair_key(invoice_id, investor),
{
    assert((invoice_id as u128) * 0x1_0000_0000_0000_0000 + (investor as u128) <= u128::MAX)
        by (nonlinear_arith)
        requires
            invoice_id < 0x1_0000_0000_0000_0000,
            investor < 0x1_0000_0000_0000_0000,
    ;
    (invoice_id as u128) * 0x1_0000_0000_0000_0000 + (investor as u128)
}

/// Stable ordinal of a risk tier: AAA is 0, C is 4.
pub open spec fn tier_ordinal_spec(tier: RiskTier) -> u32 {
    match tier {
        RiskTier::AAA => 0,
        RiskTier::AA => 1,
        RiskTier::A => 2,
        RiskTier::B => 3,
        RiskTier::C => 4,
    }
}

/// Stable ordinal of a dependency field: InvoiceNft is 0, RiskRegistry is 4.
pub open spec fn dependency_ordinal_spec(field: DependencyField) -> u32 {
    match field {
        DependencyField::InvoiceNft => 0,
        DependencyField::FinancingPool => 1,
        DependencyField::Treasury => 2,
        DependencyField::AccessControl => 3,
        DependencyField::RiskRegistry => 4,
    }
}

/// `a + b` clamped to the range of `i128`.
pub open spec fn clamp_i128(v: int) -> i128 {
    if v > i128::MAX {
        i128::MAX
    } else if v < i128::MIN {
        i128::MIN
    } else {
        v as i128
    }
}

/// Saturating addition of amounts.
pub fn saturating_add_i128(a: i128, b: i128) -> (r: i128)
    ensures
        r == clamp_i128(a + b),
{
    match a.checked_add(b) {
        Some(v) => v,
        None => if b > 0 {
            i128::MAX
        } else {
            i128::MIN
        },
    }
}

/// Saturating subtraction of amounts.
pub fn saturating_sub_i128(a: i128, b: i128) -> (r: i128)
    ensures
        r == clamp_i128(a - b),
{
    match a.checked_sub(b) {
        Some(v) => v,
        None => if b < 0 {
            i128::MAX
        } else {
            i128::MIN
        },
    }
}

/// The value of `m` at `k`, or `d` where `m` has none.
pub open spec fn get_or<K, V>(m: Map<K, V>, k: K, d: V) -> V {
    if m.contains_key(k) {
        m[k]
    } else {
        d
    }
}

/// The configuration rebuilt from the settings stored one by one, where all
/// of them are present; the referrer split starts at zero.
pub open spec fn legacy_config(l: LegacyKeys) -> Option<MarketplaceConfig> {
    if l.admin is Some && l.invoice_nft is Some && l.financing_pool is Some && l.treasury is Some
        && l.access_control is Some && l.price_oracle is Some && l.risk_registry is Some
        && l.fee_bps is Some {
        Some(
            MarketplaceConfig {
                admin: l.admin->Some_0,
                invoice_nft: l.invoice_nft->Some_0,
                financing_pool: l.financing_pool->Some_0,
                treasury: l.treasury->Some_0,
                access_control: l.access_control->Some_0,
                price_oracle: l.price_oracle->Some_0,
                risk_registry: l.risk_registry->Some_0,
                fee_bps: l.fee_bps->Some_0,
                referrer_split_bps: 0,
            },
        )
    } else {
        None
    }
}

/// Whether the access-control contract, where one is wired, requires a
/// quorum: a configured multisig with a threshold above one.
pub open spec fn quorum_required(multisig: Option<MultisigConfig>) -> bool {
    multisig matches Some(cfg) && cfg.threshold > 1
}

impl MarketView {
    /// The invariant of the storage: every stored rate (fees, the referrer
    /// split, tier overrides, the share cap) is at most 100%.
    pub open spec fn wf(self) -> bool {
        &&& self.config matches Some(c) ==> valid_bps(c.fee_bps) && valid_bps(c.referrer_split_bps)
        &&& self.legacy.fee_bps matches Some(f) ==> valid_bps(f)
        &&& forall|o: u32| #[trigger] self.tier_fee_bps.contains_key(o) ==> valid_bps(self.tier_fee_bps[o])
        &&& self.max_investor_share_bps matches Some(b) ==> valid_bps(b)
    }

    /// The configuration: the stored one, else the one rebuilt from the
    /// settings stored one by one.
    pub open spec fn loaded_config(self) -> Option<MarketplaceConfig> {
        if self.config is Some {
            self.config
        } else {
            legacy_config(self.legacy)
        }
    }

    /// The storage once a configuration rebuilt from the individual settings
    /// has been stored.
    pub open spec fn migrated(self) -> MarketView {
        MarketView { config: self.loaded_config(), ..self }
    }

    /// The outcome of loading the configuration.
    pub open spec fn config_check(self) -> Result<MarketplaceConfig, KoraError> {
        match self.loaded_config() {
            Some(c) => Ok(c),
            None => Err(KoraError::NotInitialized),
        }
    }

    /// The outcome of checking that `caller` is the admin.
    pub open spec fn admin_check(self, caller: Addr) -> Result<(), KoraError> {
        match self.loaded_config() {
            None => Err(KoraError::NotInitialized),
            Some(c) => if c.admin != caller {
                Err(KoraError::NotAdmin)
            } else {
                Ok(())
            },
        }
    }

    /// The outcome of checking that a single admin may act directly: not
    /// where the wired access-control contract requires a quorum.
    pub open spec fn direct_admin_check(self, multisig: Option<MultisigConfig>) -> Result<(), KoraError> {
        if self.legacy.access_control is Some && quorum_required(multisig) {
            Err(KoraError::MultisigApprovalRequired)
        } else {
            Ok(())
        }
    }

    /// The outcome of the pause check, made where an access-control contract is wired.
    pub open spec fn pause_check(self, paused: bool) -> Result<(), KoraError> {
        if self.legacy.access_control is Some && paused {
            Err(KoraError::ProtocolPaused)
        } else {
            Ok(())
        }
    }

    pub open spec fn is_whitelisted(self, token: Addr) -> bool {
        get_or(self.whitelisted, token, false)
    }

    pub open spec fn is_accredited(self, investor: Addr) -> bool {
        get_or(self.accredited, investor, false)
    }

    /// The minimum contribution.
    pub open spec fn min_floor(self) -> i128 {
        match self.min_contribution {
            Some(m) => m,
            None => DEFAULT_MIN_CONTRIBUTION,
        }
    }

    /// The per-investor share cap in basis points; zero is uncapped.
    pub open spec fn share_cap_bps(self) -> u32 {
        match self.max_investor_share_bps {
            Some(b) => b,
            None => 0,
        }
    }

    pub open spec fn current_exposure(self, token: Addr) -> i128 {
        get_or(self.exposure_current, token, 0)
    }

    pub open spec fn cap_of(self, token: Addr) -> i128 {
        get_or(self.exposure_cap, token, 0)
    }

    pub open spec fn contribution(self, invoice_id: u64, investor: Addr) -> i128 {
        get_or(self.contributions, pair_key(invoice_id, investor), 0)
    }

    pub open spec fn fee_contribution(self, invoice_id: u64, investor: Addr) -> i128 {
        get_or(self.fee_contributions, pair_key(invoice_id, investor), 0)
    }

    pub open spec fn gross_contribution(self, invoice_id: u64, investor: Addr) -> i128 {
        get_or(self.gross_contributions, pair_key(invoice_id, investor), 0)
    }

    pub open spec fn investors_of(self, invoice_id: u64) -> Seq<Addr> {
        if self.listing_investors.contains_key(invoice_id) {
            self.listing_investors[invoice_id]
        } else {
            Seq::empty()
        }
    }

    /// The flat fee: the governed value where access control has one, else
    /// the configured fallback. A governed value above 100% is an error.
    pub open spec fn base_fee(cfg: MarketplaceConfig, gov_fee_bps: Option<u32>) -> Result<u32, KoraError> {
        match gov_fee_bps {
            Some(g) => if valid_bps(g) {
                Ok(g)
            } else {
                Err(KoraError::InvalidFeeRate)
            },
            None => Ok(cfg.fee_bps),
        }
    }

    /// The storage with `token`'s exposure lowered by `amount`, saturating.
    pub open spec fn exposure_released(self, token: Addr, amount: i128) -> MarketView {
        MarketView {
            exposure_current: self.exposure_current.insert(
                token,
                clamp_i128(self.current_exposure(token) - amount),
            ),
            ..self
        }
    }
}

impl MarketplaceContract {
    /// Storage of a freshly deployed, uninitialized marketplace.
    pub fn new() -> (r: MarketplaceContract)
        ensures
            r@.config is None,
            r@.legacy == (LegacyKeys {
                admin: None,
                invoice_nft: None,
                financing_pool: None,
                treasury: None,
                access_control: None,
                price_oracle: None,
                risk_registry: None,
                fee_bps: None,
            }),
            r@.min_contribution is None,
            r@.max_investor_share_bps is None,
            r@.accredited.is_empty(),
            r@.tier_fee_bps.is_empty(),
            r@.whitelisted.is_empty(),
            r@.whitelist_registry.len() == 0,
            r@.whitelist_proposals.is_empty(),
            r@.token_currency.is_empty(),
            r@.listings.is_empty(),
            r@.referrers.is_empty(),
            r@.exposure_cap.is_empty(),
            r@.exposure_current.is_empty(),
            r@.contributions.is_empty(),
            r@.fee_contributions.is_empty(),
            r@.gross_contributions.is_empty(),
            r@.listing_investors.is_empty(),
            r@.refund_claimed.is_empty(),
            r@.cancellation_requests.is_empty(),
            r@.cancellation_confirmed.is_empty(),
            r@.priority_windows.is_empty(),
            r@.upgrade_proposal is None,
            r@.next_admin_proposal_id is None,
            r@.admin_proposals.is_empty(),
            r@.dependency_proposals.is_empty(),
            r@.wf(),
    {
        MarketplaceContract {
            config: None,
            legacy: LegacyKeys {
                admin: None,
                invoice_nft: None,
                financing_pool: None,
                treasury: None,
                access_control: None,
                price_oracle: None,
                risk_registry: None,
                fee_bps: None,
            },
            min_contribution: None,
            max_investor_share_bps: None,
            accredited: HashMap::new(),
            tier_fee_bps: HashMap::new(),
            whitelisted: HashMap::new(),
            whitelist_registry: Vec::new(),
            whitelist_proposals: HashMap::new(),
            token_currency: HashMap::new(),
            listings: HashMap::new(),
            referrers: HashMap::new(),
            exposure_cap: HashMap::new(),
            exposure_current: HashMap::new(),
            contributions: HashMap::new(),
            fee_contributions: HashMap::new(),
            gross_contributions: HashMap::new(),
            listing_investors: HashMap::new(),
            refund_claimed: HashMap::new(),
            cancellation_requests: HashMap::new(),
            cancellation_confirmed: HashMap::new(),
            priority_windows: HashMap::new(),
            upgrade_proposal: None,
            next_admin_proposal_id: None,
            admin_proposals: HashMap::new(),
            dependency_proposals: HashMap::new(),
        }
    }

    /// The configuration: the stored one, else the one rebuilt from the
    /// settings that deployments before it stored one by one.
    pub fn load_config(&self) -> (r: Result<MarketplaceConfig, KoraError>)
        ensures
            r == self@.config_check(),
    {
        if let Some(c) = self.config {
            return Ok(c);
        }
        let l = self.legacy;
        match (l.admin, l.invoice_nft, l.financing_pool, l.treasury, l.access_control, l.price_oracle, l.risk_registry, l.fee_bps) {
            (
                Some(admin),
                Some(invoice_nft),
                Some(financing_pool),
                Some(treasury),
                Some(access_control),
                Some(price_oracle),
                Some(risk_registry),
                Some(fee_bps),
            ) => Ok(
                MarketplaceConfig {
                    admin,
                    invoice_nft,
                    financing_pool,
                    treasury,
                    access_control,
                    price_oracle,
                    risk_registry,
                    fee_bps,
                    referrer_split_bps: 0,
                },
            ),
            _ => Err(KoraError::NotInitialized),
        }
    }

    /// Store the loaded configuration, so that a rebuilt one persists.
    pub(crate) fn persist_config(&mut self)
        requires
            old(self)@.wf(),
        ensures
            final(self)@.wf(),
            final(self)@ == old(self)@.migrated(),
    {
        if self.config.is_none() {
            match self.load_config() {
                Ok(c) => {
                    self.config = Some(c);
                },
                Err(_) => {},
            }
        }
    }

    /// Check that `caller` is the admin.
    pub(crate) fn require_admin(&self, caller: Addr) -> (r: Result<(), KoraError>)
        ensures
            r == self@.admin_check(caller),
    {
        let c = self.load_config()?;
        if c.admin != caller {
            return Err(KoraError::NotAdmin);
        }
        Ok(())
    }

    /// Reject a single-admin call where access control requires a quorum.
    pub(crate) fn require_direct_admin_allowed(&self, multisig: &Option<MultisigConfig>) -> (r: Result<(), KoraError>)
        ensures
            r == self@.direct_admin_check(*multisig),
    {
        if self.legacy.access_control.is_some() {
            if let Some(cfg) = multisig {
                if cfg.threshold > 1 {
                    return Err(KoraError::MultisigApprovalRequired);
                }
            }
        }
        Ok(())
    }

    /// Reject a call while the wired access-control contract reports a pause.
    pub(crate) fn require_not_paused(&self, paused: bool) -> (r: Result<(), KoraError>)
        ensures
            r == self@.pause_check(paused),
    {
        if self.legacy.access_control.is_some() && paused {
            return Err(KoraError::ProtocolPaused);
        }
        Ok(())
    }

    /// The flat fee: the governed value `gov_fee_bps` that access control
    /// reports, if any, else the configured fallback.
    pub(crate) fn base_fee_bps(cfg: &MarketplaceConfig, gov_fee_bps: Option<u32>) -> (r: Result<u32, KoraError>)
        ensures
            r == MarketView::base_fee(*cfg, gov_fee_bps),
    {
        match gov_fee_bps {
            Some(g) => {
                match require_valid_fee_bps(g) {
                    Ok(()) => Ok(g),
                    Err(e) => Err(KoraError::from(e)),
                }
            },
            None => Ok(cfg.fee_bps),
        }
    }

    /// Stable ordinal of a risk tier, by which tier fees are stored.
    pub fn tier_ordinal(tier: RiskTier) -> (r: u32)
        ensures
            r == tier_ordinal_spec(tier),
    {
        match tier {
            RiskTier::AAA => 0,
            RiskTier::AA => 1,
            RiskTier::A => 2,
            RiskTier::B => 3,
            RiskTier::C => 4,
        }
    }

    /// Stable ordinal of a dependency field, by which updates are stored.
    pub fn dependency_field_ordinal(field: DependencyField) -> (r: u32)
        ensures
            r == dependency_ordinal_spec(field),
    {
        match field {
            DependencyField::InvoiceNft => 0,
            DependencyField::FinancingPool => 1,
            DependencyField::Treasury => 2,
            DependencyField::AccessControl => 3,
            DependencyField::RiskRegistry => 4,
        }
    }
}

} // verus!
