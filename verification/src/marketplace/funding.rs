//! Funding: investors fund listings, one at a time or in batches, and claim
//! refunds from listings that did not complete.
use vstd::prelude::*;
use crate::types::{Addr, KoraError, RiskTier, bps_share, bytes_eq, seq_has, vec_contains, MAX_AMOUNT};
use crate::access_control::with_member;
use crate::marketplace::{
    Listing, MarketplaceConfig, MarketplaceContract, MarketView, BatchAllocationResult, MAX_BATCH_SIZE,
    INVOICE_DECIMALS,
    clamp_i128, get_or, pair_key, investor_key, saturating_add_i128, tier_ordinal_spec,
};
use crate::marketplace::listings::valid_amount;
use crate::types::kora_error_code;

verus! {

broadcast use vstd::std_specs::hash::group_hash_axioms;

/// What other contracts report for one funding of a listing.
#[derive(Debug)]
pub struct FundingContext {
    /// Currency symbol of the invoice in the NFT contract.
    pub invoice_currency: Vec<u8>,
    /// Risk tier of the invoice in the NFT contract.
    pub risk_tier: RiskTier,
    /// Whether the NFT contract has frozen the invoice.
    pub frozen: bool,
    /// Symbol of the listing's token.
    pub token_symbol: Vec<u8>,
    /// The oracle's conversion of the amount from the token's symbol to the
    /// invoice currency (consulted where the two differ).
    pub currency_conversion: Result<i128, KoraError>,
    /// The oracle's conversion of the amount from the paying token's currency
    /// to the listing token's (consulted where the investor pays in another token).
    pub payment_conversion: i128,
    /// The fee that access control governs, if any.
    pub gov_fee_bps: Option<u32>,
}

/// A conversion that the price oracle is to make for a funding: `amount`
/// from `from_currency` into `to_currency`, with the decimals of both sides
/// where the oracle is asked to scale between them.
#[derive(Debug)]
pub struct ConversionRequest {
    pub amount: i128,
    pub from_currency: Vec<u8>,
    pub to_currency: Vec<u8>,
    pub decimals: Option<(u32, u32)>,
}

/// The conversion behind `FundingContext::currency_conversion`: where the
/// listing token's symbol differs from the invoice currency, `amount` from
/// the symbol into the currency, from the token's decimals into
/// `INVOICE_DECIMALS`; none where they agree.
pub fn currency_conversion_request(
    amount: i128,
    token_symbol: &Vec<u8>,
    invoice_currency: &Vec<u8>,
    token_decimals: u32,
) -> (r: Option<ConversionRequest>)
    ensures
        r is None <==> token_symbol@ == invoice_currency@,
        r matches Some(c) ==> c.amount == amount && c.from_currency@ == token_symbol@ && c.to_currency@
            == invoice_currency@ && c.decimals == Some((token_decimals, INVOICE_DECIMALS)),
{
    if bytes_eq(token_symbol, invoice_currency) {
        return None;
    }
    Some(
        ConversionRequest {
            amount,
            from_currency: copy_bytes(token_symbol),
            to_currency: copy_bytes(invoice_currency),
            decimals: Some((token_decimals, INVOICE_DECIMALS)),
        },
    )
}

/// A copy of a byte string.
fn copy_bytes(v: &Vec<u8>) -> (r: Vec<u8>)
    ensures
        r@ == v@,
{
    let mut out: Vec<u8> = Vec::new();
    let mut i: usize = 0;
    while i < v.len()
        invariant
            i <= v.len(),
            out@ == v@.subrange(0, i as int),
        decreases v.len() - i,
    {
        out.push(v[i]);
        assert(v@.subrange(0, i + 1) == v@.subrange(0, i as int).push(v@[i as int]));
        i = i + 1;
    }
    assert(v@.subrange(0, v.len() as int) == v@);
    out
}

/// What a funding asks of other contracts, and what it recorded.
#[derive(Clone, Copy, Debug, PartialEq, Eq)]
pub struct FundingReceipt {
    pub invoice_id: u64,
    /// Token the investor pays in.
    pub pay_token: Addr,
    /// Transfer `treasury_fee` of `pay_token` from the investor to the
    /// treasury, and record it there as a collected fee, where positive.
    pub treasury: Addr,
    pub treasury_fee: i128,
    /// Transfer `referrer_fee` to the listing's referrer, where positive.
    pub referrer: Option<Addr>,
    pub referrer_fee: i128,
    /// Transfer `pool_amount` to the financing pool, where positive.
    pub financing_pool: Addr,
    pub pool_amount: i128,
    /// The listing's token, in which the funding is counted.
    pub listing_token: Addr,
    /// The amount credited to the listing, in its token.
    pub listing_amount: i128,
    /// The protocol fee and the net amount, in the listing's token.
    pub fee: i128,
    pub net: i128,
    /// Whether the listing is now fully funded, so that the financing pool
    /// is to release its funds.
    pub release: bool,
}

/// One allocation of a batch: a listing, an amount, and what other
/// contracts report for it.
#[derive(Debug)]
pub struct Allocation {
    pub invoice_id: u64,
    pub amount: i128,
    pub context: FundingContext,
}

/// What a refund asks of other contracts.
#[derive(Clone, Copy, Debug, PartialEq, Eq)]
pub struct RefundReceipt {
    /// Transfer `net_refund` of `token` from the financing pool to the investor.
    pub token: Addr,
    pub financing_pool: Addr,
    pub net_refund: i128,
    /// Have the treasury return `fee_refund` to the investor, where positive.
    pub treasury: Addr,
    pub fee_refund: i128,
}

/// Whether a value fits in `i128`.
pub open spec fn fits(v: int) -> bool {
    i128::MIN <= v <= i128::MAX
}

/// The amount checked against the funding target in the invoice's currency:
/// the oracle's conversion where the token's symbol differs from it.
pub open spec fn credited(ctx: FundingContext, amount: i128) -> Result<i128, KoraError> {
    if ctx.token_symbol@ != ctx.invoice_currency@ {
        ctx.currency_conversion
    } else {
        Ok(amount)
    }
}

/// `amount * bps / 10_000` of a non-negative amount, rounded down, computed
/// without overflow.
pub fn bps_floor(amount: i128, bps: u32) -> (r: i128)
    requires
        0 <= amount,
        bps <= 10_000,
    ensures
        r == bps_share(amount as int, bps as int),
        0 <= r <= amount,
{
    let q = amount / 10_000;
    let rem = amount % 10_000;
    assert(0 <= q * bps <= amount) by (nonlinear_arith)
        requires
            q == amount / 10_000,
            0 <= amount,
            bps <= 10_000,
    ;
    assert(0 <= rem * bps <= 100_000_000) by (nonlinear_arith)
        requires
            0 <= rem < 10_000,
            bps <= 10_000,
    ;
    let a = q * (bps as i128);
    let b = rem * (bps as i128) / 10_000;
    proof {
        assert(amount * bps == (q * bps) * 10_000 + rem * bps) by (nonlinear_arith)
            requires
                amount == q * 10_000 + rem,
        ;
        vstd::arithmetic::div_mod::lemma_hoist_over_denominator((rem * bps) as int, (q * bps) as int, 10_000);
        assert(bps_share(amount as int, bps as int) == b + a);
        assert(b + a <= amount) by (nonlinear_arith)
            requires
                b + a == amount * bps / 10_000,
                0 <= amount,
                bps <= 10_000,
        ;
    }
    a + b
}

impl MarketView {
    /// Funding target still open on listing `invoice_id`.
    pub open spec fn remaining(self, invoice_id: u64) -> int {
        self.listing(invoice_id).asking_price - self.listing(invoice_id).funded_amount
    }

    /// Whether the priority window of listing `invoice_id` lets `investor`
    /// fund at `now`: none is set, it has ended, or it lists the investor.
    pub open spec fn window_allows(self, invoice_id: u64, investor: Addr, now: u64) -> bool {
        !self.priority_windows.contains_key(invoice_id) || now > self.priority_windows[invoice_id].window_end
            || seq_has(self.priority_windows[invoice_id].whitelist@, investor)
    }

    /// The outcome of the per-investor share cap for `amount` more.
    pub open spec fn share_cap_outcome(self, invoice_id: u64, investor: Addr, amount: i128) -> Result<
        (),
        KoraError,
    > {
        let cap = self.share_cap_bps();
        let prospective = self.gross_contribution(invoice_id, investor) + amount;
        if cap == 0 {
            Ok(())
        } else if !fits(prospective) || !fits(prospective * 10_000) || !fits(
            cap * self.listing(invoice_id).asking_price,
        ) {
            Err(KoraError::ArithmeticOverflow)
        } else if prospective * 10_000 > cap * self.listing(invoice_id).asking_price {
            Err(KoraError::InvestorConcentrationExceeded)
        } else {
            Ok(())
        }
    }

    /// The outcome of the checks made before any amount is converted.
    pub open spec fn gate_outcome(
        self,
        now: u64,
        investor: Addr,
        invoice_id: u64,
        amount: i128,
        ctx: FundingContext,
    ) -> Result<(), KoraError> {
        let l = self.listing(invoice_id);
        if !valid_amount(amount) {
            Err(KoraError::InvalidAmount)
        } else if !self.listings.contains_key(invoice_id) {
            Err(KoraError::ListingNotFound)
        } else if !l.is_active {
            Err(KoraError::ListingAlreadyCancelled)
        } else if now > l.funding_deadline {
            Err(KoraError::FundingDeadlinePassed)
        } else if self.loaded_config() is None {
            Err(KoraError::NotInitialized)
        } else if credited(ctx, amount) is Err {
            Err(credited(ctx, amount)->Err_0)
        } else if !fits(self.remaining(invoice_id)) {
            Err(KoraError::ArithmeticOverflow)
        } else if credited(ctx, amount)->Ok_0 > self.remaining(invoice_id) {
            Err(KoraError::ExceedsFundingTarget)
        } else if !self.window_allows(invoice_id, investor, now) {
            Err(KoraError::Unauthorized)
        } else if amount < self.min_floor() && amount != self.remaining(invoice_id) {
            Err(KoraError::ContributionBelowMinimum)
        } else if !self.is_accredited(investor) {
            Err(KoraError::InvestorNotAccredited)
        } else if self.share_cap_outcome(invoice_id, investor, amount) is Err {
            self.share_cap_outcome(invoice_id, investor, amount)
        } else if ctx.frozen {
            Err(KoraError::InvoiceFrozen)
        } else {
            Ok(())
        }
    }

    /// The amount paid in `pay` counted in the listing's token `token`: the
    /// amount itself, else the oracle's conversion, which needs `pay`
    /// whitelisted and both currencies registered, and must be a valid amount.
    /// A conversion above `MAX_AMOUNT` is refused as `InvalidAmount`, and so is
    /// one of zero or less: a funding never lowers a listing's funded amount
    /// or an investor's contributions, and the proportional fee split divides
    /// by the converted amount.
    pub open spec fn paid_in_listing_token(
        self,
        amount: i128,
        pay: Addr,
        token: Addr,
        ctx: FundingContext,
    ) -> Result<i128, KoraError> {
        if pay == token {
            Ok(amount)
        } else if !self.is_whitelisted(pay) {
            Err(KoraError::TokenNotWhitelisted)
        } else if !self.token_currency.contains_key(pay) || !self.token_currency.contains_key(token) {
            Err(KoraError::TokenNotWhitelisted)
        } else if !valid_amount(ctx.payment_conversion) {
            Err(KoraError::InvalidAmount)
        } else {
            Ok(ctx.payment_conversion)
        }
    }

    /// The fee rate of the invoice's risk tier: its override, else the flat fee.
    pub open spec fn effective_fee(self, ctx: FundingContext) -> Result<u32, KoraError> {
        let ordinal = tier_ordinal_spec(ctx.risk_tier);
        if self.tier_fee_bps.contains_key(ordinal) {
            Ok(self.tier_fee_bps[ordinal])
        } else {
            MarketView::base_fee(self.loaded_config()->Some_0, ctx.gov_fee_bps)
        }
    }

    /// The outcome of `investor` funding listing `invoice_id` with `amount`
    /// paid in `payment_token` (the listing's token where `None`).
    pub open spec fn funding_plan(
        self,
        now: u64,
        investor: Addr,
        invoice_id: u64,
        amount: i128,
        payment_token: Option<Addr>,
        ctx: FundingContext,
    ) -> Result<FundingReceipt, KoraError> {
        let l = self.listing(invoice_id);
        let cfg = self.loaded_config()->Some_0;
        let pay = match payment_token {
            Some(t) => t,
            None => l.token,
        };
        let paid = self.paid_in_listing_token(amount, pay, l.token, ctx);
        let la = paid->Ok_0;
        let bps = self.effective_fee(ctx)->Ok_0;
        let fee = bps_share(la as int, bps as int);
        let net = la - fee;
        let key = pair_key(invoice_id, investor);
        let pay_fee = if pay == l.token {
            fee
        } else {
            amount * fee / (la as int)
        };
        let has_referrer = self.referrers.contains_key(invoice_id);
        let referral = if has_referrer && cfg.referrer_split_bps > 0 {
            bps_share(pay_fee, cfg.referrer_split_bps as int)
        } else {
            0
        };
        if self.gate_outcome(now, investor, invoice_id, amount, ctx) is Err {
            Err(self.gate_outcome(now, investor, invoice_id, amount, ctx)->Err_0)
        } else if paid is Err {
            Err(paid->Err_0)
        } else if la > self.remaining(invoice_id) {
            Err(KoraError::ExceedsFundingTarget)
        } else if self.effective_fee(ctx) is Err {
            Err(self.effective_fee(ctx)->Err_0)
        } else if pay != l.token && !fits(amount * fee) {
            Err(KoraError::ArithmeticOverflow)
        } else if !fits(self.contribution(invoice_id, investor) + net) || !fits(
            self.fee_contribution(invoice_id, investor) + fee,
        ) {
            Err(KoraError::ArithmeticOverflow)
        } else {
            Ok(
                FundingReceipt {
                    invoice_id,
                    pay_token: pay,
                    treasury: cfg.treasury,
                    treasury_fee: (pay_fee - referral) as i128,
                    referrer: if has_referrer {
                        Some(self.referrers[invoice_id])
                    } else {
                        None
                    },
                    referrer_fee: referral as i128,
                    financing_pool: cfg.financing_pool,
                    pool_amount: (amount - pay_fee) as i128,
                    listing_token: l.token,
                    listing_amount: la,
                    fee: fee as i128,
                    net: net as i128,
                    release: l.funded_amount + la >= l.asking_price,
                },
            )
        }
    }

    /// The storage after the funding that `r` describes: the listing counts
    /// the amount and closes when fully funded, and the investor's net,
    /// fee and gross amounts and place among the investors are recorded.
    pub open spec fn funded(self, invoice_id: u64, investor: Addr, amount: i128, r: FundingReceipt) -> MarketView {
        let l = self.listing(invoice_id);
        let key = pair_key(invoice_id, investor);
        let s = MarketView {
            listings: self.listings.insert(
                invoice_id,
                Listing {
                    funded_amount: (l.funded_amount + r.listing_amount) as i128,
                    is_active: !r.release,
                    ..l
                },
            ),
            contributions: self.contributions.insert(
                key,
                (self.contribution(invoice_id, investor) + r.net) as i128,
            ),
            fee_contributions: self.fee_contributions.insert(
                key,
                (self.fee_contribution(invoice_id, investor) + r.fee) as i128,
            ),
            gross_contributions: self.gross_contributions.insert(
                key,
                clamp_i128(self.gross_contribution(invoice_id, investor) + amount),
            ),
            listing_investors: self.listing_investors.insert(
                invoice_id,
                with_member(self.investors_of(invoice_id), investor),
            ),
            ..self
        };
        if r.release {
            s.exposure_released(l.token, l.asking_price)
        } else {
            s
        }
    }

    /// The outcome of `investor` claiming the refund of listing `invoice_id` at `now`.
    pub open spec fn refund_outcome(self, now: u64, investor: Addr, invoice_id: u64) -> Result<RefundReceipt, KoraError> {
        let l = self.listing(invoice_id);
        let key = pair_key(invoice_id, investor);
        let cfg = self.loaded_config()->Some_0;
        if !self.listings.contains_key(invoice_id) {
            Err(KoraError::ListingNotFound)
        } else if l.funded_amount >= l.asking_price {
            Err(KoraError::ListingFullyFunded)
        } else if !get_or(self.cancellation_confirmed, invoice_id, false) && now <= l.funding_deadline {
            Err(KoraError::FundingNotExpired)
        } else if get_or(self.refund_claimed, key, false) {
            Err(KoraError::AlreadyInitialized)
        } else if self.contribution(invoice_id, investor) <= 0 {
            Err(KoraError::InsufficientFunds)
        } else if self.loaded_config() is None {
            Err(KoraError::NotInitialized)
        } else {
            Ok(
                RefundReceipt {
                    token: l.token,
                    financing_pool: cfg.financing_pool,
                    net_refund: self.contribution(invoice_id, investor),
                    treasury: cfg.treasury,
                    fee_refund: if self.fee_contribution(invoice_id, investor) > 0 {
                        self.fee_contribution(invoice_id, investor)
                    } else {
                        0
                    },
                },
            )
        }
    }

    /// The outcome of the funding, and the storage after it.
    pub open spec fn fund_step(
        self,
        now: u64,
        investor: Addr,
        invoice_id: u64,
        amount: i128,
        payment_token: Option<Addr>,
        ctx: FundingContext,
    ) -> (MarketView, Result<FundingReceipt, KoraError>) {
        let plan = self.funding_plan(now, investor, invoice_id, amount, payment_token, ctx);
        match plan {
            Ok(r) => (self.migrated().funded(invoice_id, investor, amount, r), plan),
            Err(_) => (self, plan),
        }
    }
}

/// The outcome of allocation `a` of a batch.
pub open spec fn batch_entry(a: Allocation, r: Result<FundingReceipt, KoraError>) -> BatchAllocationResult {
    match r {
        Ok(_) => BatchAllocationResult { invoice_id: a.invoice_id, success: true, error_code: 0 },
        Err(e) => BatchAllocationResult {
            invoice_id: a.invoice_id,
            success: false,
            error_code: kora_error_code(e),
        },
    }
}

/// The storage, the per-allocation outcomes and the receipts after the
/// first `n` allocations of a best-effort batch.
pub open spec fn batch_run(s: MarketView, now: u64, investor: Addr, allocations: Seq<Allocation>, n: int) -> (
    MarketView,
    Seq<BatchAllocationResult>,
    Seq<FundingReceipt>,
)
    decreases n,
{
    if n <= 0 {
        (s, Seq::empty(), Seq::empty())
    } else {
        let (t, results, receipts) = batch_run(s, now, investor, allocations, n - 1);
        let a = allocations[n - 1];
        let (u, r) = t.fund_step(now, investor, a.invoice_id, a.amount, None, a.context);
        (
            u,
            results.push(batch_entry(a, r)),
            match r {
                Ok(rc) => receipts.push(rc),
                Err(_) => receipts,
            },
        )
    }
}

/// The storage, the per-allocation outcomes and the receipts after the
/// first `n` allocations of an atomic batch, or the error of the first
/// allocation that fails.
pub open spec fn atomic_run(s: MarketView, now: u64, investor: Addr, allocations: Seq<Allocation>, n: int) -> Result<
    (MarketView, Seq<BatchAllocationResult>, Seq<FundingReceipt>),
    KoraError,
>
    decreases n,
{
    if n <= 0 {
        Ok((s, Seq::empty(), Seq::empty()))
    } else {
        match atomic_run(s, now, investor, allocations, n - 1) {
            Err(e) => Err(e),
            Ok((t, results, receipts)) => {
                let a = allocations[n - 1];
                let (u, r) = t.fund_step(now, investor, a.invoice_id, a.amount, None, a.context);
                match r {
                    Ok(rc) => Ok((u, results.push(batch_entry(a, r)), receipts.push(rc))),
                    Err(e) => Err(e),
                }
            },
        }
    }
}

/// Once an atomic batch has failed, it stays failed with the same error.
pub proof fn lemma_atomic_failure_persists(
    s: MarketView,
    now: u64,
    investor: Addr,
    allocations: Seq<Allocation>,
    m: int,
    n: int,
)
    requires
        0 <= m <= n,
        atomic_run(s, now, investor, allocations, m) is Err,
    ensures
        atomic_run(s, now, investor, allocations, n) == atomic_run(s, now, investor, allocations, m),
    decreases n - m,
{
    if m < n {
        lemma_atomic_failure_persists(s, now, investor, allocations, m, n - 1);
    }
}

/// Two storages that agree on everything a funding leaves alone.
pub open spec fn same_frame(a: MarketView, b: MarketView) -> bool {
    &&& a.legacy == b.legacy
    &&& a.min_contribution == b.min_contribution
    &&& a.max_investor_share_bps == b.max_investor_share_bps
    &&& a.accredited == b.accredited
    &&& a.tier_fee_bps == b.tier_fee_bps
    &&& a.whitelisted == b.whitelisted
    &&& a.whitelist_registry == b.whitelist_registry
    &&& a.whitelist_proposals == b.whitelist_proposals
    &&& a.token_currency == b.token_currency
    &&& a.referrers == b.referrers
    &&& a.exposure_cap == b.exposure_cap
    &&& a.refund_claimed == b.refund_claimed
    &&& a.cancellation_requests == b.cancellation_requests
    &&& a.cancellation_confirmed == b.cancellation_confirmed
    &&& a.priority_windows == b.priority_windows
    &&& a.upgrade_proposal == b.upgrade_proposal
    &&& a.next_admin_proposal_id == b.next_admin_proposal_id
    &&& a.admin_proposals == b.admin_proposals
    &&& a.dependency_proposals == b.dependency_proposals
}

/// A successful atomic batch leaves alone what each funding leaves alone.
pub proof fn lemma_atomic_frame(s: MarketView, now: u64, investor: Addr, allocations: Seq<Allocation>, n: int)
    requires
        atomic_run(s, now, investor, allocations, n) is Ok,
    ensures
        same_frame(atomic_run(s, now, investor, allocations, n)->Ok_0.0, s),
    decreases n,
{
    if n > 0 {
        lemma_atomic_frame(s, now, investor, allocations, n - 1);
    }
}

impl MarketplaceContract {
    /// Whether the priority window of `invoice_id` lets `investor` fund at `now`.
    fn window_allows(&self, invoice_id: u64, investor: Addr, now: u64) -> (r: bool)
        ensures
            r == self@.window_allows(invoice_id, investor, now),
    {
        match self.priority_windows.get(&invoice_id) {
            None => true,
            Some(w) => now > w.window_end || vec_contains(&w.whitelist, investor),
        }
    }

    /// The gross contribution of `investor` to `invoice_id`.
    fn gross_of(&self, invoice_id: u64, investor: Addr) -> (r: i128)
        ensures
            r == self@.gross_contribution(invoice_id, investor),
    {
        match self.gross_contributions.get(&investor_key(invoice_id, investor)) {
            Some(g) => *g,
            None => 0,
        }
    }

    /// The net contribution of `investor` to `invoice_id`.
    fn contribution_of(&self, invoice_id: u64, investor: Addr) -> (r: i128)
        ensures
            r == self@.contribution(invoice_id, investor),
    {
        match self.contributions.get(&investor_key(invoice_id, investor)) {
            Some(c) => *c,
            None => 0,
        }
    }

    /// The fee charged on the contributions of `investor` to `invoice_id`.
    fn fee_contribution_of(&self, invoice_id: u64, investor: Addr) -> (r: i128)
        ensures
            r == self@.fee_contribution(invoice_id, investor),
    {
        match self.fee_contributions.get(&investor_key(invoice_id, investor)) {
            Some(c) => *c,
            None => 0,
        }
    }

    /// Check the per-investor share cap for `amount` more on `invoice_id`.
    fn check_share_cap(&self, invoice_id: u64, investor: Addr, amount: i128, asking_price: i128) -> (r: Result<
        (),
        KoraError,
    >)
        requires
            self@.listings.contains_key(invoice_id),
            asking_price == self@.listing(invoice_id).asking_price,
        ensures
            r == self@.share_cap_outcome(invoice_id, investor, amount),
    {
        let cap = self.get_max_investor_share_bps();
        if cap == 0 {
            return Ok(());
        }
        let prev = self.gross_of(invoice_id, investor);
        let prospective = match prev.checked_add(amount) {
            Some(p) => p,
            None => {
                return Err(KoraError::ArithmeticOverflow);
            },
        };
        let lhs = match prospective.checked_mul(10_000) {
            Some(v) => v,
            None => {
                return Err(KoraError::ArithmeticOverflow);
            },
        };
        let rhs = match (cap as i128).checked_mul(asking_price) {
            Some(v) => v,
            None => {
                return Err(KoraError::ArithmeticOverflow);
            },
        };
        if lhs > rhs {
            return Err(KoraError::InvestorConcentrationExceeded);
        }
        Ok(())
    }

    /// The checks made before any amount is converted.
    fn check_gates(&self, now: u64, investor: Addr, invoice_id: u64, amount: i128, ctx: &FundingContext) -> (r:
        Result<(), KoraError>)
        ensures
            r == self@.gate_outcome(now, investor, invoice_id, amount, *ctx),
    {
        if !(amount > 0 && amount <= MAX_AMOUNT) {
            return Err(KoraError::InvalidAmount);
        }
        let l = match self.listings.get(&invoice_id) {
            Some(l) => *l,
            None => {
                return Err(KoraError::ListingNotFound);
            },
        };
        if !l.is_active {
            return Err(KoraError::ListingAlreadyCancelled);
        }
        if now > l.funding_deadline {
            return Err(KoraError::FundingDeadlinePassed);
        }
        self.load_config()?;
        let credited: i128 = if !bytes_eq(&ctx.token_symbol, &ctx.invoice_currency) {
            match &ctx.currency_conversion {
                Ok(v) => *v,
                Err(e) => {
                    return Err(*e);
                },
            }
        } else {
            amount
        };
        let remaining = match l.asking_price.checked_sub(l.funded_amount) {
            Some(v) => v,
            None => {
                return Err(KoraError::ArithmeticOverflow);
            },
        };
        if credited > remaining {
            return Err(KoraError::ExceedsFundingTarget);
        }
        if !self.window_allows(invoice_id, investor, now) {
            return Err(KoraError::Unauthorized);
        }
        if amount < self.get_min_contribution() && amount != remaining {
            return Err(KoraError::ContributionBelowMinimum);
        }
        if !self.is_investor_accredited(investor) {
            return Err(KoraError::InvestorNotAccredited);
        }
        self.check_share_cap(invoice_id, investor, amount, l.asking_price)?;
        if ctx.frozen {
            return Err(KoraError::InvoiceFrozen);
        }
        Ok(())
    }

    /// The fee rate for the invoice's risk tier.
    fn effective_fee_bps(&self, cfg: &MarketplaceConfig, ctx: &FundingContext) -> (r: Result<u32, KoraError>)
        requires
            self@.loaded_config() == Some(*cfg),
        ensures
            r == self@.effective_fee(*ctx),
    {
        let ordinal = Self::tier_ordinal(ctx.risk_tier);
        match self.tier_fee_bps.get(&ordinal) {
            Some(f) => Ok(*f),
            None => Self::base_fee_bps(cfg, ctx.gov_fee_bps),
        }
    }

    /// Work out a funding without changing anything.
    fn plan_funding(
        &self,
        now: u64,
        investor: Addr,
        invoice_id: u64,
        amount: i128,
        payment_token: Option<Addr>,
        ctx: &FundingContext,
    ) -> (r: Result<FundingReceipt, KoraError>)
        requires
            self@.wf(),
        ensures
            r == self@.funding_plan(now, investor, invoice_id, amount, payment_token, *ctx),
            r matches Ok(rc) ==> {
                &&& rc.invoice_id == invoice_id
                &&& self@.listings.contains_key(invoice_id)
                &&& fits(self@.listing(invoice_id).funded_amount + rc.listing_amount)
                &&& fits(self@.contribution(invoice_id, investor) + rc.net)
                &&& fits(self@.fee_contribution(invoice_id, investor) + rc.fee)
            },
    {
        self.check_gates(now, investor, invoice_id, amount, ctx)?;
        let l = *self.listings.get(&invoice_id).unwrap();
        let cfg = self.load_config()?;
        let pay = match payment_token {
            Some(t) => t,
            None => l.token,
        };
        let la: i128 = if pay == l.token {
            amount
        } else {
            if !self.is_token_whitelisted(pay) {
                return Err(KoraError::TokenNotWhitelisted);
            }
            if !self.token_currency.contains_key(&pay) || !self.token_currency.contains_key(&l.token) {
                return Err(KoraError::TokenNotWhitelisted);
            }
            let conv = ctx.payment_conversion;
            if !(conv > 0 && conv <= MAX_AMOUNT) {
                return Err(KoraError::InvalidAmount);
            }
            conv
        };
        let remaining = l.asking_price - l.funded_amount;
        if la > remaining {
            return Err(KoraError::ExceedsFundingTarget);
        }
        let bps = self.effective_fee_bps(&cfg, ctx)?;
        proof {
            let ordinal = tier_ordinal_spec(ctx.risk_tier);
            if self@.tier_fee_bps.contains_key(ordinal) {
                assert(crate::types::valid_bps(self@.tier_fee_bps[ordinal]));
            }
        }
        let fee = bps_floor(la, bps);
        let net = la - fee;
        let pay_fee: i128 = if pay == l.token {
            fee
        } else {
            let p = match amount.checked_mul(fee) {
                Some(p) => p,
                None => {
                    return Err(KoraError::ArithmeticOverflow);
                },
            };
            assert(0 <= p <= amount * la) by (nonlinear_arith)
                requires
                    p == amount * fee,
                    0 <= fee <= la,
                    0 < amount,
            ;
            assert(p / la <= amount) by (nonlinear_arith)
                requires
                    0 <= p <= amount * la,
                    0 < la,
                    0 < amount,
            ;
            p / la
        };
        let prev_contribution = self.contribution_of(invoice_id, investor);
        if prev_contribution.checked_add(net).is_none() {
            return Err(KoraError::ArithmeticOverflow);
        }
        let prev_fee = self.fee_contribution_of(invoice_id, investor);
        if prev_fee.checked_add(fee).is_none() {
            return Err(KoraError::ArithmeticOverflow);
        }
        let referrer: Option<Addr> = match self.referrers.get(&invoice_id) {
            Some(a) => Some(*a),
            None => None,
        };
        let referral: i128 = if referrer.is_some() && cfg.referrer_split_bps > 0 {
            bps_floor(pay_fee, cfg.referrer_split_bps)
        } else {
            0
        };
        Ok(
            FundingReceipt {
                invoice_id,
                pay_token: pay,
                treasury: cfg.treasury,
                treasury_fee: pay_fee - referral,
                referrer,
                referrer_fee: referral,
                financing_pool: cfg.financing_pool,
                pool_amount: amount - pay_fee,
                listing_token: l.token,
                listing_amount: la,
                fee,
                net,
                release: l.funded_amount + la >= l.asking_price,
            },
        )
    }

    /// Record the funding that `r` describes.
    fn apply_funding(&mut self, investor: Addr, amount: i128, r: FundingReceipt)
        requires
            old(self)@.wf(),
            old(self)@.listings.contains_key(r.invoice_id),
            fits(old(self)@.listing(r.invoice_id).funded_amount + r.listing_amount),
            fits(old(self)@.contribution(r.invoice_id, investor) + r.net),
            fits(old(self)@.fee_contribution(r.invoice_id, investor) + r.fee),
        ensures
            final(self)@.wf(),
            final(self)@ == old(self)@.migrated().funded(r.invoice_id, investor, amount, r),
    {
        let invoice_id = r.invoice_id;
        self.persist_config();
        let l = *self.listings.get(&invoice_id).unwrap();
        self.listings.insert(
            invoice_id,
            Listing { funded_amount: l.funded_amount + r.listing_amount, is_active: !r.release, ..l },
        );
        let key = investor_key(invoice_id, investor);
        let prev_contribution = self.contribution_of(invoice_id, investor);
        self.contributions.insert(key, prev_contribution + r.net);
        let prev_fee = self.fee_contribution_of(invoice_id, investor);
        self.fee_contributions.insert(key, prev_fee + r.fee);
        let prev_gross = self.gross_of(invoice_id, investor);
        self.gross_contributions.insert(key, saturating_add_i128(prev_gross, amount));
        let ghost before = self@;
        let mut investors = match self.listing_investors.remove(&invoice_id) {
            Some(v) => v,
            None => Vec::new(),
        };
        assert(investors@ == before.investors_of(invoice_id));
        if !vec_contains(&investors, investor) {
            investors.push(investor);
        }
        self.listing_investors.insert(invoice_id, investors);
        assert(self@.listing_investors =~= before.listing_investors.insert(
            invoice_id,
            with_member(before.investors_of(invoice_id), investor),
        ));
        if r.release {
            self.remove_token_exposure(l.token, l.asking_price);
        }
    }

    /// Fund `invoice_id` with `amount`, paid in `payment_token` (the
    /// listing's token where `None`), without the pause check.
    fn fund_invoice_internal(
        &mut self,
        now: u64,
        investor: Addr,
        invoice_id: u64,
        amount: i128,
        payment_token: Option<Addr>,
        ctx: &FundingContext,
    ) -> (r: Result<FundingReceipt, KoraError>)
        requires
            old(self)@.wf(),
        ensures
            final(self)@.wf(),
            r == old(self)@.fund_step(now, investor, invoice_id, amount, payment_token, *ctx).1,
            final(self)@ == old(self)@.fund_step(now, investor, invoice_id, amount, payment_token, *ctx).0,
    {
        let receipt = self.plan_funding(now, investor, invoice_id, amount, payment_token, ctx)?;
        self.apply_funding(investor, amount, receipt);
        Ok(receipt)
    }

    /// An investor funds listing `invoice_id` with `amount`, paid in
    /// `payment_token` where given (converted by the oracle into the
    /// listing's token), else in the listing's token. `paused` is what
    /// access control reports and `ctx` what the other contracts report. The
    /// receipt says which transfers to make and whether the financing pool
    /// is to release the funds.
    pub fn fund_invoice(
        &mut self,
        now: u64,
        paused: bool,
        investor: Addr,
        invoice_id: u64,
        amount: i128,
        payment_token: Option<Addr>,
        ctx: &FundingContext,
    ) -> (r: Result<FundingReceipt, KoraError>)
        requires
            old(self)@.wf(),
        ensures
            final(self)@.wf(),
            old(self)@.pause_check(paused) is Err ==> r == Err::<FundingReceipt, KoraError>(
                KoraError::ProtocolPaused,
            ) && final(self)@ == old(self)@,
            old(self)@.pause_check(paused) is Ok ==> {
                &&& r == old(self)@.fund_step(now, investor, invoice_id, amount, payment_token, *ctx).1
                &&& final(self)@ == old(self)@.fund_step(
                    now,
                    investor,
                    invoice_id,
                    amount,
                    payment_token,
                    *ctx,
                ).0
            },
    {
        self.require_not_paused(paused)?;
        self.fund_invoice_internal(now, investor, invoice_id, amount, payment_token, ctx)
    }

    /// Fund several listings at once, each in its own token. With `atomic`,
    /// the first failure fails the whole batch and changes nothing;
    /// otherwise each allocation is tried on its own and reported. Between 1
    /// and `MAX_BATCH_SIZE` allocations. The receipts of the fundings made
    /// come back with the outcomes.
    pub fn fund_invoices_batch(
        &mut self,
        now: u64,
        paused: bool,
        investor: Addr,
        allocations: &Vec<Allocation>,
        atomic: bool,
    ) -> (r: Result<(Vec<BatchAllocationResult>, Vec<FundingReceipt>), KoraError>)
        requires
            old(self)@.wf(),
        ensures
            final(self)@.wf(),
            old(self)@.pause_check(paused) is Err ==> r == Err::<
                (Vec<BatchAllocationResult>, Vec<FundingReceipt>),
                KoraError,
            >(KoraError::ProtocolPaused),
            old(self)@.pause_check(paused) is Ok && (allocations.len() == 0 || allocations.len()
                > MAX_BATCH_SIZE) ==> r == Err::<
                (Vec<BatchAllocationResult>, Vec<FundingReceipt>),
                KoraError,
            >(KoraError::InvalidAmount),
            r is Err ==> final(self)@ == old(self)@,
            old(self)@.pause_check(paused) is Ok && 0 < allocations.len() <= MAX_BATCH_SIZE ==> {
                if atomic {
                    match atomic_run(old(self)@, now, investor, allocations@, allocations.len() as int) {
                        Err(e) => r == Err::<(Vec<BatchAllocationResult>, Vec<FundingReceipt>), KoraError>(e),
                        Ok((t, results, receipts)) => {
                            &&& r is Ok
                            &&& r->Ok_0.0@ == results
                            &&& r->Ok_0.1@ == receipts
                            &&& final(self)@ == t
                        },
                    }
                } else {
                    let (t, results, receipts) = batch_run(
                        old(self)@,
                        now,
                        investor,
                        allocations@,
                        allocations.len() as int,
                    );
                    &&& r is Ok
                    &&& r->Ok_0.0@ == results
                    &&& r->Ok_0.1@ == receipts
                    &&& final(self)@ == t
                }
            },
    {
        self.require_not_paused(paused)?;
        if allocations.len() == 0 || allocations.len() > MAX_BATCH_SIZE as usize {
            return Err(KoraError::InvalidAmount);
        }
        let ghost s0 = self@;
        let saved_config = self.config;
        let saved_listings = self.listings.clone();
        let saved_contributions = self.contributions.clone();
        let saved_fees = self.fee_contributions.clone();
        let saved_gross = self.gross_contributions.clone();
        let saved_investors = self.listing_investors.clone();
        let saved_exposure = self.exposure_current.clone();
        let mut results: Vec<BatchAllocationResult> = Vec::new();
        let mut receipts: Vec<FundingReceipt> = Vec::new();
        let mut i: usize = 0;
        while i < allocations.len()
            invariant
                self@.wf(),
                s0 == old(self)@,
                s0.wf(),
                s0.pause_check(paused) is Ok,
                0 < allocations.len() <= MAX_BATCH_SIZE,
                i <= allocations.len(),
                saved_config == s0.config,
                saved_listings@ == s0.listings,
                saved_contributions@ == s0.contributions,
                saved_fees@ == s0.fee_contributions,
                saved_gross@ == s0.gross_contributions,
                saved_investors@.map_values(|v: Vec<Addr>| v@) == s0.listing_investors,
                saved_exposure@ == s0.exposure_current,
                atomic ==> atomic_run(s0, now, investor, allocations@, i as int) == Ok::<
                    (MarketView, Seq<BatchAllocationResult>, Seq<FundingReceipt>),
                    KoraError,
                >((self@, results@, receipts@)),
                !atomic ==> batch_run(s0, now, investor, allocations@, i as int) == (
                    self@,
                    results@,
                    receipts@,
                ),
            decreases allocations.len() - i,
        {
            let a = &allocations[i];
            let outcome = self.fund_invoice_internal(now, investor, a.invoice_id, a.amount, None, &a.context);
            match outcome {
                Ok(rc) => {
                    results.push(BatchAllocationResult { invoice_id: a.invoice_id, success: true, error_code: 0 });
                    receipts.push(rc);
                },
                Err(e) => {
                    if atomic {
                        proof {
                            lemma_atomic_failure_persists(
                                s0,
                                now,
                                investor,
                                allocations@,
                                i + 1,
                                allocations.len() as int,
                            );
                            lemma_atomic_frame(s0, now, investor, allocations@, i as int);
                        }
                        self.config = saved_config;
                        self.listings = saved_listings;
                        self.contributions = saved_contributions;
                        self.fee_contributions = saved_fees;
                        self.gross_contributions = saved_gross;
                        self.listing_investors = saved_investors;
                        self.exposure_current = saved_exposure;
                        assert(self@ =~= s0);
                        return Err(e);
                    }
                    results.push(
                        BatchAllocationResult { invoice_id: a.invoice_id, success: false, error_code: e.code() },
                    );
                },
            }
            proof {
                assert(allocations@[i as int] == *a);
            }
            i = i + 1;
        }
        Ok((results, receipts))
    }

    /// The conversion behind `FundingContext::payment_conversion`: where
    /// `investor` pays for listing `invoice_id` in a `payment_token` other than
    /// the listing's and both tokens have a registered currency, `amount` from
    /// the paying token's currency into the listing token's; none otherwise,
    /// and then the funding does not consult it.
    pub fn payment_conversion_request(&self, invoice_id: u64, amount: i128, payment_token: Option<Addr>) -> (r:
        Option<ConversionRequest>)
        ensures
            ({
                let l = self@.listing(invoice_id);
                let asked = self@.listings.contains_key(invoice_id) && payment_token is Some
                    && payment_token->Some_0 != l.token && self@.token_currency.contains_key(payment_token->Some_0)
                    && self@.token_currency.contains_key(l.token);
                &&& r is Some <==> asked
                &&& r matches Some(c) ==> c.amount == amount && c.from_currency@
                    == self@.token_currency[payment_token->Some_0]@ && c.to_currency@
                    == self@.token_currency[l.token]@ && c.decimals is None
            }),
    {
        let l = match self.listings.get(&invoice_id) {
            Some(l) => *l,
            None => {
                return None;
            },
        };
        let pay = match payment_token {
            Some(p) => p,
            None => {
                return None;
            },
        };
        if pay == l.token {
            return None;
        }
        match (self.token_currency.get(&pay), self.token_currency.get(&l.token)) {
            (Some(from), Some(to)) => Some(
                ConversionRequest {
                    amount,
                    from_currency: copy_bytes(from),
                    to_currency: copy_bytes(to),
                    decimals: None,
                },
            ),
            _ => None,
        }
    }

    /// An investor claims the refund of their contributions to listing
    /// `invoice_id`, which never completed and whose cancellation was
    /// confirmed or whose deadline has passed. Each investor claims once.
    /// The receipt says what to transfer back from the financing pool and
    /// what the treasury returns of the fees.
    pub fn claim_refund(&mut self, now: u64, investor: Addr, invoice_id: u64) -> (r: Result<RefundReceipt, KoraError>)
        requires
            old(self)@.wf(),
        ensures
            final(self)@.wf(),
            r is Err ==> final(self)@ == old(self)@,
            r == old(self)@.refund_outcome(now, investor, invoice_id),
            r is Ok ==> final(self)@ == (MarketView {
                refund_claimed: old(self)@.refund_claimed.insert(pair_key(invoice_id, investor), true),
                ..old(self)@.migrated()
            }),
    {
        let l = match self.listings.get(&invoice_id) {
            Some(l) => *l,
            None => {
                return Err(KoraError::ListingNotFound);
            },
        };
        if l.funded_amount >= l.asking_price {
            return Err(KoraError::ListingFullyFunded);
        }
        let confirmed = match self.cancellation_confirmed.get(&invoice_id) {
            Some(c) => *c,
            None => false,
        };
        if !confirmed && now <= l.funding_deadline {
            return Err(KoraError::FundingNotExpired);
        }
        let key = investor_key(invoice_id, investor);
        let claimed = match self.refund_claimed.get(&key) {
            Some(c) => *c,
            None => false,
        };
        if claimed {
            return Err(KoraError::AlreadyInitialized);
        }
        let net = self.contribution_of(invoice_id, investor);
        if net <= 0 {
            return Err(KoraError::InsufficientFunds);
        }
        let cfg = self.load_config()?;
        let fee = self.fee_contribution_of(invoice_id, investor);
        self.persist_config();
        self.refund_claimed.insert(key, true);
        Ok(
            RefundReceipt {
                token: l.token,
                financing_pool: cfg.financing_pool,
                net_refund: net,
                treasury: cfg.treasury,
                fee_refund: if fee > 0 {
                    fee
                } else {
                    0
                },
            },
        )
    }
}

} // verus!
