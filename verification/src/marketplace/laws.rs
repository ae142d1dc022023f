//! Properties of the marketplace that span its operations.
use vstd::prelude::*;
use crate::types::{Addr, KoraError, bps_share, valid_bps};
use crate::marketplace::{
    MarketView, Listing, MarketplaceAction, MarketplaceConfig, tier_ordinal_spec, pair_key,
    lemma_pair_key_injective,
};
use crate::marketplace::listings::{ListingChecks, amended};
use crate::marketplace::funding::{Allocation, FundingContext, batch_run};

verus! {

/// The rate's share of a non-negative amount lies between zero and the amount.
pub proof fn lemma_bps_share_bounds(a: int, bps: int)
    requires
        0 <= a,
        0 <= bps <= 10_000,
    ensures
        0 <= bps_share(a, bps) <= a,
{
    assert(0 <= a * bps <= a * 10_000) by (nonlinear_arith)
        requires
            0 <= a,
            0 <= bps <= 10_000,
    ;
}

/// In a well-formed storage, the fee rate of any invoice is at most 100%.
pub proof fn lemma_effective_fee_valid(s: MarketView, ctx: FundingContext)
    requires
        s.wf(),
        s.loaded_config() is Some,
        s.effective_fee(ctx) is Ok,
    ensures
        valid_bps(s.effective_fee(ctx)->Ok_0),
{
    let o = tier_ordinal_spec(ctx.risk_tier);
    if s.tier_fee_bps.contains_key(o) {
        assert(valid_bps(s.tier_fee_bps[o]));
    }
}

/// A funding credits a positive amount to the listing, never beyond its
/// asking price, and closes the listing exactly when it is fully funded.
pub proof fn law_funding_within_target(
    s: MarketView,
    now: u64,
    investor: Addr,
    invoice_id: u64,
    amount: i128,
    payment_token: Option<Addr>,
    ctx: FundingContext,
)
    requires
        s.wf(),
        s.funding_plan(now, investor, invoice_id, amount, payment_token, ctx) is Ok,
    ensures
        ({
            let r = s.funding_plan(now, investor, invoice_id, amount, payment_token, ctx)->Ok_0;
            let l = s.listing(invoice_id);
            let t = s.fund_step(now, investor, invoice_id, amount, payment_token, ctx).0;
            let nl = t.listing(invoice_id);
            &&& r.listing_amount > 0
            &&& t.listings.contains_key(invoice_id)
            &&& nl.funded_amount == l.funded_amount + r.listing_amount
            &&& nl.funded_amount <= nl.asking_price == l.asking_price
            &&& nl.is_active == (nl.funded_amount < nl.asking_price)
        }),
{
}

/// A funding moves exactly what the investor pays: the fee to the treasury
/// and the referrer, the rest to the financing pool. The fee is the rate's
/// share of the credited amount, and a referrer earns only with a split.
pub proof fn law_funding_conserves_payment(
    s: MarketView,
    now: u64,
    investor: Addr,
    invoice_id: u64,
    amount: i128,
    payment_token: Option<Addr>,
    ctx: FundingContext,
)
    requires
        s.wf(),
        s.funding_plan(now, investor, invoice_id, amount, payment_token, ctx) is Ok,
    ensures
        ({
            let r = s.funding_plan(now, investor, invoice_id, amount, payment_token, ctx)->Ok_0;
            let cfg = s.loaded_config()->Some_0;
            &&& r.treasury_fee + r.referrer_fee + r.pool_amount == amount
            &&& r.fee + r.net == r.listing_amount
            &&& r.fee == bps_share(r.listing_amount as int, s.effective_fee(ctx)->Ok_0 as int)
            &&& 0 <= r.fee <= r.listing_amount
            &&& 0 <= r.referrer_fee
            &&& 0 <= r.treasury_fee
            &&& 0 <= r.pool_amount
            &&& (r.referrer is None || cfg.referrer_split_bps == 0) ==> r.referrer_fee == 0
        }),
{
    let l = s.listing(invoice_id);
    let cfg = s.loaded_config()->Some_0;
    let pay = match payment_token {
        Some(t) => t,
        None => l.token,
    };
    let la = s.paid_in_listing_token(amount, pay, l.token, ctx)->Ok_0;
    let bps = s.effective_fee(ctx)->Ok_0;
    lemma_effective_fee_valid(s, ctx);
    lemma_bps_share_bounds(la as int, bps as int);
    let fee = bps_share(la as int, bps as int);
    let pay_fee = if pay == l.token {
        fee
    } else {
        amount * fee / (la as int)
    };
    if pay != l.token {
        assert(0 <= amount * fee <= amount * la) by (nonlinear_arith)
            requires
                0 <= fee <= la,
                0 < amount,
        ;
        assert(0 <= amount * fee / (la as int) <= amount) by (nonlinear_arith)
            requires
                0 <= amount * fee <= amount * la,
                0 < la,
                0 < amount,
        ;
    }
    lemma_bps_share_bounds(pay_fee, cfg.referrer_split_bps as int);
}

/// A refund is paid once: after a successful claim, claiming again at the
/// same time or later fails as already claimed.
pub proof fn law_refund_paid_once(s: MarketView, now: u64, later: u64, investor: Addr, invoice_id: u64)
    requires
        s.refund_outcome(now, investor, invoice_id) is Ok,
        now <= later,
    ensures
        (MarketView {
            refund_claimed: s.refund_claimed.insert(crate::marketplace::pair_key(invoice_id, investor), true),
            ..s.migrated()
        }).refund_outcome(later, investor, invoice_id) == Err::<crate::marketplace::funding::RefundReceipt, KoraError>(
            KoraError::AlreadyInitialized,
        ),
{
}

/// Listing an invoice and then cancelling it, which its seller may, gives
/// its token's exposure back to what it was.
pub proof fn law_list_then_cancel_restores_exposure(
    s: MarketView,
    now: u64,
    paused: bool,
    seller: Addr,
    invoice_id: u64,
    asking_price: i128,
    face_value: i128,
    token: Addr,
    funding_deadline: u64,
    referrer: Option<Addr>,
    checks: ListingChecks,
)
    requires
        s.list_outcome(
            now,
            paused,
            seller,
            invoice_id,
            asking_price,
            face_value,
            token,
            funding_deadline,
            referrer,
            checks,
        ) is Ok,
    ensures
        ({
            let t = MarketView {
                listings: s.listings.insert(
                    invoice_id,
                    Listing {
                        invoice_id,
                        seller,
                        asking_price,
                        face_value,
                        token,
                        funded_amount: 0,
                        funding_deadline,
                        is_active: true,
                    },
                ),
                referrers: match referrer {
                    Some(a) => s.referrers.insert(invoice_id, a),
                    None => s.referrers,
                },
                exposure_current: s.exposure_current.insert(
                    token,
                    (s.current_exposure(token) + asking_price) as i128,
                ),
                ..s.migrated()
            };
            &&& t.manage_check(seller, invoice_id) is Ok
            &&& t.migrated().deactivated(invoice_id).current_exposure(token) == s.current_exposure(token)
            &&& !t.migrated().deactivated(invoice_id).listing(invoice_id).is_active
        }),
{
}

/// A best-effort batch reports one outcome per allocation, in order, and
/// one receipt per success.
pub proof fn law_batch_reports_each_allocation(
    s: MarketView,
    now: u64,
    investor: Addr,
    allocations: Seq<Allocation>,
    n: int,
)
    requires
        0 <= n <= allocations.len(),
    ensures
        batch_run(s, now, investor, allocations, n).1.len() == n,
        batch_run(s, now, investor, allocations, n).2.len() <= n,
        forall|i: int|
            0 <= i < n ==> (#[trigger] batch_run(s, now, investor, allocations, n).1[i]).invoice_id
                == allocations[i].invoice_id,
    decreases n,
{
    if n > 0 {
        law_batch_reports_each_allocation(s, now, investor, allocations, n - 1);
        let prev = batch_run(s, now, investor, allocations, n - 1).1;
        let cur = batch_run(s, now, investor, allocations, n).1;
        assert forall|i: int| 0 <= i < n implies (#[trigger] cur[i]).invoice_id
            == allocations[i].invoice_id by {
            if i < n - 1 {
                assert(cur[i] == prev[i]);
            }
        }
    }
}

/// A funding changes only the funder's amounts: every other investor's net,
/// fee and gross contributions, on this listing or any other, stay as they were.
pub proof fn law_funding_leaves_other_investors(
    s: MarketView,
    now: u64,
    investor: Addr,
    invoice_id: u64,
    amount: i128,
    payment_token: Option<Addr>,
    ctx: FundingContext,
    other_listing: u64,
    other: Addr,
)
    requires
        s.funding_plan(now, investor, invoice_id, amount, payment_token, ctx) is Ok,
        other_listing != invoice_id || other != investor,
    ensures
        ({
            let t = s.fund_step(now, investor, invoice_id, amount, payment_token, ctx).0;
            &&& t.contribution(other_listing, other) == s.contribution(other_listing, other)
            &&& t.fee_contribution(other_listing, other) == s.fee_contribution(other_listing, other)
            &&& t.gross_contribution(other_listing, other) == s.gross_contribution(other_listing, other)
        }),
{
    if pair_key(other_listing, other) == pair_key(invoice_id, investor) {
        lemma_pair_key_injective(other_listing, other, invoice_id, investor);
    }
}

/// Withdrawing an unfunded listing lets the seller list the invoice again:
/// right after listing, the seller may withdraw, and the same listing is then
/// admitted again with the token's exposure back where it was.
pub proof fn law_withdraw_then_relist(
    s: MarketView,
    now: u64,
    paused: bool,
    seller: Addr,
    invoice_id: u64,
    asking_price: i128,
    face_value: i128,
    token: Addr,
    funding_deadline: u64,
    referrer: Option<Addr>,
    checks: ListingChecks,
)
    requires
        s.list_outcome(
            now,
            paused,
            seller,
            invoice_id,
            asking_price,
            face_value,
            token,
            funding_deadline,
            referrer,
            checks,
        ) is Ok,
    ensures
        ({
            let t = MarketView {
                listings: s.listings.insert(
                    invoice_id,
                    Listing {
                        invoice_id,
                        seller,
                        asking_price,
                        face_value,
                        token,
                        funded_amount: 0,
                        funding_deadline,
                        is_active: true,
                    },
                ),
                referrers: match referrer {
                    Some(a) => s.referrers.insert(invoice_id, a),
                    None => s.referrers,
                },
                exposure_current: s.exposure_current.insert(
                    token,
                    (s.current_exposure(token) + asking_price) as i128,
                ),
                ..s.migrated()
            };
            let u = (MarketView { listings: t.listings.remove(invoice_id), ..t.migrated() }).exposure_released(
                token,
                asking_price,
            );
            &&& t.withdraw_outcome(seller, invoice_id) is Ok
            &&& !u.listings.contains_key(invoice_id)
            &&& u.current_exposure(token) == s.current_exposure(token)
            &&& u.list_outcome(
                now,
                paused,
                seller,
                invoice_id,
                asking_price,
                face_value,
                token,
                funding_deadline,
                referrer,
                checks,
            ) is Ok
        }),
{
}

/// A listing that has taken funds cannot be withdrawn: its investors are
/// refunded only through the two-phase cancellation.
pub proof fn law_funded_listing_cannot_be_withdrawn(s: MarketView, caller: Addr, invoice_id: u64)
    requires
        s.listings.contains_key(invoice_id),
        s.listing(invoice_id).is_active,
        s.listing(invoice_id).funded_amount > 0,
    ensures
        s.withdraw_outcome(caller, invoice_id) == Err::<(), KoraError>(KoraError::ListingAlreadyFunded),
{
}

/// Cancelling a funded listing takes two phases. The first request is held
/// while the listing stays active, and a second request is refused as
/// `CancellationPending`; the admin's confirmation then makes the listing
/// inactive, records the cancellation as confirmed and consumes the request,
/// so a second confirmation finds none pending.
pub proof fn law_cancellation_two_phase(
    s: MarketView,
    caller: Addr,
    other_caller: Addr,
    admin: Addr,
    invoice_id: u64,
)
    requires
        s.request_outcome(caller, invoice_id) is Ok,
        s.listing(invoice_id).funded_amount > 0,
        s.admin_check(admin) is Ok,
    ensures
        ({
            let t = s.cancellation_requested(caller, invoice_id);
            let u = t.cancellation_confirmed_state(invoice_id);
            &&& t.listing(invoice_id).is_active
            &&& t.request_outcome(other_caller, invoice_id) is Err
            &&& t.manage_check(other_caller, invoice_id) is Ok ==> t.request_outcome(other_caller, invoice_id)
                == Err::<(), KoraError>(KoraError::CancellationPending)
            &&& t.confirm_outcome(admin, invoice_id) is Ok
            &&& !u.listing(invoice_id).is_active
            &&& u.cancellation_confirmed[invoice_id]
            &&& !u.cancellation_requests.contains_key(invoice_id)
            &&& u.confirm_outcome(admin, invoice_id) == Err::<(), KoraError>(KoraError::NoCancellationPending)
        }),
{
}

/// Refunds are only for listings that never reached full funding: a
/// listing whose funded amount has reached its asking price refuses every
/// claim as `ListingFullyFunded`. A granted refund comes from a listing still
/// short of its target whose cancellation was confirmed or whose deadline has
/// passed, is claimed once, and pays back the investor's net contribution in
/// the listing's token with at most the fees it paid.
pub proof fn law_no_refund_from_fully_funded_listing(s: MarketView, now: u64, investor: Addr, invoice_id: u64)
    ensures
        s.listings.contains_key(invoice_id) && s.listing(invoice_id).funded_amount >= s.listing(
            invoice_id,
        ).asking_price ==> s.refund_outcome(now, investor, invoice_id) == Err::<
            crate::marketplace::funding::RefundReceipt,
            KoraError,
        >(KoraError::ListingFullyFunded),
        s.refund_outcome(now, investor, invoice_id) is Ok ==> s.listings.contains_key(invoice_id)
            && s.listing(invoice_id).funded_amount < s.listing(invoice_id).asking_price,
        s.refund_outcome(now, investor, invoice_id) matches Ok(rc) ==> {
            &&& rc.net_refund == s.contribution(invoice_id, investor) > 0
            &&& 0 <= rc.fee_refund
            &&& rc.fee_refund <= s.fee_contribution(invoice_id, investor) || rc.fee_refund == 0
            &&& rc.token == s.listing(invoice_id).token
            &&& !crate::marketplace::get_or(s.refund_claimed, pair_key(invoice_id, investor), false)
            &&& (crate::marketplace::get_or(s.cancellation_confirmed, invoice_id, false)
                || now > s.listing(invoice_id).funding_deadline)
        },
{
}

/// An open priority window admits the investors on its whitelist: such an
/// investor is never refused as `Unauthorized`, unless the oracle itself
/// answered the currency conversion with that error.
pub proof fn law_priority_whitelist_may_fund(
    s: MarketView,
    now: u64,
    investor: Addr,
    invoice_id: u64,
    amount: i128,
    payment_token: Option<Addr>,
    ctx: FundingContext,
)
    requires
        s.priority_windows.contains_key(invoice_id),
        crate::types::seq_has(s.priority_windows[invoice_id].whitelist@, investor),
        ctx.currency_conversion != Err::<i128, KoraError>(KoraError::Unauthorized),
    ensures
        s.fund_step(now, investor, invoice_id, amount, payment_token, ctx).1 != Err::<
            crate::marketplace::funding::FundingReceipt,
            KoraError,
        >(KoraError::Unauthorized),
{
}

/// Executing a governance action changes the fallback fee only where the
/// action is `SetFeeBps`, and then to its rate; `SetReferrerSplitBps(b)`
/// sets the referrer split to `b` and leaves the rest of the configuration
/// as it was.
pub proof fn law_governance_sets_the_named_rate(s: MarketView, now: u64, action: MarketplaceAction)
    requires
        s.action_applied(now, action) is Ok,
    ensures
        ({
            let t = s.action_applied(now, action)->Ok_0;
            let c = s.loaded_config()->Some_0;
            &&& (action matches MarketplaceAction::SetFeeBps(b) ==> t.loaded_config()->Some_0.fee_bps == b)
            &&& (!(action is SetFeeBps) ==> t.loaded_config()->Some_0.fee_bps == c.fee_bps)
            &&& (action matches MarketplaceAction::SetReferrerSplitBps(b) ==> t.loaded_config() == Some(
                MarketplaceConfig { referrer_split_bps: b, ..c },
            ))
        }),
{
}

/// An amendment replaces exactly the fields it provides: the asking price,
/// deadline and token each take the new value where one is given and keep
/// the old one otherwise, and everything else about the listing stays.
pub proof fn law_amendment_replaces_given_fields(
    l: Listing,
    new_asking_price: Option<i128>,
    new_funding_deadline: Option<u64>,
    new_token: Option<Addr>,
)
    ensures
        ({
            let a = amended(l, new_asking_price, new_funding_deadline, new_token);
            &&& a.asking_price == (if new_asking_price is Some {
                new_asking_price->Some_0
            } else {
                l.asking_price
            })
            &&& a.funding_deadline == (if new_funding_deadline is Some {
                new_funding_deadline->Some_0
            } else {
                l.funding_deadline
            })
            &&& a.token == (if new_token is Some {
                new_token->Some_0
            } else {
                l.token
            })
            &&& a.invoice_id == l.invoice_id
            &&& a.seller == l.seller
            &&& a.face_value == l.face_value
            &&& a.funded_amount == l.funded_amount
            &&& a.is_active == l.is_active
        }),
{
}

/// A successful amendment stores the new values, each as checked: a new
/// token is whitelisted, a new asking price is a valid amount below the face
/// value, and a new deadline lies after `now`.
pub proof fn law_amendment_is_stored(
    s: MarketView,
    now: u64,
    paused: bool,
    caller: Addr,
    invoice_id: u64,
    new_asking_price: Option<i128>,
    new_funding_deadline: Option<u64>,
    new_token: Option<Addr>,
)
    requires
        s.amend_outcome(now, paused, caller, invoice_id, new_asking_price, new_funding_deadline, new_token) is Ok,
    ensures
        ({
            let stored = s.listings.insert(
                invoice_id,
                amended(s.listing(invoice_id), new_asking_price, new_funding_deadline, new_token),
            )[invoice_id];
            &&& new_token matches Some(t) ==> stored.token == t && s.is_whitelisted(t)
            &&& new_asking_price matches Some(p) ==> stored.asking_price == p && 0 < p < stored.face_value
            &&& new_funding_deadline matches Some(d) ==> stored.funding_deadline == d && d > now
            &&& stored.funded_amount <= 0
        }),
{
}

/// A listing is admitted only for the invoice's true face value: where the
/// face value differs from the amount that the NFT contract reports for the
/// invoice, listing is refused, and an admitted listing comes from a seller
/// that the registry holds attested and an invoice whose debtor it holds
/// verified.
pub proof fn law_listing_matches_the_invoice(
    s: MarketView,
    now: u64,
    paused: bool,
    seller: Addr,
    invoice_id: u64,
    asking_price: i128,
    face_value: i128,
    token: Addr,
    funding_deadline: u64,
    referrer: Option<Addr>,
    checks: ListingChecks,
)
    requires
        s.list_outcome(
            now,
            paused,
            seller,
            invoice_id,
            asking_price,
            face_value,
            token,
            funding_deadline,
            referrer,
            checks,
        ) is Ok,
    ensures
        face_value == checks.invoice_amount,
        checks.seller_attested,
        checks.debtor_verified,
        0 < asking_price < face_value,
        funding_deadline > now,
        s.is_whitelisted(token),
        !s.listings.contains_key(invoice_id),
{
}

} // verus!
