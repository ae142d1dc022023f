use kora_protocol::marketplace::funding::{currency_conversion_request, Allocation, FundingContext};
use kora_protocol::marketplace::listings::ListingChecks;
use kora_protocol::marketplace::{
    investor_key, DependencyField, MarketplaceAction, MarketplaceContract, DEFAULT_MIN_CONTRIBUTION,
};
use kora_protocol::types::{Addr, KoraError, MultisigConfig, RiskTier, UPGRADE_TIMELOCK_DELAY};
use kora_protocol::invoice_state_machine::{set_listed, InvoiceStatus};

const GENESIS: u64 = 1_700_000_000;

struct TestEnv {
    now: u64,
    next_addr: Addr,
    next_invoice: u64,
    admin: Addr,
    token: Addr,
    seller: Addr,
    treasury: Addr,
    pool: Addr,
    mp: MarketplaceContract,
}

impl TestEnv {
    fn generate(&mut self) -> Addr {
        self.next_addr += 1;
        self.next_addr
    }
}

/// An initialized marketplace wired to an access-control contract with no
/// multisig, its fee at 50 bps, and one whitelisted token.
fn deploy() -> TestEnv {
    let mut t = TestEnv {
        now: GENESIS,
        next_addr: 10,
        next_invoice: 0,
        admin: 1,
        token: 2,
        seller: 3,
        treasury: 4,
        pool: 5,
        mp: MarketplaceContract::new(),
    };
    t.mp.initialize(t.admin, 6, t.pool, t.treasury, 7, 8, 9, 50, 0).unwrap();
    t.mp.propose_token_whitelist(t.now, t.admin, t.token).unwrap();
    t.now = GENESIS + UPGRADE_TIMELOCK_DELAY + 1;
    t.mp.execute_token_whitelist(t.now, t.admin, t.token).unwrap();
    t
}

/// What the risk registry and the NFT contract report for a minted invoice
/// of 10_000_000_000 whose seller and debtor pass compliance.
fn checks() -> ListingChecks {
    ListingChecks { seller_attested: true, invoice_amount: 10_000_000_000, debtor_verified: true }
}

/// What other contracts report for a funding in the invoice's currency.
fn ctx() -> FundingContext {
    FundingContext {
        invoice_currency: b"USDC".to_vec(),
        risk_tier: RiskTier::A,
        frozen: false,
        token_symbol: b"USDC".to_vec(),
        currency_conversion: Ok(0),
        payment_conversion: 0,
        gov_fee_bps: None,
    }
}

fn mint_invoice(t: &mut TestEnv) -> u64 {
    t.next_invoice += 1;
    t.next_invoice
}

fn list_with_referrer(t: &mut TestEnv, referrer: Option<Addr>) -> u64 {
    let id = mint_invoice(t);
    let deadline = t.now + 86_400 * 30;
    let (now, seller, token) = (t.now, t.seller, t.token);
    t.mp.list_invoice(now, false, seller, id, 9_500_000_000, 10_000_000_000, token, deadline, referrer, checks())
        .unwrap();
    id
}

fn list_one(t: &mut TestEnv) -> u64 {
    list_with_referrer(t, None)
}

fn accredited_investor(t: &mut TestEnv) -> Addr {
    let investor = t.generate();
    let admin = t.admin;
    t.mp.set_investor_accredited(admin, investor, true).unwrap();
    investor
}

fn fund(t: &mut TestEnv, investor: Addr, id: u64, amount: i128) -> Result<kora_protocol::marketplace::funding::FundingReceipt, KoraError> {
    let now = t.now;
    t.mp.fund_invoice(now, false, investor, id, amount, None, &ctx())
}

fn quorum(signers: Vec<Addr>, threshold: u32) -> Option<MultisigConfig> {
    Some(MultisigConfig { threshold, signers })
}

#[test]
fn test_initialize_already_initialized_returns_error() {
    let mut t = deploy();
    assert_eq!(t.mp.initialize(t.admin, 11, 12, 13, 14, 15, 16, 50, 0), Err(KoraError::AlreadyInitialized));
}

#[test]
fn test_initialize_invalid_fee_bps_rejected() {
    let mut mp = MarketplaceContract::new();
    assert_eq!(mp.initialize(1, 2, 3, 4, 5, 6, 7, 10_001, 0), Err(KoraError::InvalidFeeRate));
}

#[test]
fn test_initialize_zero_fee_bps_accepted() {
    let mut mp = MarketplaceContract::new();
    assert!(mp.initialize(1, 2, 3, 4, 5, 6, 7, 0, 0).is_ok());
}

#[test]
fn test_initialize_max_fee_bps_accepted() {
    let mut mp = MarketplaceContract::new();
    assert!(mp.initialize(1, 2, 3, 4, 5, 6, 7, 10_000, 0).is_ok());
}

#[test]
fn test_get_admin_returns_correct_address() {
    let mut t = deploy();
    assert_eq!(t.mp.get_admin(), Ok(t.admin));
}

#[test]
fn test_get_admin_before_init_returns_error() {
    let mut mp = MarketplaceContract::new();
    assert_eq!(mp.get_admin(), Err(KoraError::NotInitialized));
}

#[test]
fn test_get_fee_bps_returns_initialized_value() {
    let mut t = deploy();
    assert_eq!(t.mp.get_fee_bps(None), Ok(50));
}

#[test]
fn test_update_fee_bps_success() {
    let mut t = deploy();
    t.mp.update_fee_bps(t.admin, 100, &None).unwrap();
    assert_eq!(t.mp.get_fee_bps(None), Ok(100));
}

#[test]
fn test_update_fee_bps_to_zero_success() {
    let mut t = deploy();
    t.mp.update_fee_bps(t.admin, 0, &None).unwrap();
    assert_eq!(t.mp.get_fee_bps(None), Ok(0));
}

#[test]
fn test_update_fee_bps_to_max_success() {
    let mut t = deploy();
    t.mp.update_fee_bps(t.admin, 10_000, &None).unwrap();
    assert_eq!(t.mp.get_fee_bps(None), Ok(10_000));
}

#[test]
fn test_get_config_returns_initialized_values() {
    let mut t = deploy();
    let config = t.mp.get_config().unwrap();
    assert_eq!(config.admin, t.admin);
    assert_eq!(config.financing_pool, t.pool);
    assert_eq!(config.treasury, t.treasury);
    assert_eq!(config.fee_bps, 50u32);
}

#[test]
fn test_whitelist_token_success() {
    let mut t = deploy();
    let new_token = t.generate();
    assert!(!t.mp.is_token_whitelisted(new_token));
    t.mp.propose_token_whitelist(t.now, t.admin, new_token).unwrap();
    let now = t.now + UPGRADE_TIMELOCK_DELAY + 1;
    t.mp.execute_token_whitelist(now, t.admin, new_token).unwrap();
    assert!(t.mp.is_token_whitelisted(new_token));
}

#[test]
fn test_whitelist_token_non_admin_rejected() {
    let mut t = deploy();
    let stranger = t.generate();
    let new_token = t.generate();
    assert_eq!(t.mp.propose_token_whitelist(t.now, stranger, new_token), Err(KoraError::NotAdmin));
}

#[test]
fn test_list_invoice_success() {
    let mut t = deploy();
    let id = list_one(&mut t);
    let listing = t.mp.get_listing(id).unwrap();
    assert_eq!(listing.invoice_id, 1);
    assert_eq!(listing.seller, t.seller);
    assert_eq!(listing.asking_price, 9_500_000_000i128);
    assert_eq!(listing.face_value, 10_000_000_000i128);
    assert!(listing.is_active);
    assert_eq!(listing.funded_amount, 0);
}

#[test]
fn test_list_invoice_nft_status_transitions_to_listed() {
    let mut t = deploy();
    let id = mint_invoice(&mut t);
    let deadline = t.now + 86_400 * 30;
    let req = t
        .mp
        .list_invoice(t.now, false, t.seller, id, 9_500_000_000, 10_000_000_000, t.token, deadline, None, checks())
        .unwrap();
    assert_eq!(req.invoice_nft, 6);
    assert_eq!(req.invoice_id, id);
    assert_eq!(req.status, InvoiceStatus::Listed);
    assert_eq!(set_listed(InvoiceStatus::Created), Ok(req.status));
}

#[test]
fn test_list_invoice_non_whitelisted_token_rejected() {
    let mut t = deploy();
    let _id = mint_invoice(&mut t);
    let bad_token = t.generate();
    let deadline = t.now + 86_400;
    let r = t.mp.list_invoice(t.now, false, t.seller, 1, 9_000, 10_000, bad_token, deadline, None, checks());
    assert_eq!(r, Err(KoraError::TokenNotWhitelisted));
}

#[test]
fn test_list_invoice_zero_asking_price_rejected() {
    let mut t = deploy();
    let _id = mint_invoice(&mut t);
    let deadline = t.now + 86_400;
    let r = t.mp.list_invoice(t.now, false, t.seller, 1, 0, 10_000, t.token, deadline, None, checks());
    assert_eq!(r, Err(KoraError::InvalidAmount));
}

#[test]
fn test_list_invoice_zero_face_value_rejected() {
    let mut t = deploy();
    let _id = mint_invoice(&mut t);
    let deadline = t.now + 86_400;
    let r = t.mp.list_invoice(t.now, false, t.seller, 1, 9_000, 0, t.token, deadline, None, checks());
    assert_eq!(r, Err(KoraError::InvalidAmount));
}

#[test]
fn test_list_invoice_asking_price_equal_face_value_rejected() {
    let mut t = deploy();
    let _id = mint_invoice(&mut t);
    let deadline = t.now + 86_400;
    let r = t.mp.list_invoice(t.now, false, t.seller, 1, 10_000, 10_000, t.token, deadline, None, checks());
    assert_eq!(r, Err(KoraError::InvalidAmount));
}

#[test]
fn test_list_invoice_asking_price_greater_than_face_value_rejected() {
    let mut t = deploy();
    let _id = mint_invoice(&mut t);
    let deadline = t.now + 86_400;
    let r = t.mp.list_invoice(t.now, false, t.seller, 1, 11_000, 10_000, t.token, deadline, None, checks());
    assert_eq!(r, Err(KoraError::InvalidAmount));
}

#[test]
fn test_list_invoice_past_deadline_rejected() {
    let mut t = deploy();
    let _id = mint_invoice(&mut t);
    let past = t.now - 1;
    let r = t.mp.list_invoice(t.now, false, t.seller, 1, 9_000, 10_000, t.token, past, None, checks());
    assert_eq!(r, Err(KoraError::InvalidDueDate));
}

#[test]
fn test_list_invoice_duplicate_id_rejected() {
    let mut t = deploy();
    let _id = list_one(&mut t);
    let deadline = t.now + 86_400;
    let c = ListingChecks { invoice_amount: 10_000, ..checks() };
    let r = t.mp.list_invoice(t.now, false, t.seller, 1, 9_000, 10_000, t.token, deadline, None, c);
    assert_eq!(r, Err(KoraError::AlreadyInitialized));
}

#[test]
fn test_list_multiple_invoices_independent() {
    let mut t = deploy();
    let deadline = t.now + 86_400;
    let r = t.mp.list_invoice(t.now, false, t.seller, 1, -1, 10_000, t.token, deadline, None, checks());
    assert_eq!(r, Err(KoraError::InvalidAmount));
}

#[test]
fn test_list_invoice_unattested_sme_rejected() {
    let mut t = deploy();
    let unattested_seller = t.generate();
    let _id = mint_invoice(&mut t);
    let deadline = t.now + 86_400;
    let c = ListingChecks { seller_attested: false, ..checks() };
    let r = t.mp.list_invoice(
        t.now,
        false,
        unattested_seller,
        1,
        9_500_000_000,
        10_000_000_000,
        t.token,
        deadline,
        None,
        c,
    );
    assert_eq!(r, Err(KoraError::ComplianceNotAttested));
}

#[test]
fn test_list_invoice_attested_sme_succeeds() {
    let mut t = deploy();
    let attested_seller = t.generate();
    let deadline = t.now + 86_400;
    let nft_id = mint_invoice(&mut t);
    let r = t.mp.list_invoice(
        t.now,
        false,
        attested_seller,
        nft_id,
        9_500_000_000,
        10_000_000_000,
        t.token,
        deadline,
        None,
        checks(),
    );
    assert!(r.is_ok());
}

#[test]
fn test_list_invoice_rejects_unverified_debtor() {
    let mut t = deploy();
    let id = mint_invoice(&mut t);
    let deadline = t.now + 86_400;
    let c = ListingChecks { debtor_verified: false, ..checks() };
    let r = t.mp.list_invoice(t.now, false, t.seller, id, 9_500_000_000, 10_000_000_000, t.token, deadline, None, c);
    assert_eq!(r, Err(KoraError::ComplianceNotAttested));
}

#[test]
fn test_priority_window_blocks_non_whitelisted_until_expiry() {
    let mut t = deploy();
    let id = list_one(&mut t);
    let investor = accredited_investor(&mut t);
    let deadline = t.now + 86_400;
    t.mp.set_priority_window(t.admin, id, Vec::new(), deadline).unwrap();
    assert_eq!(fund(&mut t, investor, id, 1_000_000), Err(KoraError::Unauthorized));
    t.now = deadline + 1;
    assert_ne!(fund(&mut t, investor, id, 1_000_000), Err(KoraError::Unauthorized));
}

#[test]
fn test_withdraw_listing_reverts_and_allows_relist() {
    let mut t = deploy();
    let id = list_one(&mut t);
    let req = t.mp.withdraw_listing(t.seller, id).unwrap();
    assert_eq!(req.invoice_id, id);
    assert_eq!(req.status, InvoiceStatus::Created);
    assert_eq!(t.mp.get_listing(id), Err(KoraError::ListingNotFound));
    let deadline = t.now + 86_400;
    let r = t.mp.list_invoice(t.now, false, t.seller, id, 9_500_000_000, 10_000_000_000, t.token, deadline, None, checks());
    assert!(r.is_ok());
}

#[test]
fn test_get_listing_not_found_returns_error() {
    let t = deploy();
    assert_eq!(t.mp.get_listing(999), Err(KoraError::ListingNotFound));
}

#[test]
fn test_get_listing_returns_correct_data() {
    let mut t = deploy();
    let deadline = t.now + 86_400 * 30;
    let _id = mint_invoice(&mut t);
    t.mp.list_invoice(t.now, false, t.seller, 1, 9_500_000_000, 10_000_000_000, t.token, deadline, None, checks())
        .unwrap();
    let listing = t.mp.get_listing(1).unwrap();
    assert_eq!(listing.asking_price, 9_500_000_000i128);
    assert_eq!(listing.face_value, 10_000_000_000i128);
    assert_eq!(listing.funding_deadline, deadline);
    assert_eq!(listing.token, t.token);
    assert!(listing.is_active);
    assert_eq!(listing.funded_amount, 0);
}

#[test]
fn test_fund_invoice_listing_not_found() {
    let mut t = deploy();
    let investor = t.generate();
    assert_eq!(fund(&mut t, investor, 999, 1_000), Err(KoraError::ListingNotFound));
}

#[test]
fn test_fund_invoice_zero_amount_rejected() {
    let mut t = deploy();
    let id = list_one(&mut t);
    let investor = t.generate();
    assert_eq!(fund(&mut t, investor, id, 0), Err(KoraError::InvalidAmount));
}

#[test]
fn test_fund_invoice_negative_amount_rejected() {
    let mut t = deploy();
    let id = list_one(&mut t);
    let investor = t.generate();
    assert_eq!(fund(&mut t, investor, id, -1), Err(KoraError::InvalidAmount));
}

#[test]
fn test_fund_invoice_exceeds_target_rejected() {
    let mut t = deploy();
    let _id = list_one(&mut t);
    let investor = t.generate();
    assert_eq!(fund(&mut t, investor, 1, 9_500_000_001), Err(KoraError::ExceedsFundingTarget));
}

#[test]
fn test_fund_invoice_after_deadline_rejected() {
    let mut t = deploy();
    let deadline = t.now + 100;
    let _id = mint_invoice(&mut t);
    t.mp.list_invoice(t.now, false, t.seller, 1, 9_500_000_000, 10_000_000_000, t.token, deadline, None, checks())
        .unwrap();
    t.now = deadline + 1;
    let investor = t.generate();
    assert_eq!(fund(&mut t, investor, 1, 1_000_000), Err(KoraError::FundingDeadlinePassed));
}

#[test]
fn test_fund_invoice_on_cancelled_listing_rejected() {
    let mut t = deploy();
    let id = list_one(&mut t);
    t.mp.cancel_listing(t.seller, id).unwrap();
    let investor = t.generate();
    assert_eq!(fund(&mut t, investor, 1, 1_000_000), Err(KoraError::ListingAlreadyCancelled));
}

#[test]
fn test_funded_amount_overflow_protection() {
    let mut t = deploy();
    let id = list_one(&mut t);
    let investor = t.generate();
    assert!(fund(&mut t, investor, id, i128::MAX).is_err());
}

#[test]
fn test_fund_cancelled_listing() {
    let mut t = deploy();
    let id = list_one(&mut t);
    t.mp.cancel_listing(t.seller, id).unwrap();
    assert!(!t.mp.get_listing(id).unwrap().is_active);
    let investor = t.generate();
    assert_eq!(fund(&mut t, investor, id, 1_000_000), Err(KoraError::ListingAlreadyCancelled));
}

#[test]
fn test_fund_invoice_amount_exactly_equals_remaining_target() {
    let mut t = deploy();
    let id = list_one(&mut t);
    let inv1 = accredited_investor(&mut t);
    let inv2 = accredited_investor(&mut t);
    fund(&mut t, inv1, id, 5_000_000_000).unwrap();
    let listing = t.mp.get_listing(id).unwrap();
    assert_eq!(listing.funded_amount, 5_000_000_000i128);
    assert!(listing.is_active);
    let receipt = fund(&mut t, inv2, id, 4_500_000_000).unwrap();
    let listing = t.mp.get_listing(id).unwrap();
    assert_eq!(listing.funded_amount, 9_500_000_000i128);
    assert!(!listing.is_active, "Listing should be fully funded and inactive");
    assert!(receipt.release);
}

#[test]
fn test_cancel_listing_by_seller_success() {
    let mut t = deploy();
    list_one(&mut t);
    assert!(t.mp.cancel_listing(t.seller, 1).is_ok());
    assert!(!t.mp.get_listing(1).unwrap().is_active);
}

#[test]
fn test_cancel_listing_by_admin_success() {
    let mut t = deploy();
    list_one(&mut t);
    assert!(t.mp.cancel_listing(t.admin, 1).is_ok());
    assert!(!t.mp.get_listing(1).unwrap().is_active);
}

#[test]
fn test_cancel_listing_by_stranger_rejected() {
    let mut t = deploy();
    let id = list_one(&mut t);
    let stranger = t.generate();
    assert_eq!(t.mp.cancel_listing(stranger, id), Err(KoraError::Unauthorized));
}

#[test]
fn test_cancel_listing_not_found_returns_error() {
    let mut t = deploy();
    assert_eq!(t.mp.cancel_listing(t.seller, 999), Err(KoraError::ListingNotFound));
}

#[test]
fn test_cancel_listing_already_cancelled_returns_error() {
    let mut t = deploy();
    list_one(&mut t);
    t.mp.cancel_listing(t.seller, 1).unwrap();
    assert_eq!(t.mp.cancel_listing(t.seller, 1), Err(KoraError::ListingAlreadyCancelled));
}

#[test]
fn test_cancel_listing_state_unchanged_after_failed_cancel() {
    let mut t = deploy();
    let _id = list_one(&mut t);
    let stranger = t.generate();
    let _ = t.mp.cancel_listing(stranger, 1);
    assert!(t.mp.get_listing(1).unwrap().is_active);
}

#[test]
fn test_fund_after_cancel_rejected() {
    let mut t = deploy();
    let id = list_one(&mut t);
    t.mp.cancel_listing(t.admin, id).unwrap();
    let investor = t.generate();
    assert_eq!(fund(&mut t, investor, 1, 1_000_000), Err(KoraError::ListingAlreadyCancelled));
}

#[test]
fn test_request_cancellation_by_seller_success() {
    let mut t = deploy();
    let id = list_one(&mut t);
    assert!(t.mp.request_cancellation(t.seller, id).is_ok());
    assert!(!t.mp.get_listing(id).unwrap().is_active);
}

#[test]
fn test_cancel_listing_after_partial_funding_exposes_fund_loss_risk() {
    let mut t = deploy();
    let id = list_one(&mut t);
    let investor = accredited_investor(&mut t);
    let partial_amount = 2_000_000_000i128;
    fund(&mut t, investor, id, partial_amount).unwrap();
    let listing = t.mp.get_listing(id).unwrap();
    assert_eq!(listing.funded_amount, partial_amount);
    assert!(listing.is_active);
    assert!(t.mp.cancel_listing(t.seller, id).is_ok());
    assert!(!t.mp.get_listing(id).unwrap().is_active);
    assert_eq!(t.mp.claim_refund(t.now, investor, id), Err(KoraError::FundingNotExpired));
}

#[test]
fn test_request_cancellation_by_admin_success() {
    let mut t = deploy();
    let id = list_one(&mut t);
    assert!(t.mp.request_cancellation(t.admin, id).is_ok());
    assert!(!t.mp.get_listing(id).unwrap().is_active);
}

#[test]
fn test_request_cancellation_stranger_rejected() {
    let mut t = deploy();
    let id = list_one(&mut t);
    let stranger = t.generate();
    assert_eq!(t.mp.request_cancellation(stranger, id), Err(KoraError::Unauthorized));
}

#[test]
fn test_request_cancellation_not_active_rejected() {
    let mut t = deploy();
    let id = list_one(&mut t);
    t.mp.cancel_listing(t.seller, id).unwrap();
    assert_eq!(t.mp.request_cancellation(t.seller, id), Err(KoraError::ListingAlreadyCancelled));
}

/// Record a partial funding directly in storage.
fn set_funded_amount(t: &mut TestEnv, id: u64, amount: i128) {
    let mut listing = t.mp.get_listing(id).unwrap();
    listing.funded_amount = amount;
    t.mp.listings.insert(id, listing);
}

#[test]
fn test_request_cancellation_duplicate_rejected() {
    let mut t = deploy();
    let id = list_one(&mut t);
    set_funded_amount(&mut t, id, 1_000_000);
    assert!(t.mp.request_cancellation(t.seller, id).is_ok());
    assert_eq!(t.mp.request_cancellation(t.seller, id), Err(KoraError::CancellationPending));
}

#[test]
fn test_admin_confirm_cancellation_success() {
    let mut t = deploy();
    let id = list_one(&mut t);
    set_funded_amount(&mut t, id, 1_000_000);
    t.mp.request_cancellation(t.seller, id).unwrap();
    assert!(t.mp.admin_confirm_cancellation(t.admin, id).is_ok());
    assert!(!t.mp.get_listing(id).unwrap().is_active);
    let confirmed = *t.mp.cancellation_confirmed.get(&id).unwrap_or(&false);
    assert!(confirmed);
}

#[test]
fn test_admin_confirm_cancellation_no_request_rejected() {
    let mut t = deploy();
    let id = list_one(&mut t);
    assert_eq!(t.mp.admin_confirm_cancellation(t.admin, id), Err(KoraError::NoCancellationPending));
}

#[test]
fn test_admin_confirm_cancellation_non_admin_rejected() {
    let mut t = deploy();
    let id = list_one(&mut t);
    set_funded_amount(&mut t, id, 1_000_000);
    t.mp.cancellation_requests.insert(id, t.seller);
    let stranger = t.generate();
    assert_eq!(t.mp.admin_confirm_cancellation(stranger, id), Err(KoraError::NotAdmin));
}

#[test]
fn test_claim_refund_after_confirmed_cancellation() {
    let mut t = deploy();
    let id = list_one(&mut t);
    let investor = t.generate();
    let net_contribution: i128 = 950_000;
    set_funded_amount(&mut t, id, 1_000_000);
    t.mp.contributions.insert(investor_key(id, investor), net_contribution);
    t.mp.cancellation_confirmed.insert(id, true);
    let result = t.mp.claim_refund(t.now, investor, id);
    if let Err(e) = result {
        assert_ne!(e, KoraError::FundingNotExpired);
    }
}

#[test]
fn test_claim_refund_before_deadline_without_confirmation_rejected() {
    let mut t = deploy();
    let id = list_one(&mut t);
    let investor = t.generate();
    set_funded_amount(&mut t, id, 1_000);
    assert_eq!(t.mp.claim_refund(t.now, investor, id), Err(KoraError::FundingNotExpired));
}

#[test]
fn test_list_invoice_without_referrer_succeeds() {
    let mut t = deploy();
    let id = list_with_referrer(&mut t, None);
    assert!(t.mp.get_listing(id).unwrap().is_active);
}

#[test]
fn test_list_invoice_with_referrer_succeeds() {
    let mut t = deploy();
    let referrer = t.generate();
    let id = list_with_referrer(&mut t, Some(referrer));
    assert!(t.mp.get_listing(id).unwrap().is_active);
}

#[test]
fn test_list_invoice_self_referral_rejected() {
    let mut t = deploy();
    let id = mint_invoice(&mut t);
    let deadline = t.now + 86_400 * 30;
    let r = t.mp.list_invoice(
        t.now,
        false,
        t.seller,
        id,
        9_500_000_000,
        10_000_000_000,
        t.token,
        deadline,
        Some(t.seller),
        checks(),
    );
    assert_eq!(r, Err(KoraError::InvalidAddress));
}

#[test]
fn test_fund_invoice_no_referrer_full_fee_to_treasury() {
    let mut t = deploy();
    let id = list_with_referrer(&mut t, None);
    let investor = accredited_investor(&mut t);
    let receipt = fund(&mut t, investor, id, 10_000_000).unwrap();
    assert_eq!(receipt.treasury_fee, 50_000);
    assert_eq!(receipt.referrer_fee, 0);
}

#[test]
fn test_fund_invoice_with_referrer_splits_fee() {
    let mut t = deploy();
    t.mp.set_referrer_split_bps(t.admin, 2_000, &None).unwrap();
    let referrer = t.generate();
    let id = list_with_referrer(&mut t, Some(referrer));
    let investor = accredited_investor(&mut t);
    let receipt = fund(&mut t, investor, id, 10_000_000).unwrap();
    assert_eq!(receipt.referrer, Some(referrer));
    assert_eq!(receipt.referrer_fee, 10_000i128);
    assert_eq!(receipt.treasury, t.treasury);
    assert_eq!(receipt.treasury_fee, 40_000i128);
    assert_eq!(receipt.financing_pool, t.pool);
    assert_eq!(receipt.pool_amount, 9_950_000i128);
    assert_eq!(receipt.treasury_fee + receipt.referrer_fee + receipt.pool_amount, 10_000_000);
}

#[test]
fn test_fund_invoice_without_referrer_sends_full_fee_to_treasury() {
    let mut t = deploy();
    t.mp.set_referrer_split_bps(t.admin, 2_000, &None).unwrap();
    let id = list_with_referrer(&mut t, None);
    let investor = accredited_investor(&mut t);
    let receipt = fund(&mut t, investor, id, 10_000_000).unwrap();
    assert_eq!(receipt.treasury_fee, 50_000i128);
    assert_eq!(receipt.pool_amount, 9_950_000i128);
}

#[test]
fn test_fund_invoice_referrer_unpaid_when_split_is_zero() {
    let mut t = deploy();
    let referrer = t.generate();
    let id = list_with_referrer(&mut t, Some(referrer));
    let investor = accredited_investor(&mut t);
    let receipt = fund(&mut t, investor, id, 10_000_000).unwrap();
    assert_eq!(receipt.referrer_fee, 0i128);
    assert_eq!(receipt.treasury_fee, 50_000i128);
}

#[test]
fn test_single_admin_still_works_without_multisig() {
    let mut t = deploy();
    assert!(!t.mp.is_multisig_required(&None));
    t.mp.set_fee_bps(t.admin, 75, &None).unwrap();
    assert_eq!(t.mp.get_fee_bps(None), Ok(75));
}

#[test]
fn test_single_admin_still_works_with_one_of_one_multisig() {
    let mut t = deploy();
    let signer = t.generate();
    let ms = quorum(vec![signer], 1);
    assert!(!t.mp.is_multisig_required(&ms));
    t.mp.set_fee_bps(t.admin, 75, &ms).unwrap();
    assert_eq!(t.mp.get_fee_bps(None), Ok(75));
}

#[test]
fn test_direct_admin_calls_rejected_under_quorum() {
    let mut t = deploy();
    let (s1, s2, s3) = (t.generate(), t.generate(), t.generate());
    let ms = quorum(vec![s1, s2, s3], 2);
    assert!(t.mp.is_multisig_required(&ms));
    assert_eq!(t.mp.set_fee_bps(t.admin, 9_000, &ms), Err(KoraError::MultisigApprovalRequired));
    assert_eq!(t.mp.remove_token_whitelist(t.admin, t.token, &ms), Err(KoraError::MultisigApprovalRequired));
    assert_eq!(t.mp.execute_upgrade(t.now, t.admin, &ms), Err(KoraError::MultisigApprovalRequired));
    assert_eq!(t.mp.get_fee_bps(None), Ok(50));
}

#[test]
fn test_single_signer_cannot_execute_alone() {
    let mut t = deploy();
    let (s1, s2, s3) = (t.generate(), t.generate(), t.generate());
    let ms = quorum(vec![s1, s2, s3], 2);
    let id = t.mp.propose_admin_action(t.now, s1, MarketplaceAction::SetFeeBps(75), &ms).unwrap();
    assert_eq!(t.mp.execute_admin_action(t.now, s1, id, &ms), Err(KoraError::GovernanceThresholdNotMet));
    assert_eq!(t.mp.get_fee_bps(None), Ok(50));
}

#[test]
fn test_non_signer_cannot_propose() {
    let mut t = deploy();
    let (s1, s2) = (t.generate(), t.generate());
    let ms = quorum(vec![s1, s2], 2);
    let stranger = t.generate();
    assert_eq!(
        t.mp.propose_admin_action(t.now, stranger, MarketplaceAction::SetFeeBps(75), &ms),
        Err(KoraError::NotMultisigSigner)
    );
}

#[test]
fn test_quorum_approved_fee_change_succeeds() {
    let mut t = deploy();
    let (s1, s2, s3) = (t.generate(), t.generate(), t.generate());
    let ms = quorum(vec![s1, s2, s3], 2);
    let id = t.mp.propose_admin_action(t.now, s1, MarketplaceAction::SetFeeBps(75), &ms).unwrap();
    t.mp.approve_admin_action(s2, id, &ms).unwrap();
    t.mp.execute_admin_action(t.now, s2, id, &ms).unwrap();
    assert_eq!(t.mp.get_fee_bps(None), Ok(75));
    assert!(t.mp.get_admin_proposal(id).unwrap().executed);
}

#[test]
fn test_quorum_approved_token_whitelist_succeeds() {
    let mut t = deploy();
    let (s1, s2) = (t.generate(), t.generate());
    let ms = quorum(vec![s1, s2], 2);
    let token = t.generate();
    let id = t.mp.propose_admin_action(t.now, s1, MarketplaceAction::WhitelistToken(token), &ms).unwrap();
    t.mp.approve_admin_action(s2, id, &ms).unwrap();
    t.mp.execute_admin_action(t.now, s1, id, &ms).unwrap();
    assert!(t.mp.is_token_whitelisted(token));
    let id2 = t.mp.propose_admin_action(t.now, s1, MarketplaceAction::RemoveTokenWhitelist(token), &ms).unwrap();
    t.mp.approve_admin_action(s2, id2, &ms).unwrap();
    t.mp.execute_admin_action(t.now, s1, id2, &ms).unwrap();
    assert!(!t.mp.is_token_whitelisted(token));
}

#[test]
fn test_admin_proposal_cannot_be_executed_twice() {
    let mut t = deploy();
    let (s1, s2) = (t.generate(), t.generate());
    let ms = quorum(vec![s1, s2], 2);
    let id = t.mp.propose_admin_action(t.now, s1, MarketplaceAction::SetFeeBps(75), &ms).unwrap();
    t.mp.approve_admin_action(s2, id, &ms).unwrap();
    t.mp.execute_admin_action(t.now, s1, id, &ms).unwrap();
    assert_eq!(t.mp.execute_admin_action(t.now, s1, id, &ms), Err(KoraError::ParameterProposalAlreadyExecuted));
}

#[test]
fn test_duplicate_approval_rejected() {
    let mut t = deploy();
    let (s1, s2) = (t.generate(), t.generate());
    let ms = quorum(vec![s1, s2], 2);
    let id = t.mp.propose_admin_action(t.now, s1, MarketplaceAction::SetFeeBps(75), &ms).unwrap();
    assert_eq!(t.mp.approve_admin_action(s1, id, &ms), Err(KoraError::AlreadyVoted));
}

#[test]
fn test_set_referrer_split_bps_non_admin_rejected() {
    let mut t = deploy();
    let stranger = t.generate();
    assert!(t.mp.set_referrer_split_bps(stranger, 2_000, &None).is_err());
}

#[test]
fn test_set_referrer_split_bps_over_10000_rejected() {
    let mut t = deploy();
    assert!(t.mp.set_referrer_split_bps(t.admin, 10_001, &None).is_err());
}

// ── Further cases ───────────────────────────────────────────────────────────

#[test]
fn paused_protocol_blocks_listing_and_funding() {
    let mut t = deploy();
    let id = list_one(&mut t);
    let investor = accredited_investor(&mut t);
    assert_eq!(t.mp.fund_invoice(t.now, true, investor, id, 10_000_000, None, &ctx()), Err(KoraError::ProtocolPaused));
    let deadline = t.now + 86_400;
    let r = t.mp.list_invoice(t.now, true, t.seller, 2, 9_000, 10_000, t.token, deadline, None, checks());
    assert_eq!(r, Err(KoraError::ProtocolPaused));
}

#[test]
fn dust_contribution_is_rejected_unless_it_completes_the_listing() {
    let mut t = deploy();
    let id = list_one(&mut t);
    let investor = accredited_investor(&mut t);
    assert_eq!(t.mp.get_min_contribution(), DEFAULT_MIN_CONTRIBUTION);
    assert_eq!(fund(&mut t, investor, id, 1_000), Err(KoraError::ContributionBelowMinimum));
    fund(&mut t, investor, id, 9_500_000_000 - 1_000).unwrap();
    assert!(fund(&mut t, investor, id, 1_000).is_ok());
}

#[test]
fn unaccredited_investor_is_rejected() {
    let mut t = deploy();
    let id = list_one(&mut t);
    let investor = t.generate();
    assert_eq!(fund(&mut t, investor, id, 10_000_000), Err(KoraError::InvestorNotAccredited));
}

#[test]
fn frozen_invoice_cannot_be_funded() {
    let mut t = deploy();
    let id = list_one(&mut t);
    let investor = accredited_investor(&mut t);
    let c = FundingContext { frozen: true, ..ctx() };
    assert_eq!(t.mp.fund_invoice(t.now, false, investor, id, 10_000_000, None, &c), Err(KoraError::InvoiceFrozen));
}

#[test]
fn investor_share_cap_limits_concentration() {
    let mut t = deploy();
    let id = list_one(&mut t);
    let investor = accredited_investor(&mut t);
    t.mp.set_max_investor_share_bps(t.admin, 1_000).unwrap();
    assert_eq!(t.mp.get_max_investor_share_bps(), 1_000);
    assert_eq!(fund(&mut t, investor, id, 950_000_001), Err(KoraError::InvestorConcentrationExceeded));
    fund(&mut t, investor, id, 950_000_000).unwrap();
    assert_eq!(fund(&mut t, investor, id, 10_000_000), Err(KoraError::InvestorConcentrationExceeded));
}

#[test]
fn tier_fee_overrides_the_flat_fee() {
    let mut t = deploy();
    t.mp.set_tier_fee_bps(t.admin, RiskTier::A, 200, &None).unwrap();
    assert_eq!(t.mp.get_tier_fee_bps(RiskTier::A, None), Ok(200));
    assert_eq!(t.mp.get_tier_fee_bps(RiskTier::B, None), Ok(50));
    assert_eq!(t.mp.get_tier_fee_bps(RiskTier::B, Some(80)), Ok(80));
    assert_eq!(t.mp.get_fee_bps(Some(10_001)), Err(KoraError::InvalidFeeRate));
    let id = list_one(&mut t);
    let investor = accredited_investor(&mut t);
    let receipt = fund(&mut t, investor, id, 10_000_000).unwrap();
    assert_eq!(receipt.fee, 200_000);
    assert_eq!(receipt.net, 9_800_000);
}

#[test]
fn cross_currency_funding_converts_and_splits_proportionally() {
    let mut t = deploy();
    let eurc = t.generate();
    t.mp.propose_token_whitelist(t.now, t.admin, eurc).unwrap();
    let later = t.now + UPGRADE_TIMELOCK_DELAY;
    t.mp.execute_token_whitelist(later, t.admin, eurc).unwrap();
    t.mp.set_token_currency(t.admin, eurc, b"EURC".to_vec()).unwrap();
    let id = list_one(&mut t);
    let investor = accredited_investor(&mut t);
    let c = FundingContext { payment_conversion: 20_000_000, ..ctx() };
    // Without a currency for the listing token the conversion is refused.
    assert_eq!(
        t.mp.fund_invoice(t.now, false, investor, id, 10_000_000, Some(eurc), &c),
        Err(KoraError::TokenNotWhitelisted)
    );
    let token = t.token;
    t.mp.set_token_currency(t.admin, token, b"USDC".to_vec()).unwrap();
    let r = t.mp.fund_invoice(t.now, false, investor, id, 10_000_000, Some(eurc), &c).unwrap();
    assert_eq!(r.pay_token, eurc);
    assert_eq!(r.listing_amount, 20_000_000);
    assert_eq!(r.fee, 100_000);
    assert_eq!(r.treasury_fee, 50_000);
    assert_eq!(r.pool_amount, 9_950_000);
    assert_eq!(t.mp.get_listing(id).unwrap().funded_amount, 20_000_000);
}

#[test]
fn exposure_cap_limits_outstanding_listings() {
    let mut t = deploy();
    t.mp.set_token_exposure_cap(t.admin, t.token, 10_000_000_000).unwrap();
    assert_eq!(t.mp.set_token_exposure_cap(t.admin, t.token, -1), Err(KoraError::InvalidAmount));
    let id = list_one(&mut t);
    assert_eq!(t.mp.get_token_exposure_current(t.token), 9_500_000_000);
    let id2 = mint_invoice(&mut t);
    let deadline = t.now + 86_400;
    let r = t.mp.list_invoice(t.now, false, t.seller, id2, 9_500_000_000, 10_000_000_000, t.token, deadline, None, checks());
    assert_eq!(r, Err(KoraError::ExceedsFundingTarget));
    t.mp.cancel_listing(t.seller, id).unwrap();
    assert_eq!(t.mp.get_token_exposure_current(t.token), 0);
    assert!(t.mp.list_invoice(t.now, false, t.seller, id2, 9_500_000_000, 10_000_000_000, t.token, deadline, None, checks()).is_ok());
}

#[test]
fn amend_listing_revalidates_and_locks_after_funding() {
    let mut t = deploy();
    let id = list_one(&mut t);
    assert_eq!(t.mp.amend_listing(t.now, false, t.seller, id, Some(10_000_000_000), None, None), Err(KoraError::InvalidAmount));
    assert_eq!(t.mp.amend_listing(t.now, false, t.seller, id, None, Some(t.now), None), Err(KoraError::InvalidDueDate));
    let other = t.generate();
    assert_eq!(t.mp.amend_listing(t.now, false, t.seller, id, None, None, Some(other)), Err(KoraError::TokenNotWhitelisted));
    t.mp.amend_listing(t.now, false, t.seller, id, Some(9_000_000_000), Some(t.now + 10), None).unwrap();
    let l = t.mp.get_listing(id).unwrap();
    assert_eq!(l.asking_price, 9_000_000_000);
    assert_eq!(l.funding_deadline, t.now + 10);
    let investor = accredited_investor(&mut t);
    fund(&mut t, investor, id, 10_000_000).unwrap();
    assert_eq!(t.mp.amend_listing(t.now, false, t.seller, id, Some(8_000_000_000), None, None), Err(KoraError::ListingAlreadyFunded));
}

#[test]
fn refund_after_deadline_returns_net_and_fee_once() {
    let mut t = deploy();
    let id = list_one(&mut t);
    let investor = accredited_investor(&mut t);
    fund(&mut t, investor, id, 10_000_000).unwrap();
    let deadline = t.mp.get_listing(id).unwrap().funding_deadline;
    let refund = t.mp.claim_refund(deadline + 1, investor, id).unwrap();
    assert_eq!(refund.net_refund, 9_950_000);
    assert_eq!(refund.fee_refund, 50_000);
    assert_eq!(refund.financing_pool, t.pool);
    assert_eq!(refund.token, t.token);
    assert_eq!(t.mp.claim_refund(deadline + 2, investor, id), Err(KoraError::AlreadyInitialized));
    let stranger = t.generate();
    assert_eq!(t.mp.claim_refund(deadline + 1, stranger, id), Err(KoraError::InsufficientFunds));
}

#[test]
fn listing_investors_and_outstanding_contributions() {
    let mut t = deploy();
    let id = list_one(&mut t);
    let a = accredited_investor(&mut t);
    let b = accredited_investor(&mut t);
    fund(&mut t, a, id, 10_000_000).unwrap();
    fund(&mut t, b, id, 20_000_000).unwrap();
    fund(&mut t, a, id, 10_000_000).unwrap();
    assert_eq!(t.mp.get_listing_investors(id, 0, 50), vec![a, b]);
    assert_eq!(t.mp.get_listing_investors(id, 1, 1), vec![b]);
    assert_eq!(t.mp.get_listing_investors(id, 2, 1), Vec::<Addr>::new());
    assert_eq!(t.mp.get_total_outstanding_contribution(id), 9_950_000 * 2 + 19_900_000);
}

#[test]
fn batch_best_effort_reports_each_allocation() {
    let mut t = deploy();
    let id = list_one(&mut t);
    let investor = accredited_investor(&mut t);
    let allocations = vec![
        Allocation { invoice_id: id, amount: 10_000_000, context: ctx() },
        Allocation { invoice_id: 999, amount: 10_000_000, context: ctx() },
    ];
    let (results, receipts) = t.mp.fund_invoices_batch(t.now, false, investor, &allocations, false).unwrap();
    assert_eq!(results.len(), 2);
    assert!(results[0].success);
    assert_eq!(results[0].error_code, 0);
    assert!(!results[1].success);
    assert_eq!(results[1].error_code, KoraError::ListingNotFound.code());
    assert_eq!(receipts.len(), 1);
    assert_eq!(t.mp.get_listing(id).unwrap().funded_amount, 10_000_000);
}

#[test]
fn batch_atomic_failure_changes_nothing() {
    let mut t = deploy();
    let id = list_one(&mut t);
    let investor = accredited_investor(&mut t);
    let allocations = vec![
        Allocation { invoice_id: id, amount: 10_000_000, context: ctx() },
        Allocation { invoice_id: 999, amount: 10_000_000, context: ctx() },
    ];
    assert_eq!(
        t.mp.fund_invoices_batch(t.now, false, investor, &allocations, true).map(|_| ()),
        Err(KoraError::ListingNotFound)
    );
    assert_eq!(t.mp.get_listing(id).unwrap().funded_amount, 0);
    assert_eq!(t.mp.get_listing_investors(id, 0, 50).len(), 0);
    let empty: Vec<Allocation> = Vec::new();
    assert_eq!(t.mp.fund_invoices_batch(t.now, false, investor, &empty, true).map(|_| ()), Err(KoraError::InvalidAmount));
}

#[test]
fn dependency_update_waits_for_the_timelock() {
    let mut t = deploy();
    let new_treasury = t.generate();
    assert_eq!(
        t.mp.execute_dependency_update(t.now, t.admin, DependencyField::Treasury),
        Err(KoraError::NoDependencyUpdateProposed)
    );
    t.mp.propose_dependency_update(t.now, t.admin, DependencyField::Treasury, new_treasury).unwrap();
    assert_eq!(
        t.mp.execute_dependency_update(t.now + 1, t.admin, DependencyField::Treasury),
        Err(KoraError::DependencyUpdateTimelockNotElapsed)
    );
    let later = t.now + UPGRADE_TIMELOCK_DELAY;
    t.mp.execute_dependency_update(later, t.admin, DependencyField::Treasury).unwrap();
    assert_eq!(t.mp.get_config().unwrap().treasury, new_treasury);
    assert_eq!(MarketplaceContract::dependency_field_ordinal(DependencyField::Treasury), 2);
    assert_eq!(MarketplaceContract::tier_ordinal(RiskTier::C), 4);
}

#[test]
fn upgrade_through_quorum_returns_the_code_hash() {
    let mut t = deploy();
    let (s1, s2) = (t.generate(), t.generate());
    let ms = quorum(vec![s1, s2], 2);
    let hash = [3u8; 32];
    let id = t.mp.propose_admin_action(t.now, s1, MarketplaceAction::ProposeUpgrade(hash), &ms).unwrap();
    t.mp.approve_admin_action(s2, id, &ms).unwrap();
    assert_eq!(t.mp.execute_admin_action(t.now, s1, id, &ms), Ok(None));
    let id2 = t.mp.propose_admin_action(t.now, s1, MarketplaceAction::ExecuteUpgrade, &ms).unwrap();
    t.mp.approve_admin_action(s2, id2, &ms).unwrap();
    assert_eq!(t.mp.execute_admin_action(t.now, s1, id2, &ms), Err(KoraError::UpgradeTimelockNotElapsed));
    // A failed execution leaves the proposal pending.
    assert!(!t.mp.get_admin_proposal(id2).unwrap().executed);
    let later = t.now + UPGRADE_TIMELOCK_DELAY;
    assert_eq!(t.mp.execute_admin_action(later, s1, id2, &ms), Ok(Some(hash)));
}

#[test]
fn legacy_settings_are_migrated_into_a_configuration() {
    let mut mp = MarketplaceContract::new();
    mp.legacy.admin = Some(1);
    mp.legacy.invoice_nft = Some(2);
    mp.legacy.financing_pool = Some(3);
    mp.legacy.treasury = Some(4);
    mp.legacy.access_control = Some(5);
    mp.legacy.price_oracle = Some(6);
    mp.legacy.fee_bps = Some(30);
    assert_eq!(mp.get_admin(), Err(KoraError::NotInitialized));
    mp.legacy.risk_registry = Some(7);
    assert!(mp.config.is_none());
    let c = mp.get_config().unwrap();
    assert_eq!(c.fee_bps, 30);
    assert_eq!(c.referrer_split_bps, 0);
    assert_eq!(mp.config, Some(c));
    assert_eq!(mp.initialize(1, 2, 3, 4, 5, 6, 7, 50, 0), Err(KoraError::AlreadyInitialized));
}

#[test]
fn withdrawing_a_funded_listing_is_refused() {
    let mut t = deploy();
    let id = list_one(&mut t);
    let investor = accredited_investor(&mut t);
    fund(&mut t, investor, id, 1_000_000_000).unwrap();
    assert_eq!(t.mp.withdraw_listing(t.seller, id), Err(KoraError::ListingAlreadyFunded));
}

#[test]
fn currency_conversion_is_asked_only_across_currencies() {
    assert!(currency_conversion_request(500, &b"USDC".to_vec(), &b"USDC".to_vec(), 6).is_none());
    let c = currency_conversion_request(500, &b"EURC".to_vec(), &b"USDC".to_vec(), 6).unwrap();
    assert_eq!(c.amount, 500);
    assert_eq!(c.from_currency, b"EURC".to_vec());
    assert_eq!(c.to_currency, b"USDC".to_vec());
    assert_eq!(c.decimals, Some((6, 7)));
}

#[test]
fn payment_conversion_goes_between_registered_currencies() {
    let mut t = deploy();
    let id = list_one(&mut t);
    let other = t.generate();
    let admin = t.admin;
    // Paying in the listing's own token, or in none, asks for no conversion.
    assert!(t.mp.payment_conversion_request(id, 700, None).is_none());
    assert!(t.mp.payment_conversion_request(id, 700, Some(t.token)).is_none());
    // Without registered currencies nothing can be converted.
    assert!(t.mp.payment_conversion_request(id, 700, Some(other)).is_none());
    let token = t.token;
    t.mp.set_token_currency(admin, token, b"USDC".to_vec()).unwrap();
    t.mp.set_token_currency(admin, other, b"EURC".to_vec()).unwrap();
    let c = t.mp.payment_conversion_request(id, 700, Some(other)).unwrap();
    assert_eq!(c.amount, 700);
    assert_eq!(c.from_currency, b"EURC".to_vec());
    assert_eq!(c.to_currency, b"USDC".to_vec());
    assert_eq!(c.decimals, None);
    assert!(t.mp.payment_conversion_request(999, 700, Some(other)).is_none());
}
