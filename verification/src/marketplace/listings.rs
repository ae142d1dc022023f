//! Listings: a seller offers an invoice at a discount, amends or withdraws
//! it before funding, and seller or admin cancel it, at once or, once funded
//! in part, in two phases that open refunds.
use vstd::prelude::*;
use crate::types::{
    Addr, KoraError, MAX_AMOUNT, require_future_timestamp, require_non_zero_amount,
    require_within_max_amount,
};
use crate::access_control::{clamp_members_page_size, members_page};
use crate::invoice_state_machine::InvoiceStatus;
use crate::marketplace::{
    Listing, MarketplaceContract, MarketView, clamp_i128, saturating_add_i128,
    saturating_sub_i128,
};

verus! {

broadcast use vstd::std_specs::hash::group_hash_axioms;

/// What other contracts report about a listing request: whether the risk
/// registry holds the seller compliance-attested, the face value of the
/// invoice in the NFT contract, and whether the registry holds its debtor
/// verified.
#[derive(Clone, Copy, Debug)]
pub struct ListingChecks {
    pub seller_attested: bool,
    pub invoice_amount: i128,
    pub debtor_verified: bool,
}

/// A status change that the invoice NFT contract is to make.
#[derive(Clone, Copy, Debug, PartialEq, Eq, Structural)]
pub struct NftStatusRequest {
    /// The invoice NFT contract of the configuration.
    pub invoice_nft: Addr,
    pub invoice_id: u64,
    /// The status it is to record: Listed after a listing, Created after a
    /// withdrawal.
    pub status: InvoiceStatus,
}

/// Whether an amount is positive and at most `MAX_AMOUNT`.
pub open spec fn valid_amount(a: i128) -> bool {
    0 < a <= MAX_AMOUNT
}

/// The sum of the net contributions of `investors` to listing `invoice_id`,
/// each addition saturating.
pub open spec fn saturating_total(s: MarketView, invoice_id: u64, investors: Seq<Addr>) -> i128
    decreases investors.len(),
{
    if investors.len() == 0 {
        0
    } else {
        clamp_i128(
            saturating_total(s, invoice_id, investors.drop_last()) + s.contribution(
                invoice_id,
                investors.last(),
            ),
        )
    }
}

impl MarketView {
    /// The listing `invoice_id` (meaningful where it exists).
    pub open spec fn listing(self, invoice_id: u64) -> Listing {
        self.listings[invoice_id]
    }

    /// Whether `caller` may manage listing `invoice_id`: its seller or the admin.
    pub open spec fn may_manage(self, caller: Addr, invoice_id: u64) -> bool {
        caller == self.listing(invoice_id).seller || caller == self.loaded_config()->Some_0.admin
    }

    /// The outcome of the checks that seller or admin acting on an active
    /// listing pass.
    pub open spec fn manage_check(self, caller: Addr, invoice_id: u64) -> Result<(), KoraError> {
        if !self.listings.contains_key(invoice_id) {
            Err(KoraError::ListingNotFound)
        } else if !self.listing(invoice_id).is_active {
            Err(KoraError::ListingAlreadyCancelled)
        } else if self.loaded_config() is None {
            Err(KoraError::NotInitialized)
        } else if !self.may_manage(caller, invoice_id) {
            Err(KoraError::Unauthorized)
        } else {
            Ok(())
        }
    }

    /// The outcome of `caller` requesting the cancellation of listing
    /// `invoice_id`: an unfunded listing is cancelled at once, a funded one
    /// takes one pending request.
    pub open spec fn request_outcome(self, caller: Addr, invoice_id: u64) -> Result<(), KoraError> {
        if self.manage_check(caller, invoice_id) is Err {
            self.manage_check(caller, invoice_id)
        } else if self.listing(invoice_id).funded_amount == 0 {
            Ok(())
        } else if self.cancellation_requests.contains_key(invoice_id) {
            Err(KoraError::CancellationPending)
        } else {
            Ok(())
        }
    }

    /// The storage after a successful cancellation request by `caller`.
    pub open spec fn cancellation_requested(self, caller: Addr, invoice_id: u64) -> MarketView {
        if self.listing(invoice_id).funded_amount == 0 {
            self.migrated().deactivated(invoice_id)
        } else {
            MarketView {
                cancellation_requests: self.cancellation_requests.insert(invoice_id, caller),
                ..self.migrated()
            }
        }
    }

    /// The outcome of `admin` confirming the pending cancellation of
    /// listing `invoice_id`.
    pub open spec fn confirm_outcome(self, admin: Addr, invoice_id: u64) -> Result<(), KoraError> {
        if self.admin_check(admin) is Err {
            self.admin_check(admin)
        } else if !self.cancellation_requests.contains_key(invoice_id) {
            Err(KoraError::NoCancellationPending)
        } else if !self.listings.contains_key(invoice_id) {
            Err(KoraError::ListingNotFound)
        } else if !self.listing(invoice_id).is_active {
            Err(KoraError::ListingAlreadyCancelled)
        } else {
            Ok(())
        }
    }

    /// The storage after a confirmed cancellation: the listing inactive, the
    /// request consumed and the cancellation recorded as confirmed.
    pub open spec fn cancellation_confirmed_state(self, invoice_id: u64) -> MarketView {
        MarketView {
            cancellation_requests: self.cancellation_requests.remove(invoice_id),
            cancellation_confirmed: self.cancellation_confirmed.insert(invoice_id, true),
            ..self.migrated().deactivated(invoice_id)
        }
    }

    /// The storage with listing `invoice_id` inactive and its asking price
    /// released from its token's exposure.
    pub open spec fn deactivated(self, invoice_id: u64) -> MarketView {
        let l = self.listing(invoice_id);
        (MarketView {
            listings: self.listings.insert(invoice_id, Listing { is_active: false, ..l }),
            ..self
        }).exposure_released(l.token, l.asking_price)
    }

    /// The outcome of `caller` withdrawing listing `invoice_id`.
    pub open spec fn withdraw_outcome(self, caller: Addr, invoice_id: u64) -> Result<(), KoraError> {
        if !self.listings.contains_key(invoice_id) {
            Err(KoraError::ListingNotFound)
        } else if !self.listing(invoice_id).is_active {
            Err(KoraError::ListingAlreadyCancelled)
        } else if self.listing(invoice_id).funded_amount > 0 {
            Err(KoraError::ListingAlreadyFunded)
        } else {
            self.manage_check(caller, invoice_id)
        }
    }

    /// The outcome of listing an invoice.
    pub open spec fn list_outcome(
        self,
        now: u64,
        paused: bool,
        seller: Addr,
        invoice_id: u64,
        asking_price: i128,
        face_value: i128,
        token: Addr,
        funding_deadline: u64,
        referrer: Option<Addr>,
        checks: ListingChecks,
    ) -> Result<(), KoraError> {
        if self.pause_check(paused) is Err {
            self.pause_check(paused)
        } else if !valid_amount(asking_price) || !valid_amount(face_value) {
            Err(KoraError::InvalidAmount)
        } else if funding_deadline <= now {
            Err(KoraError::InvalidDueDate)
        } else if asking_price >= face_value {
            Err(KoraError::InvalidAmount)
        } else if !self.is_whitelisted(token) {
            Err(KoraError::TokenNotWhitelisted)
        } else if self.loaded_config() is None {
            Err(KoraError::NotInitialized)
        } else if !checks.seller_attested {
            Err(KoraError::ComplianceNotAttested)
        } else if self.listings.contains_key(invoice_id) {
            Err(KoraError::AlreadyInitialized)
        } else if referrer == Some(seller) {
            Err(KoraError::InvalidAddress)
        } else if checks.invoice_amount != face_value {
            Err(KoraError::InvalidAmount)
        } else if !checks.debtor_verified {
            Err(KoraError::ComplianceNotAttested)
        } else if self.current_exposure(token) + asking_price > i128::MAX {
            Err(KoraError::ArithmeticOverflow)
        } else if self.cap_of(token) != 0 && self.current_exposure(token) + asking_price > self.cap_of(
            token,
        ) {
            Err(KoraError::ExceedsFundingTarget)
        } else {
            Ok(())
        }
    }

    /// The outcome of amending listing `invoice_id`.
    pub open spec fn amend_outcome(
        self,
        now: u64,
        paused: bool,
        caller: Addr,
        invoice_id: u64,
        new_asking_price: Option<i128>,
        new_funding_deadline: Option<u64>,
        new_token: Option<Addr>,
    ) -> Result<(), KoraError> {
        if self.pause_check(paused) is Err {
            self.pause_check(paused)
        } else if !self.listings.contains_key(invoice_id) {
            Err(KoraError::ListingNotFound)
        } else if !self.listing(invoice_id).is_active {
            Err(KoraError::ListingAlreadyCancelled)
        } else if self.listing(invoice_id).funded_amount > 0 {
            Err(KoraError::ListingAlreadyFunded)
        } else if self.loaded_config() is None {
            Err(KoraError::NotInitialized)
        } else if !self.may_manage(caller, invoice_id) {
            Err(KoraError::Unauthorized)
        } else if new_asking_price matches Some(p) && (!valid_amount(p) || p >= self.listing(
            invoice_id,
        ).face_value) {
            Err(KoraError::InvalidAmount)
        } else if new_funding_deadline matches Some(d) && d <= now {
            Err(KoraError::InvalidDueDate)
        } else if new_token matches Some(t) && !self.is_whitelisted(t) {
            Err(KoraError::TokenNotWhitelisted)
        } else {
            Ok(())
        }
    }
}

/// The listing `l` with the provided fields replaced.
pub open spec fn amended(
    l: Listing,
    new_asking_price: Option<i128>,
    new_funding_deadline: Option<u64>,
    new_token: Option<Addr>,
) -> Listing {
    Listing {
        asking_price: match new_asking_price {
            Some(p) => p,
            None => l.asking_price,
        },
        funding_deadline: match new_funding_deadline {
            Some(d) => d,
            None => l.funding_deadline,
        },
        token: match new_token {
            Some(t) => t,
            None => l.token,
        },
        ..l
    }
}

impl MarketplaceContract {
    /// Lower the exposure of `token` by `amount`, saturating.
    pub(crate) fn remove_token_exposure(&mut self, token: Addr, amount: i128)
        requires
            old(self)@.wf(),
        ensures
            final(self)@.wf(),
            final(self)@ == old(self)@.exposure_released(token, amount),
    {
        let current = self.get_token_exposure_current(token);
        self.exposure_current.insert(token, saturating_sub_i128(current, amount));
    }

    /// Make listing `invoice_id` inactive and release its exposure.
    fn deactivate(&mut self, invoice_id: u64)
        requires
            old(self)@.wf(),
            old(self)@.listings.contains_key(invoice_id),
        ensures
            final(self)@.wf(),
            final(self)@ == old(self)@.deactivated(invoice_id),
    {
        let l = *self.listings.get(&invoice_id).unwrap();
        self.listings.insert(invoice_id, Listing { is_active: false, ..l });
        self.remove_token_exposure(l.token, l.asking_price);
    }

    /// Check that `caller` may act on listing `invoice_id`, which must be active.
    fn require_manager(&self, caller: Addr, invoice_id: u64) -> (r: Result<(), KoraError>)
        ensures
            r == self@.manage_check(caller, invoice_id),
    {
        let l = match self.listings.get(&invoice_id) {
            Some(l) => *l,
            None => {
                return Err(KoraError::ListingNotFound);
            },
        };
        if !l.is_active {
            return Err(KoraError::ListingAlreadyCancelled);
        }
        let c = self.load_config()?;
        if caller != l.seller && caller != c.admin {
            return Err(KoraError::Unauthorized);
        }
        Ok(())
    }

    /// A seller lists invoice `invoice_id` for financing at `asking_price`,
    /// below its face value, in whitelisted `token`, until
    /// `funding_deadline`. An optional `referrer`, not the seller, earns a
    /// share of the fees. `paused` is what access control reports and
    /// `checks` what the risk registry and NFT contract report. On success
    /// the NFT contract is to mark the invoice listed.
    pub fn list_invoice(
        &mut self,
        now: u64,
        paused: bool,
        seller: Addr,
        invoice_id: u64,
        asking_price: i128,
        face_value: i128,
        token: Addr,
        funding_deadline: u64,
        referrer: Option<Addr>,
        checks: ListingChecks,
    ) -> (r: Result<NftStatusRequest, KoraError>)
        requires
            old(self)@.wf(),
        ensures
            final(self)@.wf(),
            match old(self)@.list_outcome(
                now,
                paused,
                seller,
                invoice_id,
                asking_price,
                face_value,
                token,
                funding_deadline,
                referrer,
                checks,
            ) {
                Err(e) => r == Err::<NftStatusRequest, KoraError>(e),
                Ok(()) => r == Ok::<NftStatusRequest, KoraError>(
                    NftStatusRequest {
                        invoice_nft: old(self)@.loaded_config()->Some_0.invoice_nft,
                        invoice_id,
                        status: InvoiceStatus::Listed,
                    },
                ),
            },
            r is Err ==> final(self)@ == old(self)@,
            r is Ok ==> final(self)@ == (MarketView {
                listings: old(self)@.listings.insert(
                    invoice_id,
                    Listing {
                        invoice_id,
                        seller,
                        asking_price,
                        face_value,
                        token,
                        funded_amount: 0,
                        funding_deadline,
                        is_active: true,
                    },
                ),
                referrers: match referrer {
                    Some(a) => old(self)@.referrers.insert(invoice_id, a),
                    None => old(self)@.referrers,
                },
                exposure_current: old(self)@.exposure_current.insert(
                    token,
                    (old(self)@.current_exposure(token) + asking_price) as i128,
                ),
                ..old(self)@.migrated()
            }),
    {
        self.require_not_paused(paused)?;
        let amounts_ok = require_non_zero_amount(asking_price).is_ok() && require_non_zero_amount(
            face_value,
        ).is_ok() && require_within_max_amount(asking_price).is_ok() && require_within_max_amount(
            face_value,
        ).is_ok();
        if !amounts_ok {
            return Err(KoraError::InvalidAmount);
        }
        if require_future_timestamp(now, funding_deadline).is_err() {
            return Err(KoraError::InvalidDueDate);
        }
        if asking_price >= face_value {
            return Err(KoraError::InvalidAmount);
        }
        if !self.is_token_whitelisted(token) {
            return Err(KoraError::TokenNotWhitelisted);
        }
        let cfg = self.load_config()?;
        if !checks.seller_attested {
            return Err(KoraError::ComplianceNotAttested);
        }
        if self.listings.contains_key(&invoice_id) {
            return Err(KoraError::AlreadyInitialized);
        }
        if let Some(r) = referrer {
            if r == seller {
                return Err(KoraError::InvalidAddress);
            }
        }
        if checks.invoice_amount != face_value {
            return Err(KoraError::InvalidAmount);
        }
        if !checks.debtor_verified {
            return Err(KoraError::ComplianceNotAttested);
        }
        let cap = self.get_token_exposure_cap(token);
        let current = self.get_token_exposure_current(token);
        let new_total = match current.checked_add(asking_price) {
            Some(t) => t,
            None => {
                return Err(KoraError::ArithmeticOverflow);
            },
        };
        if cap != 0 && new_total > cap {
            return Err(KoraError::ExceedsFundingTarget);
        }
        self.persist_config();
        if let Some(r) = referrer {
            self.referrers.insert(invoice_id, r);
        }
        self.exposure_current.insert(token, new_total);
        self.listings.insert(
            invoice_id,
            Listing {
                invoice_id,
                seller,
                asking_price,
                face_value,
                token,
                funded_amount: 0,
                funding_deadline,
                is_active: true,
            },
        );
        Ok(NftStatusRequest { invoice_nft: cfg.invoice_nft, invoice_id, status: InvoiceStatus::Listed })
    }

    /// Cancel active listing `invoice_id`; its seller or the admin may.
    pub fn cancel_listing(&mut self, caller: Addr, invoice_id: u64) -> (r: Result<(), KoraError>)
        requires
            old(self)@.wf(),
        ensures
            final(self)@.wf(),
            r == old(self)@.manage_check(caller, invoice_id),
            r is Err ==> final(self)@ == old(self)@,
            r is Ok ==> final(self)@ == old(self)@.migrated().deactivated(invoice_id),
    {
        self.require_manager(caller, invoice_id)?;
        self.persist_config();
        self.deactivate(invoice_id);
        Ok(())
    }

    /// Withdraw active, unfunded listing `invoice_id` so that the invoice can
    /// be listed again; its seller or the admin may. On success the NFT
    /// contract is to mark the invoice created again.
    pub fn withdraw_listing(&mut self, caller: Addr, invoice_id: u64) -> (r: Result<NftStatusRequest, KoraError>)
        requires
            old(self)@.wf(),
        ensures
            final(self)@.wf(),
            r is Ok ==> r == Ok::<NftStatusRequest, KoraError>(
                NftStatusRequest {
                    invoice_nft: old(self)@.loaded_config()->Some_0.invoice_nft,
                    invoice_id,
                    status: InvoiceStatus::Created,
                },
            ),
            r is Ok <==> old(self)@.withdraw_outcome(caller, invoice_id) is Ok,
            r is Err ==> r->Err_0 == old(self)@.withdraw_outcome(caller, invoice_id)->Err_0,
            r is Err ==> final(self)@ == old(self)@,
            r is Ok ==> final(self)@ == (MarketView {
                listings: old(self)@.listings.remove(invoice_id),
                ..old(self)@.migrated()
            }).exposure_released(
                old(self)@.listing(invoice_id).token,
                old(self)@.listing(invoice_id).asking_price,
            ),
    {
        let l = match self.listings.get(&invoice_id) {
            Some(l) => *l,
            None => {
                return Err(KoraError::ListingNotFound);
            },
        };
        if !l.is_active {
            return Err(KoraError::ListingAlreadyCancelled);
        }
        if l.funded_amount > 0 {
            return Err(KoraError::ListingAlreadyFunded);
        }
        self.require_manager(caller, invoice_id)?;
        let cfg = self.load_config()?;
        self.persist_config();
        self.listings.remove(&invoice_id);
        self.remove_token_exposure(l.token, l.asking_price);
        Ok(NftStatusRequest { invoice_nft: cfg.invoice_nft, invoice_id, status: InvoiceStatus::Created })
    }

    /// First phase of cancelling active listing `invoice_id`, by its seller
    /// or the admin: an unfunded listing is cancelled at once; one funded in
    /// part gets a pending request, which the admin confirms.
    pub fn request_cancellation(&mut self, caller: Addr, invoice_id: u64) -> (r: Result<(), KoraError>)
        requires
            old(self)@.wf(),
        ensures
            final(self)@.wf(),
            r == old(self)@.request_outcome(caller, invoice_id),
            r is Err ==> final(self)@ == old(self)@,
            r is Ok ==> final(self)@ == old(self)@.cancellation_requested(caller, invoice_id),
    {
        self.require_manager(caller, invoice_id)?;
        let l = *self.listings.get(&invoice_id).unwrap();
        if l.funded_amount == 0 {
            self.persist_config();
            self.deactivate(invoice_id);
            return Ok(());
        }
        if self.cancellation_requests.contains_key(&invoice_id) {
            return Err(KoraError::CancellationPending);
        }
        self.persist_config();
        self.cancellation_requests.insert(invoice_id, caller);
        Ok(())
    }

    /// Second phase: the admin confirms the pending cancellation of
    /// `invoice_id`. The listing becomes inactive and its investors may
    /// claim refunds before the deadline.
    pub fn admin_confirm_cancellation(&mut self, admin: Addr, invoice_id: u64) -> (r: Result<(), KoraError>)
        requires
            old(self)@.wf(),
        ensures
            final(self)@.wf(),
            r == old(self)@.confirm_outcome(admin, invoice_id),
            r is Err ==> final(self)@ == old(self)@,
            r is Ok ==> final(self)@ == old(self)@.cancellation_confirmed_state(invoice_id),
    {
        self.require_admin(admin)?;
        if !self.cancellation_requests.contains_key(&invoice_id) {
            return Err(KoraError::NoCancellationPending);
        }
        let l = match self.listings.get(&invoice_id) {
            Some(l) => *l,
            None => {
                return Err(KoraError::ListingNotFound);
            },
        };
        if !l.is_active {
            return Err(KoraError::ListingAlreadyCancelled);
        }
        self.persist_config();
        self.deactivate(invoice_id);
        self.cancellation_requests.remove(&invoice_id);
        self.cancellation_confirmed.insert(invoice_id, true);
        Ok(())
    }

    /// Amend the asking price, deadline or token of active, unfunded listing
    /// `invoice_id`, each re-checked as `list_invoice` checks it; `None`
    /// keeps a field. Its seller or the admin may.
    pub fn amend_listing(
        &mut self,
        now: u64,
        paused: bool,
        caller: Addr,
        invoice_id: u64,
        new_asking_price: Option<i128>,
        new_funding_deadline: Option<u64>,
        new_token: Option<Addr>,
    ) -> (r: Result<(), KoraError>)
        requires
            old(self)@.wf(),
        ensures
            final(self)@.wf(),
            r == old(self)@.amend_outcome(
                now,
                paused,
                caller,
                invoice_id,
                new_asking_price,
                new_funding_deadline,
                new_token,
            ),
            r is Err ==> final(self)@ == old(self)@,
            r is Ok ==> final(self)@ == (MarketView {
                listings: old(self)@.listings.insert(
                    invoice_id,
                    amended(
                        old(self)@.listing(invoice_id),
                        new_asking_price,
                        new_funding_deadline,
                        new_token,
                    ),
                ),
                ..old(self)@.migrated()
            }),
    {
        self.require_not_paused(paused)?;
        let mut l = match self.listings.get(&invoice_id) {
            Some(l) => *l,
            None => {
                return Err(KoraError::ListingNotFound);
            },
        };
        if !l.is_active {
            return Err(KoraError::ListingAlreadyCancelled);
        }
        if l.funded_amount > 0 {
            return Err(KoraError::ListingAlreadyFunded);
        }
        self.require_manager(caller, invoice_id)?;
        if let Some(price) = new_asking_price {
            if require_non_zero_amount(price).is_err() || require_within_max_amount(price).is_err() {
                return Err(KoraError::InvalidAmount);
            }
            if price >= l.face_value {
                return Err(KoraError::InvalidAmount);
            }
            l.asking_price = price;
        }
        if let Some(deadline) = new_funding_deadline {
            if require_future_timestamp(now, deadline).is_err() {
                return Err(KoraError::InvalidDueDate);
            }
            l.funding_deadline = deadline;
        }
        if let Some(token) = new_token {
            if !self.is_token_whitelisted(token) {
                return Err(KoraError::TokenNotWhitelisted);
            }
            l.token = token;
        }
        self.persist_config();
        self.listings.insert(invoice_id, l);
        Ok(())
    }

    /// Listing `invoice_id`.
    pub fn get_listing(&self, invoice_id: u64) -> (r: Result<Listing, KoraError>)
        ensures
            match r {
                Ok(l) => self@.listings.contains_key(invoice_id) && l == self@.listing(invoice_id),
                Err(e) => !self@.listings.contains_key(invoice_id) && e == KoraError::ListingNotFound,
            },
    {
        match self.listings.get(&invoice_id) {
            Some(l) => Ok(*l),
            None => Err(KoraError::ListingNotFound),
        }
    }

    /// Page `page` (0-indexed) of the investors of listing `invoice_id`, in
    /// order of first contribution; `page_size` is clamped to 1..=50.
    pub fn get_listing_investors(&self, invoice_id: u64, page: u32, page_size: u32) -> (r: Vec<Addr>)
        ensures
            r@ == members_page(self@.investors_of(invoice_id), page, clamp_members_page_size(page_size)),
    {
        let size: usize = if page_size < 1 {
            1
        } else if page_size > 50 {
            50
        } else {
            page_size as usize
        };
        let empty: Vec<Addr> = Vec::new();
        let all: &Vec<Addr> = match self.listing_investors.get(&invoice_id) {
            Some(v) => v,
            None => &empty,
        };
        let ghost m = all@;
        assert(m == self@.investors_of(invoice_id));
        let len = all.len();
        let mut results: Vec<Addr> = Vec::new();
        if (page as usize) <= len / size {
            assert((page as int) * (size as int) <= len) by (nonlinear_arith)
                requires
                    page <= len / size,
                    1 <= size,
            ;
            let start = (page as usize) * size;
            let end = if len - start < size {
                len
            } else {
                start + size
            };
            let mut j = start;
            while j < end
                invariant
                    start <= j <= end <= len,
                    len == m.len(),
                    m == all@,
                    results@ == m.subrange(start as int, j as int),
                decreases end - j,
            {
                results.push(all[j]);
                assert(m.subrange(start as int, j + 1) == m.subrange(start as int, j as int).push(m[j as int]));
                j = j + 1;
            }
            assert(start == page * size);
            if start >= len {
                assert(results@ == Seq::<Addr>::empty());
            }
        } else {
            assert((page as int) * (size as int) >= len) by (nonlinear_arith)
                requires
                    page > len / size,
                    1 <= size,
            ;
        }
        results
    }

    /// The sum of the net contributions of the investors of listing
    /// `invoice_id`, each addition saturating.
    pub fn get_total_outstanding_contribution(&self, invoice_id: u64) -> (r: i128)
        ensures
            r == saturating_total(self@, invoice_id, self@.investors_of(invoice_id)),
    {
        let empty: Vec<Addr> = Vec::new();
        let all: &Vec<Addr> = match self.listing_investors.get(&invoice_id) {
            Some(v) => v,
            None => &empty,
        };
        let ghost m = all@;
        let mut total: i128 = 0;
        let mut i: usize = 0;
        while i < all.len()
            invariant
                m == all@,
                i <= m.len(),
                total == saturating_total(self@, invoice_id, m.subrange(0, i as int)),
            decreases m.len() - i,
        {
            let key = crate::marketplace::investor_key(invoice_id, all[i]);
            let c: i128 = match self.contributions.get(&key) {
                Some(c) => *c,
                None => 0,
            };
            assert(m.subrange(0, i + 1).drop_last() =~= m.subrange(0, i as int));
            total = saturating_add_i128(total, c);
            i = i + 1;
        }
        assert(m.subrange(0, m.len() as int) =~= m);
        total
    }
}

} // verus!
