//! Disputes against defaulted invoices: within the dispute window after the
//! default a challenger opens one and submits evidence as an IPFS content
//! identifier, and governance resolves it within the window after opening.
//!
//! The contract's storage is the `DisputeResolutionContract` value. What the
//! access-control contract reports (whether the protocol is paused, the
//! multisig signers) reaches each entry point as an argument. An entry point
//! that returns `Err` leaves the storage as it was.
use vstd::prelude::*;
use std::collections::HashMap;
use crate::types::{
    Addr, CommonError, WasmHash, UPGRADE_TIMELOCK_DELAY, require_valid_ipfs_cid, seq_has,
    valid_cid, vec_contains,
};

verus! {

broadcast use vstd::std_specs::hash::group_hash_axioms;

/// Time after opening during which a dispute can be resolved: seven days.
pub const DISPUTE_WINDOW_SECS: u64 = 604_800;

/// Errors of the dispute-resolution contract.
#[derive(Clone, Copy, Debug, PartialEq, Eq, Structural)]
pub enum DisputeResolutionError {
    AlreadyInitialized,
    NotInitialized,
    NotAdmin,
    DisputeNotFound,
    DisputeAlreadyOpen,
    DisputeAlreadyResolved,
    DisputeWindowExpired,
    NotDisputeChallenger,
    InvalidCid,
    ProtocolPaused,
    NoUpgradeProposed,
    UpgradeTimelockNotElapsed,
    InvalidAmount,
    ArithmeticOverflow,
    NotGovernance,
    DisputeNotOpen,
}

/// The error that a shared validation error becomes in this contract.
pub open spec fn common_to_dispute(e: CommonError) -> DisputeResolutionError {
    match e {
        CommonError::InvalidCid => DisputeResolutionError::InvalidCid,
        CommonError::InvalidAmount => DisputeResolutionError::InvalidAmount,
        CommonError::ArithmeticOverflow => DisputeResolutionError::ArithmeticOverflow,
        _ => DisputeResolutionError::NotInitialized,
    }
}

impl DisputeResolutionError {
    /// Convert a shared validation error.
    pub fn from(e: CommonError) -> (r: DisputeResolutionError)
        ensures
            r == common_to_dispute(e),
    {
        match e {
            CommonError::InvalidCid => DisputeResolutionError::InvalidCid,
            CommonError::InvalidAmount => DisputeResolutionError::InvalidAmount,
            CommonError::ArithmeticOverflow => DisputeResolutionError::ArithmeticOverflow,
            _ => DisputeResolutionError::NotInitialized,
        }
    }
}

/// A dispute against an invoice.
#[derive(Debug)]
pub struct Dispute {
    pub invoice_id: u64,
    pub challenger: Addr,
    /// IPFS content identifier of the evidence, once submitted.
    pub evidence_cid: Option<Vec<u8>>,
    pub opened_at: u64,
    pub resolved: bool,
    pub upheld: bool,
    pub resolved_at: u64,
}

/// The storage of the dispute-resolution contract.
pub struct DisputeResolutionContract {
    pub admin: Option<Addr>,
    /// The access-control contract that reports the pause switch and the signers.
    pub access_control: Option<Addr>,
    pub disputes: HashMap<u64, Dispute>,
    /// Pending upgrade: code hash and time of proposal.
    pub upgrade_proposal: Option<(WasmHash, u64)>,
}

/// Mathematical content of the contract's storage.
#[verifier::ext_equal]
pub struct DisputeView {
    pub admin: Option<Addr>,
    pub access_control: Option<Addr>,
    pub disputes: Map<u64, Dispute>,
    pub upgrade_proposal: Option<(WasmHash, u64)>,
}

impl View for DisputeResolutionContract {
    type V = DisputeView;

    open spec fn view(&self) -> DisputeView {
        DisputeView {
            admin: self.admin,
            access_control: self.access_control,
            disputes: self.disputes@,
            upgrade_proposal: self.upgrade_proposal,
        }
    }
}

/// The dispute `d` opened by `challenger` on `invoice_id` at `now`.
pub open spec fn opened_dispute(d: Dispute, invoice_id: u64, challenger: Addr, now: u64) -> bool {
    &&& d.invoice_id == invoice_id
    &&& d.challenger == challenger
    &&& d.evidence_cid is None
    &&& d.opened_at == now
    &&& !d.resolved
    &&& !d.upheld
    &&& d.resolved_at == 0
}

/// `new` is `old` with the evidence `cid` attached.
pub open spec fn evidence_attached(old: Dispute, new: Dispute, cid: Seq<u8>) -> bool {
    &&& new.invoice_id == old.invoice_id
    &&& new.challenger == old.challenger
    &&& new.evidence_cid matches Some(c) && c@ == cid
    &&& new.opened_at == old.opened_at
    &&& new.resolved == old.resolved
    &&& new.upheld == old.upheld
    &&& new.resolved_at == old.resolved_at
}

/// `new` is `old` resolved at `now` with the verdict `upheld`.
pub open spec fn dispute_resolved(old: Dispute, new: Dispute, upheld: bool, now: u64) -> bool {
    &&& new.invoice_id == old.invoice_id
    &&& new.challenger == old.challenger
    &&& new.evidence_cid == old.evidence_cid
    &&& new.opened_at == old.opened_at
    &&& new.resolved
    &&& new.upheld == upheld
    &&& new.resolved_at == now
}

impl DisputeView {
    /// The outcome of checking that `caller` is the admin.
    pub open spec fn admin_check(self, caller: Addr) -> Result<(), DisputeResolutionError> {
        match self.admin {
            None => Err(DisputeResolutionError::NotInitialized),
            Some(a) => if a != caller {
                Err(DisputeResolutionError::NotAdmin)
            } else {
                Ok(())
            },
        }
    }

    /// Whether `caller` may act for governance: a multisig signer where the
    /// access-control contract has a multisig configured, else the admin.
    pub open spec fn is_governance(self, caller: Addr, signers: Option<Seq<Addr>>) -> bool {
        match signers {
            Some(s) => seq_has(s, caller),
            None => self.admin == Some(caller),
        }
    }

    /// Whether an unresolved dispute exists for `invoice_id`.
    pub open spec fn has_open(self, invoice_id: u64) -> bool {
        self.disputes.contains_key(invoice_id) && !self.disputes[invoice_id].resolved
    }

    /// The outcome of opening a dispute on `invoice_id` at `now` while the
    /// access-control contract reports `paused` and the invoice NFT contract
    /// reports the invoice defaulted at `defaulted_at` (`None` where it is
    /// not defaulted).
    pub open spec fn open_outcome(self, now: u64, paused: bool, invoice_id: u64, defaulted_at: Option<u64>) -> Result<
        (),
        DisputeResolutionError,
    > {
        if self.access_control is Some && paused {
            Err(DisputeResolutionError::ProtocolPaused)
        } else if self.disputes.contains_key(invoice_id) {
            Err(DisputeResolutionError::DisputeAlreadyOpen)
        } else if defaulted_at is None {
            Err(DisputeResolutionError::DisputeNotOpen)
        } else if now > defaulted_at->Some_0 + DISPUTE_WINDOW_SECS {
            Err(DisputeResolutionError::DisputeWindowExpired)
        } else {
            Ok(())
        }
    }

    /// The outcome of `challenger` submitting `cid` for `invoice_id`.
    pub open spec fn evidence_outcome(self, challenger: Addr, invoice_id: u64, cid: Seq<u8>) -> Result<
        (),
        DisputeResolutionError,
    > {
        if !self.disputes.contains_key(invoice_id) {
            Err(DisputeResolutionError::DisputeNotFound)
        } else if self.disputes[invoice_id].resolved {
            Err(DisputeResolutionError::DisputeAlreadyResolved)
        } else if self.disputes[invoice_id].challenger != challenger {
            Err(DisputeResolutionError::NotDisputeChallenger)
        } else if !valid_cid(cid) {
            Err(DisputeResolutionError::InvalidCid)
        } else {
            Ok(())
        }
    }

    /// The outcome of `resolver` resolving the dispute on `invoice_id` at `now`.
    pub open spec fn resolve_outcome(
        self,
        now: u64,
        resolver: Addr,
        invoice_id: u64,
        signers: Option<Seq<Addr>>,
    ) -> Result<(), DisputeResolutionError> {
        if !self.is_governance(resolver, signers) {
            Err(DisputeResolutionError::NotGovernance)
        } else if !self.disputes.contains_key(invoice_id) {
            Err(DisputeResolutionError::DisputeNotFound)
        } else if self.disputes[invoice_id].resolved {
            Err(DisputeResolutionError::DisputeAlreadyResolved)
        } else if now > self.disputes[invoice_id].opened_at + DISPUTE_WINDOW_SECS {
            Err(DisputeResolutionError::DisputeWindowExpired)
        } else {
            Ok(())
        }
    }
}

impl DisputeResolutionContract {
    /// Storage of a freshly deployed, uninitialized contract.
    pub fn new() -> (r: DisputeResolutionContract)
        ensures
            r@.admin is None,
            r@.access_control is None,
            r@.disputes == Map::<u64, Dispute>::empty(),
            r@.upgrade_proposal is None,
    {
        DisputeResolutionContract {
            admin: None,
            access_control: None,
            disputes: HashMap::new(),
            upgrade_proposal: None,
        }
    }

    /// One-time initialization with the admin and the access-control contract.
    pub fn initialize(&mut self, admin: Addr, access_control: Addr) -> (r: Result<(), DisputeResolutionError>)
        ensures
            r is Err <==> old(self)@.admin is Some,
            r is Err ==> r == Err::<(), DisputeResolutionError>(DisputeResolutionError::AlreadyInitialized)
                && final(self)@ == old(self)@,
            r is Ok ==> final(self)@ == (DisputeView {
                admin: Some(admin),
                access_control: Some(access_control),
                ..old(self)@
            }),
    {
        if self.admin.is_some() {
            return Err(DisputeResolutionError::AlreadyInitialized);
        }
        self.admin = Some(admin);
        self.access_control = Some(access_control);
        Ok(())
    }

    /// Open a dispute against defaulted invoice `invoice_id` at ledger time
    /// `now`. `paused` is what the access-control contract reports; it blocks
    /// the call only when an access-control contract is configured.
    /// `defaulted_at` is when the invoice NFT contract recorded the default,
    /// `None` where the invoice is not defaulted: a dispute can be opened
    /// only on a defaulted invoice (else `DisputeNotOpen`) and within the
    /// dispute window after the default. One dispute per invoice.
    pub fn open_dispute(
        &mut self,
        now: u64,
        paused: bool,
        challenger: Addr,
        invoice_id: u64,
        defaulted_at: Option<u64>,
    ) -> (r:
        Result<(), DisputeResolutionError>)
        ensures
            r == old(self)@.open_outcome(now, paused, invoice_id, defaulted_at),
            r is Err ==> final(self)@ == old(self)@,
            r is Ok ==> {
                &&& final(self)@.admin == old(self)@.admin
                &&& final(self)@.access_control == old(self)@.access_control
                &&& final(self)@.upgrade_proposal == old(self)@.upgrade_proposal
                &&& final(self)@.disputes.dom() == old(self)@.disputes.dom().insert(invoice_id)
                &&& forall|k: u64|
                    k != invoice_id && #[trigger] old(self)@.disputes.contains_key(k)
                        ==> final(self)@.disputes[k] == old(self)@.disputes[k]
                &&& opened_dispute(final(self)@.disputes[invoice_id], invoice_id, challenger, now)
            },
    {
        if self.access_control.is_some() && paused {
            return Err(DisputeResolutionError::ProtocolPaused);
        }
        if self.disputes.contains_key(&invoice_id) {
            return Err(DisputeResolutionError::DisputeAlreadyOpen);
        }
        let at = match defaulted_at {
            Some(t) => t,
            None => {
                return Err(DisputeResolutionError::DisputeNotOpen);
            },
        };
        if (now as u128) > (at as u128) + (DISPUTE_WINDOW_SECS as u128) {
            return Err(DisputeResolutionError::DisputeWindowExpired);
        }
        let dispute = Dispute {
            invoice_id,
            challenger,
            evidence_cid: None,
            opened_at: now,
            resolved: false,
            upheld: false,
            resolved_at: 0,
        };
        self.disputes.insert(invoice_id, dispute);
        Ok(())
    }

    /// Attach the evidence `evidence_cid` to the open dispute on `invoice_id`.
    /// Only the challenger may do so, and only before resolution.
    pub fn submit_evidence(&mut self, challenger: Addr, invoice_id: u64, evidence_cid: Vec<u8>) -> (r: Result<
        (),
        DisputeResolutionError,
    >)
        ensures
            r == old(self)@.evidence_outcome(challenger, invoice_id, evidence_cid@),
            r is Err ==> final(self)@ == old(self)@,
            r is Ok ==> {
                &&& final(self)@.admin == old(self)@.admin
                &&& final(self)@.access_control == old(self)@.access_control
                &&& final(self)@.upgrade_proposal == old(self)@.upgrade_proposal
                &&& final(self)@.disputes.dom() == old(self)@.disputes.dom()
                &&& forall|k: u64|
                    k != invoice_id && #[trigger] old(self)@.disputes.contains_key(k)
                        ==> final(self)@.disputes[k] == old(self)@.disputes[k]
                &&& evidence_attached(
                    old(self)@.disputes[invoice_id],
                    final(self)@.disputes[invoice_id],
                    evidence_cid@,
                )
            },
    {
        let current = match self.disputes.get(&invoice_id) {
            Some(d) => d,
            None => {
                return Err(DisputeResolutionError::DisputeNotFound);
            },
        };
        if current.resolved {
            return Err(DisputeResolutionError::DisputeAlreadyResolved);
        }
        if current.challenger != challenger {
            return Err(DisputeResolutionError::NotDisputeChallenger);
        }
        match require_valid_ipfs_cid(&evidence_cid) {
            Ok(()) => {},
            Err(e) => {
                return Err(DisputeResolutionError::from(e));
            },
        }
        let mut dispute = self.disputes.remove(&invoice_id).unwrap();
        dispute.evidence_cid = Some(evidence_cid);
        self.disputes.insert(invoice_id, dispute);
        Ok(())
    }

    /// Resolve the open dispute on `invoice_id` at `now` with the verdict
    /// `upheld`. `signers` is the multisig signer set that the access-control
    /// contract reports, `None` where none is configured; the resolver must be
    /// one of them, or the admin where there are none. The dispute window
    /// must not have expired.
    pub fn resolve_dispute(
        &mut self,
        now: u64,
        resolver: Addr,
        invoice_id: u64,
        upheld: bool,
        signers: Option<Vec<Addr>>,
    ) -> (r: Result<(), DisputeResolutionError>)
        ensures
            r == old(self)@.resolve_outcome(
                now,
                resolver,
                invoice_id,
                match signers {
                    Some(s) => Some(s@),
                    None => None,
                },
            ),
            r is Err ==> final(self)@ == old(self)@,
            r is Ok ==> {
                &&& final(self)@.admin == old(self)@.admin
                &&& final(self)@.access_control == old(self)@.access_control
                &&& final(self)@.upgrade_proposal == old(self)@.upgrade_proposal
                &&& final(self)@.disputes.dom() == old(self)@.disputes.dom()
                &&& forall|k: u64|
                    k != invoice_id && #[trigger] old(self)@.disputes.contains_key(k)
                        ==> final(self)@.disputes[k] == old(self)@.disputes[k]
                &&& dispute_resolved(
                    old(self)@.disputes[invoice_id],
                    final(self)@.disputes[invoice_id],
                    upheld,
                    now,
                )
            },
    {
        let governance = match &signers {
            Some(s) => vec_contains(s, resolver),
            None => match self.admin {
                Some(a) => a == resolver,
                None => false,
            },
        };
        if !governance {
            return Err(DisputeResolutionError::NotGovernance);
        }
        let current = match self.disputes.get(&invoice_id) {
            Some(d) => d,
            None => {
                return Err(DisputeResolutionError::DisputeNotFound);
            },
        };
        if current.resolved {
            return Err(DisputeResolutionError::DisputeAlreadyResolved);
        }
        if (now as u128) > (current.opened_at as u128) + (DISPUTE_WINDOW_SECS as u128) {
            return Err(DisputeResolutionError::DisputeWindowExpired);
        }
        let mut dispute = self.disputes.remove(&invoice_id).unwrap();
        dispute.resolved = true;
        dispute.upheld = upheld;
        dispute.resolved_at = now;
        self.disputes.insert(invoice_id, dispute);
        Ok(())
    }

    /// The dispute on `invoice_id`, if any.
    pub fn get_dispute(&self, invoice_id: u64) -> (r: Option<&Dispute>)
        ensures
            match r {
                Some(d) => self@.disputes.contains_key(invoice_id) && *d == self@.disputes[invoice_id],
                None => !self@.disputes.contains_key(invoice_id),
            },
    {
        self.disputes.get(&invoice_id)
    }

    /// Whether an unresolved dispute exists for `invoice_id`.
    pub fn has_open_dispute(&self, invoice_id: u64) -> (r: bool)
        ensures
            r == self@.has_open(invoice_id),
    {
        match self.disputes.get(&invoice_id) {
            Some(d) => !d.resolved,
            None => false,
        }
    }

    /// `has_open_dispute` as a result, for callers in other contracts.
    pub fn try_has_open_dispute(&self, invoice_id: u64) -> (r: Result<bool, DisputeResolutionError>)
        ensures
            r == Ok::<bool, DisputeResolutionError>(self@.has_open(invoice_id)),
    {
        Ok(self.has_open_dispute(invoice_id))
    }

    /// Propose an upgrade to `new_wasm_hash` at `now`. Admin only.
    pub fn propose_upgrade(&mut self, now: u64, admin: Addr, new_wasm_hash: WasmHash) -> (r: Result<
        (),
        DisputeResolutionError,
    >)
        ensures
            r == old(self)@.admin_check(admin),
            r is Err ==> final(self)@ == old(self)@,
            r is Ok ==> final(self)@ == (DisputeView {
                upgrade_proposal: Some((new_wasm_hash, now)),
                ..old(self)@
            }),
    {
        match self.admin {
            None => {
                return Err(DisputeResolutionError::NotInitialized);
            },
            Some(a) => if a != admin {
                return Err(DisputeResolutionError::NotAdmin);
            },
        }
        self.upgrade_proposal = Some((new_wasm_hash, now));
        Ok(())
    }

    /// Execute the pending upgrade once the timelock has elapsed. Admin only.
    /// The proposal is cleared and the code hash to install is returned.
    pub fn execute_upgrade(&mut self, now: u64, admin: Addr) -> (r: Result<WasmHash, DisputeResolutionError>)
        ensures
            r == (if old(self)@.admin_check(admin) is Err {
                Err(old(self)@.admin_check(admin)->Err_0)
            } else if old(self)@.upgrade_proposal is None {
                Err(DisputeResolutionError::NoUpgradeProposed)
            } else if now < old(self)@.upgrade_proposal->Some_0.1 + UPGRADE_TIMELOCK_DELAY {
                Err(DisputeResolutionError::UpgradeTimelockNotElapsed)
            } else {
                Ok(old(self)@.upgrade_proposal->Some_0.0)
            }),
            r is Err ==> final(self)@ == old(self)@,
            r is Ok ==> final(self)@ == (DisputeView { upgrade_proposal: None, ..old(self)@ }),
    {
        match self.admin {
            None => {
                return Err(DisputeResolutionError::NotInitialized);
            },
            Some(a) => if a != admin {
                return Err(DisputeResolutionError::NotAdmin);
            },
        }
        let (wasm_hash, proposed_at) = match self.upgrade_proposal {
            Some(p) => p,
            None => {
                return Err(DisputeResolutionError::NoUpgradeProposed);
            },
        };
        if (now as u128) < (proposed_at as u128) + (UPGRADE_TIMELOCK_DELAY as u128) {
            return Err(DisputeResolutionError::UpgradeTimelockNotElapsed);
        }
        self.upgrade_proposal = None;
        Ok(wasm_hash)
    }
}

/// A resolved dispute is final: it cannot be opened again, take evidence, or
/// be resolved a second time.
pub proof fn law_resolved_dispute_is_final(
    s: DisputeView,
    invoice_id: u64,
    paused: bool,
    now: u64,
    caller: Addr,
    cid: Seq<u8>,
    signers: Option<Seq<Addr>>,
    defaulted_at: Option<u64>,
)
    requires
        s.disputes.contains_key(invoice_id),
        s.disputes[invoice_id].resolved,
    ensures
        s.open_outcome(now, paused, invoice_id, defaulted_at) is Err,
        s.evidence_outcome(caller, invoice_id, cid) == Err::<(), DisputeResolutionError>(
            DisputeResolutionError::DisputeAlreadyResolved,
        ),
        s.resolve_outcome(now, caller, invoice_id, signers) is Err,
        !s.has_open(invoice_id),
{
}

/// Opening a dispute makes it open, and resolving it closes it again.
pub proof fn law_open_then_resolve(
    s: DisputeView,
    t: DisputeView,
    u: DisputeView,
    invoice_id: u64,
    challenger: Addr,
    now: u64,
    upheld: bool,
    later: u64,
)
    requires
        t.disputes.contains_key(invoice_id),
        opened_dispute(t.disputes[invoice_id], invoice_id, challenger, now),
        u.disputes.contains_key(invoice_id),
        dispute_resolved(t.disputes[invoice_id], u.disputes[invoice_id], upheld, later),
    ensures
        t.has_open(invoice_id),
        !u.has_open(invoice_id),
        u.disputes[invoice_id].upheld == upheld,
        u.disputes[invoice_id].challenger == challenger,
{
}

} // verus!
