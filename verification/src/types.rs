//! Values shared by the protocol's contracts: addresses, risk tiers, governed
//! parameters, multisig configuration, timelocks, and the arithmetic and
//! validation rules that every contract applies to amounts.
use vstd::prelude::*;

verus! {

/// An on-ledger address (account or contract), identified by a number that
/// the host assigns to it.
pub type Addr = u64;

/// Hash of a contract's WASM code, the target of an upgrade.
pub type WasmHash = [u8; 32];

/// Delay between proposing and executing an upgrade or another timelocked
/// change: one day of ledger time.
pub const UPGRADE_TIMELOCK_DELAY: u64 = 86_400;

/// Largest amount any contract accepts.
pub const MAX_AMOUNT: i128 = 85_070_591_730_234_615_865_843_651_857_942_052_863;

/// Denominator of a basis-point fraction.
pub const BPS_DENOMINATOR: u32 = 10_000;

/// Risk tier of an invoice, best first.
#[derive(Clone, Copy, Debug, PartialEq, Eq, Structural)]
pub enum RiskTier {
    AAA,
    AA,
    A,
    B,
    C,
}

/// A protocol parameter that multisig governance may change.
#[derive(Clone, Copy, Debug, PartialEq, Eq, Structural)]
pub enum ParameterKey {
    FeeBps,
    LatePenaltyBps,
    MaxRiskScore,
}

/// An N-of-M signer set.
#[derive(Debug)]
pub struct MultisigConfig {
    pub threshold: u32,
    pub signers: Vec<Addr>,
}

/// Errors that the shared validation rules raise.
#[derive(Clone, Copy, Debug, PartialEq, Eq, Structural)]
pub enum CommonError {
    InvalidAddress,
    ArithmeticOverflow,
    Reentrancy,
    InvalidAmount,
    InvalidFeeBps,
    InvalidTimestamp,
    InvalidCid,
}

/// Whether `a` occurs in `s`.
pub open spec fn seq_has(s: Seq<Addr>, a: Addr) -> bool {
    exists|i: int| 0 <= i < s.len() && s[i] == a
}

/// Whether `a` occurs in `v`.
pub fn vec_contains(v: &Vec<Addr>, a: Addr) -> (r: bool)
    ensures
        r == seq_has(v@, a),
{
    let mut i: usize = 0;
    while i < v.len()
        invariant
            i <= v.len(),
            forall|j: int| 0 <= j < i ==> v@[j] != a,
        decreases v.len() - i,
    {
        if v[i] == a {
            return true;
        }
        i = i + 1;
    }
    false
}

/// The fee rate of a contract is a fraction of at most one: 0..=10_000 bps.
pub open spec fn valid_bps(bps: u32) -> bool {
    bps <= BPS_DENOMINATOR
}

/// Reject a basis-point rate above 100%.
pub fn require_valid_fee_bps(bps: u32) -> (r: Result<(), CommonError>)
    ensures
        r is Ok <==> valid_bps(bps),
        r is Err ==> r == Err::<(), CommonError>(CommonError::InvalidFeeBps),
{
    if bps > BPS_DENOMINATOR {
        return Err(CommonError::InvalidFeeBps);
    }
    Ok(())
}

/// Reject a non-positive amount.
pub fn require_non_zero_amount(amount: i128) -> (r: Result<(), CommonError>)
    ensures
        r is Ok <==> amount > 0,
        r is Err ==> r == Err::<(), CommonError>(CommonError::InvalidAmount),
{
    if amount <= 0 {
        return Err(CommonError::InvalidAmount);
    }
    Ok(())
}

/// Reject an amount above `MAX_AMOUNT`.
pub fn require_within_max_amount(amount: i128) -> (r: Result<(), CommonError>)
    ensures
        r is Ok <==> amount <= MAX_AMOUNT,
        r is Err ==> r == Err::<(), CommonError>(CommonError::InvalidAmount),
{
    if amount > MAX_AMOUNT {
        return Err(CommonError::InvalidAmount);
    }
    Ok(())
}

/// Reject a timestamp that is not strictly after `now`.
pub fn require_future_timestamp(now: u64, timestamp: u64) -> (r: Result<(), CommonError>)
    ensures
        r is Ok <==> timestamp > now,
        r is Err ==> r == Err::<(), CommonError>(CommonError::InvalidTimestamp),
{
    if timestamp <= now {
        return Err(CommonError::InvalidTimestamp);
    }
    Ok(())
}

/// Reject the contract's own address where another party is expected.
pub fn require_not_self(contract: Addr, who: Addr) -> (r: Result<(), CommonError>)
    ensures
        r is Ok <==> who != contract,
        r is Err ==> r == Err::<(), CommonError>(CommonError::InvalidAddress),
{
    if who == contract {
        return Err(CommonError::InvalidAddress);
    }
    Ok(())
}

/// `a + b`, or an overflow error outside the range of `i128`.
pub fn safe_add(a: i128, b: i128) -> (r: Result<i128, CommonError>)
    ensures
        r is Ok <==> i128::MIN <= a + b <= i128::MAX,
        r is Ok ==> r->Ok_0 == a + b,
        r is Err ==> r == Err::<i128, CommonError>(CommonError::ArithmeticOverflow),
{
    a.checked_add(b).ok_or(CommonError::ArithmeticOverflow)
}

/// `a - b`, or an overflow error outside the range of `i128`.
pub fn safe_sub(a: i128, b: i128) -> (r: Result<i128, CommonError>)
    ensures
        r is Ok <==> i128::MIN <= a - b <= i128::MAX,
        r is Ok ==> r->Ok_0 == a - b,
        r is Err ==> r == Err::<i128, CommonError>(CommonError::ArithmeticOverflow),
{
    a.checked_sub(b).ok_or(CommonError::ArithmeticOverflow)
}

/// `a * b`, or an overflow error outside the range of `i128`.
pub fn safe_mul(a: i128, b: i128) -> (r: Result<i128, CommonError>)
    ensures
        r is Ok <==> i128::MIN <= a * b <= i128::MAX,
        r is Ok ==> r->Ok_0 == a * b,
        r is Err ==> r == Err::<i128, CommonError>(CommonError::ArithmeticOverflow),
{
    a.checked_mul(b).ok_or(CommonError::ArithmeticOverflow)
}

/// Truncating division `a / b` of non-negative amounts, or an overflow error on a zero divisor.
pub fn safe_div(a: i128, b: i128) -> (r: Result<i128, CommonError>)
    requires
        a >= 0,
        b >= 0,
    ensures
        r is Ok <==> b != 0,
        r is Ok ==> r->Ok_0 == a / b,
        r is Err ==> r == Err::<i128, CommonError>(CommonError::ArithmeticOverflow),
{
    if b == 0 {
        return Err(CommonError::ArithmeticOverflow);
    }
    Ok(a / b)
}

/// `amount * bps / 10_000`, rounded toward zero.
pub open spec fn bps_share(amount: int, bps: int) -> int {
    amount * bps / (BPS_DENOMINATOR as int)
}

/// The `bps` fraction of a non-negative `amount`, or an overflow error when
/// `amount * bps` does not fit in `i128`.
pub fn bps_of(amount: i128, bps: u32) -> (r: Result<i128, CommonError>)
    requires
        amount >= 0,
    ensures
        r is Ok <==> amount * bps <= i128::MAX,
        r is Ok ==> r->Ok_0 == bps_share(amount as int, bps as int),
        r is Err ==> r == Err::<i128, CommonError>(CommonError::ArithmeticOverflow),
{
    let p = amount.checked_mul(bps as i128);
    match p {
        Some(p) => {
            assert(p >= 0) by (nonlinear_arith)
                requires
                    p == amount * bps,
                    amount >= 0,
            ;
            Ok(p / 10_000)
        },
        None => Err(CommonError::ArithmeticOverflow),
    }
}

/// Longest IPFS content identifier accepted, in bytes.
pub const MAX_IPFS_CID_LEN: usize = 128;

/// Whether a byte is an ASCII letter or digit.
pub open spec fn is_cid_byte(b: u8) -> bool {
    (48 <= b <= 57) || (65 <= b <= 90) || (97 <= b <= 122)
}

/// An IPFS content identifier (CIDv0 or CIDv1, multibase text): between one
/// and `MAX_IPFS_CID_LEN` bytes, each an ASCII letter or digit.
pub open spec fn valid_cid(cid: Seq<u8>) -> bool {
    &&& 1 <= cid.len() <= MAX_IPFS_CID_LEN
    &&& forall|i: int| 0 <= i < cid.len() ==> is_cid_byte(#[trigger] cid[i])
}

/// Reject text that is not an IPFS content identifier.
pub fn require_valid_ipfs_cid(cid: &Vec<u8>) -> (r: Result<(), CommonError>)
    ensures
        r is Ok <==> valid_cid(cid@),
        r is Err ==> r == Err::<(), CommonError>(CommonError::InvalidCid),
{
    if cid.len() == 0 || cid.len() > MAX_IPFS_CID_LEN {
        return Err(CommonError::InvalidCid);
    }
    let mut i: usize = 0;
    while i < cid.len()
        invariant
            i <= cid.len(),
            forall|j: int| 0 <= j < i ==> is_cid_byte(#[trigger] cid@[j]),
        decreases cid.len() - i,
    {
        let b = cid[i];
        if !((48 <= b && b <= 57) || (65 <= b && b <= 90) || (97 <= b && b <= 122)) {
            return Err(CommonError::InvalidCid);
        }
        i = i + 1;
    }
    Ok(())
}

/// Errors of the protocol contracts that share one error type.
#[derive(Clone, Copy, Debug, PartialEq, Eq, Structural)]
pub enum KoraError {
    AlreadyInitialized,
    NotInitialized,
    NotAdmin,
    Unauthorized,
    InvalidAddress,
    InvalidAmount,
    InvalidFeeRate,
    InvalidDueDate,
    InvalidCid,
    ArithmeticOverflow,
    Reentrancy,
    ProtocolPaused,
    TokenNotWhitelisted,
    NoTokenWhitelistProposed,
    TokenWhitelistTimelockNotElapsed,
    ComplianceNotAttested,
    ListingNotFound,
    ListingAlreadyCancelled,
    ListingAlreadyFunded,
    ListingFullyFunded,
    FundingDeadlinePassed,
    FundingNotExpired,
    ExceedsFundingTarget,
    ContributionBelowMinimum,
    InvestorNotAccredited,
    InvestorConcentrationExceeded,
    InvoiceFrozen,
    InsufficientFunds,
    CancellationPending,
    NoCancellationPending,
    NoUpgradeProposed,
    UpgradeTimelockNotElapsed,
    MultisigNotConfigured,
    NotMultisigSigner,
    MultisigApprovalRequired,
    AlreadyVoted,
    GovernanceThresholdNotMet,
    ParameterProposalNotFound,
    ParameterProposalAlreadyExecuted,
    NoDependencyUpdateProposed,
    DependencyUpdateTimelockNotElapsed,
}

/// The number by which an error is reported to callers: its position in
/// the declaration, counting from 1.
pub open spec fn kora_error_code(e: KoraError) -> u32 {
    match e {
        KoraError::AlreadyInitialized => 1,
        KoraError::NotInitialized => 2,
        KoraError::NotAdmin => 3,
        KoraError::Unauthorized => 4,
        KoraError::InvalidAddress => 5,
        KoraError::InvalidAmount => 6,
        KoraError::InvalidFeeRate => 7,
        KoraError::InvalidDueDate => 8,
        KoraError::InvalidCid => 9,
        KoraError::ArithmeticOverflow => 10,
        KoraError::Reentrancy => 11,
        KoraError::ProtocolPaused => 12,
        KoraError::TokenNotWhitelisted => 13,
        KoraError::NoTokenWhitelistProposed => 14,
        KoraError::TokenWhitelistTimelockNotElapsed => 15,
        KoraError::ComplianceNotAttested => 16,
        KoraError::ListingNotFound => 17,
        KoraError::ListingAlreadyCancelled => 18,
        KoraError::ListingAlreadyFunded => 19,
        KoraError::ListingFullyFunded => 20,
        KoraError::FundingDeadlinePassed => 21,
        KoraError::FundingNotExpired => 22,
        KoraError::ExceedsFundingTarget => 23,
        KoraError::ContributionBelowMinimum => 24,
        KoraError::InvestorNotAccredited => 25,
        KoraError::InvestorConcentrationExceeded => 26,
        KoraError::InvoiceFrozen => 27,
        KoraError::InsufficientFunds => 28,
        KoraError::CancellationPending => 29,
        KoraError::NoCancellationPending => 30,
        KoraError::NoUpgradeProposed => 31,
        KoraError::UpgradeTimelockNotElapsed => 32,
        KoraError::MultisigNotConfigured => 33,
        KoraError::NotMultisigSigner => 34,
        KoraError::MultisigApprovalRequired => 35,
        KoraError::AlreadyVoted => 36,
        KoraError::GovernanceThresholdNotMet => 37,
        KoraError::ParameterProposalNotFound => 38,
        KoraError::ParameterProposalAlreadyExecuted => 39,
        KoraError::NoDependencyUpdateProposed => 40,
        KoraError::DependencyUpdateTimelockNotElapsed => 41,
    }
}

impl KoraError {
    /// The number by which this error is reported.
    pub fn code(&self) -> (r: u32)
        ensures
            r == kora_error_code(*self),
    {
        match self {
            KoraError::AlreadyInitialized => 1,
            KoraError::NotInitialized => 2,
            KoraError::NotAdmin => 3,
            KoraError::Unauthorized => 4,
            KoraError::InvalidAddress => 5,
            KoraError::InvalidAmount => 6,
            KoraError::InvalidFeeRate => 7,
            KoraError::InvalidDueDate => 8,
            KoraError::InvalidCid => 9,
            KoraError::ArithmeticOverflow => 10,
            KoraError::Reentrancy => 11,
            KoraError::ProtocolPaused => 12,
            KoraError::TokenNotWhitelisted => 13,
            KoraError::NoTokenWhitelistProposed => 14,
            KoraError::TokenWhitelistTimelockNotElapsed => 15,
            KoraError::ComplianceNotAttested => 16,
            KoraError::ListingNotFound => 17,
            KoraError::ListingAlreadyCancelled => 18,
            KoraError::ListingAlreadyFunded => 19,
            KoraError::ListingFullyFunded => 20,
            KoraError::FundingDeadlinePassed => 21,
            KoraError::FundingNotExpired => 22,
            KoraError::ExceedsFundingTarget => 23,
            KoraError::ContributionBelowMinimum => 24,
            KoraError::InvestorNotAccredited => 25,
            KoraError::InvestorConcentrationExceeded => 26,
            KoraError::InvoiceFrozen => 27,
            KoraError::InsufficientFunds => 28,
            KoraError::CancellationPending => 29,
            KoraError::NoCancellationPending => 30,
            KoraError::NoUpgradeProposed => 31,
            KoraError::UpgradeTimelockNotElapsed => 32,
            KoraError::MultisigNotConfigured => 33,
            KoraError::NotMultisigSigner => 34,
            KoraError::MultisigApprovalRequired => 35,
            KoraError::AlreadyVoted => 36,
            KoraError::GovernanceThresholdNotMet => 37,
            KoraError::ParameterProposalNotFound => 38,
            KoraError::ParameterProposalAlreadyExecuted => 39,
            KoraError::NoDependencyUpdateProposed => 40,
            KoraError::DependencyUpdateTimelockNotElapsed => 41,
        }
    }

    /// The error that a shared validation error becomes.
    pub fn from(e: CommonError) -> (r: KoraError)
        ensures
            r == common_to_kora(e),
    {
        match e {
            CommonError::InvalidAddress => KoraError::InvalidAddress,
            CommonError::ArithmeticOverflow => KoraError::ArithmeticOverflow,
            CommonError::Reentrancy => KoraError::Reentrancy,
            CommonError::InvalidAmount => KoraError::InvalidAmount,
            CommonError::InvalidFeeBps => KoraError::InvalidFeeRate,
            CommonError::InvalidTimestamp => KoraError::InvalidDueDate,
            CommonError::InvalidCid => KoraError::InvalidCid,
        }
    }
}

/// The error that a shared validation error becomes.
pub open spec fn common_to_kora(e: CommonError) -> KoraError {
    match e {
        CommonError::InvalidAddress => KoraError::InvalidAddress,
        CommonError::ArithmeticOverflow => KoraError::ArithmeticOverflow,
        CommonError::Reentrancy => KoraError::Reentrancy,
        CommonError::InvalidAmount => KoraError::InvalidAmount,
        CommonError::InvalidFeeBps => KoraError::InvalidFeeRate,
        CommonError::InvalidTimestamp => KoraError::InvalidDueDate,
        CommonError::InvalidCid => KoraError::InvalidCid,
    }
}

/// Whether two byte strings are equal.
pub fn bytes_eq(a: &Vec<u8>, b: &Vec<u8>) -> (r: bool)
    ensures
        r == (a@ == b@),
{
    if a.len() != b.len() {
        return false;
    }
    let mut i: usize = 0;
    while i < a.len()
        invariant
            i <= a.len(),
            a.len() == b.len(),
            forall|j: int| 0 <= j < i ==> a@[j] == b@[j],
        decreases a.len() - i,
    {
        if a[i] != b[i] {
            return false;
        }
        i = i + 1;
    }
    assert(a@ =~= b@);
    true
}

} // verus!
