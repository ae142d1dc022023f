//! Values for property-based exercising of the contracts: raw integers
//! skewed toward the boundaries that contract logic distinguishes (zero,
//! one, minus one, the extremes, small ids, near-present timestamps, basis
//! point ranges) rather than uniform noise that every check rejects alike.
use vstd::prelude::*;
use crate::access_control::Role;
use crate::types::{ParameterKey, RiskTier};

verus! {

/// An amount from a raw `i128` and a selector byte.
pub fn amount(raw: i128, tag: u8) -> (r: i128)
    ensures
        tag % 8 == 0 ==> r == 0,
        tag % 8 == 1 ==> r == 1,
        tag % 8 == 2 ==> r == -1,
        tag % 8 == 3 ==> r == i128::MAX,
        tag % 8 == 4 ==> r == i128::MIN,
        tag % 8 == 5 ==> r == (raw as u64) % 1_000_000,
        tag % 8 == 6 ==> r == 10_000_000_000 + (raw as u32),
        tag % 8 == 7 ==> r == raw,
{
    match tag % 8 {
        0 => 0,
        1 => 1,
        2 => -1,
        3 => i128::MAX,
        4 => i128::MIN,
        5 => ((raw as u64) % 1_000_000) as i128,
        6 => 10_000_000_000i128 + ((raw as u32) as i128),
        _ => raw,
    }
}

/// A timestamp or id from a raw `u64` and a selector byte: small ids,
/// times within a year after 1_700_000_000, and the boundaries.
pub fn ts_or_id(raw: u64, tag: u8) -> (r: u64)
    ensures
        tag % 6 == 0 ==> r == 0,
        tag % 6 == 1 ==> r == 1,
        tag % 6 == 2 ==> r == u64::MAX,
        tag % 6 == 3 ==> r == raw % 64,
        tag % 6 == 4 ==> r == 1_700_000_000 + raw % 31_536_000,
        tag % 6 == 5 ==> r == raw,
{
    match tag % 6 {
        0 => 0,
        1 => 1,
        2 => u64::MAX,
        3 => raw % 64,
        4 => 1_700_000_000 + raw % 31_536_000,
        _ => raw,
    }
}

/// A score, basis-point value or boundary from a raw `u32` and a selector.
pub fn small_u32(raw: u32, tag: u8) -> (r: u32)
    ensures
        tag % 6 == 0 ==> r == 0,
        tag % 6 == 1 ==> r == 1,
        tag % 6 == 2 ==> r == u32::MAX,
        tag % 6 == 3 ==> r == raw % 101,
        tag % 6 == 4 ==> r == raw % 20_001,
        tag % 6 == 5 ==> r == raw,
{
    match tag % 6 {
        0 => 0,
        1 => 1,
        2 => u32::MAX,
        3 => raw % 101,
        4 => raw % 20_001,
        _ => raw,
    }
}

/// A risk tier from a selector byte, cycling through the tiers best first.
pub fn risk_tier(tag: u8) -> (r: RiskTier)
    ensures
        tag % 5 == 0 ==> r == RiskTier::AAA,
        tag % 5 == 1 ==> r == RiskTier::AA,
        tag % 5 == 2 ==> r == RiskTier::A,
        tag % 5 == 3 ==> r == RiskTier::B,
        tag % 5 == 4 ==> r == RiskTier::C,
{
    match tag % 5 {
        0 => RiskTier::AAA,
        1 => RiskTier::AA,
        2 => RiskTier::A,
        3 => RiskTier::B,
        _ => RiskTier::C,
    }
}

/// A governed parameter from a selector byte.
pub fn parameter_key(tag: u8) -> (r: ParameterKey)
    ensures
        tag % 3 == 0 ==> r == ParameterKey::FeeBps,
        tag % 3 == 1 ==> r == ParameterKey::LatePenaltyBps,
        tag % 3 == 2 ==> r == ParameterKey::MaxRiskScore,
{
    match tag % 3 {
        0 => ParameterKey::FeeBps,
        1 => ParameterKey::LatePenaltyBps,
        _ => ParameterKey::MaxRiskScore,
    }
}

/// A role from a selector byte, the absent role included.
pub fn role(tag: u8) -> (r: Role)
    ensures
        tag % 4 == 0 ==> r == Role::Admin,
        tag % 4 == 1 ==> r == Role::Operator,
        tag % 4 == 2 ==> r == Role::Verifier,
        tag % 4 == 3 ==> r == Role::NoRole,
{
    match tag % 4 {
        0 => Role::Admin,
        1 => Role::Operator,
        2 => Role::Verifier,
        _ => Role::NoRole,
    }
}

} // verus!
