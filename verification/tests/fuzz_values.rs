use kora_protocol::fuzz_values::{amount, parameter_key, risk_tier, role, small_u32, ts_or_id};
use kora_protocol::access_control::Role;
use kora_protocol::types::{ParameterKey, RiskTier};

#[test]
fn amount_selectors_hit_the_boundaries() {
    assert_eq!(amount(12_345, 0), 0);
    assert_eq!(amount(12_345, 1), 1);
    assert_eq!(amount(12_345, 2), -1);
    assert_eq!(amount(12_345, 3), i128::MAX);
    assert_eq!(amount(12_345, 4), i128::MIN);
    assert_eq!(amount(3_000_123, 5), 123);
    assert_eq!(amount(-1, 5), (u64::MAX % 1_000_000) as i128);
    assert_eq!(amount(7, 6), 10_000_000_007);
    assert_eq!(amount(-1, 6), 10_000_000_000 + u32::MAX as i128);
    assert_eq!(amount(-42, 7), -42);
    assert_eq!(amount(5, 8), 0);
    assert_eq!(amount(5, 255), 5);
}

#[test]
fn ts_or_id_selectors() {
    assert_eq!(ts_or_id(99, 0), 0);
    assert_eq!(ts_or_id(99, 1), 1);
    assert_eq!(ts_or_id(99, 2), u64::MAX);
    assert_eq!(ts_or_id(130, 3), 2);
    assert_eq!(ts_or_id(31_536_001, 4), 1_700_000_001);
    assert_eq!(ts_or_id(99, 5), 99);
    assert_eq!(ts_or_id(99, 6), 0);
}

#[test]
fn small_u32_selectors() {
    assert_eq!(small_u32(99, 0), 0);
    assert_eq!(small_u32(99, 1), 1);
    assert_eq!(small_u32(99, 2), u32::MAX);
    assert_eq!(small_u32(205, 3), 3);
    assert_eq!(small_u32(20_002, 4), 1);
    assert_eq!(small_u32(99, 5), 99);
    assert_eq!(small_u32(99, 11), 99);
}

#[test]
fn enum_selectors_cycle_through_every_variant() {
    assert_eq!(risk_tier(0), RiskTier::AAA);
    assert_eq!(risk_tier(1), RiskTier::AA);
    assert_eq!(risk_tier(2), RiskTier::A);
    assert_eq!(risk_tier(3), RiskTier::B);
    assert_eq!(risk_tier(4), RiskTier::C);
    assert_eq!(risk_tier(5), RiskTier::AAA);
    assert_eq!(parameter_key(0), ParameterKey::FeeBps);
    assert_eq!(parameter_key(1), ParameterKey::LatePenaltyBps);
    assert_eq!(parameter_key(2), ParameterKey::MaxRiskScore);
    assert_eq!(parameter_key(3), ParameterKey::FeeBps);
    assert_eq!(role(0), Role::Admin);
    assert_eq!(role(1), Role::Operator);
    assert_eq!(role(2), Role::Verifier);
    assert_eq!(role(3), Role::NoRole);
    assert_eq!(role(255), Role::NoRole);
}
