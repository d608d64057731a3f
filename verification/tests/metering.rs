use polykit::error::MeteringDimension;
use polykit::metering::{check_limits, DimensionValues, TierLimits};

fn zeroed() -> DimensionValues {
    DimensionValues::default()
}

#[test]
fn default_is_all_zero() {
    let d = zeroed();
    assert_eq!(d.executions, 0);
    assert_eq!(d.mpc_sessions, 0);
}

#[test]
fn accumulate_adds_per_dimension() {
    let mut a = zeroed();
    a.executions = 2;
    a.bandwidth = 100;
    let mut b = zeroed();
    b.executions = 3;
    b.storage = 7;
    a.accumulate(&b);
    assert_eq!(a.executions, 5);
    assert_eq!(a.bandwidth, 100);
    assert_eq!(a.storage, 7);
    assert_eq!(a.proofs, 0);
}

#[test]
fn get_and_set_address_one_dimension() {
    let mut d = zeroed();
    d.set(MeteringDimension::Hashes, 42);
    assert_eq!(d.get(MeteringDimension::Hashes), 42);
    assert_eq!(d.get(MeteringDimension::Executions), 0);
    d.set(MeteringDimension::MpcSessions, 9);
    assert_eq!(d.mpc_sessions, 9);
    assert_eq!(d.hashes, 42);
}

#[test]
fn check_limits_reports_exceeded_dimensions_in_order() {
    let mut current = zeroed();
    current.executions = 11;
    current.storage = 50;
    current.circuits = 3;
    let mut limits = zeroed();
    limits.executions = 10;
    limits.storage = 49;
    limits.circuits = 5;
    let tier = TierLimits { tier_name: "starter".to_string(), limits };
    assert_eq!(
        check_limits(&current, &tier),
        vec![MeteringDimension::Executions, MeteringDimension::Storage]
    );
}

#[test]
fn zero_limit_means_unlimited() {
    let mut current = zeroed();
    current.bandwidth = 1_000_000;
    let tier = TierLimits { tier_name: "free".to_string(), limits: zeroed() };
    assert_eq!(check_limits(&current, &tier), vec![]);
}

#[test]
fn exactly_at_the_limit_is_fine() {
    let mut current = zeroed();
    current.proofs = 10;
    let mut limits = zeroed();
    limits.proofs = 10;
    let tier = TierLimits { tier_name: "t".to_string(), limits };
    assert_eq!(check_limits(&current, &tier), vec![]);
}
