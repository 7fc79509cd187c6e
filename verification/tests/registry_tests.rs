use rds_exporter::constants::StorageType;
use rds_exporter::rds_metric::{
    build_update_set, collect, CollectionOutcome, DetailsError, GaugeUpdateSet, InstanceDetails,
};
use rds_exporter::registry::MetricRegistry;

fn details(name: &str) -> InstanceDetails {
    InstanceDetails {
        instance_identifier: name.to_string(),
        storage_type: StorageType::GP2,
        storage_size_gb: 20,
        storage_provided_iops: None,
    }
}

fn set_for(name: &str, burst: Option<u64>) -> GaugeUpdateSet {
    build_update_set(details(name), Some(120_000), Some(80_000), burst)
}

#[test]
fn apply_writes_all_gauges_of_one_label() {
    let mut reg = MetricRegistry::new();
    reg.apply_update_set(&set_for("db1", Some(50_000)));
    let g = reg.get(&"db1".to_string()).unwrap();
    assert_eq!(g.iops_limit, Some(3_000_000));
    assert_eq!(g.burst_iops_limit, Some(3_000_000));
    assert_eq!(g.write_iops, Some(120_000));
    assert_eq!(g.read_iops, Some(80_000));
    assert_eq!(g.total_iops, Some(200_000));
    assert_eq!(g.burst_credit_balance, Some(50_000));
}

#[test]
fn unwritten_label_has_no_gauges() {
    let mut reg = MetricRegistry::new();
    reg.apply_update_set(&set_for("db1", None));
    assert_eq!(reg.get(&"db2".to_string()), None);
}

#[test]
fn optional_gauges_keep_prior_values() {
    let mut reg = MetricRegistry::new();
    reg.apply_update_set(&set_for("db1", Some(50_000)));
    reg.apply_update_set(&set_for("db1", None));
    let g = reg.get(&"db1".to_string()).unwrap();
    // The balance gauge was not written this cycle and keeps the prior value,
    // while the primary limit fell back to the baseline ceiling.
    assert_eq!(g.burst_credit_balance, Some(50_000));
    assert_eq!(g.iops_limit, Some(100_000));
}

#[test]
fn applying_same_set_twice_changes_nothing() {
    let s = set_for("db1", Some(1_000));
    let mut once = MetricRegistry::new();
    once.apply_update_set(&s);
    let mut twice = MetricRegistry::new();
    twice.apply_update_set(&s);
    twice.apply_update_set(&s);
    assert_eq!(once.get(&"db1".to_string()), twice.get(&"db1".to_string()));
}

#[test]
fn failed_instance_keeps_prior_cycle_values() {
    let mut reg = MetricRegistry::new();
    // A first cycle succeeds for all three instances.
    let cycle1: Vec<CollectionOutcome> = vec![
        collect(Ok(details("db1")), Ok(Some(10_000)), Ok(Some(10_000)), Ok(None)),
        collect(Ok(details("db2")), Ok(Some(20_000)), Ok(Some(20_000)), Ok(None)),
        collect(Ok(details("db3")), Ok(Some(30_000)), Ok(Some(30_000)), Ok(None)),
    ];
    reg.apply_outcomes(&cycle1);
    // In the second cycle db2's details fetch fails; the others move on.
    let cycle2: Vec<CollectionOutcome> = vec![
        collect(Ok(details("db1")), Ok(Some(11_000)), Ok(Some(11_000)), Ok(None)),
        collect(Err(DetailsError::NotFound), Ok(None), Ok(None), Ok(None)),
        collect(Ok(details("db3")), Ok(Some(33_000)), Ok(Some(33_000)), Ok(None)),
    ];
    reg.apply_outcomes(&cycle2);
    assert_eq!(reg.get(&"db1".to_string()).unwrap().total_iops, Some(22_000));
    assert_eq!(reg.get(&"db2".to_string()).unwrap().total_iops, Some(40_000));
    assert_eq!(reg.get(&"db3".to_string()).unwrap().total_iops, Some(66_000));
}

#[test]
fn failure_before_first_write_leaves_label_absent() {
    let mut reg = MetricRegistry::new();
    let outcomes: Vec<CollectionOutcome> = vec![
        collect(Err(DetailsError::NotFound), Ok(None), Ok(None), Ok(None)),
        collect(Ok(details("db1")), Ok(Some(1_000)), Ok(None), Ok(None)),
    ];
    reg.apply_outcomes(&outcomes);
    assert_eq!(reg.get(&"db2".to_string()), None);
    assert!(reg.get(&"db1".to_string()).is_some());
}
