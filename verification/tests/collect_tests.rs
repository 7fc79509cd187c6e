use rds_exporter::constants::StorageType;
use rds_exporter::rds_metric::{
    build_update_set, collect, details_from_response, sample_from_response, CollectError,
    DbRecord, DetailsError, InstanceDetails, MetricSeries,
};

fn record() -> DbRecord {
    DbRecord {
        identifier: Some("db1".to_string()),
        storage_type_name: Some("gp2".to_string()),
        allocated_storage_gb: Some(20),
        provisioned_iops: None,
    }
}

fn details(ty: StorageType, size_gb: i64, piops: Option<i64>) -> InstanceDetails {
    InstanceDetails {
        instance_identifier: "db1".to_string(),
        storage_type: ty,
        storage_size_gb: size_gb,
        storage_provided_iops: piops,
    }
}

#[test]
fn details_taken_from_first_record() {
    let r = details_from_response(Ok(Some(vec![record()]))).unwrap();
    assert_eq!(r.instance_identifier, "db1");
    assert_eq!(r.storage_type, StorageType::GP2);
    assert_eq!(r.storage_size_gb, 20);
    assert_eq!(r.storage_provided_iops, None);
}

#[test]
fn details_ambiguous_takes_first() {
    let mut second = record();
    second.identifier = Some("db2".to_string());
    let r = details_from_response(Ok(Some(vec![record(), second]))).unwrap();
    assert_eq!(r.instance_identifier, "db1");
}

#[test]
fn details_absent_list_is_not_found() {
    assert_eq!(details_from_response(Ok(None)), Err(DetailsError::NotFound));
}

#[test]
fn details_empty_list_is_not_found() {
    assert_eq!(details_from_response(Ok(Some(vec![]))), Err(DetailsError::NotFound));
}

#[test]
fn details_remote_error_passed_through() {
    assert_eq!(
        details_from_response(Err("connection refused".to_string())),
        Err(DetailsError::Remote("connection refused".to_string()))
    );
}

#[test]
fn details_missing_attribute() {
    let mut rec = record();
    rec.storage_type_name = None;
    assert_eq!(
        details_from_response(Ok(Some(vec![rec]))),
        Err(DetailsError::MissingAttribute)
    );
}

#[test]
fn sample_takes_first_value_of_first_series() {
    let series = vec![
        MetricSeries { values: Some(vec![42_500, 10_000]) },
        MetricSeries { values: Some(vec![7_000]) },
    ];
    assert_eq!(sample_from_response(Ok(Some(series))), Some(42_500));
}

#[test]
fn sample_absent_without_series() {
    assert_eq!(sample_from_response(Ok(None)), None);
    assert_eq!(sample_from_response(Ok(Some(vec![]))), None);
}

#[test]
fn sample_absent_without_datapoints() {
    assert_eq!(sample_from_response(Ok(Some(vec![MetricSeries { values: None }]))), None);
    assert_eq!(
        sample_from_response(Ok(Some(vec![MetricSeries { values: Some(vec![]) }]))),
        None
    );
}

#[test]
fn sample_remote_error_downgraded_to_absent() {
    assert_eq!(sample_from_response(Err("timeout".to_string())), None);
}

#[test]
fn total_iops_is_write_plus_read() {
    let g = build_update_set(
        details(StorageType::GP2, 20, None),
        Some(120_000),
        Some(80_000),
        None,
    );
    assert_eq!(g.write_iops, 120_000);
    assert_eq!(g.read_iops, 80_000);
    assert_eq!(g.total_iops, 200_000);
}

#[test]
fn absent_samples_count_as_zero() {
    let g = build_update_set(details(StorageType::GP2, 20, None), None, Some(80_000), None);
    assert_eq!(g.write_iops, 0);
    assert_eq!(g.total_iops, 80_000);
}

#[test]
fn positive_burst_credit_selects_burst_ceiling() {
    let g = build_update_set(
        details(StorageType::GP2, 20, None),
        Some(1_000),
        Some(1_000),
        Some(99_000),
    );
    assert_eq!(g.iops_limit, 3_000_000);
    assert_eq!(g.burst_credit_balance, Some(99_000));
}

#[test]
fn zero_burst_credit_selects_baseline_ceiling() {
    let g = build_update_set(
        details(StorageType::GP2, 20, None),
        Some(1_000),
        Some(1_000),
        Some(0),
    );
    assert_eq!(g.iops_limit, 100_000);
    assert_eq!(g.burst_credit_balance, Some(0));
}

#[test]
fn absent_burst_credit_selects_baseline_and_writes_no_balance() {
    let g = build_update_set(details(StorageType::GP2, 20, None), Some(1_000), Some(1_000), None);
    assert_eq!(g.iops_limit, 100_000);
    assert_eq!(g.burst_credit_balance, None);
}

#[test]
fn burst_ceiling_gauge_present_only_with_burst_tier() {
    let with_tier = build_update_set(details(StorageType::GP2, 20, None), None, None, None);
    assert_eq!(with_tier.burst_iops_limit, Some(3_000_000));
    let without_tier = build_update_set(details(StorageType::GP3, 100, None), None, None, None);
    assert_eq!(without_tier.burst_iops_limit, None);
}

#[test]
fn every_class_collects_even_without_limit_inputs() {
    for d in [
        details(StorageType::GP2, 20, None),
        details(StorageType::GP3, 20, None),
        details(StorageType::IO1, 20, Some(500)),
        details(StorageType::IO1, 20, None),
        details(StorageType::GP2, -1, None),
        details(StorageType::Unknown, 20, None),
    ] {
        let outcome = collect(Ok(d), Ok(Some(1_000)), Ok(Some(2_000)), Ok(None));
        assert!(outcome.is_ok());
    }
}

#[test]
fn unclassified_volume_degrades_to_zero_limit() {
    let g = build_update_set(details(StorageType::IO1, 20, None), Some(1_000), None, None);
    assert_eq!(g.iops_limit, 0);
    assert_eq!(g.burst_iops_limit, None);
    assert_eq!(g.total_iops, 1_000);
}

#[test]
fn details_failure_is_instance_fatal() {
    let outcome = collect(
        Err(DetailsError::NotFound),
        Ok(Some(1_000)),
        Ok(None),
        Ok(None),
    );
    assert_eq!(outcome, Err(CollectError::Details(DetailsError::NotFound)));
}

#[test]
fn sample_failure_is_instance_fatal() {
    let outcome = collect(
        Ok(details(StorageType::GP2, 20, None)),
        Err("timeout".to_string()),
        Ok(None),
        Ok(None),
    );
    assert_eq!(outcome, Err(CollectError::Sample("timeout".to_string())));
}

#[test]
fn identical_responses_collect_identically() {
    let run = || {
        collect(
            Ok(details(StorageType::GP2, 500, None)),
            Ok(Some(120_000)),
            Ok(Some(80_000)),
            Ok(Some(42_000)),
        )
    };
    assert_eq!(run(), run());
}
