use vstd::prelude::*;
use crate::constants::{storage_type_of, StorageType};
use crate::limits::{gp2_limit, gp3_default_limit, io1_limit, Limit, LimitError};

verus! {

/// Storage attributes of one database instance, as one collection cycle
/// sees them. Built once per cycle from the describe response and
/// discarded at the cycle's end.
#[derive(Clone, Debug, PartialEq, Eq)]
pub struct InstanceDetails {
    pub instance_identifier: String,
    pub storage_type: StorageType,
    pub storage_size_gb: i64,
    pub storage_provided_iops: Option<i64>,
}

/// The limit that `InstanceDetails::calculate_limits` yields.
pub open spec fn spec_calculate_limits(d: InstanceDetails) -> Result<Limit, LimitError> {
    match d.storage_type {
        StorageType::GP2 => if 0 <= d.storage_size_gb <= u32::MAX {
            match gp2_limit(d.storage_size_gb as u32) {
                Some(l) => Ok(l),
                None => Err(LimitError::SizeOutOfRange),
            }
        } else {
            Err(LimitError::SizeOutOfRange)
        },
        StorageType::GP3 => if 0 <= d.storage_size_gb <= u32::MAX {
            match gp3_default_limit(d.storage_size_gb as u32) {
                Some(l) => Ok(l),
                None => Err(LimitError::SizeOutOfRange),
            }
        } else {
            Err(LimitError::SizeOutOfRange)
        },
        StorageType::IO1 => match d.storage_provided_iops {
            Some(p) => if 0 <= p <= u32::MAX {
                match io1_limit(p as u32) {
                    Some(l) => Ok(l),
                    None => Err(LimitError::IopsOutOfRange),
                }
            } else {
                Err(LimitError::IopsOutOfRange)
            },
            None => Err(LimitError::MissingProvisionedIops),
        },
        StorageType::Unknown => Ok(Limit::spec_default()),
    }
}

/// The limit actually used for a volume: the computed one, degraded to the
/// zero limit where the class-specific computation cannot be carried out.
pub open spec fn spec_effective_limit(d: InstanceDetails) -> Limit {
    match spec_calculate_limits(d) {
        Ok(l) => l,
        Err(_) => Limit::spec_default(),
    }
}

impl InstanceDetails {
    /// Derive the storage-class-specific throughput ceilings for this
    /// volume. An `Unknown` class is not an error: it yields the zero
    /// limit. Errors name the missing or out-of-range input of the class.
    pub fn calculate_limits(&self) -> (r: Result<Limit, LimitError>)
        ensures
            r == spec_calculate_limits(*self),
    {
        match self.storage_type {
            StorageType::GP2 => {
                if 0 <= self.storage_size_gb && self.storage_size_gb <= u32::MAX as i64 {
                    match crate::limits::calc_gp2(self.storage_size_gb as u32) {
                        Some(l) => Ok(l),
                        None => Err(LimitError::SizeOutOfRange),
                    }
                } else {
                    Err(LimitError::SizeOutOfRange)
                }
            },
            StorageType::GP3 => {
                if 0 <= self.storage_size_gb && self.storage_size_gb <= u32::MAX as i64 {
                    match crate::limits::calc_gp3_default(self.storage_size_gb as u32) {
                        Some(l) => Ok(l),
                        None => Err(LimitError::SizeOutOfRange),
                    }
                } else {
                    Err(LimitError::SizeOutOfRange)
                }
            },
            StorageType::IO1 => {
                match self.storage_provided_iops {
                    Some(p) => {
                        if 0 <= p && p <= u32::MAX as i64 {
                            match crate::limits::calc_io1(p as u32) {
                                Some(l) => Ok(l),
                                None => Err(LimitError::IopsOutOfRange),
                            }
                        } else {
                            Err(LimitError::IopsOutOfRange)
                        }
                    },
                    None => Err(LimitError::MissingProvisionedIops),
                }
            },
            StorageType::Unknown => Ok(Limit::default()),
        }
    }
}

/// The attributes this crate reads from one record of the provider's
/// describe-instance response. Each field is optional because the provider
/// may omit any attribute.
#[derive(Clone, Debug, PartialEq, Eq)]
pub struct DbRecord {
    pub identifier: Option<String>,
    pub storage_type_name: Option<String>,
    pub allocated_storage_gb: Option<i64>,
    pub provisioned_iops: Option<i64>,
}

/// Why the details of an instance could not be collected. Fatal to that
/// instance's collection cycle only; other instances are unaffected.
#[derive(Clone, Debug, PartialEq, Eq)]
pub enum DetailsError {
    /// The identifier resolved to no record at all.
    NotFound,
    /// The first matching record lacks an attribute the limit calculation
    /// needs (identifier, storage class, or allocated storage).
    MissingAttribute,
    /// The provider call itself failed; carries the provider's error text.
    /// Authentication failures arrive through the same channel and are not
    /// distinguished from other remote failures.
    Remote(String),
}

/// The details taken from one describe record, or the error where a
/// required attribute is missing.
pub open spec fn spec_details_from_record(rec: DbRecord) -> Result<InstanceDetails, DetailsError> {
    match (rec.identifier, rec.storage_type_name, rec.allocated_storage_gb) {
        (Some(id), Some(ty), Some(size)) => Ok(
            InstanceDetails {
                instance_identifier: id,
                storage_type: storage_type_of(ty@),
                storage_size_gb: size,
                storage_provided_iops: rec.provisioned_iops,
            },
        ),
        _ => Err(DetailsError::MissingAttribute),
    }
}

/// The outcome of interpreting a whole describe response: a remote failure
/// is passed through, an absent or empty record list is `NotFound`, and of
/// several records the first is taken (explicit policy for the unexpected
/// ambiguous case).
pub open spec fn spec_details_from_response(
    response: Result<Option<Seq<DbRecord>>, String>,
) -> Result<InstanceDetails, DetailsError> {
    match response {
        Err(e) => Err(DetailsError::Remote(e)),
        Ok(None) => Err(DetailsError::NotFound),
        Ok(Some(records)) => if records.len() == 0 {
            Err(DetailsError::NotFound)
        } else {
            spec_details_from_record(records[0])
        },
    }
}

/// Build the per-cycle `InstanceDetails` from a describe record.
pub fn details_from_record(rec: DbRecord) -> (r: Result<InstanceDetails, DetailsError>)
    ensures
        r == spec_details_from_record(rec),
{
    match (rec.identifier, rec.storage_type_name, rec.allocated_storage_gb) {
        (Some(id), Some(ty), Some(size)) => Ok(
            InstanceDetails {
                storage_type: StorageType::try_from_string(ty.as_str()),
                instance_identifier: id,
                storage_size_gb: size,
                storage_provided_iops: rec.provisioned_iops,
            },
        ),
        _ => Err(DetailsError::MissingAttribute),
    }
}

/// Interpret the provider's describe-instance response: the compute half
/// of the details fetch, applied to the plain values the remote call
/// produced.
pub fn details_from_response(response: Result<Option<Vec<DbRecord>>, String>) -> (r: Result<
    InstanceDetails,
    DetailsError,
>)
    ensures
        r == spec_details_from_response(
            match response {
                Ok(Some(records)) => Ok(Some(records@)),
                Ok(None) => Ok(None),
                Err(e) => Err(e),
            },
        ),
{
    match response {
        Err(e) => Err(DetailsError::Remote(e)),
        Ok(None) => Err(DetailsError::NotFound),
        Ok(Some(records)) => {
            let mut records = records;
            if records.len() == 0 {
                Err(DetailsError::NotFound)
            } else {
                let rec = records.remove(0);
                details_from_record(rec)
            }
        },
    }
}

/// One result series of the provider's metric-data response, reduced to
/// the values this crate reads. Gauge and sample values are carried as
/// integers in thousandths of a unit.
#[derive(Clone, Debug, PartialEq, Eq)]
pub struct MetricSeries {
    pub values: Option<Vec<u64>>,
}

/// The sample taken from a metric-data response. Absence (`None`) covers a
/// response without series, an empty series, and — by explicit policy
/// carried at the fetch boundary — a failed remote call: a missing metric
/// never fails an instance's collection.
pub open spec fn spec_sample_from_response(
    response: Result<Option<Seq<MetricSeries>>, String>,
) -> Option<u64> {
    match response {
        Err(_) => None,
        Ok(None) => None,
        Ok(Some(series)) => if series.len() == 0 {
            None
        } else {
            match series[0].values {
                Some(vals) => if vals@.len() == 0 {
                    None
                } else {
                    Some(vals@[0])
                },
                None => None,
            }
        },
    }
}

/// Interpret the provider's metric-data response: the compute half of a
/// sample fetch. Yields the first value of the first series, or `None`
/// where the window holds no datapoint or the call failed.
pub fn sample_from_response(response: Result<Option<Vec<MetricSeries>>, String>) -> (s: Option<
    u64,
>)
    ensures
        s == spec_sample_from_response(
            match response {
                Ok(Some(series)) => Ok(Some(series@)),
                Ok(None) => Ok(None),
                Err(e) => Err(e),
            },
        ),
{
    match response {
        Err(_) => None,
        Ok(None) => None,
        Ok(Some(series)) => {
            let mut series = series;
            if series.len() == 0 {
                None
            } else {
                let first = series.remove(0);
                match first.values {
                    Some(vals) => {
                        if vals.len() == 0 {
                            None
                        } else {
                            Some(vals[0])
                        }
                    },
                    None => None,
                }
            }
        },
    }
}

/// The atomic unit of publication for one instance: every gauge value of
/// one consistent join of the four remote calls, keyed by the instance
/// identifier. A `None` field means that gauge is not written this cycle
/// and keeps whatever value it had. All values are integers in
/// thousandths of a unit.
#[derive(Clone, Debug, PartialEq, Eq)]
pub struct GaugeUpdateSet {
    pub instance: String,
    pub iops_limit: u64,
    pub burst_iops_limit: Option<u64>,
    pub write_iops: u64,
    pub read_iops: u64,
    pub total_iops: u64,
    pub burst_credit_balance: Option<u64>,
}

/// Why one instance's collection cycle produced no update set.
#[derive(Clone, Debug, PartialEq, Eq)]
pub enum CollectError {
    /// The details fetch failed; details are required to compute limits.
    Details(DetailsError),
    /// A sample fetch reported a failure; carries its error text. Under
    /// the absent-on-error fetch policy this does not arise in practice,
    /// but the join handles it strictly: there is no partial update set.
    Sample(String),
}

/// Per-instance result of one collection cycle.
pub type CollectionOutcome = Result<GaugeUpdateSet, CollectError>;

/// The update set computed from joined fetch results: absent write or
/// read samples count as 0; the total is their saturating sum; the
/// primary IOPS limit is the burst ceiling exactly when a burst-credit
/// sample is present and positive, else the baseline; the burst ceiling
/// gauge is only written when that ceiling is positive; the balance gauge
/// is only written when a balance sample is present.
pub open spec fn spec_update_set(
    d: InstanceDetails,
    write: Option<u64>,
    read: Option<u64>,
    burst: Option<u64>,
) -> GaugeUpdateSet {
    let limits = spec_effective_limit(d);
    let write_v = match write {
        Some(v) => v,
        None => 0u64,
    };
    let read_v = match read {
        Some(v) => v,
        None => 0u64,
    };
    let burst_positive = match burst {
        Some(v) => v > 0,
        None => false,
    };
    GaugeUpdateSet {
        instance: d.instance_identifier,
        iops_limit: if burst_positive {
            (limits.burst_iops * 1000) as u64
        } else {
            (limits.iops * 1000) as u64
        },
        burst_iops_limit: if limits.burst_iops > 0 {
            Some((limits.burst_iops * 1000) as u64)
        } else {
            None
        },
        write_iops: write_v,
        read_iops: read_v,
        total_iops: if write_v + read_v > u64::MAX {
            u64::MAX
        } else {
            (write_v + read_v) as u64
        },
        burst_credit_balance: burst,
    }
}

/// Compute one instance's gauge update set from its details and the three
/// joined samples. Total for every input: a class whose limit cannot be
/// computed degrades to the zero limit instead of failing.
pub fn build_update_set(
    details: InstanceDetails,
    write: Option<u64>,
    read: Option<u64>,
    burst: Option<u64>,
) -> (g: GaugeUpdateSet)
    ensures
        g == spec_update_set(details, write, read, burst),
{
    let limits = match details.calculate_limits() {
        Ok(l) => l,
        Err(_) => Limit::default(),
    };
    let write_v = match write {
        Some(v) => v,
        None => 0u64,
    };
    let read_v = match read {
        Some(v) => v,
        None => 0u64,
    };
    let burst_positive = match burst {
        Some(v) => v > 0,
        None => false,
    };
    GaugeUpdateSet {
        instance: details.instance_identifier,
        iops_limit: if burst_positive {
            (limits.burst_iops as u64) * 1000
        } else {
            (limits.iops as u64) * 1000
        },
        burst_iops_limit: if limits.burst_iops > 0 {
            Some((limits.burst_iops as u64) * 1000)
        } else {
            None
        },
        write_iops: write_v,
        read_iops: read_v,
        total_iops: write_v.saturating_add(read_v),
        burst_credit_balance: burst,
    }
}

/// The join of the four per-instance fetch results: a details failure is
/// fatal to the instance, and so is any sample failure (in the order
/// write, read, burst); otherwise the update set is fully produced.
pub open spec fn spec_collect(
    details: Result<InstanceDetails, DetailsError>,
    write: Result<Option<u64>, String>,
    read: Result<Option<u64>, String>,
    burst: Result<Option<u64>, String>,
) -> CollectionOutcome {
    match details {
        Err(e) => Err(CollectError::Details(e)),
        Ok(d) => match write {
            Err(e) => Err(CollectError::Sample(e)),
            Ok(w) => match read {
                Err(e) => Err(CollectError::Sample(e)),
                Ok(r) => match burst {
                    Err(e) => Err(CollectError::Sample(e)),
                    Ok(b) => Ok(spec_update_set(d, w, r, b)),
                },
            },
        },
    }
}

/// Join the four fetch results of one instance and produce its collection
/// outcome: either the full update set or the error that makes the
/// instance contribute nothing this cycle.
pub fn collect(
    details: Result<InstanceDetails, DetailsError>,
    write: Result<Option<u64>, String>,
    read: Result<Option<u64>, String>,
    burst: Result<Option<u64>, String>,
) -> (outcome: CollectionOutcome)
    ensures
        outcome == spec_collect(details, write, read, burst),
{
    let d = match details {
        Ok(d) => d,
        Err(e) => {
            return Err(CollectError::Details(e));
        },
    };
    let w = match write {
        Ok(w) => w,
        Err(e) => {
            return Err(CollectError::Sample(e));
        },
    };
    let r = match read {
        Ok(r) => r,
        Err(e) => {
            return Err(CollectError::Sample(e));
        },
    };
    let b = match burst {
        Ok(b) => b,
        Err(e) => {
            return Err(CollectError::Sample(e));
        },
    };
    Ok(build_update_set(d, w, r, b))
}

/// Law of totality: whenever the details fetch succeeds and the samples
/// join without error, collection yields a full update set, whatever the
/// storage class; where the class's limit cannot be computed, the set
/// carries the zero limit and writes no burst-ceiling gauge, instead of
/// failing the instance.
pub proof fn lemma_collect_total_on_success(
    d: InstanceDetails,
    w: Option<u64>,
    r: Option<u64>,
    b: Option<u64>,
)
    ensures
        spec_collect(Ok(d), Ok(w), Ok(r), Ok(b)) == Ok::<GaugeUpdateSet, CollectError>(
            spec_update_set(d, w, r, b),
        ),
        spec_calculate_limits(d) is Err ==> spec_update_set(d, w, r, b).iops_limit == 0
            && spec_update_set(d, w, r, b).burst_iops_limit is None,
{
}

/// Law of idempotence at collection: two collections of identical joined
/// responses are the same outcome, value for value.
pub proof fn lemma_collect_deterministic(
    details: Result<InstanceDetails, DetailsError>,
    write: Result<Option<u64>, String>,
    read: Result<Option<u64>, String>,
    burst: Result<Option<u64>, String>,
    o1: CollectionOutcome,
    o2: CollectionOutcome,
)
    requires
        o1 == spec_collect(details, write, read, burst),
        o2 == spec_collect(details, write, read, burst),
    ensures
        o1 == o2,
{
}

/// Law of aggregation: absent write or read samples count as 0, and the
/// total gauge is the sum of the write and read gauges whenever that sum
/// is representable.
pub proof fn lemma_total_iops_sum(
    d: InstanceDetails,
    w: Option<u64>,
    r: Option<u64>,
    b: Option<u64>,
)
    ensures
        ({
            let g = spec_update_set(d, w, r, b);
            &&& g.write_iops == (match w {
                Some(v) => v,
                None => 0u64,
            })
            &&& g.read_iops == (match r {
                Some(v) => v,
                None => 0u64,
            })
            &&& (g.write_iops + g.read_iops <= u64::MAX ==> g.total_iops == g.write_iops
                + g.read_iops)
        }),
{
}

/// Law of burst-aware ceiling selection: with a positive burst-credit
/// sample the primary IOPS-limit gauge carries the burst ceiling; with a
/// zero sample, or with no sample at all, it carries the baseline; and
/// the balance gauge is written exactly when a sample is present, with
/// that sample as its value.
pub proof fn lemma_burst_ceiling_selection(
    d: InstanceDetails,
    w: Option<u64>,
    r: Option<u64>,
    b: Option<u64>,
)
    ensures
        ({
            let g = spec_update_set(d, w, r, b);
            let limits = spec_effective_limit(d);
            &&& ((b matches Some(v) && v > 0) ==> g.iops_limit == limits.burst_iops * 1000)
            &&& ((b matches Some(v) && v == 0) ==> g.iops_limit == limits.iops * 1000)
            &&& (b is None ==> g.iops_limit == limits.iops * 1000)
            &&& g.burst_credit_balance == b
        }),
{
}

/// Law of burst-tier suppression: the burst-ceiling gauge is written
/// exactly when the storage class has a burst tier, that is, when the
/// computed burst ceiling is positive.
pub proof fn lemma_burst_tier_gauge(
    d: InstanceDetails,
    w: Option<u64>,
    r: Option<u64>,
    b: Option<u64>,
)
    ensures
        ({
            let g = spec_update_set(d, w, r, b);
            let limits = spec_effective_limit(d);
            &&& (limits.burst_iops == 0 ==> g.burst_iops_limit is None)
            &&& (limits.burst_iops > 0 ==> g.burst_iops_limit == Some(
                (limits.burst_iops * 1000) as u64,
            ))
        }),
{
}

} // verus!
