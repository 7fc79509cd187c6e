use vstd::prelude::*;

verus! {

/// Throughput ceilings derived for one volume: the baseline IOPS limit and
/// the burst IOPS limit (0 where the storage class has no burst tier).
#[derive(Clone, Copy, Debug, PartialEq, Eq, Structural)]
pub struct Limit {
    pub iops: u32,
    pub burst_iops: u32,
}

impl Limit {
    /// The zero limit, used when a volume cannot be classified or a
    /// required input for its class is missing.
    pub open spec fn spec_default() -> Limit {
        Limit { iops: 0, burst_iops: 0 }
    }

    /// The zero limit, used when a volume cannot be classified or a
    /// required input for its class is missing.
    pub fn default() -> (l: Limit)
        ensures
            l == Limit::spec_default(),
    {
        Limit { iops: 0, burst_iops: 0 }
    }
}

/// The ceilings of a gp2 volume of the given size, or `None` where the
/// size is outside the supported range of 1 to 16384 GiB: baseline IOPS is
/// three per GiB, at least 100 and at most 16000; volumes of at most
/// 1000 GiB additionally have a 3000 IOPS burst tier.
pub open spec fn gp2_limit(size_gb: u32) -> Option<Limit> {
    if size_gb < 1 || size_gb > 16384 {
        None
    } else if size_gb > 1000 {
        Some(
            Limit {
                iops: (if 3 * (size_gb as int) > 16000 {
                    16000
                } else {
                    3 * (size_gb as int)
                }) as u32,
                burst_iops: 0,
            },
        )
    } else {
        Some(
            Limit {
                iops: (if 3 * (size_gb as int) < 100 {
                    100
                } else {
                    3 * (size_gb as int)
                }) as u32,
                burst_iops: 3000,
            },
        )
    }
}

/// The ceilings of a gp3 volume created without provisioned figures, or
/// `None` where the size is outside the supported range of 1 to 16384 GiB:
/// the baseline of 3000 IOPS and no burst tier.
pub open spec fn gp3_default_limit(size_gb: u32) -> Option<Limit> {
    if size_gb < 1 || size_gb > 16384 {
        None
    } else {
        Some(Limit { iops: 3000, burst_iops: 0 })
    }
}

/// The ceilings of an io1 volume with the given provisioned IOPS, or
/// `None` where that figure is outside the supported range of 100 to
/// 64000: exactly the provisioned IOPS and no burst tier.
pub open spec fn io1_limit(provisioned_iops: u32) -> Option<Limit> {
    if provisioned_iops < 100 || provisioned_iops > 64000 {
        None
    } else {
        Some(Limit { iops: provisioned_iops, burst_iops: 0 })
    }
}

/// Relies on aws_volume_limit_calculator::calculate_gp2_limits: for sizes
/// of 1 to 16384 GiB it returns baseline IOPS of three per GiB clamped to
/// [100, 16000] and a 3000 IOPS burst tier for sizes of at most 1000 GiB;
/// other sizes are an error.
#[verifier::external_body]
pub(crate) fn calc_gp2(size_gb: u32) -> (r: Option<Limit>)
    ensures
        r == gp2_limit(size_gb),
{
    match aws_volume_limit_calculator::calculate_gp2_limits(size_gb) {
        Ok(l) => Some(Limit { iops: l.iops, burst_iops: l.burst_iops }),
        Err(_) => None,
    }
}

/// Relies on aws_volume_limit_calculator::calculate_gp3_limits called
/// without provisioned figures: for sizes of 1 to 16384 GiB it returns the
/// 3000 IOPS baseline and no burst tier; other sizes are an error.
#[verifier::external_body]
pub(crate) fn calc_gp3_default(size_gb: u32) -> (r: Option<Limit>)
    ensures
        r == gp3_default_limit(size_gb),
{
    match aws_volume_limit_calculator::calculate_gp3_limits(size_gb, None, None) {
        Ok(l) => Some(Limit { iops: l.iops, burst_iops: l.burst_iops }),
        Err(_) => None,
    }
}

/// Relies on aws_volume_limit_calculator::calculate_io_limits: for 100 to
/// 64000 provisioned IOPS it returns exactly that figure as the baseline
/// and no burst tier; other figures are an error.
#[verifier::external_body]
pub(crate) fn calc_io1(provisioned_iops: u32) -> (r: Option<Limit>)
    ensures
        r == io1_limit(provisioned_iops),
{
    match aws_volume_limit_calculator::calculate_io_limits(provisioned_iops) {
        Ok(l) => Some(Limit { iops: l.iops, burst_iops: l.burst_iops }),
        Err(_) => None,
    }
}

/// Why a limit could not be computed for a volume's class.
#[derive(Clone, Copy, Debug, PartialEq, Eq, Structural)]
pub enum LimitError {
    /// The storage size is outside the range the class supports.
    SizeOutOfRange,
    /// The provisioned IOPS figure is outside the range the class supports.
    IopsOutOfRange,
    /// The class needs a provisioned IOPS figure and none was reported.
    MissingProvisionedIops,
}

} // verus!
