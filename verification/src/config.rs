use vstd::prelude::*;

verus! {

/// Static per-instance configuration: identity, region, and the credential
/// pair used for that instance's remote calls. Owned by configuration for
/// the process lifetime; each concurrent task works on its own clone.
#[derive(Clone, Debug)]
pub struct RDSInstance {
    pub region: String,
    pub instance: String,
    pub aws_access_key: String,
    pub aws_secret_key: String,
}

/// The configured fleet.
#[derive(Debug)]
pub struct InstanceList {
    pub rds: Vec<RDSInstance>,
}

/// Process configuration: which metrics are enabled and which instances to
/// collect from. Loaded by the surrounding process; this crate only
/// consumes the resulting values.
#[derive(Debug)]
pub struct Config {
    pub enabled_metrics: Vec<String>,
    pub instances: InstanceList,
}

} // verus!
