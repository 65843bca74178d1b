//! The data that the registry sends.

pub mod chart;
pub mod main;
pub mod response;

pub use chart::{
    ApiVersion, ChartDependency, ChartIndexSpec, ChartIndexYaml, ChartMaintainer, ImportField,
    ImportValue, ImportValueError, ImportValueFields, RepositoryType, StringOrImportValue,
    Timestamp,
};
pub use main::{FeaturesResponse, InfoResponse, MainResponse};
pub use response::{APIResponse, ApiError, Empty};

use vstd::prelude::*;

verus! {

/// How the server was packaged.
#[derive(Debug, Clone, Copy, PartialEq, Eq, Structural)]
pub enum DistributionType {
    /// Running on a Kubernetes cluster.
    Kubernetes,
    /// Not known.
    Unknown,
    /// Running from the Docker image.
    Docker,
    /// Installed from an RPM package.
    RPM,
    /// Installed from a Debian package.
    Deb,
    /// Built from the Git repository.
    Git,
}

impl Default for DistributionType {
    fn default() -> (d: Self)
        ensures
            d == DistributionType::Unknown,
    {
        DistributionType::Unknown
    }
}

} // verus!
