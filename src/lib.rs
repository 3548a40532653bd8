//! Typed access to the string tags that cloud resources carry, and plain models of the
//! resources themselves.
pub mod error;
pub mod resources;
pub mod tags;

pub use error::Error;
pub use resources::{
    Account, Ami, AmiId, AvailabilityZone, CloudformationParameter, CloudformationParameters,
    CloudfrontDistribution, CloudfrontDistributionDomain, CloudfrontDistributionId,
    CloudfrontDistributionStatus, CloudfrontOrigin, CloudfrontOriginDomain, CloudfrontOriginId,
    Efs, EfsId, Eip, EipAllocationId, HostedZoneId, Instance, InstanceId, InstanceKeypairName,
    InstanceProfileName, Ip, ProfileConfig, ProfileName, Region, Route53Zone, SecurityGroup,
    SecurityGroupId, ShieldPop, Subnet, SubnetId,
};
pub use tags::codec::Timestamp;
