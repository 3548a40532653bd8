//! Models of the cloud resources that the library reads and writes: regions, instances,
//! images, addresses, file systems, CDN distributions, DNS zones and stack parameters. They
//! hold plain values; the service's answers are turned into them here, field by field.
use vstd::prelude::*;

use crate::error::{none_value, Error};
use crate::tags::codec::{naive_datetime_parse, parse_naive_datetime, timestamp_wf, Timestamp};
use crate::tags::service::{parts_view, tag_list_of_parts};
use crate::tags::{RawTag, TagList};

verus! {

/// A region the library works in.
#[derive(Debug, Clone, Copy, PartialEq, Eq, Structural)]
pub enum Region {
    EuCentral1,
    UsEast1,
}

/// The service's name of a region.
pub open spec fn region_name(r: Region) -> Seq<char> {
    match r {
        Region::EuCentral1 => "eu-central-1"@,
        Region::UsEast1 => "us-east-1"@,
    }
}

impl Region {
    pub fn as_str(self) -> (r: &'static str)
        ensures
            r@ == region_name(self),
    {
        match self {
            Region::EuCentral1 => "eu-central-1",
            Region::UsEast1 => "us-east-1",
        }
    }

    pub fn all() -> (r: [Region; 2])
        ensures
            r@ == seq![Region::EuCentral1, Region::UsEast1],
    {
        let r = [Region::EuCentral1, Region::UsEast1];
        assert(r@ =~= seq![Region::EuCentral1, Region::UsEast1]);
        r
    }

    /// The CDN shield location that serves the region.
    pub fn cdn_shield_pop(self) -> (r: ShieldPop)
        ensures
            r@ == region_name(self),
    {
        ShieldPop::new(
            match self {
                Region::EuCentral1 => "eu-central-1",
                Region::UsEast1 => "us-east-1",
            }.to_owned(),
        )
    }
}

/// The name of an instance profile.
#[derive(Debug)]
pub struct InstanceProfileName(String);

impl View for InstanceProfileName {
    type V = Seq<char>;

    closed spec fn view(&self) -> Seq<char> {
        self.0@
    }
}

impl InstanceProfileName {
    pub fn new(value: String) -> (r: Self)
        ensures
            r@ == value@,
    {
        InstanceProfileName(value)
    }

    pub fn as_str(&self) -> (r: &str)
        ensures
            r@ == self@,
    {
        self.0.as_str()
    }
}

impl Clone for InstanceProfileName {
    fn clone(&self) -> (r: Self)
        ensures
            r@ == self@,
    {
        InstanceProfileName(self.0.clone())
    }
}

impl PartialEq for InstanceProfileName {
    fn eq(&self, other: &InstanceProfileName) -> (r: bool)
        ensures
            r == (self@ == other@),
    {
        self.0 == other.0
    }
}

impl vstd::std_specs::cmp::PartialEqSpecImpl for InstanceProfileName {
    open spec fn obeys_eq_spec() -> bool {
        true
    }

    open spec fn eq_spec(&self, other: &InstanceProfileName) -> bool {
        self@ == other@
    }
}

impl Eq for InstanceProfileName {}

/// The name of a key pair.
#[derive(Debug)]
pub struct InstanceKeypairName(String);

impl View for InstanceKeypairName {
    type V = Seq<char>;

    closed spec fn view(&self) -> Seq<char> {
        self.0@
    }
}

impl InstanceKeypairName {
    pub fn new(value: String) -> (r: Self)
        ensures
            r@ == value@,
    {
        InstanceKeypairName(value)
    }

    pub fn as_str(&self) -> (r: &str)
        ensures
            r@ == self@,
    {
        self.0.as_str()
    }
}

impl Clone for InstanceKeypairName {
    fn clone(&self) -> (r: Self)
        ensures
            r@ == self@,
    {
        InstanceKeypairName(self.0.clone())
    }
}

impl PartialEq for InstanceKeypairName {
    fn eq(&self, other: &InstanceKeypairName) -> (r: bool)
        ensures
            r == (self@ == other@),
    {
        self.0 == other.0
    }
}

impl vstd::std_specs::cmp::PartialEqSpecImpl for InstanceKeypairName {
    open spec fn obeys_eq_spec() -> bool {
        true
    }

    open spec fn eq_spec(&self, other: &InstanceKeypairName) -> bool {
        self@ == other@
    }
}

impl Eq for InstanceKeypairName {}

/// The id of a security group.
#[derive(Debug)]
pub struct SecurityGroupId(String);

impl View for SecurityGroupId {
    type V = Seq<char>;

    closed spec fn view(&self) -> Seq<char> {
        self.0@
    }
}

impl SecurityGroupId {
    pub fn new(value: String) -> (r: Self)
        ensures
            r@ == value@,
    {
        SecurityGroupId(value)
    }

    pub fn as_str(&self) -> (r: &str)
        ensures
            r@ == self@,
    {
        self.0.as_str()
    }
}

impl Clone for SecurityGroupId {
    fn clone(&self) -> (r: Self)
        ensures
            r@ == self@,
    {
        SecurityGroupId(self.0.clone())
    }
}

impl PartialEq for SecurityGroupId {
    fn eq(&self, other: &SecurityGroupId) -> (r: bool)
        ensures
            r == (self@ == other@),
    {
        self.0 == other.0
    }
}

impl vstd::std_specs::cmp::PartialEqSpecImpl for SecurityGroupId {
    open spec fn obeys_eq_spec() -> bool {
        true
    }

    open spec fn eq_spec(&self, other: &SecurityGroupId) -> bool {
        self@ == other@
    }
}

impl Eq for SecurityGroupId {}

/// The id of a subnet.
#[derive(Debug)]
pub struct SubnetId(String);

impl View for SubnetId {
    type V = Seq<char>;

    closed spec fn view(&self) -> Seq<char> {
        self.0@
    }
}

impl SubnetId {
    pub fn from_string(value: String) -> (r: Self)
        ensures
            r@ == value@,
    {
        SubnetId(value)
    }

    pub fn new(value: String) -> (r: Self)
        ensures
            r@ == value@,
    {
        SubnetId(value)
    }

    pub fn as_str(&self) -> (r: &str)
        ensures
            r@ == self@,
    {
        self.0.as_str()
    }
}

impl Clone for SubnetId {
    fn clone(&self) -> (r: Self)
        ensures
            r@ == self@,
    {
        SubnetId(self.0.clone())
    }
}

impl PartialEq for SubnetId {
    fn eq(&self, other: &SubnetId) -> (r: bool)
        ensures
            r == (self@ == other@),
    {
        self.0 == other.0
    }
}

impl vstd::std_specs::cmp::PartialEqSpecImpl for SubnetId {
    open spec fn obeys_eq_spec() -> bool {
        true
    }

    open spec fn eq_spec(&self, other: &SubnetId) -> bool {
        self@ == other@
    }
}

impl Eq for SubnetId {}

/// The name of an availability zone.
#[derive(Debug)]
pub struct AvailabilityZone(String);

impl View for AvailabilityZone {
    type V = Seq<char>;

    closed spec fn view(&self) -> Seq<char> {
        self.0@
    }
}

impl AvailabilityZone {
    pub fn new(value: String) -> (r: Self)
        ensures
            r@ == value@,
    {
        AvailabilityZone(value)
    }

    pub fn as_str(&self) -> (r: &str)
        ensures
            r@ == self@,
    {
        self.0.as_str()
    }
}

impl Clone for AvailabilityZone {
    fn clone(&self) -> (r: Self)
        ensures
            r@ == self@,
    {
        AvailabilityZone(self.0.clone())
    }
}

impl PartialEq for AvailabilityZone {
    fn eq(&self, other: &AvailabilityZone) -> (r: bool)
        ensures
            r == (self@ == other@),
    {
        self.0 == other.0
    }
}

impl vstd::std_specs::cmp::PartialEqSpecImpl for AvailabilityZone {
    open spec fn obeys_eq_spec() -> bool {
        true
    }

    open spec fn eq_spec(&self, other: &AvailabilityZone) -> bool {
        self@ == other@
    }
}

impl Eq for AvailabilityZone {}

/// The id of an instance.
#[derive(Debug)]
pub struct InstanceId(String);

impl View for InstanceId {
    type V = Seq<char>;

    closed spec fn view(&self) -> Seq<char> {
        self.0@
    }
}

impl InstanceId {
    pub fn new(value: String) -> (r: Self)
        ensures
            r@ == value@,
    {
        InstanceId(value)
    }

    pub fn as_str(&self) -> (r: &str)
        ensures
            r@ == self@,
    {
        self.0.as_str()
    }
}

impl Clone for InstanceId {
    fn clone(&self) -> (r: Self)
        ensures
            r@ == self@,
    {
        InstanceId(self.0.clone())
    }
}

impl PartialEq for InstanceId {
    fn eq(&self, other: &InstanceId) -> (r: bool)
        ensures
            r == (self@ == other@),
    {
        self.0 == other.0
    }
}

impl vstd::std_specs::cmp::PartialEqSpecImpl for InstanceId {
    open spec fn obeys_eq_spec() -> bool {
        true
    }

    open spec fn eq_spec(&self, other: &InstanceId) -> bool {
        self@ == other@
    }
}

impl Eq for InstanceId {}

/// The id of a machine image.
#[derive(Debug)]
pub struct AmiId(String);

impl View for AmiId {
    type V = Seq<char>;

    closed spec fn view(&self) -> Seq<char> {
        self.0@
    }
}

impl AmiId {
    pub fn new(value: String) -> (r: Self)
        ensures
            r@ == value@,
    {
        AmiId(value)
    }

    pub fn as_str(&self) -> (r: &str)
        ensures
            r@ == self@,
    {
        self.0.as_str()
    }
}

impl Clone for AmiId {
    fn clone(&self) -> (r: Self)
        ensures
            r@ == self@,
    {
        AmiId(self.0.clone())
    }
}

impl PartialEq for AmiId {
    fn eq(&self, other: &AmiId) -> (r: bool)
        ensures
            r == (self@ == other@),
    {
        self.0 == other.0
    }
}

impl vstd::std_specs::cmp::PartialEqSpecImpl for AmiId {
    open spec fn obeys_eq_spec() -> bool {
        true
    }

    open spec fn eq_spec(&self, other: &AmiId) -> bool {
        self@ == other@
    }
}

impl Eq for AmiId {}

/// The allocation id of an elastic IP.
#[derive(Debug)]
pub struct EipAllocationId(String);

impl View for EipAllocationId {
    type V = Seq<char>;

    closed spec fn view(&self) -> Seq<char> {
        self.0@
    }
}

impl EipAllocationId {
    pub fn new(value: String) -> (r: Self)
        ensures
            r@ == value@,
    {
        EipAllocationId(value)
    }

    pub fn as_str(&self) -> (r: &str)
        ensures
            r@ == self@,
    {
        self.0.as_str()
    }
}

impl Clone for EipAllocationId {
    fn clone(&self) -> (r: Self)
        ensures
            r@ == self@,
    {
        EipAllocationId(self.0.clone())
    }
}

impl PartialEq for EipAllocationId {
    fn eq(&self, other: &EipAllocationId) -> (r: bool)
        ensures
            r == (self@ == other@),
    {
        self.0 == other.0
    }
}

impl vstd::std_specs::cmp::PartialEqSpecImpl for EipAllocationId {
    open spec fn obeys_eq_spec() -> bool {
        true
    }

    open spec fn eq_spec(&self, other: &EipAllocationId) -> bool {
        self@ == other@
    }
}

impl Eq for EipAllocationId {}

/// The id of a CDN distribution.
#[derive(Debug)]
pub struct CloudfrontDistributionId(String);

impl View for CloudfrontDistributionId {
    type V = Seq<char>;

    closed spec fn view(&self) -> Seq<char> {
        self.0@
    }
}

impl CloudfrontDistributionId {
    pub fn new(value: String) -> (r: Self)
        ensures
            r@ == value@,
    {
        CloudfrontDistributionId(value)
    }

    pub fn as_str(&self) -> (r: &str)
        ensures
            r@ == self@,
    {
        self.0.as_str()
    }
}

impl Clone for CloudfrontDistributionId {
    fn clone(&self) -> (r: Self)
        ensures
            r@ == self@,
    {
        CloudfrontDistributionId(self.0.clone())
    }
}

impl PartialEq for CloudfrontDistributionId {
    fn eq(&self, other: &CloudfrontDistributionId) -> (r: bool)
        ensures
            r == (self@ == other@),
    {
        self.0 == other.0
    }
}

impl vstd::std_specs::cmp::PartialEqSpecImpl for CloudfrontDistributionId {
    open spec fn obeys_eq_spec() -> bool {
        true
    }

    open spec fn eq_spec(&self, other: &CloudfrontDistributionId) -> bool {
        self@ == other@
    }
}

impl Eq for CloudfrontDistributionId {}

/// The domain name of a CDN distribution.
#[derive(Debug)]
pub struct CloudfrontDistributionDomain(String);

impl View for CloudfrontDistributionDomain {
    type V = Seq<char>;

    closed spec fn view(&self) -> Seq<char> {
        self.0@
    }
}

impl CloudfrontDistributionDomain {
    pub fn new(value: String) -> (r: Self)
        ensures
            r@ == value@,
    {
        CloudfrontDistributionDomain(value)
    }

    pub fn as_str(&self) -> (r: &str)
        ensures
            r@ == self@,
    {
        self.0.as_str()
    }
}

impl Clone for CloudfrontDistributionDomain {
    fn clone(&self) -> (r: Self)
        ensures
            r@ == self@,
    {
        CloudfrontDistributionDomain(self.0.clone())
    }
}

impl PartialEq for CloudfrontDistributionDomain {
    fn eq(&self, other: &CloudfrontDistributionDomain) -> (r: bool)
        ensures
            r == (self@ == other@),
    {
        self.0 == other.0
    }
}

impl vstd::std_specs::cmp::PartialEqSpecImpl for CloudfrontDistributionDomain {
    open spec fn obeys_eq_spec() -> bool {
        true
    }

    open spec fn eq_spec(&self, other: &CloudfrontDistributionDomain) -> bool {
        self@ == other@
    }
}

impl Eq for CloudfrontDistributionDomain {}

/// The id of a CDN origin.
#[derive(Debug)]
pub struct CloudfrontOriginId(String);

impl View for CloudfrontOriginId {
    type V = Seq<char>;

    closed spec fn view(&self) -> Seq<char> {
        self.0@
    }
}

impl CloudfrontOriginId {
    pub fn new(value: String) -> (r: Self)
        ensures
            r@ == value@,
    {
        CloudfrontOriginId(value)
    }

    pub fn as_str(&self) -> (r: &str)
        ensures
            r@ == self@,
    {
        self.0.as_str()
    }
}

impl Clone for CloudfrontOriginId {
    fn clone(&self) -> (r: Self)
        ensures
            r@ == self@,
    {
        CloudfrontOriginId(self.0.clone())
    }
}

impl PartialEq for CloudfrontOriginId {
    fn eq(&self, other: &CloudfrontOriginId) -> (r: bool)
        ensures
            r == (self@ == other@),
    {
        self.0 == other.0
    }
}

impl vstd::std_specs::cmp::PartialEqSpecImpl for CloudfrontOriginId {
    open spec fn obeys_eq_spec() -> bool {
        true
    }

    open spec fn eq_spec(&self, other: &CloudfrontOriginId) -> bool {
        self@ == other@
    }
}

impl Eq for CloudfrontOriginId {}

/// The domain name of a CDN origin.
#[derive(Debug)]
pub struct CloudfrontOriginDomain(String);

impl View for CloudfrontOriginDomain {
    type V = Seq<char>;

    closed spec fn view(&self) -> Seq<char> {
        self.0@
    }
}

impl CloudfrontOriginDomain {
    pub fn new(value: String) -> (r: Self)
        ensures
            r@ == value@,
    {
        CloudfrontOriginDomain(value)
    }

    pub fn as_str(&self) -> (r: &str)
        ensures
            r@ == self@,
    {
        self.0.as_str()
    }
}

impl Clone for CloudfrontOriginDomain {
    fn clone(&self) -> (r: Self)
        ensures
            r@ == self@,
    {
        CloudfrontOriginDomain(self.0.clone())
    }
}

impl PartialEq for CloudfrontOriginDomain {
    fn eq(&self, other: &CloudfrontOriginDomain) -> (r: bool)
        ensures
            r == (self@ == other@),
    {
        self.0 == other.0
    }
}

impl vstd::std_specs::cmp::PartialEqSpecImpl for CloudfrontOriginDomain {
    open spec fn obeys_eq_spec() -> bool {
        true
    }

    open spec fn eq_spec(&self, other: &CloudfrontOriginDomain) -> bool {
        self@ == other@
    }
}

impl Eq for CloudfrontOriginDomain {}

/// The id of a file system.
#[derive(Debug)]
pub struct EfsId(String);

impl View for EfsId {
    type V = Seq<char>;

    closed spec fn view(&self) -> Seq<char> {
        self.0@
    }
}

impl EfsId {
    pub fn new(value: String) -> (r: Self)
        ensures
            r@ == value@,
    {
        EfsId(value)
    }

    pub fn as_str(&self) -> (r: &str)
        ensures
            r@ == self@,
    {
        self.0.as_str()
    }
}

impl Clone for EfsId {
    fn clone(&self) -> (r: Self)
        ensures
            r@ == self@,
    {
        EfsId(self.0.clone())
    }
}

impl PartialEq for EfsId {
    fn eq(&self, other: &EfsId) -> (r: bool)
        ensures
            r == (self@ == other@),
    {
        self.0 == other.0
    }
}

impl vstd::std_specs::cmp::PartialEqSpecImpl for EfsId {
    open spec fn obeys_eq_spec() -> bool {
        true
    }

    open spec fn eq_spec(&self, other: &EfsId) -> bool {
        self@ == other@
    }
}

impl Eq for EfsId {}

/// The id of a DNS hosted zone.
#[derive(Debug)]
pub struct HostedZoneId(String);

impl View for HostedZoneId {
    type V = Seq<char>;

    closed spec fn view(&self) -> Seq<char> {
        self.0@
    }
}

impl HostedZoneId {
    pub fn new(value: String) -> (r: Self)
        ensures
            r@ == value@,
    {
        HostedZoneId(value)
    }

    pub fn as_str(&self) -> (r: &str)
        ensures
            r@ == self@,
    {
        self.0.as_str()
    }
}

impl Clone for HostedZoneId {
    fn clone(&self) -> (r: Self)
        ensures
            r@ == self@,
    {
        HostedZoneId(self.0.clone())
    }
}

impl PartialEq for HostedZoneId {
    fn eq(&self, other: &HostedZoneId) -> (r: bool)
        ensures
            r == (self@ == other@),
    {
        self.0 == other.0
    }
}

impl vstd::std_specs::cmp::PartialEqSpecImpl for HostedZoneId {
    open spec fn obeys_eq_spec() -> bool {
        true
    }

    open spec fn eq_spec(&self, other: &HostedZoneId) -> bool {
        self@ == other@
    }
}

impl Eq for HostedZoneId {}

/// The name of a credentials profile.
#[derive(Debug)]
pub struct ProfileName(String);

impl View for ProfileName {
    type V = Seq<char>;

    closed spec fn view(&self) -> Seq<char> {
        self.0@
    }
}

impl ProfileName {
    pub fn new(value: String) -> (r: Self)
        ensures
            r@ == value@,
    {
        ProfileName(value)
    }

    pub fn as_str(&self) -> (r: &str)
        ensures
            r@ == self@,
    {
        self.0.as_str()
    }
}

impl Clone for ProfileName {
    fn clone(&self) -> (r: Self)
        ensures
            r@ == self@,
    {
        ProfileName(self.0.clone())
    }
}

impl PartialEq for ProfileName {
    fn eq(&self, other: &ProfileName) -> (r: bool)
        ensures
            r == (self@ == other@),
    {
        self.0 == other.0
    }
}

impl vstd::std_specs::cmp::PartialEqSpecImpl for ProfileName {
    open spec fn obeys_eq_spec() -> bool {
        true
    }

    open spec fn eq_spec(&self, other: &ProfileName) -> bool {
        self@ == other@
    }
}

impl Eq for ProfileName {}

/// The CDN shield location of a region.
#[derive(Debug)]
pub struct ShieldPop(String);

impl View for ShieldPop {
    type V = Seq<char>;

    closed spec fn view(&self) -> Seq<char> {
        self.0@
    }
}

impl ShieldPop {
    pub fn new(value: String) -> (r: Self)
        ensures
            r@ == value@,
    {
        ShieldPop(value)
    }

    pub fn into_string(self) -> (r: String)
        ensures
            r@ == self@,
    {
        self.0
    }
}

impl Clone for ShieldPop {
    fn clone(&self) -> (r: Self)
        ensures
            r@ == self@,
    {
        ShieldPop(self.0.clone())
    }
}

impl PartialEq for ShieldPop {
    fn eq(&self, other: &ShieldPop) -> (r: bool)
        ensures
            r == (self@ == other@),
    {
        self.0 == other.0
    }
}

impl vstd::std_specs::cmp::PartialEqSpecImpl for ShieldPop {
    open spec fn obeys_eq_spec() -> bool {
        true
    }

    open spec fn eq_spec(&self, other: &ShieldPop) -> bool {
        self@ == other@
    }
}

impl Eq for ShieldPop {}

/// An IP address, in its canonical text form.
#[derive(Debug)]
pub struct Ip(String);

impl View for Ip {
    type V = Seq<char>;

    closed spec fn view(&self) -> Seq<char> {
        self.0@
    }
}

impl Ip {
    pub fn new(value: String) -> (r: Self)
        ensures
            r@ == value@,
    {
        Ip(value)
    }

    pub fn into_string(&self) -> (r: String)
        ensures
            r@ == self@,
    {
        self.0.clone()
    }

    pub fn as_str(&self) -> (r: &str)
        ensures
            r@ == self@,
    {
        self.0.as_str()
    }
}

impl Clone for Ip {
    fn clone(&self) -> (r: Self)
        ensures
            r@ == self@,
    {
        Ip(self.0.clone())
    }
}

impl PartialEq for Ip {
    fn eq(&self, other: &Ip) -> (r: bool)
        ensures
            r == (self@ == other@),
    {
        self.0 == other.0
    }
}

impl vstd::std_specs::cmp::PartialEqSpecImpl for Ip {
    open spec fn obeys_eq_spec() -> bool {
        true
    }

    open spec fn eq_spec(&self, other: &Ip) -> bool {
        self@ == other@
    }
}

impl Eq for Ip {}

/// The error is "field was empty", naming `entity`.
pub open spec fn none_error(e: Error, entity: Seq<char>) -> bool {
    e is UnexpectedNoneValue && e->UnexpectedNoneValue_entity@ == entity
}

pub open spec fn tags_decode(tags: Option<Vec<(Option<String>, Option<String>)>>) -> bool {
    tags is Some && tag_list_of_parts(parts_view(tags->Some_0@)) is Ok
}

/// A running or stopped compute instance.
#[derive(Debug)]
pub struct Instance {
    pub tags: TagList,
    /// The instance type, as the service names it.
    pub instance_type: String,
    /// The state, as the service names it.
    pub state: String,
    pub instance_id: InstanceId,
    pub image_id: AmiId,
    pub subnet_id: SubnetId,
    pub public_ip_address: Option<Ip>,
}

impl Instance {
    /// An instance from the service's description, field by field in this order: tags, type,
    /// state, state name, id, image, subnet, public address. The first empty field is the error;
    /// an address that did not parse comes with its message.
    pub fn from_parts(
        tags: Option<Vec<(Option<String>, Option<String>)>>,
        instance_type: Option<String>,
        state: Option<Option<String>>,
        instance_id: Option<String>,
        image_id: Option<String>,
        subnet_id: Option<String>,
        public_ip_address: Option<Result<Ip, String>>,
    ) -> (r: Result<Instance, Error>)
        ensures
            r is Ok <==> (tags_decode(tags) && instance_type is Some && state is Some
                && state->Some_0 is Some && instance_id is Some && image_id is Some
                && subnet_id is Some && (public_ip_address is Some
                ==> public_ip_address->Some_0 is Ok)),
            r is Ok ==> {
                let i = r->Ok_0;
                &&& tag_list_of_parts(parts_view(tags->Some_0@)) == Ok::<
                    Seq<(Seq<char>, Seq<char>)>,
                    crate::tags::error::TagsErrorModel,
                >(i.tags@)
                &&& i.instance_type@ == instance_type->Some_0@
                &&& i.state@ == state->Some_0->Some_0@
                &&& i.instance_id@ == instance_id->Some_0@
                &&& i.image_id@ == image_id->Some_0@
                &&& i.subnet_id@ == subnet_id->Some_0@
                &&& i.public_ip_address is Some <==> public_ip_address is Some
                &&& i.public_ip_address is Some ==> i.public_ip_address->Some_0@
                    == public_ip_address->Some_0->Ok_0@
            },
            tags is None ==> none_error(r->Err_0, "tags"@),
            tags is Some && !tags_decode(tags) ==> r->Err_0 is InvalidTags
                && r->Err_0->InvalidTags_0@ == tag_list_of_parts(parts_view(tags->Some_0@))->Err_0,
            tags_decode(tags) && instance_type is None ==> none_error(r->Err_0, "instance_type"@),
            tags_decode(tags) && instance_type is Some && state is None ==> none_error(
                r->Err_0,
                "state"@,
            ),
            tags_decode(tags) && instance_type is Some && state is Some && state->Some_0 is None
                ==> none_error(r->Err_0, "state.name"@),
            tags_decode(tags) && instance_type is Some && state is Some && state->Some_0 is Some
                && instance_id is None ==> none_error(r->Err_0, "instance_id"@),
            tags_decode(tags) && instance_type is Some && state is Some && state->Some_0 is Some
                && instance_id is Some && image_id is None ==> none_error(r->Err_0, "image_id"@),
            tags_decode(tags) && instance_type is Some && state is Some && state->Some_0 is Some
                && instance_id is Some && image_id is Some && subnet_id is None ==> none_error(
                r->Err_0,
                "subnet_id"@,
            ),
            tags_decode(tags) && instance_type is Some && state is Some && state->Some_0 is Some
                && instance_id is Some && image_id is Some && subnet_id is Some
                && public_ip_address is Some && public_ip_address->Some_0 is Err ==> r->Err_0
                is InvalidResponseError && r->Err_0->InvalidResponseError_message@
                == public_ip_address->Some_0->Err_0@,
    {
        let tags = match tags {
            Some(t) => t,
            None => return Err(none_value("tags")),
        };
        let tags = match TagList::from_service_parts(tags) {
            Ok(t) => t,
            Err(e) => return Err(Error::InvalidTags(e)),
        };
        let instance_type = match instance_type {
            Some(t) => t,
            None => return Err(none_value("instance_type")),
        };
        let state = match state {
            Some(Some(s)) => s,
            Some(None) => return Err(none_value("state.name")),
            None => return Err(none_value("state")),
        };
        let instance_id = match instance_id {
            Some(i) => InstanceId::new(i),
            None => return Err(none_value("instance_id")),
        };
        let image_id = match image_id {
            Some(i) => AmiId::new(i),
            None => return Err(none_value("image_id")),
        };
        let subnet_id = match subnet_id {
            Some(i) => SubnetId::new(i),
            None => return Err(none_value("subnet_id")),
        };
        let public_ip_address = match public_ip_address {
            Some(Ok(ip)) => Some(ip),
            Some(Err(message)) => return Err(Error::InvalidResponseError { message }),
            None => None,
        };
        Ok(
            Instance {
                tags,
                instance_type,
                state,
                instance_id,
                image_id,
                subnet_id,
                public_ip_address,
            },
        )
    }

    pub fn get_tag(&self, key: crate::tags::TagKey) -> (r: Option<&RawTag>)
        ensures
            match r {
                Some(t) => crate::tags::raw::lookup(self.tags@, key@) == Some(t@.1) && t@.0
                    == key@,
                None => crate::tags::raw::lookup(self.tags@, key@) is None,
            },
    {
        let r = self.tags.get(key);
        proof {
            crate::tags::raw::lemma_first_index_of(self.tags@, key@);
        }
        r
    }

    pub fn tags(&self) -> (r: &TagList)
        ensures
            r@ == self.tags@,
    {
        &self.tags
    }

    pub fn instance_type(&self) -> (r: &str)
        ensures
            r@ == self.instance_type@,
    {
        self.instance_type.as_str()
    }

    pub fn state(&self) -> (r: &str)
        ensures
            r@ == self.state@,
    {
        self.state.as_str()
    }

    pub fn instance_id(&self) -> (r: &InstanceId)
        ensures
            r@ == self.instance_id@,
    {
        &self.instance_id
    }

    pub fn image_id(&self) -> (r: &AmiId)
        ensures
            r@ == self.image_id@,
    {
        &self.image_id
    }

    pub fn subnet_id(&self) -> (r: &SubnetId)
        ensures
            r@ == self.subnet_id@,
    {
        &self.subnet_id
    }

    pub fn public_ip_address(&self) -> (r: Option<&Ip>)
        ensures
            r is Some <==> self.public_ip_address is Some,
            r is Some ==> r->Some_0@ == self.public_ip_address->Some_0@,
    {
        match &self.public_ip_address {
            Some(ip) => Some(ip),
            None => None,
        }
    }
}

/// The error of a wait for an instance to stop: running out of time names the instance and
/// the time allowed; any other failure keeps its message.
pub fn stop_wait_error(
    exceeded_max_wait: bool,
    max_wait_secs: u64,
    instance: &InstanceId,
    message: String,
) -> (r: Error)
    ensures
        exceeded_max_wait ==> r is InstanceStopExceededMaxWait
            && r->InstanceStopExceededMaxWait_max_wait_secs == max_wait_secs
            && r->InstanceStopExceededMaxWait_instance@ == instance@,
        !exceeded_max_wait ==> r is WaitError && r->WaitError_message@ == message@,
{
    if exceeded_max_wait {
        Error::InstanceStopExceededMaxWait { max_wait_secs, instance: instance.clone() }
    } else {
        Error::WaitError { message }
    }
}

/// The instance that a launch request returned: the last of the list.
pub fn launched_instance<T>(instances: Option<Vec<T>>) -> (r: Result<T, Error>)
    ensures
        instances is None ==> none_error(r->Err_0, "RunInstancesOutput.instances"@),
        instances is Some && instances->Some_0@.len() == 0 ==> r is Err && r->Err_0
            is RunInstancesEmptyResponse,
        instances is Some && instances->Some_0@.len() > 0 ==> r is Ok && r->Ok_0
            == instances->Some_0@.last(),
{
    match instances {
        None => Err(none_value("RunInstancesOutput.instances")),
        Some(mut v) => match v.pop() {
            Some(i) => Ok(i),
            None => Err(Error::RunInstancesEmptyResponse),
        },
    }
}

/// A security group.
#[derive(Debug, Clone)]
pub struct SecurityGroup {
    pub id: SecurityGroupId,
}

/// A subnet and the zone it lies in.
#[derive(Debug)]
pub struct Subnet {
    pub id: SubnetId,
    pub availability_zone: AvailabilityZone,
}

impl Subnet {
    /// A subnet from the service's description; the id is checked first.
    pub fn from_parts(subnet_id: Option<String>, availability_zone: Option<String>) -> (r: Result<
        Subnet,
        Error,
    >)
        ensures
            r is Ok <==> subnet_id is Some && availability_zone is Some,
            r is Ok ==> r->Ok_0.id@ == subnet_id->Some_0@ && r->Ok_0.availability_zone@
                == availability_zone->Some_0@,
            subnet_id is None ==> none_error(r->Err_0, "subnet_id"@),
            subnet_id is Some && availability_zone is None ==> none_error(
                r->Err_0,
                "availability_zone"@,
            ),
    {
        let id = match subnet_id {
            Some(s) => SubnetId::new(s),
            None => return Err(none_value("subnet_id")),
        };
        let availability_zone = match availability_zone {
            Some(z) => AvailabilityZone::new(z),
            None => return Err(none_value("availability_zone")),
        };
        Ok(Subnet { id, availability_zone })
    }
}

/// The format of an image's creation date.
pub open spec fn creation_date_format() -> Seq<char> {
    "%Y-%m-%dT%H:%M:%S.%.3fZ"@
}

/// What an image's creation date becomes: the time, or the message of the error.
pub open spec fn creation_date_decode(raw: Seq<char>) -> Result<
    (int, int, int, int, int, int),
    Seq<char>,
> {
    match naive_datetime_parse(raw, creation_date_format()) {
        Ok(f) => if timestamp_wf(f) {
            Ok(f)
        } else {
            Err("failed parsing timestamp: year out of range"@)
        },
        Err(m) => Err("failed parsing timestamp: "@ + m),
    }
}

/// A machine image.
#[derive(Debug)]
pub struct Ami {
    pub id: AmiId,
    pub tags: TagList,
    pub creation_date: Timestamp,
}

impl Ami {
    /// An image from the service's description, in this order: id, tags, creation date.
    pub fn from_parts(
        image_id: Option<String>,
        tags: Option<Vec<(Option<String>, Option<String>)>>,
        creation_date: Option<String>,
    ) -> (r: Result<Ami, Error>)
        ensures
            r is Ok <==> image_id is Some && tags_decode(tags) && creation_date is Some
                && creation_date_decode(creation_date->Some_0@) is Ok,
            r is Ok ==> r->Ok_0.id@ == image_id->Some_0@ && tag_list_of_parts(
                parts_view(tags->Some_0@),
            ) == Ok::<Seq<(Seq<char>, Seq<char>)>, crate::tags::error::TagsErrorModel>(
                r->Ok_0.tags@,
            ) && creation_date_decode(creation_date->Some_0@) == Ok::<
                (int, int, int, int, int, int),
                Seq<char>,
            >(r->Ok_0.creation_date@),
            image_id is None ==> none_error(r->Err_0, "image_id"@),
            image_id is Some && tags is None ==> none_error(r->Err_0, "tags"@),
            image_id is Some && tags is Some && !tags_decode(tags) ==> r->Err_0 is InvalidTags
                && r->Err_0->InvalidTags_0@ == tag_list_of_parts(parts_view(tags->Some_0@))->Err_0,
            image_id is Some && tags_decode(tags) && creation_date is None ==> none_error(
                r->Err_0,
                "creation_date"@,
            ),
            image_id is Some && tags_decode(tags) && creation_date is Some && creation_date_decode(
                creation_date->Some_0@,
            ) is Err ==> r->Err_0 is InvalidTimestampError
                && r->Err_0->InvalidTimestampError_value@ == creation_date->Some_0@
                && r->Err_0->InvalidTimestampError_message@ == creation_date_decode(
                creation_date->Some_0@,
            )->Err_0,
    {
        let id = match image_id {
            Some(i) => AmiId::new(i),
            None => return Err(none_value("image_id")),
        };
        let tags = match tags {
            Some(t) => t,
            None => return Err(none_value("tags")),
        };
        let tags = match TagList::from_service_parts(tags) {
            Ok(t) => t,
            Err(e) => return Err(Error::InvalidTags(e)),
        };
        let value = match creation_date {
            Some(d) => d,
            None => return Err(none_value("creation_date")),
        };
        match parse_naive_datetime(value.as_str(), "%Y-%m-%dT%H:%M:%S.%.3fZ") {
            Ok(f) => {
                let t = if f.0 >= 0 {
                    Timestamp::new(f.0 as u32, f.1, f.2, f.3, f.4, f.5)
                } else {
                    None
                };
                match t {
                    Some(creation_date) => Ok(Ami { id, tags, creation_date }),
                    None => Err(
                        Error::InvalidTimestampError {
                            value,
                            message: "failed parsing timestamp: year out of range".to_owned(),
                        },
                    ),
                }
            },
            Err(m) => {
                let mut message = "failed parsing timestamp: ".to_owned();
                message.append(m.as_str());
                Err(Error::InvalidTimestampError { value, message })
            },
        }
    }
}

/// An elastic IP address.
#[derive(Debug)]
pub struct Eip {
    pub allocation_id: EipAllocationId,
    pub ip: Ip,
    pub associated_instance: Option<InstanceId>,
}

impl Eip {
    /// An address from the service's description, in this order: the public address (which
    /// may have failed to parse, with its message), then the allocation id.
    pub fn from_parts(
        public_ip: Option<Result<Ip, String>>,
        instance_id: Option<String>,
        allocation_id: Option<String>,
    ) -> (r: Result<Eip, Error>)
        ensures
            r is Ok <==> public_ip is Some && public_ip->Some_0 is Ok && allocation_id is Some,
            r is Ok ==> r->Ok_0.ip@ == public_ip->Some_0->Ok_0@ && r->Ok_0.allocation_id@
                == allocation_id->Some_0@ && (r->Ok_0.associated_instance is Some
                <==> instance_id is Some) && (instance_id is Some
                ==> r->Ok_0.associated_instance->Some_0@ == instance_id->Some_0@),
            public_ip is None ==> none_error(r->Err_0, "public_ip"@),
            public_ip is Some && public_ip->Some_0 is Err ==> r->Err_0 is InvalidResponseError
                && r->Err_0->InvalidResponseError_message@ == public_ip->Some_0->Err_0@,
            public_ip is Some && public_ip->Some_0 is Ok && allocation_id is None ==> none_error(
                r->Err_0,
                "allocation_id"@,
            ),
    {
        let ip = match public_ip {
            Some(Ok(ip)) => ip,
            Some(Err(message)) => return Err(Error::InvalidResponseError { message }),
            None => return Err(none_value("public_ip")),
        };
        let associated_instance = match instance_id {
            Some(i) => Some(InstanceId::new(i)),
            None => None,
        };
        let allocation_id = match allocation_id {
            Some(a) => EipAllocationId::new(a),
            None => return Err(none_value("allocation_id")),
        };
        Ok(Eip { allocation_id, ip, associated_instance })
    }
}

/// The deployment status of a CDN distribution.
#[derive(Debug)]
pub enum CloudfrontDistributionStatus {
    Deployed,
    Other(String),
}

impl CloudfrontDistributionStatus {
    /// `Deployed` is recognised; anything else is kept as it is.
    pub fn from_string(value: String) -> (r: Self)
        ensures
            value@ == "Deployed"@ ==> r is Deployed,
            value@ != "Deployed"@ ==> r is Other && r->Other_0@ == value@,
    {
        if value == "Deployed".to_owned() {
            CloudfrontDistributionStatus::Deployed
        } else {
            CloudfrontDistributionStatus::Other(value)
        }
    }

    /// The status as text: `deployed`, or the status the service reported.
    pub fn to_text(&self) -> (r: String)
        ensures
            self is Deployed ==> r@ == "deployed"@,
            self is Other ==> r@ == self->Other_0@,
    {
        match self {
            CloudfrontDistributionStatus::Deployed => "deployed".to_owned(),
            CloudfrontDistributionStatus::Other(s) => s.clone(),
        }
    }
}

/// A file system in a region.
#[derive(Debug)]
pub struct Efs {
    pub id: EfsId,
    pub region: Region,
}

/// The DNS name of a file system.
pub open spec fn efs_dns_name(id: Seq<char>, region: Region) -> Seq<char> {
    id + ".efs."@ + region_name(region) + ".amazonaws.com"@
}

impl Efs {
    pub fn new(id: String, region: Region) -> (r: Self)
        ensures
            r.id@ == id@,
            r.region == region,
    {
        Efs { id: EfsId::new(id), region }
    }

    pub fn fs_dns_name(&self) -> (r: String)
        ensures
            r@ == efs_dns_name(self.id@, self.region),
    {
        let mut s = self.id.as_str().to_owned();
        s.append(".efs.");
        s.append(self.region.as_str());
        s.append(".amazonaws.com");
        s
    }

    /// The one file system found: none, one, or the error that there were several.
    pub fn select_single(found: Vec<Efs>) -> (r: Result<Option<Efs>, Error>)
        ensures
            found@.len() == 0 ==> r is Ok && r->Ok_0 is None,
            found@.len() == 1 ==> r is Ok && r->Ok_0 == Some(found@[0]),
            found@.len() > 1 ==> r is Err && r->Err_0 is MultipleMatches
                && r->Err_0->MultipleMatches_entity@ == "efs"@,
    {
        let mut found = found;
        if found.len() > 1 {
            return Err(Error::MultipleMatches { entity: "efs".to_owned() });
        }
        Ok(found.pop())
    }
}

/// Whether a file system's tags hold exactly the given tag.
pub fn efs_carries_tag(tags: &Vec<(String, String)>, tag: &RawTag) -> (r: bool)
    ensures
        r == exists|i: int|
            0 <= i < tags@.len() && (#[trigger] tags@[i]).0@ == tag@.0 && tags@[i].1@ == tag@.1,
{
    let mut i: usize = 0;
    while i < tags.len()
        invariant
            0 <= i <= tags@.len(),
            forall|j: int|
                0 <= j < i ==> !((#[trigger] tags@[j]).0@ == tag@.0 && tags@[j].1@ == tag@.1),
        decreases tags@.len() - i,
    {
        if tags[i].0 == tag.key.0 && tags[i].1 == tag.value.0 {
            return true;
        }
        i += 1;
    }
    false
}

/// An origin of a CDN distribution.
#[derive(Debug)]
pub struct CloudfrontOrigin {
    pub id: CloudfrontOriginId,
    pub domain: CloudfrontOriginDomain,
}

impl CloudfrontOrigin {
    pub fn new(id: String, domain: String) -> (r: Self)
        ensures
            r.id@ == id@,
            r.domain@ == domain@,
    {
        CloudfrontOrigin { id: CloudfrontOriginId::new(id), domain: CloudfrontOriginDomain::new(domain) }
    }

    pub fn id(&self) -> (r: &CloudfrontOriginId)
        ensures
            r@ == self.id@,
    {
        &self.id
    }
}

/// A CDN distribution.
#[derive(Debug)]
pub struct CloudfrontDistribution {
    pub id: CloudfrontDistributionId,
    pub status: CloudfrontDistributionStatus,
    pub domain: CloudfrontDistributionDomain,
    pub origins: Vec<CloudfrontOrigin>,
}

impl CloudfrontDistribution {
    /// A distribution from the service's summary; no origin list means no origins.
    pub fn from_parts(
        id: String,
        status: String,
        domain: String,
        origins: Option<Vec<(String, String)>>,
    ) -> (r: Self)
        ensures
            r.id@ == id@,
            status@ == "Deployed"@ ==> r.status is Deployed,
            status@ != "Deployed"@ ==> r.status is Other && r.status->Other_0@ == status@,
            r.domain@ == domain@,
            origins is None ==> r.origins@.len() == 0,
            origins is Some ==> r.origins@.len() == origins->Some_0@.len() && forall|i: int|
                0 <= i < r.origins@.len() ==> (#[trigger] r.origins@[i]).id@
                    == origins->Some_0@[i].0@ && r.origins@[i].domain@ == origins->Some_0@[i].1@,
    {
        let mut list: Vec<CloudfrontOrigin> = Vec::new();
        match origins {
            None => {},
            Some(items) => {
                let mut i: usize = 0;
                while i < items.len()
                    invariant
                        0 <= i <= items@.len(),
                        list@.len() == i,
                        forall|j: int|
                            0 <= j < i ==> (#[trigger] list@[j]).id@ == items@[j].0@ && list@[j].domain@
                                == items@[j].1@,
                    decreases items@.len() - i,
                {
                    list.push(CloudfrontOrigin::new(items[i].0.clone(), items[i].1.clone()));
                    i += 1;
                }
            },
        }
        CloudfrontDistribution {
            id: CloudfrontDistributionId::new(id),
            status: CloudfrontDistributionStatus::from_string(status),
            domain: CloudfrontDistributionDomain::new(domain),
            origins: list,
        }
    }

    pub fn origins(&self) -> (r: &[CloudfrontOrigin])
        ensures
            r@ == self.origins@,
    {
        self.origins.as_slice()
    }

    pub fn domain(&self) -> (r: &CloudfrontDistributionDomain)
        ensures
            r@ == self.domain@,
    {
        &self.domain
    }

    pub fn status(&self) -> (r: &CloudfrontDistributionStatus)
        ensures
            r == &self.status,
    {
        &self.status
    }
}

/// The credentials profiles to use: one for the main services, one for the CDN.
#[derive(Debug, Clone)]
pub struct ProfileConfig {
    pub profile_name_main: ProfileName,
    pub profile_name_cdn: ProfileName,
}

/// An account.
#[derive(Debug, Clone)]
pub struct Account {
    id: String,
}

impl View for Account {
    type V = Seq<char>;

    closed spec fn view(&self) -> Seq<char> {
        self.id@
    }
}

impl Account {
    pub fn new(id: String) -> (r: Self)
        ensures
            r@ == id@,
    {
        Account { id }
    }

    pub fn id(&self) -> (r: &str)
        ensures
            r@ == self@,
    {
        self.id.as_str()
    }
}

/// A DNS hosted zone.
#[derive(Debug)]
pub struct Route53Zone {
    pub hosted_zone_id: HostedZoneId,
    pub name: String,
}

impl Route53Zone {
    pub fn new(name: String, hosted_zone_id: HostedZoneId) -> (r: Self)
        ensures
            r.name@ == name@,
            r.hosted_zone_id@ == hosted_zone_id@,
    {
        Route53Zone { hosted_zone_id, name }
    }

    /// The first zone of the list with exactly the given name.
    pub fn first_named(zones: Vec<Route53Zone>, name: &str) -> (r: Option<Route53Zone>)
        ensures
            match r {
                Some(z) => exists|i: int|
                    0 <= i < zones@.len() && z == zones@[i] && zones@[i].name@ == name@
                        && forall|j: int| 0 <= j < i ==> (#[trigger] zones@[j]).name@ != name@,
                None => forall|j: int| 0 <= j < zones@.len() ==> (#[trigger] zones@[j]).name@ != name@,
            },
    {
        let wanted = name.to_owned();
        let mut rest = zones;
        let ghost all = rest@;
        let ghost n = all.len();
        let mut rev: Vec<Route53Zone> = Vec::new();
        while rest.len() > 0
            invariant
                rest@.len() + rev@.len() == n,
                n == all.len(),
                all == zones@,
                forall|j: int| 0 <= j < rest@.len() ==> #[trigger] rest@[j] == all[j],
                forall|j: int| 0 <= j < rev@.len() ==> #[trigger] rev@[j] == all[n - 1 - j],
            decreases rest@.len(),
        {
            let z = rest.pop().unwrap();
            rev.push(z);
        }
        let ghost seen: int = 0;
        while rev.len() > 0
            invariant
                seen + rev@.len() == n,
                0 <= seen,
                n == all.len(),
                all == zones@,
                wanted@ == name@,
                forall|j: int| 0 <= j < rev@.len() ==> #[trigger] rev@[j] == all[n - 1 - j],
                forall|j: int| 0 <= j < seen ==> (#[trigger] all[j]).name@ != name@,
            decreases rev@.len(),
        {
            let z = rev.pop().unwrap();
            assert(z == all[seen]);
            if z.name == wanted {
                assert(0 <= seen < zones@.len() && z == zones@[seen] && zones@[seen].name@ == name@
                    && forall|j: int| 0 <= j < seen ==> (#[trigger] zones@[j]).name@ != name@);
                return Some(z);
            }
            proof {
                seen = seen + 1;
            }
        }
        None
    }
}

/// One parameter of a stack.
#[derive(Debug)]
pub struct CloudformationParameter {
    pub key: String,
    pub value: String,
}

impl CloudformationParameter {
    pub fn new(key: String, value: String) -> (r: Self)
        ensures
            r.key@ == key@,
            r.value@ == value@,
    {
        CloudformationParameter { key, value }
    }
}

/// The parameters of a stack, in order.
#[derive(Debug)]
pub struct CloudformationParameters(pub Vec<CloudformationParameter>);

impl CloudformationParameters {
    pub fn new(value: Vec<CloudformationParameter>) -> (r: Self)
        ensures
            r.0@ == value@,
    {
        CloudformationParameters(value)
    }
}

} // verus!
