use aws_lib::resources::{efs_carries_tag, launched_instance, stop_wait_error};
use aws_lib::tags::{ParseTagsError, RawTag, TagKey};
use aws_lib::{
    Ami, CloudfrontDistribution, CloudfrontDistributionStatus, Efs, Eip, Error, HostedZoneId,
    Instance, InstanceId, Ip, Region, Route53Zone, Subnet,
};

#[test]
fn region_names() {
    assert_eq!(Region::EuCentral1.as_str(), "eu-central-1");
    assert_eq!(Region::UsEast1.as_str(), "us-east-1");
    assert_eq!(Region::all().len(), 2);
    assert_eq!(Region::UsEast1.cdn_shield_pop().into_string(), "us-east-1");
}

#[test]
fn efs_dns_name_and_selection() {
    let efs = Efs::new("fs-123".to_owned(), Region::EuCentral1);
    assert_eq!(efs.fs_dns_name(), "fs-123.efs.eu-central-1.amazonaws.com");
    assert!(Efs::select_single(vec![]).unwrap().is_none());
    assert_eq!(
        Efs::select_single(vec![Efs::new("a".to_owned(), Region::UsEast1)])
            .unwrap()
            .unwrap()
            .id
            .as_str(),
        "a"
    );
    match Efs::select_single(vec![
        Efs::new("a".to_owned(), Region::UsEast1),
        Efs::new("b".to_owned(), Region::UsEast1),
    ]) {
        Err(Error::MultipleMatches { entity }) => assert_eq!(entity, "efs"),
        other => panic!("unexpected {other:?}"),
    }
    let tag = RawTag::new("k".to_owned(), "v".to_owned());
    assert!(efs_carries_tag(&vec![("x".to_owned(), "y".to_owned()), ("k".to_owned(), "v".to_owned())], &tag));
    assert!(!efs_carries_tag(&vec![("k".to_owned(), "w".to_owned())], &tag));
}

fn parts(pairs: &[(&str, &str)]) -> Vec<(Option<String>, Option<String>)> {
    pairs
        .iter()
        .map(|(k, v)| (Some((*k).to_owned()), Some((*v).to_owned())))
        .collect()
}

#[test]
fn instance_from_parts() {
    let i = Instance::from_parts(
        Some(parts(&[("Name", "web")])),
        Some("t3.micro".to_owned()),
        Some(Some("running".to_owned())),
        Some("i-1".to_owned()),
        Some("ami-1".to_owned()),
        Some("subnet-1".to_owned()),
        Some(Ok(Ip::new("10.0.0.1".to_owned()))),
    )
    .unwrap();
    assert_eq!(i.get_tag(TagKey::new("Name".to_owned())).unwrap().value().as_str(), "web");
    assert_eq!(i.instance_type(), "t3.micro");
    assert_eq!(i.state(), "running");
    assert_eq!(i.instance_id().as_str(), "i-1");
    assert_eq!(i.image_id().as_str(), "ami-1");
    assert_eq!(i.subnet_id().as_str(), "subnet-1");
    assert_eq!(i.public_ip_address().unwrap().into_string(), "10.0.0.1");
    assert_eq!(i.tags().len(), 1);

    let missing_state_name = Instance::from_parts(
        Some(parts(&[])),
        Some("t3.micro".to_owned()),
        Some(None),
        None,
        None,
        None,
        None,
    );
    match missing_state_name {
        Err(Error::UnexpectedNoneValue { entity }) => assert_eq!(entity, "state.name"),
        other => panic!("unexpected {other:?}"),
    }
    let bad_tags = Instance::from_parts(
        Some(vec![(Some("k".to_owned()), None)]),
        None,
        None,
        None,
        None,
        None,
        None,
    );
    assert!(matches!(bad_tags, Err(Error::InvalidTags(ParseTagsError::ParseTag(_)))));
    let bad_ip = Instance::from_parts(
        Some(parts(&[])),
        Some("t".to_owned()),
        Some(Some("s".to_owned())),
        Some("i".to_owned()),
        Some("a".to_owned()),
        Some("n".to_owned()),
        Some(Err("invalid IP address syntax".to_owned())),
    );
    match bad_ip {
        Err(Error::InvalidResponseError { message }) => assert_eq!(message, "invalid IP address syntax"),
        other => panic!("unexpected {other:?}"),
    }
}

#[test]
fn subnet_eip_and_launch_results() {
    let s = Subnet::from_parts(Some("subnet-1".to_owned()), Some("eu-central-1a".to_owned())).unwrap();
    assert_eq!(s.id.as_str(), "subnet-1");
    match Subnet::from_parts(Some("subnet-1".to_owned()), None) {
        Err(Error::UnexpectedNoneValue { entity }) => assert_eq!(entity, "availability_zone"),
        other => panic!("unexpected {other:?}"),
    }
    let e = Eip::from_parts(Some(Ok(Ip::new("1.2.3.4".to_owned()))), None, Some("eipalloc-1".to_owned())).unwrap();
    assert_eq!(e.allocation_id.as_str(), "eipalloc-1");
    assert!(e.associated_instance.is_none());
    match Eip::from_parts(None, None, None) {
        Err(Error::UnexpectedNoneValue { entity }) => assert_eq!(entity, "public_ip"),
        other => panic!("unexpected {other:?}"),
    }
    assert_eq!(launched_instance(Some(vec![1, 2, 3])).unwrap(), 3);
    assert!(matches!(launched_instance::<u8>(Some(vec![])), Err(Error::RunInstancesEmptyResponse)));
    match launched_instance::<u8>(None) {
        Err(Error::UnexpectedNoneValue { entity }) => assert_eq!(entity, "RunInstancesOutput.instances"),
        other => panic!("unexpected {other:?}"),
    }
    let id = InstanceId::new("i-9".to_owned());
    match stop_wait_error(true, 30, &id, String::new()) {
        Error::InstanceStopExceededMaxWait { max_wait_secs, instance } => {
            assert_eq!(max_wait_secs, 30);
            assert_eq!(instance.as_str(), "i-9");
        }
        other => panic!("unexpected {other:?}"),
    }
}

#[test]
fn ami_creation_date() {
    match Ami::from_parts(Some("ami-1".to_owned()), Some(vec![]), Some("not a date".to_owned())) {
        Err(Error::InvalidTimestampError { value, message }) => {
            assert_eq!(value, "not a date");
            assert!(message.starts_with("failed parsing timestamp: "));
        }
        other => panic!("unexpected {other:?}"),
    }
    match Ami::from_parts(Some("ami-1".to_owned()), None, None) {
        Err(Error::UnexpectedNoneValue { entity }) => assert_eq!(entity, "tags"),
        other => panic!("unexpected {other:?}"),
    }
}

#[test]
fn cloudfront_distribution_from_parts() {
    let d = CloudfrontDistribution::from_parts(
        "E1".to_owned(),
        "Deployed".to_owned(),
        "d1.cloudfront.net".to_owned(),
        Some(vec![("o1".to_owned(), "origin.example.com".to_owned())]),
    );
    assert!(matches!(d.status(), CloudfrontDistributionStatus::Deployed));
    assert_eq!(d.status().to_text(), "deployed");
    assert_eq!(d.domain().as_str(), "d1.cloudfront.net");
    assert_eq!(d.origins().len(), 1);
    assert_eq!(d.origins()[0].id().as_str(), "o1");
    assert_eq!(d.origins()[0].domain.as_str(), "origin.example.com");
    let p = CloudfrontDistributionStatus::from_string("InProgress".to_owned());
    assert_eq!(p.to_text(), "InProgress");
    let none = CloudfrontDistribution::from_parts("E2".to_owned(), "x".to_owned(), "d".to_owned(), None);
    assert!(none.origins().is_empty());
}

#[test]
fn route53_first_named_zone() {
    let zones = vec![
        Route53Zone::new("a.example.".to_owned(), HostedZoneId::new("Z1".to_owned())),
        Route53Zone::new("b.example.".to_owned(), HostedZoneId::new("Z2".to_owned())),
        Route53Zone::new("b.example.".to_owned(), HostedZoneId::new("Z3".to_owned())),
    ];
    let z = Route53Zone::first_named(zones, "b.example.").unwrap();
    assert_eq!(z.hosted_zone_id.as_str(), "Z2");
    assert!(Route53Zone::first_named(vec![], "x").is_none());
}
