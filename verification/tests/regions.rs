use rusoto::{region_in_aws_format, Region};

const ALL: [Region; 9] = [
    Region::UsEast1,
    Region::UsWest1,
    Region::UsWest2,
    Region::EuWest1,
    Region::EuCentral1,
    Region::ApSoutheast1,
    Region::ApNortheast1,
    Region::ApSoutheast2,
    Region::SaEast1,
];

#[test]
fn each_region_has_its_aws_identifier() {
    assert_eq!(region_in_aws_format(Region::UsEast1), "us-east-1");
    assert_eq!(region_in_aws_format(Region::UsWest1), "us-west-1");
    assert_eq!(region_in_aws_format(Region::UsWest2), "us-west-2");
    assert_eq!(region_in_aws_format(Region::EuWest1), "eu-west-1");
    assert_eq!(region_in_aws_format(Region::EuCentral1), "eu-central-1");
    assert_eq!(region_in_aws_format(Region::ApSoutheast1), "ap-southeast-1");
    assert_eq!(region_in_aws_format(Region::ApNortheast1), "ap-northeast-1");
    assert_eq!(region_in_aws_format(Region::ApSoutheast2), "ap-southeast-2");
    assert_eq!(region_in_aws_format(Region::SaEast1), "sa-east-1");
}

#[test]
fn distinct_regions_have_distinct_identifiers() {
    for (i, a) in ALL.iter().enumerate() {
        for (j, b) in ALL.iter().enumerate() {
            let same = region_in_aws_format(*a) == region_in_aws_format(*b);
            assert_eq!(same, i == j);
        }
    }
}

#[test]
fn region_is_copy_and_debug() {
    let r = Region::EuCentral1;
    let s = r;
    assert_eq!(format!("{:?}", r), "EuCentral1");
    assert_eq!(region_in_aws_format(s), region_in_aws_format(r));
}
