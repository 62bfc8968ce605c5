use vstd::prelude::*;

verus! {

/// The AWS regions this library can address.
#[derive(Debug, Clone, Copy)]
pub enum Region {
    UsEast1,
    UsWest1,
    UsWest2,
    EuWest1,
    EuCentral1,
    ApSoutheast1,
    ApNortheast1,
    ApSoutheast2,
    SaEast1,
}

/// The identifier AWS uses for a region in endpoints and signatures.
pub open spec fn region_name(region: Region) -> Seq<char> {
    match region {
        Region::UsEast1 => "us-east-1"@,
        Region::UsWest1 => "us-west-1"@,
        Region::UsWest2 => "us-west-2"@,
        Region::EuWest1 => "eu-west-1"@,
        Region::EuCentral1 => "eu-central-1"@,
        Region::ApSoutheast1 => "ap-southeast-1"@,
        Region::ApNortheast1 => "ap-northeast-1"@,
        Region::ApSoutheast2 => "ap-southeast-2"@,
        Region::SaEast1 => "sa-east-1"@,
    }
}

/// Returns the AWS identifier of `region`, such as `us-east-1`.
pub fn region_in_aws_format(region: Region) -> (name: String)
    ensures
        name@ == region_name(region),
{
    match region {
        Region::UsEast1 => "us-east-1".to_string(),
        Region::UsWest1 => "us-west-1".to_string(),
        Region::UsWest2 => "us-west-2".to_string(),
        Region::EuWest1 => "eu-west-1".to_string(),
        Region::EuCentral1 => "eu-central-1".to_string(),
        Region::ApSoutheast1 => "ap-southeast-1".to_string(),
        Region::ApNortheast1 => "ap-northeast-1".to_string(),
        Region::ApSoutheast2 => "ap-southeast-2".to_string(),
        Region::SaEast1 => "sa-east-1".to_string(),
    }
}

/// Two different regions never share an identifier, so the identifier
/// names the region uniquely.
pub proof fn lemma_region_names_distinct(a: Region, b: Region)
    requires
        a != b,
    ensures
        region_name(a) != region_name(b),
{
    reveal_strlit("us-east-1");
    reveal_strlit("us-west-1");
    reveal_strlit("us-west-2");
    reveal_strlit("eu-west-1");
    reveal_strlit("eu-central-1");
    reveal_strlit("ap-southeast-1");
    reveal_strlit("ap-northeast-1");
    reveal_strlit("ap-southeast-2");
    reveal_strlit("sa-east-1");
    let (na, nb) = (region_name(a), region_name(b));
    if na == nb {
        // The length, the first and fourth characters and the last one
        // already tell every pair of regions apart.
        assert(na.len() == nb.len());
        assert(na[0] == nb[0]);
        assert(na[3] == nb[3]);
        assert(na[na.len() - 1] == nb[nb.len() - 1]);
        assert(a == b);
    }
}

} // verus!
