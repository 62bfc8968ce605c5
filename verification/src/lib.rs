//! Core types of an AWS client: credentials, error values and regions.
mod credentials;
mod error;
mod regions;

pub use credentials::Credentials;
pub use error::AWSError;
pub use regions::{region_in_aws_format, region_name, lemma_region_names_distinct, Region};
pub use error::AWSResult;
