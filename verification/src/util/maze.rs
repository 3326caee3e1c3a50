//! Settings of the S3 bucket that holds the song and cover art files.

use vstd::prelude::*;

verus! {

/// The variable that holds the bucket's endpoint URL.
pub const S3_ENDPOINT_URL: &'static str = "S3_ENDPOINT_URL";

/// The variable that holds the bucket's name.
pub const S3_BUCKET_NAME: &'static str = "S3_BUCKET_NAME";

/// The variable that holds the bucket's region.
pub const GARAGE_S3_REGION: &'static str = "GARAGE_S3_REGION";

/// The variable that holds the access key id.
pub const GARAGE_DEFAULT_ACCESS_KEY: &'static str = "GARAGE_DEFAULT_ACCESS_KEY";

/// The variable that holds the secret key.
pub const GARAGE_DEFAULT_SECRET_KEY: &'static str = "GARAGE_DEFAULT_SECRET_KEY";

/// Where the bucket is and how to sign in to it.
#[derive(Debug)]
pub struct StorageConfig {
    pub url: String,
    pub bucket: String,
    pub region: String,
    pub access_key_id: String,
    pub secret_key: String,
}

/// The configuration made of the values of [`S3_ENDPOINT_URL`],
/// [`S3_BUCKET_NAME`], [`GARAGE_S3_REGION`], [`GARAGE_DEFAULT_ACCESS_KEY`]
/// and [`GARAGE_DEFAULT_SECRET_KEY`], in that order.
pub fn storage_config(
    s3_endpoint_url: String,
    bucket_name: String,
    region: String,
    access_key_id: String,
    secret_key: String,
) -> (config: StorageConfig)
    ensures
        config.url@ == s3_endpoint_url@,
        config.bucket@ == bucket_name@,
        config.region@ == region@,
        config.access_key_id@ == access_key_id@,
        config.secret_key@ == secret_key@,
{
    StorageConfig {
        url: s3_endpoint_url,
        bucket: bucket_name,
        region,
        access_key_id,
        secret_key,
    }
}

} // verus!
