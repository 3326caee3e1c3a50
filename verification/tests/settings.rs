use soaricarus_api::db::connection_settings::MAXCONN;
use soaricarus_api::util::maze::{
    storage_config, GARAGE_DEFAULT_ACCESS_KEY, GARAGE_DEFAULT_SECRET_KEY, GARAGE_S3_REGION,
    S3_BUCKET_NAME, S3_ENDPOINT_URL,
};

#[test]
fn pool_keeps_ten_connections() {
    assert_eq!(MAXCONN, 10);
}

#[test]
fn storage_config_takes_the_values_in_order() {
    let config = storage_config(
        "http://garage:3900".to_string(),
        "songs".to_string(),
        "garage".to_string(),
        "GK0123".to_string(),
        "secret".to_string(),
    );
    assert_eq!(config.url, "http://garage:3900");
    assert_eq!(config.bucket, "songs");
    assert_eq!(config.region, "garage");
    assert_eq!(config.access_key_id, "GK0123");
    assert_eq!(config.secret_key, "secret");
}

#[test]
fn storage_variables_are_named_as_documented() {
    assert_eq!(S3_ENDPOINT_URL, "S3_ENDPOINT_URL");
    assert_eq!(S3_BUCKET_NAME, "S3_BUCKET_NAME");
    assert_eq!(GARAGE_S3_REGION, "GARAGE_S3_REGION");
    assert_eq!(GARAGE_DEFAULT_ACCESS_KEY, "GARAGE_DEFAULT_ACCESS_KEY");
    assert_eq!(GARAGE_DEFAULT_SECRET_KEY, "GARAGE_DEFAULT_SECRET_KEY");
}
