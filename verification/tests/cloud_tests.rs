use controller::cloud::{
    bearer_token, check_load_status, check_username, config_endpoint, first_config,
    upsert_preference, username_filter, CloudError,
};

#[test]
fn endpoint_from_url() {
    assert_eq!(
        config_endpoint("https://example.supabase.co"),
        Ok("https://example.supabase.co/rest/v1/configs".to_string())
    );
    assert_eq!(
        config_endpoint("https://example.supabase.co///"),
        Ok("https://example.supabase.co/rest/v1/configs".to_string())
    );
    assert_eq!(config_endpoint("https://a/b/"), Ok("https://a/b/rest/v1/configs".to_string()));
    assert_eq!(config_endpoint(""), Err(CloudError::EmptyUrl));
    assert_eq!(config_endpoint("///"), Err(CloudError::EmptyUrl));
}

#[test]
fn request_parts() {
    assert_eq!(check_username(""), Err(CloudError::EmptyUsername));
    assert_eq!(check_username("player"), Ok(()));
    assert_eq!(username_filter("player"), "eq.player");
    assert_eq!(bearer_token("abc"), "Bearer abc");
    assert_eq!(check_load_status(404), Err(CloudError::EndpointNotFound));
    assert_eq!(check_load_status(200), Ok(()));
}

#[test]
fn first_row_wins() {
    assert_eq!(first_config(vec![3, 4]), Ok(3));
    assert_eq!(first_config::<u8>(vec![]), Err(CloudError::NoConfigFound));
}

#[test]
fn save_asks_for_an_upsert() {
    assert_eq!(upsert_preference(), "resolution=merge-duplicates,return=minimal");
}
