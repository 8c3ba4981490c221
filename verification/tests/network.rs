use rustclipsync::network::endpoint;

#[test]
fn joins_server_url_and_path() {
    assert_eq!(
        endpoint("http://127.0.0.1:7878", "/push"),
        "http://127.0.0.1:7878/push"
    );
    assert_eq!(
        endpoint("http://127.0.0.1:7878/", "/pull"),
        "http://127.0.0.1:7878/pull"
    );
}

#[test]
fn every_trailing_slash_is_dropped() {
    assert_eq!(endpoint("http://host///", "/push"), "http://host/push");
    assert_eq!(endpoint("///", "/push"), "/push");
    assert_eq!(endpoint("", "/push"), "/push");
}
