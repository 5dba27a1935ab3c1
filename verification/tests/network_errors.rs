use light_engine::task::{classify_network_error, get_network_error_kind, NetworkErrorKind};

#[test]
fn classification_follows_the_order_of_the_predicates() {
    assert_eq!(classify_network_error(true, true, true, true, true, true), NetworkErrorKind::Body);
    assert_eq!(classify_network_error(false, true, true, false, false, true), NetworkErrorKind::Builder);
    assert_eq!(classify_network_error(false, false, true, true, false, false), NetworkErrorKind::Connect);
    assert_eq!(classify_network_error(false, false, false, true, true, false), NetworkErrorKind::Decode);
    assert_eq!(classify_network_error(false, false, false, false, true, true), NetworkErrorKind::Redirect);
    assert_eq!(classify_network_error(false, false, false, false, false, true), NetworkErrorKind::Request);
    assert_eq!(classify_network_error(false, false, false, false, false, false), NetworkErrorKind::Unknown);
}

#[test]
fn a_malformed_url_is_a_builder_error() {
    let err = reqwest::Client::new().get("not a url").build().unwrap_err();
    assert_eq!(get_network_error_kind(&err), NetworkErrorKind::Builder);
}
