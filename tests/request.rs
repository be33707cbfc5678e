use kube_reflector::request::{ListParams, RequestBuilder, RequestError};

fn pods() -> RequestBuilder {
    RequestBuilder { url_path: "/api/v1/namespaces/ns/pods".to_string() }
}

#[test]
fn list_uri_without_filters() {
    let uri = pods().list_with_version_uri(&ListParams::default(), "0");
    assert_eq!(uri, "/api/v1/namespaces/ns/pods?&resourceVersion=0");
}

#[test]
fn list_uri_with_all_filters_encoded() {
    let lp = ListParams {
        label_selector: Some("app=web".to_string()),
        field_selector: Some("metadata.name=a b".to_string()),
        limit: Some(250),
        continue_token: Some("tok&en".to_string()),
    };
    let uri = pods().list_with_version_uri(&lp, "123");
    assert_eq!(
        uri,
        "/api/v1/namespaces/ns/pods?&fieldSelector=metadata.name%3Da+b&labelSelector=app%3Dweb&limit=250&continue=tok%26en&resourceVersion=123"
    );
}

#[test]
fn list_with_version_builds_get() {
    let lp = ListParams { limit: Some(7), ..ListParams::default() };
    let req = pods().list_with_version(&lp, "v1").unwrap();
    assert_eq!(req.method(), "GET");
    assert_eq!(req.uri().to_string(), "/api/v1/namespaces/ns/pods?&limit=7&resourceVersion=v1");
    assert!(req.body().is_empty());
}

#[test]
fn list_with_version_rejects_bad_uri() {
    let bad = RequestBuilder { url_path: "/api/v1/bad path".to_string() };
    let r = bad.list_with_version(&ListParams::default(), "0");
    assert!(matches!(r, Err(RequestError::BuildRequest(_))));
}
