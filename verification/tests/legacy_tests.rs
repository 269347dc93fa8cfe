use tarmac::api::{RobloxApiError, RobloxCredentials};
use tarmac::legacy::{
    download_url, generic_image_name, CsrfExchange, CsrfStep, DownloadStep, LegacyClient,
    UploadVerdict,
};

fn creds(token: Option<&str>) -> RobloxCredentials {
    RobloxCredentials {
        token: token.map(str::to_owned),
        api_key: None,
        user_id: None,
        group_id: None,
    }
}

fn client() -> LegacyClient {
    LegacyClient::new(creds(Some("COOKIE")), None)
}

#[test]
fn csrf_403_with_token_is_retried_once() {
    let mut c = client();
    let mut ex = CsrfExchange::begin();
    let step = c.on_response(&mut ex, 403, Some("T1".to_owned()));
    assert_eq!(step, CsrfStep::Resend);
    assert_eq!(c.csrf_token.as_deref(), Some("T1"));
    assert!(ex.retried);
    // a second 403 with a fresh token is final: no second retry
    let step2 = c.on_response(&mut ex, 403, Some("T2".to_owned()));
    assert_eq!(step2, CsrfStep::Final);
    assert_eq!(c.csrf_token.as_deref(), Some("T1"));
}

#[test]
fn csrf_403_without_token_is_final() {
    let mut c = client();
    let mut ex = CsrfExchange::begin();
    let step = c.on_response(&mut ex, 403, None);
    assert_eq!(step, CsrfStep::Final);
    assert_eq!(c.csrf_token, None);
    assert!(!ex.retried);
}

#[test]
fn csrf_success_status_is_final() {
    let mut c = client();
    let mut ex = CsrfExchange::begin();
    assert_eq!(c.on_response(&mut ex, 200, None), CsrfStep::Final);
}

#[test]
fn upload_scenario_with_csrf_refresh_then_success() {
    let mut c = client();
    let mut ex = CsrfExchange::begin();
    let step = c.on_response(&mut ex, 403, Some("T1".to_owned()));
    assert_eq!(step, CsrfStep::Resend);
    let body = "{\"success\":true,\"assetId\":5,\"backingAssetId\":5}".to_owned();
    let result = c.interpret_upload_response(200, body).unwrap();
    assert_eq!(result.asset_id, 5);
    assert_eq!(result.backing_asset_id, 5);
}

#[test]
fn upload_body_failure_flag_is_api_error() {
    let c = client();
    let body = "{\"success\":false,\"message\":\"quota exceeded\"}".to_owned();
    let err = c.interpret_upload_response(200, body).unwrap_err();
    match err {
        RobloxApiError::ApiError { message } => assert_eq!(message, "quota exceeded"),
        other => panic!("wrong error: {}", other.message()),
    }
}

#[test]
fn upload_malformed_body_keeps_raw_body() {
    let c = client();
    let err = c.interpret_upload_response(200, "not json".to_owned()).unwrap_err();
    match err {
        RobloxApiError::BadResponseJson { body } => assert_eq!(body, "not json"),
        other => panic!("wrong error: {}", other.message()),
    }
}

#[test]
fn upload_success_without_ids_is_malformed() {
    let c = client();
    let err = c
        .interpret_upload_response(200, "{\"success\":true}".to_owned())
        .unwrap_err();
    assert!(matches!(err, RobloxApiError::BadResponseJson { .. }));
}

#[test]
fn upload_http_failure_keeps_status_and_body() {
    let c = client();
    let err = c.interpret_upload_response(500, "oops".to_owned()).unwrap_err();
    match err {
        RobloxApiError::ResponseError { status, body } => {
            assert_eq!(status, 500);
            assert_eq!(body, "oops");
        },
        other => panic!("wrong error: {}", other.message()),
    }
}

#[test]
fn moderated_name_asks_for_generic_retry() {
    let c = client();
    let body = "{\"success\":false,\"message\":\"name was inappropriate\"}".to_owned();
    let verdict = c.interpret_upload_response_with_moderation(200, body);
    assert!(matches!(verdict, UploadVerdict::RetryWithGenericName));
    assert_eq!(generic_image_name(), "image");
}

#[test]
fn unmoderated_failure_is_rejected() {
    let c = client();
    let body = "{\"success\":false,\"message\":\"quota\"}".to_owned();
    let verdict = c.interpret_upload_response_with_moderation(200, body);
    assert!(matches!(
        verdict,
        UploadVerdict::Rejected(RobloxApiError::ApiError { .. })
    ));
}

#[test]
fn download_xml_indirection_yields_second_fetch() {
    let c = client();
    let body = b"<roblox xmlns:xmime=\"x\"><url>http://www.roblox.com/asset/?id=999</url></roblox>"
        .to_vec();
    match c.interpret_download_response(body) {
        DownloadStep::FetchAgain(id) => assert_eq!(id, 999),
        _ => panic!("expected a second fetch"),
    }
}

#[test]
fn download_xml_with_prolog_and_whitespace() {
    let c = client();
    let body =
        b"  <?xml version=\"1.0\"?>\n<roblox>\n  <url>http://www.roblox.com/asset/?id=42</url>\n</roblox>"
            .to_vec();
    match c.interpret_download_response(body) {
        DownloadStep::FetchAgain(id) => assert_eq!(id, 42),
        _ => panic!("expected a second fetch"),
    }
}

#[test]
fn download_non_xml_bytes_come_back_unchanged() {
    let c = client();
    let body = vec![0x89, b'P', b'N', b'G', 0, 1, 2, 3];
    match c.interpret_download_response(body.clone()) {
        DownloadStep::Done(bytes) => assert_eq!(bytes, body),
        _ => panic!("expected the bytes back"),
    }
}

#[test]
fn download_unknown_root_is_an_error() {
    let c = client();
    let body = b"<html><body>error</body></html>".to_vec();
    match c.interpret_download_response(body) {
        DownloadStep::Failed(RobloxApiError::UnknownXml) => {},
        _ => panic!("expected an unknown-XML failure"),
    }
}

#[test]
fn download_bad_asset_id_is_malformed() {
    let c = client();
    let body = b"<roblox><url>http://www.roblox.com/asset/?id=99x</url></roblox>".to_vec();
    match c.interpret_download_response(body) {
        DownloadStep::Failed(RobloxApiError::MalformedAssetId) => {},
        _ => panic!("expected a malformed-id failure"),
    }
}

#[test]
fn download_root_without_url_element_is_an_error() {
    let c = client();
    let body = b"<roblox><Meta>none</Meta></roblox>".to_vec();
    match c.interpret_download_response(body) {
        DownloadStep::Failed(RobloxApiError::UnknownXml) => {},
        _ => panic!("expected an unknown-XML failure"),
    }
}

#[test]
fn download_url_without_asset_marker_is_an_error() {
    let c = client();
    let body = b"<roblox><url>https://elsewhere.example/thing</url></roblox>".to_vec();
    match c.interpret_download_response(body) {
        DownloadStep::Failed(RobloxApiError::UnknownXml) => {},
        _ => panic!("expected an unknown-XML failure"),
    }
}

#[test]
fn download_unterminated_prolog_reads_as_plain_bytes() {
    let c = client();
    let body = b"<?xml version=\"1.0\"".to_vec();
    match c.interpret_download_response(body.clone()) {
        DownloadStep::Done(bytes) => assert_eq!(bytes, body),
        _ => panic!("expected the bytes back"),
    }
}

#[test]
fn download_empty_body_comes_back_unchanged() {
    let c = client();
    match c.interpret_download_response(Vec::new()) {
        DownloadStep::Done(bytes) => assert!(bytes.is_empty()),
        _ => panic!("expected the bytes back"),
    }
}

#[test]
fn download_url_carries_the_id() {
    assert_eq!(
        download_url(999),
        "https://assetdelivery.roblox.com/v1/asset/?id=999"
    );
}

#[test]
fn upload_request_url_and_payload() {
    let data = tarmac::api::ImageUploadData {
        image_data: vec![1, 2, 3],
        name: "n".to_owned(),
        description: "d".to_owned(),
    };
    let c = client();
    let req = c.upload_request(&data);
    assert_eq!(req.url, "https://data.roblox.com/data/upload/json?assetTypeId=13");
    assert_eq!(req.name, "n");
    assert_eq!(req.description, "d");
    assert_eq!(req.body, vec![1, 2, 3]);

    let mut with_group = creds(Some("C"));
    with_group.group_id = Some(77);
    let cg = LegacyClient::new(with_group, None);
    let req2 = cg.upload_request(&data);
    assert_eq!(
        req2.url,
        "https://data.roblox.com/data/upload/json?assetTypeId=13&groupId=77"
    );
}

#[test]
fn request_headers_carry_cookie_and_csrf() {
    let c = LegacyClient::new(creds(Some("SECRET-REDACTED")), Some("TOK".to_owned()));
    let headers = c.request_headers();
    assert_eq!(headers.len(), 2);
    assert_eq!(headers[0].0, "Cookie");
    assert_eq!(headers[0].1, ".ROBLOSECURITY=SECRET-REDACTED");
    assert_eq!(headers[1].0, "X-CSRF-Token");
    assert_eq!(headers[1].1, "TOK");

    let bare = LegacyClient::new(creds(None), None);
    assert!(bare.request_headers().is_empty());
}
