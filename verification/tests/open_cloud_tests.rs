use tarmac::api::{
    get_preferred_client, RbxCloudFailure, RobloxApiClient, RobloxApiError, RobloxCredentials,
};
use tarmac::open_cloud::{
    parse_operation_path, poll_step, run_scripted_polls, AssetCreator, AssetKind,
    OpenCloudClient, PollEvent, PollOutcome, PollState,
};

fn creds(
    token: Option<&str>,
    api_key: Option<&str>,
    user_id: Option<u64>,
    group_id: Option<u64>,
) -> RobloxCredentials {
    RobloxCredentials {
        token: token.map(str::to_owned),
        api_key: api_key.map(str::to_owned),
        user_id,
        group_id,
    }
}

#[test]
fn operation_path_present_and_well_formed() {
    let id = parse_operation_path(Some("operations/abc-123")).unwrap();
    assert_eq!(id, "abc-123");
}

#[test]
fn operation_path_missing() {
    assert!(matches!(
        parse_operation_path(None),
        Err(RobloxApiError::MissingOperationPath)
    ));
}

#[test]
fn operation_path_malformed() {
    assert!(matches!(
        parse_operation_path(Some("op/abc")),
        Err(RobloxApiError::MalformedOperationPath)
    ));
    assert!(matches!(
        parse_operation_path(Some("")),
        Err(RobloxApiError::MalformedOperationPath)
    ));
}

#[test]
fn polling_three_in_progress_then_success_makes_four_polls() {
    let events = vec![
        PollEvent::InProgress,
        PollEvent::InProgress,
        PollEvent::InProgress,
        PollEvent::Ready("17".to_owned()),
    ];
    let (polls, outcome) = run_scripted_polls(events);
    assert_eq!(polls, 4);
    let resp = outcome.unwrap();
    assert_eq!(resp.asset_id, 17);
    assert_eq!(resp.backing_asset_id, 17);
}

#[test]
fn polling_forever_in_progress_fails_after_five_polls() {
    let events = vec![PollEvent::InProgress; 9];
    let (polls, outcome) = run_scripted_polls(events);
    assert_eq!(polls, 5);
    assert!(matches!(outcome, Err(RobloxApiError::AssetGetFailed)));
}

#[test]
fn polling_succeeds_on_the_last_allowed_poll() {
    let events = vec![
        PollEvent::InProgress,
        PollEvent::InProgress,
        PollEvent::InProgress,
        PollEvent::InProgress,
        PollEvent::Ready("8".to_owned()),
    ];
    let (polls, outcome) = run_scripted_polls(events);
    assert_eq!(polls, 5);
    assert_eq!(outcome.unwrap().asset_id, 8);
}

#[test]
fn operation_path_with_empty_id_is_allowed_by_shape() {
    assert_eq!(parse_operation_path(Some("operations/")).unwrap(), "");
}

#[test]
fn polling_non_numeric_id_fails() {
    let events = vec![PollEvent::Ready("abc".to_owned())];
    let (polls, outcome) = run_scripted_polls(events);
    assert_eq!(polls, 1);
    assert!(matches!(outcome, Err(RobloxApiError::AssetGetFailed)));
}

#[test]
fn polling_request_failure_maps_status_and_body() {
    let events = vec![PollEvent::Failed(RbxCloudFailure::HttpStatus {
        code: 500,
        body: "boom".to_owned(),
    })];
    let (polls, outcome) = run_scripted_polls(events);
    assert_eq!(polls, 1);
    match outcome.unwrap_err() {
        RobloxApiError::ResponseError { status, body } => {
            assert_eq!(status, 500);
            assert_eq!(body, "boom");
        },
        other => panic!("wrong error: {}", other.message()),
    }
}

#[test]
fn poll_backoff_delays_grow_quadratically() {
    let mut state = PollState { attempts: 0 };
    let expected = [50u64, 200, 450, 800];
    for d in expected {
        match poll_step(&mut state, PollEvent::InProgress) {
            PollOutcome::Continue { delay_ms } => assert_eq!(delay_ms, d),
            _ => panic!("expected another wait"),
        }
    }
    assert!(matches!(
        poll_step(&mut state, PollEvent::InProgress),
        PollOutcome::Failed(RobloxApiError::AssetGetFailed)
    ));
}

#[test]
fn cloud_download_is_unsupported() {
    let client = OpenCloudClient { api_key: "k".to_owned(), creator: AssetCreator::User(1) };
    assert!(matches!(
        client.download_image(5),
        Err(RobloxApiError::UnsupportedOperation)
    ));
}

#[test]
fn backend_selection_prefers_api_key() {
    let r = get_preferred_client(creds(None, Some("KEY"), Some(12), None)).unwrap();
    match r {
        RobloxApiClient::OpenCloud(c) => {
            assert_eq!(c.api_key, "KEY");
            assert_eq!(c.creator, AssetCreator::User(12));
        },
        _ => panic!("expected the cloud backend"),
    }
}

#[test]
fn backend_selection_falls_back_to_cookie() {
    let r = get_preferred_client(creds(Some("C"), None, None, None)).unwrap();
    match r {
        RobloxApiClient::Legacy(c) => {
            assert_eq!(c.credentials.token.as_deref(), Some("C"));
            assert_eq!(c.csrf_token, None);
        },
        _ => panic!("expected the legacy backend"),
    }
}

#[test]
fn backend_selection_requires_some_auth() {
    assert!(matches!(
        get_preferred_client(creds(None, None, None, None)),
        Err(RobloxApiError::MissingAuth)
    ));
}

#[test]
fn backend_selection_rejects_two_creators() {
    assert!(matches!(
        get_preferred_client(creds(None, Some("K"), Some(1), Some(2))),
        Err(RobloxApiError::AmbiguousCreatorType)
    ));
}

#[test]
fn api_key_needs_a_creator() {
    assert!(matches!(
        get_preferred_client(creds(None, Some("K"), None, None)),
        Err(RobloxApiError::ApiKeyNeedsCreatorId)
    ));
}

#[test]
fn cloud_client_requires_api_key() {
    assert!(matches!(
        OpenCloudClient::new(creds(Some("C"), None, Some(1), None)),
        Err(RobloxApiError::MissingAuth)
    ));
}

#[test]
fn cloud_client_group_creator() {
    let c = OpenCloudClient::new(creds(None, Some("K"), None, Some(9))).unwrap();
    assert_eq!(c.creator, AssetCreator::Group(9));
}

#[test]
fn upload_request_carries_payload_and_creator() {
    let c = OpenCloudClient { api_key: "k".to_owned(), creator: AssetCreator::Group(3) };
    let spec = c.upload_request(tarmac::api::ImageUploadData {
        image_data: vec![9, 8],
        name: "n".to_owned(),
        description: "d".to_owned(),
    });
    assert_eq!(spec.display_name, "n");
    assert_eq!(spec.description, "d");
    assert_eq!(spec.image_data, vec![9, 8]);
    assert_eq!(spec.creator, AssetCreator::Group(3));
    assert_eq!(spec.asset_type, AssetKind::DecalPng);
    assert_eq!(spec.expected_price, None);
}
