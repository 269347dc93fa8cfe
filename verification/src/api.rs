//! Shared protocol data: upload payloads, results, credentials, the
//! error taxonomy, and backend selection.
//!
//! Construction selects the backend from the credentials shape: an API
//! key selects the cloud backend (which needs exactly one creator id), a
//! cookie token selects the legacy backend, and neither is an error.

use vstd::prelude::*;

use crate::legacy::LegacyClient;
use crate::open_cloud::{AssetCreator, OpenCloudClient};

verus! {

/// One image ready for upload: encoded bytes plus the display name and
/// description the host should attach.
#[derive(Clone, Debug)]
pub struct ImageUploadData {
    pub image_data: Vec<u8>,
    pub name: String,
    pub description: String,
}

/// The identity the host assigned to an uploaded image. The legacy
/// backend may distinguish the visible asset from its backing content;
/// the cloud backend reports the same id for both.
#[derive(Clone, Copy, PartialEq, Eq, Structural, Debug)]
pub struct UploadResponse {
    pub asset_id: u64,
    pub backing_asset_id: u64,
}

/// Credentials supplied by the caller. At most one of `token` and
/// `api_key` is meaningful; `user_id` and `group_id` are mutually
/// exclusive creator designations that only take effect with an API key.
#[derive(Clone, Debug)]
pub struct RobloxCredentials {
    pub token: Option<String>,
    pub api_key: Option<String>,
    pub user_id: Option<u64>,
    pub group_id: Option<u64>,
}

/// Everything that can go wrong against the remote host or while
/// preparing an image for it.
#[derive(Clone, Debug)]
pub enum RobloxApiError {
    /// A transport-level failure, reported by the HTTP layer.
    Http { message: String },
    /// The host reported a business-level failure in a success response.
    ApiError { message: String },
    /// A success response whose body could not be understood; keeps the
    /// raw body for diagnostics.
    BadResponseJson { body: String },
    /// A non-success HTTP response.
    ResponseError { status: u16, body: String },
    /// A token refresh request came back without a token header.
    MissingCsrfToken,
    /// Polling for an upload's asset id was exhausted or came back bad.
    AssetGetFailed,
    /// An API key was given without a user or group to upload as.
    ApiKeyNeedsCreatorId,
    /// No cookie token and no API key were given.
    MissingAuth,
    /// Both a user id and a group id were given.
    AmbiguousCreatorType,
    /// The create-asset response carried no operation reference.
    MissingOperationPath,
    /// The create-asset response's operation reference had the wrong shape.
    MalformedOperationPath,
    /// A terminal poll response carried an asset id that is not a number.
    MalformedAssetId,
    /// Any other failure reported by the cloud API layer.
    RbxCloud { message: String },
    /// The image bytes could not be decoded.
    DecodeError,
    /// The normalized image could not be re-encoded.
    EncodeError,
    /// The selected backend does not offer this operation.
    UnsupportedOperation,
    /// A download response was XML, but not the known indirection document.
    UnknownXml,
}

/// The one-line description of an error.
pub open spec fn spec_error_message(e: RobloxApiError) -> Seq<char> {
    match e {
        RobloxApiError::Http { message } => "Roblox API HTTP error: "@ + message@,
        RobloxApiError::ApiError { message } => "Roblox API error: "@ + message@,
        RobloxApiError::BadResponseJson { body } => (
        "Roblox API returned success, but had malformed JSON response: "@ + body@),
        RobloxApiError::ResponseError { status, body } => (
        "Roblox API returned HTTP "@ + crate::text::spec_dec(status as nat) + " with body: "@
            + body@),
        RobloxApiError::MissingCsrfToken => (
        "Request for CSRF token did not return an X-CSRF-Token header."@),
        RobloxApiError::AssetGetFailed => "Failed to retrieve asset ID from Roblox cloud"@,
        RobloxApiError::ApiKeyNeedsCreatorId => (
        "Either a group or a user ID must be specified when using an API key"@),
        RobloxApiError::MissingAuth => "Unable to locate an authentication method"@,
        RobloxApiError::AmbiguousCreatorType => (
        "Group ID and user ID cannot both be specified"@),
        RobloxApiError::MissingOperationPath => "Operation path is missing"@,
        RobloxApiError::MalformedOperationPath => "Operation path is malformed"@,
        RobloxApiError::MalformedAssetId => (
        "Failed to parse asset ID from asset get response"@),
        RobloxApiError::RbxCloud { message } => "Open Cloud API error: "@ + message@,
        RobloxApiError::DecodeError => "Unable to decode image"@,
        RobloxApiError::EncodeError => "Unable to encode image"@,
        RobloxApiError::UnsupportedOperation => (
        "This operation is not supported by the selected backend"@),
        RobloxApiError::UnknownXml => "Unknown XML from asset delivery API"@,
    }
}

impl RobloxApiError {
    /// Renders the error as a one-line message.
    pub fn message(&self) -> (r: String)
        ensures
            r@ == spec_error_message(*self),
    {
        let mut s = String::new();
        match self {
            RobloxApiError::Http { message } => {
                s.append("Roblox API HTTP error: ");
                s.append(message.as_str());
            },
            RobloxApiError::ApiError { message } => {
                s.append("Roblox API error: ");
                s.append(message.as_str());
            },
            RobloxApiError::BadResponseJson { body } => {
                s.append("Roblox API returned success, but had malformed JSON response: ");
                s.append(body.as_str());
            },
            RobloxApiError::ResponseError { status, body } => {
                s.append("Roblox API returned HTTP ");
                crate::text::push_dec(*status as u64, &mut s);
                s.append(" with body: ");
                s.append(body.as_str());
            },
            RobloxApiError::MissingCsrfToken => {
                s.append("Request for CSRF token did not return an X-CSRF-Token header.");
            },
            RobloxApiError::AssetGetFailed => {
                s.append("Failed to retrieve asset ID from Roblox cloud");
            },
            RobloxApiError::ApiKeyNeedsCreatorId => {
                s.append("Either a group or a user ID must be specified when using an API key");
            },
            RobloxApiError::MissingAuth => {
                s.append("Unable to locate an authentication method");
            },
            RobloxApiError::AmbiguousCreatorType => {
                s.append("Group ID and user ID cannot both be specified");
            },
            RobloxApiError::MissingOperationPath => {
                s.append("Operation path is missing");
            },
            RobloxApiError::MalformedOperationPath => {
                s.append("Operation path is malformed");
            },
            RobloxApiError::MalformedAssetId => {
                s.append("Failed to parse asset ID from asset get response");
            },
            RobloxApiError::RbxCloud { message } => {
                s.append("Open Cloud API error: ");
                s.append(message.as_str());
            },
            RobloxApiError::DecodeError => {
                s.append("Unable to decode image");
            },
            RobloxApiError::EncodeError => {
                s.append("Unable to encode image");
            },
            RobloxApiError::UnsupportedOperation => {
                s.append("This operation is not supported by the selected backend");
            },
            RobloxApiError::UnknownXml => {
                s.append("Unknown XML from asset delivery API");
            },
        }
        proof {
            assert(s@ =~= spec_error_message(*self));
        }
        s
    }

    /// Maps a failure reported by the cloud API layer into this taxonomy:
    /// an HTTP-status failure keeps its status and body, anything else is
    /// carried as a cloud-layer message.
    pub fn from_rbx_cloud(kind: RbxCloudFailure) -> (r: RobloxApiError)
        ensures
            r == spec_cloud_failure_error(kind),
    {
        match kind {
            RbxCloudFailure::HttpStatus { code, body } => RobloxApiError::ResponseError {
                status: code,
                body,
            },
            RbxCloudFailure::Other { message } => RobloxApiError::RbxCloud { message },
        }
    }
}

/// A failure reported by the cloud API layer, reduced to plain values by
/// the caller that performed the request.
#[derive(Clone, Debug)]
pub enum RbxCloudFailure {
    HttpStatus { code: u16, body: String },
    Other { message: String },
}

/// How a cloud-layer failure reads in this taxonomy.
pub open spec fn spec_cloud_failure_error(f: RbxCloudFailure) -> RobloxApiError {
    match f {
        RbxCloudFailure::HttpStatus { code, body } => RobloxApiError::ResponseError {
            status: code,
            body,
        },
        RbxCloudFailure::Other { message } => RobloxApiError::RbxCloud { message },
    }
}

/// A protocol client, one variant per backend.
#[derive(Clone, Debug)]
pub enum RobloxApiClient {
    Legacy(LegacyClient),
    OpenCloud(OpenCloudClient),
}

/// Selects the backend that the credentials call for.
///
/// No token and no API key is `MissingAuth`; both creator ids is
/// `AmbiguousCreatorType`; an API key without a creator id is
/// `ApiKeyNeedsCreatorId`; an API key with exactly one creator id gives
/// the cloud backend; otherwise the cookie token gives the legacy
/// backend, whose CSRF cache starts empty.
pub fn get_preferred_client(credentials: RobloxCredentials) -> (r: Result<
    RobloxApiClient,
    RobloxApiError,
>)
    ensures
        (credentials.token is None && credentials.api_key is None) <==> r == Err::<
            RobloxApiClient,
            _,
        >(RobloxApiError::MissingAuth),
        (credentials.token is Some || credentials.api_key is Some) && credentials.group_id
            is Some && credentials.user_id is Some ==> r == Err::<RobloxApiClient, _>(
            RobloxApiError::AmbiguousCreatorType,
        ),
        credentials.api_key is Some && !(credentials.group_id is Some && credentials.user_id
            is Some) ==> match (credentials.group_id, credentials.user_id) {
            (None, None) => r == Err::<RobloxApiClient, _>(RobloxApiError::ApiKeyNeedsCreatorId),
            (Some(g), None) => r == Ok::<_, RobloxApiError>(
                RobloxApiClient::OpenCloud(
                    OpenCloudClient {
                        api_key: credentials.api_key->Some_0,
                        creator: AssetCreator::Group(g),
                    },
                ),
            ),
            (None, Some(u)) => r == Ok::<_, RobloxApiError>(
                RobloxApiClient::OpenCloud(
                    OpenCloudClient {
                        api_key: credentials.api_key->Some_0,
                        creator: AssetCreator::User(u),
                    },
                ),
            ),
            (Some(_), Some(_)) => true,
        },
        credentials.api_key is None && credentials.token is Some && !(credentials.group_id is Some
            && credentials.user_id is Some) ==> r == Ok::<_, RobloxApiError>(
            RobloxApiClient::Legacy(LegacyClient { credentials, csrf_token: None }),
        ),
{
    if credentials.token.is_none() && credentials.api_key.is_none() {
        return Err(RobloxApiError::MissingAuth);
    }
    if credentials.group_id.is_some() && credentials.user_id.is_some() {
        return Err(RobloxApiError::AmbiguousCreatorType);
    }
    if credentials.api_key.is_some() {
        let client = OpenCloudClient::new(credentials)?;
        return Ok(RobloxApiClient::OpenCloud(client));
    }
    Ok(RobloxApiClient::Legacy(LegacyClient { credentials, csrf_token: None }))
}

} // verus!
