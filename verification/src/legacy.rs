//! The legacy cookie-and-CSRF backend.
//!
//! Requests carry the session cookie and a cached CSRF token. When the
//! host answers 403 with a fresh token, the token is cached and the very
//! same request is sent once more; whatever the second answer is, it is
//! final. Upload success is decided by the response body's own flag, not
//! by the HTTP status alone. A download may come back as an XML
//! indirection document naming the canonical asset id, in which case that
//! id is fetched instead.
//!
//! The client here holds the protocol state and decisions; the caller
//! performs the HTTP requests and feeds the responses back.

use vstd::prelude::*;

use crate::api::{ImageUploadData, RobloxApiError, RobloxCredentials, UploadResponse};
use crate::text::{push_dec, spec_contains, spec_dec, str_contains};
use crate::xml_scan::{classify_download, spec_classify_download, XmlClass};

verus! {

/// The legacy client: the credentials it signs requests with, and the
/// cached CSRF token shared across requests.
#[derive(Clone, Debug)]
pub struct LegacyClient {
    pub credentials: RobloxCredentials,
    pub csrf_token: Option<String>,
}

impl LegacyClient {
    /// Builds the client. The caller may seed the CSRF cache with a
    /// token it already fetched; failing to fetch one is recovered by
    /// starting empty, since the first rejected request will supply one.
    pub fn new(credentials: RobloxCredentials, csrf_token: Option<String>) -> (r: LegacyClient)
        ensures
            r == (LegacyClient { credentials, csrf_token }),
    {
        LegacyClient { credentials, csrf_token }
    }
}

/// The per-request retry state: whether this request was already resent
/// after a token refresh.
#[derive(Clone, Copy, PartialEq, Eq, Structural, Debug)]
pub struct CsrfExchange {
    pub retried: bool,
}

impl CsrfExchange {
    /// A fresh exchange for one logical request.
    pub fn begin() -> (r: CsrfExchange)
        ensures
            r == (CsrfExchange { retried: false }),
    {
        CsrfExchange { retried: false }
    }
}

/// What the caller must do with the response it just received.
#[derive(Clone, Copy, PartialEq, Eq, Structural, Debug)]
pub enum CsrfStep {
    /// Rebuild the identical request with the freshly cached token and
    /// send it once more.
    Resend,
    /// The response is final; hand it to the operation's interpreter.
    Final,
}

/// The CSRF retry rule: a 403 bearing a token, on a request not yet
/// retried, caches the token and resends once; everything else is final
/// and changes nothing.
pub open spec fn spec_csrf_step(
    client: LegacyClient,
    ex: CsrfExchange,
    status: u16,
    csrf: Option<String>,
) -> (LegacyClient, CsrfExchange, CsrfStep) {
    if !ex.retried && status == 403 && csrf is Some {
        (
            LegacyClient { credentials: client.credentials, csrf_token: csrf },
            CsrfExchange { retried: true },
            CsrfStep::Resend,
        )
    } else {
        (client, ex, CsrfStep::Final)
    }
}

impl LegacyClient {
    /// Feeds one response's status and CSRF header into the exchange.
    pub fn on_response(
        &mut self,
        ex: &mut CsrfExchange,
        status: u16,
        csrf_token: Option<String>,
    ) -> (r: CsrfStep)
        ensures
            (*final (self), *final (ex), r) == spec_csrf_step(
                *old(self),
                *old(ex),
                status,
                csrf_token,
            ),
    {
        if !ex.retried && status == 403 && csrf_token.is_some() {
            self.csrf_token = csrf_token;
            ex.retried = true;
            CsrfStep::Resend
        } else {
            CsrfStep::Final
        }
    }
}

/// A 403 bearing a fresh token is retried exactly once: the retry
/// attaches the new token, and whatever the second response is — even a
/// second 403 with a token — it is final and leaves the state alone.
pub proof fn lemma_csrf_single_retry(
    c0: LegacyClient,
    s1: u16,
    t1: Option<String>,
    s2: u16,
    t2: Option<String>,
)
    ensures
        ({
            let ex0 = CsrfExchange { retried: false };
            let step1 = spec_csrf_step(c0, ex0, s1, t1);
            let step2 = spec_csrf_step(step1.0, step1.1, s2, t2);
            &&& (s1 == 403 && t1 is Some) ==> step1.2 == CsrfStep::Resend
                && step1.0.csrf_token == t1 && step2.2 == CsrfStep::Final && step2.0 == step1.0
                && step2.1 == step1.1
            &&& !(s1 == 403 && t1 is Some) ==> step1.2 == CsrfStep::Final && step1.0 == c0
        }),
{
}

/// The upload endpoint, with the group appended when uploading to one.
pub open spec fn spec_upload_url(group_id: Option<u64>) -> Seq<char> {
    match group_id {
        Some(g) => "https://data.roblox.com/data/upload/json?assetTypeId=13"@ + "&groupId="@
            + spec_dec(g as nat),
        None => "https://data.roblox.com/data/upload/json?assetTypeId=13"@,
    }
}

/// The download endpoint for an asset id.
pub open spec fn spec_download_url(id: u64) -> Seq<char> {
    "https://assetdelivery.roblox.com/v1/asset/?id="@ + spec_dec(id as nat)
}

/// Builds the download URL for an asset id.
pub fn download_url(id: u64) -> (r: String)
    ensures
        r@ == spec_download_url(id),
{
    let mut url = String::new();
    url.append("https://assetdelivery.roblox.com/v1/asset/?id=");
    push_dec(id, &mut url);
    proof {
        assert(url@ =~= spec_download_url(id));
    }
    url
}

/// One legacy upload request, reduced to the plain values the caller
/// must send: a POST to `url` with `name` and `description` as query
/// parameters and the image bytes as the body. Headers come from
/// `request_headers` at send time, so a refreshed token is attached on
/// the resend.
#[derive(Clone, Debug)]
pub struct LegacyUploadRequest {
    pub url: String,
    pub name: String,
    pub description: String,
    pub body: Vec<u8>,
}

impl LegacyClient {
    /// Builds the upload request for one image.
    pub fn upload_request(&self, data: &ImageUploadData) -> (r: LegacyUploadRequest)
        ensures
            r.url@ == spec_upload_url(self.credentials.group_id),
            r.name@ == data.name@,
            r.description@ == data.description@,
            r.body@ == data.image_data@,
    {
        let mut url = String::new();
        url.append("https://data.roblox.com/data/upload/json?assetTypeId=13");
        match self.credentials.group_id {
            Some(g) => {
                url.append("&groupId=");
                push_dec(g, &mut url);
            },
            None => {},
        }
        proof {
            assert(url@ =~= spec_upload_url(self.credentials.group_id));
        }
        LegacyUploadRequest {
            url,
            name: clone_string(&data.name),
            description: clone_string(&data.description),
            body: clone_bytes(&data.image_data),
        }
    }

    /// The headers to attach before sending: the session cookie when a
    /// token is on hand, and the cached CSRF token when one is.
    pub fn request_headers(&self) -> (r: Vec<(String, String)>)
        ensures
            r@.len() == (if self.credentials.token is Some {
                1int
            } else {
                0int
            }) + (if self.csrf_token is Some {
                1int
            } else {
                0int
            }),
            self.credentials.token matches Some(t) ==> r@[0].0@ == "Cookie"@ && r@[0].1@
                == ".ROBLOSECURITY="@ + t@,
            self.csrf_token matches Some(x) ==> r@[r@.len() - 1].0@ == "X-CSRF-Token"@
                && r@[r@.len() - 1].1@ == x@,
    {
        let mut headers: Vec<(String, String)> = Vec::new();
        match &self.credentials.token {
            Some(t) => {
                let mut name = String::new();
                name.append("Cookie");
                let mut value = String::new();
                value.append(".ROBLOSECURITY=");
                value.append(t.as_str());
                proof {
                    assert(name@ =~= "Cookie"@);
                    assert(value@ =~= ".ROBLOSECURITY="@ + t@);
                }
                headers.push((name, value));
            },
            None => {},
        }
        match &self.csrf_token {
            Some(x) => {
                let mut name = String::new();
                name.append("X-CSRF-Token");
                proof {
                    assert(name@ =~= "X-CSRF-Token"@);
                }
                headers.push((name, x.clone()));
            },
            None => {},
        }
        headers
    }
}

/// A fresh copy of a string.
fn clone_string(s: &String) -> (r: String)
    ensures
        r@ == s@,
{
    s.clone()
}

/// A fresh copy of a byte vector.
fn clone_bytes(v: &Vec<u8>) -> (r: Vec<u8>)
    ensures
        r@ == v@,
{
    let mut out: Vec<u8> = Vec::new();
    let n = v.len();
    let mut i: usize = 0;
    while i < n
        invariant
            n == v@.len(),
            0 <= i <= n,
            out@ =~= v@.take(i as int),
        decreases n - i,
    {
        out.push(v[i]);
        proof {
            assert(out@ =~= v@.take(i + 1));
        }
        i = i + 1;
    }
    proof {
        assert(v@.take(n as int) =~= v@);
    }
    out
}

/// What a success-response body parses to: the `success` flag, and the
/// optional `message`, `assetId` and `backingAssetId` fields. `None` when
/// the body is not such a JSON object.
pub uninterp spec fn spec_upload_body(s: Seq<char>) -> Option<
    (bool, Option<Seq<char>>, Option<u64>, Option<u64>),
>;

/// Relies on serde_json: parses the body as a JSON object and reads its
/// `success` (bool, required), `message` (string), `assetId` and
/// `backingAssetId` (unsigned integer) fields.
#[verifier::external_body]
fn parse_upload_body(body: &str) -> (r: Option<(bool, Option<String>, Option<u64>, Option<u64>)>)
    ensures
        r is Some <==> spec_upload_body(body@) is Some,
        r matches Some(t) ==> (spec_upload_body(body@) matches Some(u) && t.0 == u.0 && (t.1
            is Some <==> u.1 is Some) && (t.1 matches Some(m) ==> u.1 matches Some(mv) && m@ == mv)
            && t.2 == u.2 && t.3 == u.3),
{
    let v: serde_json::Value = serde_json::from_str(body).ok()?;
    let obj = v.as_object()?;
    let success = obj.get("success").and_then(serde_json::Value::as_bool)?;
    let message = obj.get("message").and_then(serde_json::Value::as_str).map(str::to_owned);
    let asset_id = obj.get("assetId").and_then(serde_json::Value::as_u64);
    let backing_asset_id = obj.get("backingAssetId").and_then(serde_json::Value::as_u64);
    Some((success, message, asset_id, backing_asset_id))
}

impl LegacyClient {
    /// Interprets the final response of an upload request.
    ///
    /// A non-2xx status is a `ResponseError` carrying status and body. A
    /// 2xx body that does not parse, or that claims success without both
    /// ids, or failure without a message, is `BadResponseJson` carrying
    /// the raw body. A parsed failure is an `ApiError` with the body's
    /// message; a parsed success yields the two ids.
    pub fn interpret_upload_response(&self, status: u16, body: String) -> (r: Result<
        UploadResponse,
        RobloxApiError,
    >)
        ensures
            !(200 <= status < 300) ==> (r matches Err(e) && e matches
                RobloxApiError::ResponseError { status: s2, body: b2 } && s2 == status && b2@
                == body@),
            200 <= status < 300 ==> match spec_upload_body(body@) {
                None => r matches Err(e) && (e matches RobloxApiError::BadResponseJson {
                    body: b2,
                } && b2@ == body@),
                Some(u) => {
                    if u.0 {
                        match (u.2, u.3) {
                            (Some(a), Some(b)) => r == Ok::<_, RobloxApiError>(
                                UploadResponse { asset_id: a, backing_asset_id: b },
                            ),
                            _ => r matches Err(e) && (e matches RobloxApiError::BadResponseJson {
                                body: b2,
                            } && b2@ == body@),
                        }
                    } else {
                        match u.1 {
                            Some(m) => r matches Err(e) && (e matches RobloxApiError::ApiError {
                                message,
                            } && message@ == m),
                            None => r matches Err(e) && (e matches
                                RobloxApiError::BadResponseJson { body: b2 } && b2@ == body@),
                        }
                    }
                },
            },
    {
        if !(200 <= status && status < 300) {
            return Err(RobloxApiError::ResponseError { status, body });
        }
        match parse_upload_body(body.as_str()) {
            None => Err(RobloxApiError::BadResponseJson { body }),
            Some((success, message, asset_id, backing_asset_id)) => {
                if success {
                    match (asset_id, backing_asset_id) {
                        (Some(a), Some(b)) => Ok(
                            UploadResponse { asset_id: a, backing_asset_id: b },
                        ),
                        _ => Err(RobloxApiError::BadResponseJson { body }),
                    }
                } else {
                    match message {
                        Some(m) => Err(RobloxApiError::ApiError { message: m }),
                        None => Err(RobloxApiError::BadResponseJson { body }),
                    }
                }
            },
        }
    }
}

/// What an upload response asks of the caller once moderation is taken
/// into account.
#[derive(Clone, Debug)]
pub enum UploadVerdict {
    /// The upload went through.
    Accepted(UploadResponse),
    /// The name was moderated: retry once with the generic name.
    RetryWithGenericName,
    /// The upload failed for good.
    Rejected(RobloxApiError),
}

/// The generic display name used when a name was moderated.
pub fn generic_image_name() -> (r: String)
    ensures
        r@ == "image"@,
{
    let mut s = String::new();
    s.append("image");
    proof {
        assert(s@ =~= "image"@);
    }
    s
}

impl LegacyClient {
    /// Interprets an upload response, retrying a moderated name.
    ///
    /// Reads exactly as `interpret_upload_response`, except that a
    /// body-level failure whose message mentions "inappropriate" asks for
    /// one retry under the generic name instead of failing.
    pub fn interpret_upload_response_with_moderation(&self, status: u16, body: String) -> (r:
        UploadVerdict)
        ensures
            !(200 <= status < 300) ==> (r matches UploadVerdict::Rejected(e) && e matches
                RobloxApiError::ResponseError { status: s2, body: b2 } && s2 == status && b2@
                == body@),
            200 <= status < 300 ==> match spec_upload_body(body@) {
                None => r matches UploadVerdict::Rejected(e) && (e matches
                    RobloxApiError::BadResponseJson { body: b2 } && b2@ == body@),
                Some(u) => {
                    if u.0 {
                        match (u.2, u.3) {
                            (Some(a), Some(b)) => r == UploadVerdict::Accepted(
                                UploadResponse { asset_id: a, backing_asset_id: b },
                            ),
                            _ => r matches UploadVerdict::Rejected(e) && (e matches
                                RobloxApiError::BadResponseJson { body: b2 } && b2@ == body@),
                        }
                    } else {
                        match u.1 {
                            Some(m) => {
                                if spec_contains(m, "inappropriate"@) {
                                    r == UploadVerdict::RetryWithGenericName
                                } else {
                                    r matches UploadVerdict::Rejected(e) && (e matches
                                        RobloxApiError::ApiError { message } && message@ == m)
                                }
                            },
                            None => r matches UploadVerdict::Rejected(e) && (e matches
                                RobloxApiError::BadResponseJson { body: b2 } && b2@ == body@),
                        }
                    }
                },
            },
    {
        match self.interpret_upload_response(status, body) {
            Ok(resp) => UploadVerdict::Accepted(resp),
            Err(e) => match e {
                RobloxApiError::ApiError { message } => {
                    if str_contains(message.as_str(), "inappropriate") {
                        UploadVerdict::RetryWithGenericName
                    } else {
                        UploadVerdict::Rejected(RobloxApiError::ApiError { message })
                    }
                },
                other => UploadVerdict::Rejected(other),
            },
        }
    }
}

/// What the caller must do with a download response body.
#[derive(Clone, Debug)]
pub enum DownloadStep {
    /// These bytes are the asset itself.
    Done(Vec<u8>),
    /// The body named this canonical id: download that id and hand its
    /// bytes back directly.
    FetchAgain(u64),
    /// The body was XML but not usable.
    Failed(RobloxApiError),
}

impl LegacyClient {
    /// Interprets a download response body.
    ///
    /// Bytes that are not the indirection document are the asset and
    /// come back unchanged. The indirection document yields the id to
    /// fetch instead; one with an unusable shape is `UnknownXml`, one
    /// whose id is not a number is `MalformedAssetId`.
    pub fn interpret_download_response(&self, body: Vec<u8>) -> (r: DownloadStep)
        ensures
            match spec_classify_download(body@) {
                XmlClass::NotXml => r matches DownloadStep::Done(b) && b@ == body@,
                XmlClass::BadDoc => r == DownloadStep::Failed(RobloxApiError::UnknownXml),
                XmlClass::BadId => r == DownloadStep::Failed(RobloxApiError::MalformedAssetId),
                XmlClass::Indirect(id) => r == DownloadStep::FetchAgain(id),
            },
    {
        match classify_download(&body) {
            XmlClass::NotXml => DownloadStep::Done(body),
            XmlClass::BadDoc => DownloadStep::Failed(RobloxApiError::UnknownXml),
            XmlClass::BadId => DownloadStep::Failed(RobloxApiError::MalformedAssetId),
            XmlClass::Indirect(id) => DownloadStep::FetchAgain(id),
        }
    }
}

} // verus!
