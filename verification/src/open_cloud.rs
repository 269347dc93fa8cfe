//! The cloud-API backend: create-then-poll upload protocol.
//!
//! An upload submits a create-asset request and receives an operation
//! reference `operations/<id>`. The operation is then polled: each poll
//! either resolves to the final asset id, reports "in progress", or
//! fails. On "in progress" the caller waits with quadratic backoff; five
//! fruitless polls exhaust the operation. The decisions live here as a
//! state machine over plain values; the caller performs the requests and
//! feeds back what came over the wire.

use vstd::prelude::*;

use crate::api::{
    ImageUploadData, RbxCloudFailure, RobloxApiError, RobloxCredentials, UploadResponse,
};
use crate::text::{match_at, parse_u64, spec_all_digits, spec_dec_val, spec_match_at};

verus! {

/// The identity an upload is created under: a user or a group.
#[derive(Clone, Copy, PartialEq, Eq, Structural, Debug)]
pub enum AssetCreator {
    User(u64),
    Group(u64),
}

/// The cloud-API client: the key it authenticates with and the creator
/// it uploads as.
#[derive(Clone, Debug)]
pub struct OpenCloudClient {
    pub api_key: String,
    pub creator: AssetCreator,
}

impl OpenCloudClient {
    /// Builds the client from credentials.
    ///
    /// Fails with `MissingAuth` without an API key, with
    /// `AmbiguousCreatorType` when both creator ids are given, and with
    /// `ApiKeyNeedsCreatorId` when neither is.
    pub fn new(credentials: RobloxCredentials) -> (r: Result<OpenCloudClient, RobloxApiError>)
        ensures
            credentials.api_key is None ==> r == Err::<OpenCloudClient, _>(
                RobloxApiError::MissingAuth,
            ),
            credentials.api_key is Some ==> match (credentials.group_id, credentials.user_id) {
                (Some(_), Some(_)) => r == Err::<OpenCloudClient, _>(
                    RobloxApiError::AmbiguousCreatorType,
                ),
                (None, None) => r == Err::<OpenCloudClient, _>(
                    RobloxApiError::ApiKeyNeedsCreatorId,
                ),
                (Some(g), None) => r == Ok::<_, RobloxApiError>(
                    OpenCloudClient {
                        api_key: credentials.api_key->Some_0,
                        creator: AssetCreator::Group(g),
                    },
                ),
                (None, Some(u)) => r == Ok::<_, RobloxApiError>(
                    OpenCloudClient {
                        api_key: credentials.api_key->Some_0,
                        creator: AssetCreator::User(u),
                    },
                ),
            },
    {
        let api_key = match credentials.api_key {
            Some(key) => key,
            None => {
                return Err(RobloxApiError::MissingAuth);
            },
        };
        match (credentials.group_id, credentials.user_id) {
            (Some(_), Some(_)) => Err(RobloxApiError::AmbiguousCreatorType),
            (None, None) => Err(RobloxApiError::ApiKeyNeedsCreatorId),
            (Some(g), None) => Ok(OpenCloudClient { api_key, creator: AssetCreator::Group(g) }),
            (None, Some(u)) => Ok(OpenCloudClient { api_key, creator: AssetCreator::User(u) }),
        }
    }

    /// Describes the create-asset request for an upload: the caller
    /// submits exactly these values. The asset is always declared a PNG
    /// decal, with no expected price.
    pub fn upload_request(&self, data: ImageUploadData) -> (r: AssetCreateSpec)
        ensures
            r.display_name@ == data.name@,
            r.description@ == data.description@,
            r.image_data@ == data.image_data@,
            r.creator == self.creator,
            r.asset_type == AssetKind::DecalPng,
            r.expected_price is None,
    {
        AssetCreateSpec {
            display_name: data.name,
            description: data.description,
            image_data: data.image_data,
            creator: self.creator,
            asset_type: AssetKind::DecalPng,
            expected_price: None,
        }
    }

    /// Downloading is not offered by this backend.
    pub fn download_image(&self, id: u64) -> (r: Result<Vec<u8>, RobloxApiError>)
        ensures
            r == Err::<Vec<u8>, _>(RobloxApiError::UnsupportedOperation),
    {
        let _ = id;
        Err(RobloxApiError::UnsupportedOperation)
    }
}

/// The asset type an upload declares to the host.
#[derive(Clone, Copy, PartialEq, Eq, Structural, Debug)]
pub enum AssetKind {
    /// A decal backed by a PNG image.
    DecalPng,
}

/// The create-asset request, reduced to the plain values the caller must
/// send: the image under this name and description, created as this
/// creator, declared as this asset type, at this expected price.
#[derive(Clone, Debug)]
pub struct AssetCreateSpec {
    pub display_name: String,
    pub description: String,
    pub image_data: Vec<u8>,
    pub creator: AssetCreator,
    pub asset_type: AssetKind,
    pub expected_price: Option<u64>,
}

/// How many polls that came back "in progress" exhaust an operation.
pub const MAX_POLL_ATTEMPTS: u32 = 5;

/// The base delay between polls, in milliseconds.
pub const POLL_BASE_DELAY_MS: u64 = 50;

/// Extracts the operation id from a create-asset response's operation
/// path.
///
/// An absent path is `MissingOperationPath`; a path that does not start
/// with `operations/` is `MalformedOperationPath`; otherwise the id is
/// what follows that prefix.
pub fn parse_operation_path(path: Option<&str>) -> (r: Result<String, RobloxApiError>)
    ensures
        path is None <==> r == Err::<String, _>(RobloxApiError::MissingOperationPath),
        path matches Some(p) ==> {
            if p@.len() >= "operations/"@.len() && spec_match_at(p@, "operations/"@, 0) {
                r matches Ok(s) && s@ == p@.skip("operations/"@.len() as int)
            } else {
                r == Err::<String, _>(RobloxApiError::MalformedOperationPath)
            }
        },
{
    let p = match path {
        Some(p) => p,
        None => {
            return Err(RobloxApiError::MissingOperationPath);
        },
    };
    let prefix = "operations/";
    let plen = prefix.unicode_len();
    let n = p.unicode_len();
    if n < plen {
        return Err(RobloxApiError::MalformedOperationPath);
    }
    if !match_at(p, prefix, 0) {
        return Err(RobloxApiError::MalformedOperationPath);
    }
    let suffix = p.substring_char(plen, n);
    proof {
        assert(suffix@ =~= p@.skip(plen as int));
    }
    Ok(suffix.to_owned())
}

/// The polling state of one operation: how many polls have come back "in
/// progress".
#[derive(Clone, Copy, PartialEq, Eq, Structural, Debug)]
pub struct PollState {
    pub attempts: u32,
}

/// What one poll of the operation reported, reduced to plain values.
#[derive(Clone, Debug)]
pub enum PollEvent {
    /// The operation has not resolved yet.
    InProgress,
    /// The operation resolved to this asset id text.
    Ready(String),
    /// The request itself failed.
    Failed(RbxCloudFailure),
}

/// What the caller must do after a poll.
#[derive(Clone, Debug)]
pub enum PollOutcome {
    /// Wait this long, then poll again.
    Continue { delay_ms: u64 },
    /// The upload is complete.
    Done(UploadResponse),
    /// The operation failed; stop polling.
    Failed(RobloxApiError),
}

/// The result of a terminal poll: the id text parsed as a `u64`, or
/// exhaustion when it is not a number.
pub open spec fn spec_ready_outcome(s: Seq<char>) -> PollOutcome {
    if s.len() > 0 && spec_all_digits(s) && spec_dec_val(s) <= u64::MAX {
        PollOutcome::Done(
            UploadResponse {
                asset_id: spec_dec_val(s) as u64,
                backing_asset_id: spec_dec_val(s) as u64,
            },
        )
    } else {
        PollOutcome::Failed(RobloxApiError::AssetGetFailed)
    }
}

/// Advances the polling state machine by one observed poll.
///
/// "In progress" counts the poll; the fifth fruitless poll fails with
/// `AssetGetFailed`, earlier ones ask the caller to wait
/// `POLL_BASE_DELAY_MS * attempts^2` milliseconds. A terminal response
/// resolves to its asset id, or to `AssetGetFailed` when the id is not a
/// number. A failed request maps into the error taxonomy and stops the
/// polling.
pub fn poll_step(state: &mut PollState, event: PollEvent) -> (r: PollOutcome)
    ensures
        event is InProgress && old(state).attempts < MAX_POLL_ATTEMPTS ==> final (state).attempts
            == old(state).attempts + 1 && (if old(state).attempts + 1 == MAX_POLL_ATTEMPTS {
            r == PollOutcome::Failed(RobloxApiError::AssetGetFailed)
        } else {
            r == (PollOutcome::Continue {
                delay_ms: ((POLL_BASE_DELAY_MS as int) * ((old(state).attempts + 1) * (old(
                    state,
                ).attempts + 1))) as u64,
            })
        }),
        event is InProgress && old(state).attempts >= MAX_POLL_ATTEMPTS ==> *final (state) == *old(state) && r == PollOutcome::Failed(RobloxApiError::AssetGetFailed),
        event matches PollEvent::Ready(s) ==> *final (state) == *old(state) && r
            == spec_ready_outcome(s@),
        event matches PollEvent::Failed(f) ==> *final (state) == *old(state) && r
            == PollOutcome::Failed(crate::api::spec_cloud_failure_error(f)),
{
    match event {
        PollEvent::InProgress => {
            if state.attempts >= MAX_POLL_ATTEMPTS {
                return PollOutcome::Failed(RobloxApiError::AssetGetFailed);
            }
            state.attempts = state.attempts + 1;
            if state.attempts == MAX_POLL_ATTEMPTS {
                PollOutcome::Failed(RobloxApiError::AssetGetFailed)
            } else {
                let a = state.attempts as u64;
                proof {
                    assert(a <= 4);
                    assert(a * a <= 16) by (nonlinear_arith)
                        requires
                            a <= 4,
                    ;
                }
                PollOutcome::Continue { delay_ms: POLL_BASE_DELAY_MS * (a * a) }
            }
        },
        PollEvent::Ready(s) => {
            match parse_u64(s.as_str()) {
                Some(v) => PollOutcome::Done(
                    UploadResponse { asset_id: v, backing_asset_id: v },
                ),
                None => PollOutcome::Failed(RobloxApiError::AssetGetFailed),
            }
        },
        PollEvent::Failed(f) => PollOutcome::Failed(RobloxApiError::from_rbx_cloud(f)),
    }
}

/// How the polling state machine consumes a pre-recorded sequence of
/// poll results, starting with `attempts` fruitless polls already
/// counted: the number of polls made and the final outcome. A script
/// that runs out reads as exhaustion.
pub open spec fn spec_poll_run(events: Seq<PollEvent>, attempts: int) -> (
    int,
    Result<UploadResponse, RobloxApiError>,
)
    decreases events.len(),
{
    if events.len() == 0 {
        (0, Err(RobloxApiError::AssetGetFailed))
    } else {
        match events[0] {
            PollEvent::InProgress => {
                if attempts + 1 >= MAX_POLL_ATTEMPTS {
                    (1, Err(RobloxApiError::AssetGetFailed))
                } else {
                    let rest = spec_poll_run(events.skip(1), attempts + 1);
                    (1 + rest.0, rest.1)
                }
            },
            PollEvent::Ready(s) => (
                1,
                match spec_ready_outcome(s@) {
                    PollOutcome::Done(resp) => Ok(resp),
                    _ => Err(RobloxApiError::AssetGetFailed),
                },
            ),
            PollEvent::Failed(f) => (1, Err(crate::api::spec_cloud_failure_error(f))),
        }
    }
}

/// Runs the polling state machine over a pre-recorded sequence of poll
/// results, returning how many polls were made and the outcome.
#[verifier::loop_isolation(false)]
pub fn run_scripted_polls(events: Vec<PollEvent>) -> (r: (
    usize,
    Result<UploadResponse, RobloxApiError>,
))
    ensures
        r.0 == spec_poll_run(events@, 0).0,
        r.1 == spec_poll_run(events@, 0).1,
{
    let ghost orig = events@;
    let mut rest = events;
    let mut state = PollState { attempts: 0 };
    let mut i: usize = 0;
    while rest.len() > 0
        invariant
            0 <= i,
            state.attempts == i,
            i < MAX_POLL_ATTEMPTS,
            spec_poll_run(orig, 0).0 == i + spec_poll_run(rest@, i as int).0,
            spec_poll_run(orig, 0).1 == spec_poll_run(rest@, i as int).1,
        decreases rest@.len(),
    {
        let ghost pre = rest@;
        let ev = rest.remove(0);
        proof {
            assert(ev == pre[0]);
            assert(rest@ =~= pre.skip(1));
        }
        let ghost gev = ev;
        let ghost pre_attempts = state.attempts;
        let outcome = poll_step(&mut state, ev);
        match outcome {
            PollOutcome::Continue { .. } => {
                proof {
                    assert(gev is InProgress);
                    assert(state.attempts == pre_attempts + 1);
                    assert(spec_poll_run(pre, i as int).0 == 1 + spec_poll_run(
                        rest@,
                        i + 1,
                    ).0);
                    assert(spec_poll_run(pre, i as int).1 == spec_poll_run(rest@, i + 1).1);
                }
                i = i + 1;
            },
            PollOutcome::Done(resp) => {
                proof {
                    assert(gev is Ready);
                    assert(spec_poll_run(pre, i as int).0 == 1);
                    assert(spec_poll_run(pre, i as int).1 == Ok::<
                        UploadResponse,
                        RobloxApiError,
                    >(resp));
                }
                return (i + 1, Ok(resp));
            },
            PollOutcome::Failed(e) => {
                proof {
                    assert(spec_poll_run(pre, i as int).0 == 1);
                    assert(spec_poll_run(pre, i as int).1 == Err::<
                        UploadResponse,
                        RobloxApiError,
                    >(e));
                }
                return (i + 1, Err(e));
            },
        }
    }
    (i, Err(RobloxApiError::AssetGetFailed))
}

/// An operation that never leaves "in progress" is polled exactly
/// `MAX_POLL_ATTEMPTS` times and then fails with `AssetGetFailed`.
pub proof fn lemma_poll_exhaustion(events: Seq<PollEvent>)
    requires
        events.len() >= MAX_POLL_ATTEMPTS,
        forall|i: int| 0 <= i < events.len() ==> (#[trigger] events[i]) is InProgress,
    ensures
        spec_poll_run(events, 0).0 == MAX_POLL_ATTEMPTS,
        spec_poll_run(events, 0).1 == Err::<UploadResponse, RobloxApiError>(
            RobloxApiError::AssetGetFailed,
        ),
{
    lemma_poll_exhaustion_from(events, 0);
}

/// The general form: with `a` fruitless polls already counted, the rest
/// exhaust after the remaining budget.
proof fn lemma_poll_exhaustion_from(events: Seq<PollEvent>, a: int)
    requires
        0 <= a < MAX_POLL_ATTEMPTS,
        events.len() >= MAX_POLL_ATTEMPTS - a,
        forall|i: int| 0 <= i < events.len() ==> (#[trigger] events[i]) is InProgress,
    ensures
        spec_poll_run(events, a).0 == MAX_POLL_ATTEMPTS - a,
        spec_poll_run(events, a).1 == Err::<UploadResponse, RobloxApiError>(
            RobloxApiError::AssetGetFailed,
        ),
    decreases MAX_POLL_ATTEMPTS - a,
{
    if a + 1 < MAX_POLL_ATTEMPTS {
        assert forall|i: int| 0 <= i < events.skip(1).len() implies (#[trigger] events.skip(
            1,
        )[i]) is InProgress by {
            assert(events.skip(1)[i] == events[i + 1]);
        }
        lemma_poll_exhaustion_from(events.skip(1), a + 1);
    }
}

/// An operation that reports "in progress" `k` times (fewer than the
/// budget) and then resolves to a numeric id is polled exactly `k + 1`
/// times and yields that id for both the asset and its backing asset.
pub proof fn lemma_poll_resolves(events: Seq<PollEvent>, k: int)
    requires
        0 <= k < MAX_POLL_ATTEMPTS,
        k < events.len(),
        forall|i: int| 0 <= i < k ==> (#[trigger] events[i]) is InProgress,
        events[k] is Ready,
        spec_ready_outcome(events[k]->Ready_0@) is Done,
    ensures
        spec_poll_run(events, 0).0 == k + 1,
        spec_poll_run(events, 0).1 == Ok::<UploadResponse, RobloxApiError>(
            spec_ready_outcome(events[k]->Ready_0@)->Done_0,
        ),
{
    lemma_poll_resolves_from(events, k, 0);
}

/// The general form: with `a` fruitless polls already counted and room
/// in the budget, `k` more "in progress" polls and a numeric resolution
/// take `k + 1` polls.
proof fn lemma_poll_resolves_from(events: Seq<PollEvent>, k: int, a: int)
    requires
        0 <= a,
        0 <= k,
        a + k < MAX_POLL_ATTEMPTS,
        k < events.len(),
        forall|i: int| 0 <= i < k ==> (#[trigger] events[i]) is InProgress,
        events[k] is Ready,
        spec_ready_outcome(events[k]->Ready_0@) is Done,
    ensures
        spec_poll_run(events, a).0 == k + 1,
        spec_poll_run(events, a).1 == Ok::<UploadResponse, RobloxApiError>(
            spec_ready_outcome(events[k]->Ready_0@)->Done_0,
        ),
    decreases k,
{
    if k > 0 {
        assert(events[0] is InProgress);
        assert forall|i: int| 0 <= i < k - 1 implies (#[trigger] events.skip(1)[i])
            is InProgress by {
            assert(events.skip(1)[i] == events[i + 1]);
        }
        assert(events.skip(1)[k - 1] == events[k]);
        lemma_poll_resolves_from(events.skip(1), k - 1, a + 1);
    }
}

} // verus!
