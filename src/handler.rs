use vstd::prelude::*;
use worker::Url;
use crate::routing::{clip_id_from, clip_id_of};
use crate::twitch::{
    auth_body_of, bearer_of, clips_url_of, form_content_type, media_text_of, parsed_url, token_url,
    Client, Clip, ClipsRequest, MediaUrlError, TokenRequest, TwitchClientSetup,
};

verus! {

/// Where one inbound request stands. Each request runs through the stages
/// in this order and never returns to an earlier one.
#[derive(Debug)]
pub enum Stage {
    /// The response cache is being asked for the inbound request.
    CheckingCache { host: String, path: String },
    /// A token is being requested for the clip `clip_id`.
    Authenticating { clip_id: String, setup: TwitchClientSetup },
    /// The clip `clip_id` is being looked up.
    LookingUp { client: Client, clip_id: String },
    /// The request has its response.
    Done,
}

/// What the outside work of the last action brought back.
#[derive(Debug)]
pub enum Event {
    CacheHit,
    /// The cache holds no answer; the application's credentials, read now.
    CacheMiss { setup: TwitchClientSetup },
    TokenGranted { access_token: String },
    ClipsFound { clips: Vec<Clip> },
    UpstreamFailed,
}

/// Why a request ends without a redirect to the clip's media.
#[derive(Debug, Clone, Copy, PartialEq, Eq)]
pub enum HandlerError {
    /// The token or clips endpoint failed or answered in an unexpected shape.
    Upstream,
    /// The clips endpoint did not answer with exactly one clip.
    UnexpectedClipCount,
    /// The clip's thumbnail address lacks the preview marker.
    MalformedThumbnail,
    /// The derived media address is not an absolute URL.
    InvalidMediaUrl,
    /// An event came that the stage does not wait for.
    OutOfOrder,
}

/// What is to be done next for the request.
#[derive(Debug)]
pub enum Action {
    /// Answer with the cached response.
    ReturnCached,
    /// Answer 404 with the message on the supported link conventions.
    NotFound,
    /// Post `request` to the token endpoint.
    RequestToken { request: TokenRequest },
    /// Send `request` to the clips endpoint.
    RequestClips { request: ClipsRequest },
    /// Answer with a redirect to `location`, and store that answer in the cache
    /// in the background.
    Redirect { location: Url },
    /// Answer with a generic error.
    Fail { error: HandlerError },
}

/// The body of the 404 answer: the two supported link conventions.
pub open spec fn not_found_text() -> Seq<char> {
    "No clip was found at this address.\n\nReplace the domain of a clip link as follows:\n  https://www.twitch.tv/<channel>/clip/<clip> becomes https://www.<this domain>/<channel>/clip/<clip>\n  https://clips.twitch.tv/<clip> becomes https://clips.<this domain>/<clip>\n\nIf you think this is a mistake, please open an issue with the link you used.\n"@
}

/// The body of the 404 answer.
pub fn not_found_message() -> (r: String)
    ensures
        r@ == not_found_text(),
{
    "No clip was found at this address.\n\nReplace the domain of a clip link as follows:\n  https://www.twitch.tv/<channel>/clip/<clip> becomes https://www.<this domain>/<channel>/clip/<clip>\n  https://clips.twitch.tv/<clip> becomes https://clips.<this domain>/<clip>\n\nIf you think this is a mistake, please open an issue with the link you used.\n".to_owned()
}

/// The position of a stage in the order of stages.
pub open spec fn rank(stage: Stage) -> int {
    match stage {
        Stage::CheckingCache { .. } => 0,
        Stage::Authenticating { .. } => 1,
        Stage::LookingUp { .. } => 2,
        Stage::Done => 3,
    }
}

/// What every step does to the stage, by the action it gives.
pub open spec fn step_shape(before: Stage, after: Stage, action: Action) -> bool {
    &&& rank(after) > rank(before) || (before is Done && after is Done)
    &&& action is RequestToken ==> before is CheckingCache && after is Authenticating
    &&& action is RequestClips ==> before is Authenticating && after is LookingUp
    &&& action is Redirect ==> before is LookingUp
    &&& action is ReturnCached ==> before is CheckingCache
    &&& (after is Done <==> !(action is RequestToken || action is RequestClips))
}

/// `stages` and `actions` are a run of steps: the action `actions[i]` leads
/// from `stages[i]` to `stages[i + 1]`.
pub open spec fn is_run(stages: Seq<Stage>, actions: Seq<Action>) -> bool {
    &&& stages.len() == actions.len() + 1
    &&& forall|i: int| 0 <= i < actions.len() ==> step_shape(stages[i], stages[i + 1], #[trigger] actions[i])
}

proof fn lemma_rank_grows(stages: Seq<Stage>, actions: Seq<Action>, a: int, b: int)
    requires
        is_run(stages, actions),
        0 <= a <= b < stages.len(),
    ensures
        rank(stages[a]) + (b - a) <= rank(stages[b]) || rank(stages[b]) == 3,
        rank(stages[a]) <= rank(stages[b]),
    decreases b - a,
{
    if a < b {
        lemma_rank_grows(stages, actions, a, b - 1);
        assert(step_shape(stages[b - 1], stages[b], actions[b - 1]));
    }
}

/// On a cache hit the request is answered from the cache: no later step of
/// the run asks the token or clips endpoint.
pub proof fn lemma_cache_hit_skips_upstream(stages: Seq<Stage>, actions: Seq<Action>, i: int)
    requires
        is_run(stages, actions),
        actions.len() > 0,
        actions[0] is ReturnCached,
        0 <= i < actions.len(),
    ensures
        !(actions[i] is RequestToken),
        !(actions[i] is RequestClips),
{
    assert(step_shape(stages[0], stages[1], actions[0]));
    lemma_rank_grows(stages, actions, 1, i + 1);
    assert(step_shape(stages[i], stages[i + 1], actions[i]));
    if i > 0 {
        lemma_rank_grows(stages, actions, 1, i);
    }
}

/// Each request asks the token endpoint at most once and the clips endpoint
/// at most once, and the clips endpoint only after the token endpoint.
pub proof fn lemma_one_token_then_one_lookup(stages: Seq<Stage>, actions: Seq<Action>, i: int, j: int)
    requires
        is_run(stages, actions),
        0 <= i < actions.len(),
        0 <= j < actions.len(),
    ensures
        actions[i] is RequestToken && actions[j] is RequestToken ==> i == j,
        actions[i] is RequestClips && actions[j] is RequestClips ==> i == j,
        actions[i] is RequestToken && actions[j] is RequestClips ==> i < j,
{
    assert(step_shape(stages[i], stages[i + 1], actions[i]));
    assert(step_shape(stages[j], stages[j + 1], actions[j]));
    if i < j {
        lemma_rank_grows(stages, actions, i + 1, j);
    } else if j < i {
        lemma_rank_grows(stages, actions, j + 1, i);
    }
}

/// A request that ends in a redirect asked the token endpoint, then the clips
/// endpoint, each once, before it.
pub proof fn lemma_redirect_after_token_and_lookup(stages: Seq<Stage>, actions: Seq<Action>, k: int)
    requires
        is_run(stages, actions),
        stages[0] is CheckingCache,
        0 <= k < actions.len(),
        actions[k] is Redirect,
    ensures
        k == 2,
        actions[0] is RequestToken,
        actions[1] is RequestClips,
{
    assert(step_shape(stages[k], stages[k + 1], actions[k]));
    lemma_rank_grows(stages, actions, 0, k);
    lemma_rank_grows(stages, actions, 0, k - 1);
    assert(step_shape(stages[k - 1], stages[k], actions[k - 1]));
    assert(step_shape(stages[k - 2], stages[k - 1], actions[k - 2]));
}

/// The first stage of an inbound request with this host and path.
pub fn begin(host: String, path: String) -> (r: Stage)
    ensures
        r matches Stage::CheckingCache { host: h, path: p } && h@ == host@ && p@ == path@,
{
    Stage::CheckingCache { host, path }
}

fn fail(error: HandlerError) -> (r: (Stage, Action))
    ensures
        r.0 is Done,
        r.1 == (Action::Fail { error }),
{
    (Stage::Done, Action::Fail { error })
}

/// The next stage and action, given the outcome of the last action.
pub fn step(stage: Stage, event: Event) -> (r: (Stage, Action))
    ensures
        step_shape(stage, r.0, r.1),
        stage is Done ==> r.1 == (Action::Fail { error: HandlerError::OutOfOrder }),
        !(stage is Done) && event is UpstreamFailed ==> r.1 == (Action::Fail {
            error: HandlerError::Upstream,
        }),
        stage is CheckingCache && event is CacheHit ==> r.1 is ReturnCached,
        match (stage, event) {
            (Stage::CheckingCache { host, path }, Event::CacheMiss { setup }) => match clip_id_of(
                host@,
                path@,
            ) {
                None => r.1 is NotFound,
                Some(id) => match r {
                    (
                        Stage::Authenticating { clip_id, setup: s },
                        Action::RequestToken { request },
                    ) => {
                        &&& clip_id@ == id
                        &&& s.client_id@ == setup.client_id@
                        &&& s.client_secret@ == setup.client_secret@
                        &&& request.url@ == token_url()
                        &&& request.content_type@ == form_content_type()
                        &&& request.body@ == auth_body_of(setup.client_id@, setup.client_secret@)
                    },
                    _ => false,
                },
            },
            (Stage::Authenticating { clip_id, setup }, Event::TokenGranted { access_token }) => {
                match r {
                    (Stage::LookingUp { client, clip_id: c }, Action::RequestClips { request }) => {
                        &&& c@ == clip_id@
                        &&& client.client_id@ == setup.client_id@
                        &&& client.access_token@ == access_token@
                        &&& request.url@ == clips_url_of(clip_id@)
                        &&& request.client_id@ == setup.client_id@
                        &&& request.authorization@ == bearer_of(access_token@)
                    },
                    _ => false,
                }
            },
            (Stage::LookingUp { .. }, Event::ClipsFound { clips }) => {
                if clips@.len() != 1 {
                    r.1 == (Action::Fail { error: HandlerError::UnexpectedClipCount })
                } else {
                    match media_text_of(clips@[0].thumbnail_url@) {
                        None => r.1 == (Action::Fail { error: HandlerError::MalformedThumbnail }),
                        Some(t) => match parsed_url(t) {
                            Some(location) => r.1 == (Action::Redirect { location }),
                            None => r.1 == (Action::Fail { error: HandlerError::InvalidMediaUrl }),
                        },
                    }
                }
            },
            _ => true,
        },
        (stage is CheckingCache && !(event is CacheHit || event is CacheMiss
            || event is UpstreamFailed)) || (stage is Authenticating && !(event is TokenGranted
            || event is UpstreamFailed)) || (stage is LookingUp && !(event is ClipsFound
            || event is UpstreamFailed)) ==> r.1 == (Action::Fail {
            error: HandlerError::OutOfOrder,
        }),
{
    match (stage, event) {
        (Stage::Done, _) => fail(HandlerError::OutOfOrder),
        (_, Event::UpstreamFailed) => fail(HandlerError::Upstream),
        (Stage::CheckingCache { .. }, Event::CacheHit) => (Stage::Done, Action::ReturnCached),
        (Stage::CheckingCache { host, path }, Event::CacheMiss { setup }) => {
            match clip_id_from(host.as_str(), path.as_str()) {
                None => (Stage::Done, Action::NotFound),
                Some(clip_id) => {
                    let request = setup.auth_request();
                    (Stage::Authenticating { clip_id, setup }, Action::RequestToken { request })
                },
            }
        },
        (Stage::Authenticating { clip_id, setup }, Event::TokenGranted { access_token }) => {
            let client = Client::authenticated(setup, access_token);
            let request = client.clips_request(clip_id.as_str());
            (Stage::LookingUp { client, clip_id }, Action::RequestClips { request })
        },
        (Stage::LookingUp { .. }, Event::ClipsFound { clips }) => {
            match Client::single_clip(clips) {
                Err(_) => fail(HandlerError::UnexpectedClipCount),
                Ok(clip) => match clip.media_url() {
                    Ok(location) => (Stage::Done, Action::Redirect { location }),
                    Err(MediaUrlError::MalformedThumbnail) => fail(
                        HandlerError::MalformedThumbnail,
                    ),
                    Err(MediaUrlError::InvalidUrl) => fail(HandlerError::InvalidMediaUrl),
                },
            }
        },
        _ => fail(HandlerError::OutOfOrder),
    }
}

} // verus!
