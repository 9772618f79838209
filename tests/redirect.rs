use clip_redirect::handler::{begin, not_found_message, step, Action, Event, HandlerError, Stage};
use clip_redirect::routing::clip_id_from;
use clip_redirect::twitch::{
    media_url_text, Client, Clip, LookupError, MediaUrlError, TwitchClientSetup,
};

fn setup() -> TwitchClientSetup {
    TwitchClientSetup::new("my-id".to_string(), "my-secret".to_string())
}

fn clip(thumbnail_url: &str) -> Clip {
    Clip { thumbnail_url: thumbnail_url.to_string() }
}

fn looking_up() -> Stage {
    let (stage, _) = step(begin("clips.example.com".to_string(), "/abc".to_string()), Event::CacheMiss { setup: setup() });
    let (stage, _) = step(stage, Event::TokenGranted { access_token: "tok".to_string() });
    assert!(matches!(stage, Stage::LookingUp { .. }));
    stage
}

#[test]
fn media_text_strips_marker_and_suffix() {
    assert_eq!(
        media_url_text("https://clips-media.example.com/abc-preview-480x272.jpg"),
        Some("https://clips-media.example.com/abc.mp4".to_string())
    );
}

#[test]
fn media_text_without_marker_is_none() {
    assert_eq!(media_url_text("https://clips-media.example.com/abc-480x272.jpg"), None);
    assert_eq!(media_url_text(""), None);
    assert_eq!(media_url_text("-previe"), None);
}

#[test]
fn media_text_uses_last_marker() {
    assert_eq!(
        media_url_text("https://a-preview.example.com/abc-preview-480x272.jpg"),
        Some("https://a-preview.example.com/abc.mp4".to_string())
    );
    assert_eq!(media_url_text("x-preview-preview"), Some("x-preview.mp4".to_string()));
}

#[test]
fn media_url_parses_derived_text() {
    let url = clip("https://clips-media.example.com/abc-preview-480x272.jpg").media_url().unwrap();
    assert_eq!(url.as_str(), "https://clips-media.example.com/abc.mp4");
}

#[test]
fn media_url_errors() {
    assert_eq!(
        clip("https://clips-media.example.com/abc.jpg").media_url().unwrap_err(),
        MediaUrlError::MalformedThumbnail
    );
    assert_eq!(clip("not a url-preview.jpg").media_url().unwrap_err(), MediaUrlError::InvalidUrl);
}

#[test]
fn clip_id_from_conventions() {
    assert_eq!(clip_id_from("clips.example.com", "/abc123"), Some("abc123".to_string()));
    assert_eq!(clip_id_from("www.example.com", "/foo/bar/abc123"), Some("abc123".to_string()));
    assert_eq!(clip_id_from("other.example.com", "/abc123"), None);
    assert_eq!(clip_id_from("clips", "/a/b"), Some("a/b".to_string()));
    assert_eq!(clip_id_from("clipsx.example.com", "/abc123"), None);
    assert_eq!(clip_id_from("www.example.com", "abc"), Some("abc".to_string()));
}

#[test]
fn clip_id_from_rejects_empty() {
    assert_eq!(clip_id_from("clips.example.com", "/"), None);
    assert_eq!(clip_id_from("clips.example.com", ""), None);
    assert_eq!(clip_id_from("www.example.com", "/foo/clip/"), None);
}

#[test]
fn auth_body_encodes_credentials() {
    assert_eq!(
        setup().auth_body(),
        "client_id=my-id&client_secret=my-secret&grant_type=client_credentials"
    );
}

#[test]
fn clips_request_carries_headers() {
    let client = Client::authenticated(setup(), "tok".to_string());
    let request = client.clips_request("abc");
    assert_eq!(request.url, "https://api.twitch.tv/helix/clips?id=abc");
    assert_eq!(request.client_id, "my-id");
    assert_eq!(request.authorization, "Bearer tok");
}

#[test]
fn single_clip_requires_exactly_one() {
    assert_eq!(Client::single_clip(vec![]).unwrap_err(), LookupError::UnexpectedClipCount);
    assert_eq!(
        Client::single_clip(vec![clip("a-preview.jpg"), clip("b-preview.jpg")]).unwrap_err(),
        LookupError::UnexpectedClipCount
    );
    assert_eq!(Client::single_clip(vec![clip("a-preview.jpg")]).unwrap().thumbnail_url, "a-preview.jpg");
}

#[test]
fn cache_hit_returns_cached() {
    let stage = begin("clips.example.com".to_string(), "/abc".to_string());
    let (stage, action) = step(stage, Event::CacheHit);
    assert!(matches!(action, Action::ReturnCached));
    assert!(matches!(stage, Stage::Done));
    let (_, action) = step(stage, Event::TokenGranted { access_token: "tok".to_string() });
    assert!(matches!(action, Action::Fail { error: HandlerError::OutOfOrder }));
}

#[test]
fn empty_id_gives_not_found() {
    let stage = begin("clips.example.com".to_string(), "/".to_string());
    let (stage, action) = step(stage, Event::CacheMiss { setup: setup() });
    assert!(matches!(action, Action::NotFound));
    assert!(matches!(stage, Stage::Done));
    let stage = begin("other.example.com".to_string(), "/abc".to_string());
    let (_, action) = step(stage, Event::CacheMiss { setup: setup() });
    assert!(matches!(action, Action::NotFound));
}

#[test]
fn cache_miss_authenticates_then_looks_up() {
    let stage = begin("www.example.com".to_string(), "/chan/clip/Xyz".to_string());
    let (stage, action) = step(stage, Event::CacheMiss { setup: setup() });
    match action {
        Action::RequestToken { request } => {
            assert_eq!(request.url, "https://id.twitch.tv/oauth2/token");
            assert_eq!(request.content_type, "application/x-www-form-urlencoded");
            assert_eq!(request.body, "client_id=my-id&client_secret=my-secret&grant_type=client_credentials")
        }
        other => panic!("unexpected action {:?}", other),
    }
    let (stage, action) = step(stage, Event::TokenGranted { access_token: "tok".to_string() });
    match action {
        Action::RequestClips { request } => {
            assert_eq!(request.url, "https://api.twitch.tv/helix/clips?id=Xyz");
            assert_eq!(request.client_id, "my-id");
            assert_eq!(request.authorization, "Bearer tok");
        }
        other => panic!("unexpected action {:?}", other),
    }
    assert!(matches!(stage, Stage::LookingUp { .. }));
}

#[test]
fn upstream_failure_fails() {
    let stage = begin("clips.example.com".to_string(), "/abc".to_string());
    let (stage, _) = step(stage, Event::CacheMiss { setup: setup() });
    let (stage, action) = step(stage, Event::UpstreamFailed);
    assert!(matches!(action, Action::Fail { error: HandlerError::Upstream }));
    assert!(matches!(stage, Stage::Done));
}

#[test]
fn clip_count_other_than_one_fails() {
    let (_, action) = step(looking_up(), Event::ClipsFound { clips: vec![] });
    assert!(matches!(action, Action::Fail { error: HandlerError::UnexpectedClipCount }));
    let two = vec![clip("https://a.example.com/a-preview.jpg"), clip("https://a.example.com/b-preview.jpg")];
    let (_, action) = step(looking_up(), Event::ClipsFound { clips: two });
    assert!(matches!(action, Action::Fail { error: HandlerError::UnexpectedClipCount }));
}

#[test]
fn malformed_thumbnail_fails() {
    let (_, action) = step(looking_up(), Event::ClipsFound { clips: vec![clip("https://a.example.com/a.jpg")] });
    assert!(matches!(action, Action::Fail { error: HandlerError::MalformedThumbnail }));
}

#[test]
fn end_to_end_redirect() {
    let stage = begin("clips.example.com".to_string(), "/ExcitedClip123".to_string());
    let (stage, _) = step(stage, Event::CacheMiss { setup: setup() });
    let (stage, action) = step(stage, Event::TokenGranted { access_token: "tok".to_string() });
    match action {
        Action::RequestClips { request } => {
            assert_eq!(request.url, "https://api.twitch.tv/helix/clips?id=ExcitedClip123")
        }
        other => panic!("unexpected action {:?}", other),
    }
    let thumb = clip("https://clips-media.example.com/ExcitedClip123-preview-480x272.jpg");
    let (stage, action) = step(stage, Event::ClipsFound { clips: vec![thumb] });
    match action {
        Action::Redirect { location } => {
            assert_eq!(location.as_str(), "https://clips-media.example.com/ExcitedClip123.mp4")
        }
        other => panic!("unexpected action {:?}", other),
    }
    assert!(matches!(stage, Stage::Done));
}

#[test]
fn not_found_message_names_both_conventions() {
    let text = not_found_message();
    assert!(text.contains("https://www.twitch.tv/"));
    assert!(text.contains("https://clips.twitch.tv/"));
}

#[test]
fn auth_request_targets_token_endpoint() {
    let request = setup().auth_request();
    assert_eq!(request.url, "https://id.twitch.tv/oauth2/token");
    assert_eq!(request.content_type, "application/x-www-form-urlencoded");
    assert_eq!(request.body, "client_id=my-id&client_secret=my-secret&grant_type=client_credentials");
}

#[test]
fn media_url_cuts_at_last_marker() {
    let thumb = "https://clips-media.example.com/a-preview/ExcitedClip123-preview-480x272.jpg";
    let url = clip(thumb).media_url().unwrap();
    assert_eq!(url.as_str(), "https://clips-media.example.com/a-preview/ExcitedClip123.mp4");
    let url = clip("https://clips-media.example.com/ExcitedClip123-preview-480x272.jpg").media_url().unwrap();
    assert_eq!(url.as_str(), "https://clips-media.example.com/ExcitedClip123.mp4");
}

#[test]
fn media_url_ignores_suffix_after_marker() {
    let a = clip("https://clips-media.example.com/abc-preview-480x272.jpg").media_url().unwrap();
    let b = clip("https://clips-media.example.com/abc-preview-86x45.jpg").media_url().unwrap();
    assert_eq!(a, b);
}
