use vstd::prelude::*;
use vstd::string::*;
use worker::Url;

verus! {

/// The marker that ends the clip's name in a thumbnail address.
pub open spec fn preview_marker() -> Seq<char> {
    seq!['-', 'p', 'r', 'e', 'v', 'i', 'e', 'w']
}

/// The extension of the clip's media file.
pub open spec fn media_extension() -> Seq<char> {
    seq!['.', 'm', 'p', '4']
}

/// `m` stands in `s` starting at index `i`.
pub open spec fn occurs_at(s: Seq<char>, m: Seq<char>, i: int) -> bool {
    0 <= i && i + m.len() <= s.len() && s.subrange(i, i + m.len()) == m
}

/// `i` is the last index at which `m` stands in `s`.
pub open spec fn is_last_occurrence(s: Seq<char>, m: Seq<char>, i: int) -> bool {
    &&& occurs_at(s, m, i)
    &&& forall|j: int| i < j ==> !#[trigger] occurs_at(s, m, j)
}

/// The media address for a thumbnail address: all before the last marker,
/// followed by the media extension; none where the marker is absent.
pub open spec fn media_text_of(thumb: Seq<char>) -> Option<Seq<char>> {
    if exists|i: int| occurs_at(thumb, preview_marker(), i) {
        let i = choose|i: int| is_last_occurrence(thumb, preview_marker(), i);
        Some(thumb.subrange(0, i) + media_extension())
    } else {
        None
    }
}

/// An absolute URL as the url crate parses it; opaque here.
#[verifier::external_type_specification]
#[verifier::external_body]
pub struct ExUrl(Url);

/// The URL that the URL parser makes of a text, if it accepts the text as
/// an absolute URL.
pub uninterp spec fn parsed_url(s: Seq<char>) -> Option<Url>;

/// Relies on url::Url::parse (re-exported by worker): its result depends on
/// the text alone.
#[verifier::external_body]
fn parse_url(s: &str) -> (r: Option<Url>)
    ensures
        r == parsed_url(s@),
{
    Url::parse(s).ok()
}

/// Why no media address could be given for a clip.
#[derive(Debug, Clone, Copy, PartialEq, Eq)]
pub enum MediaUrlError {
    /// The thumbnail address lacks the preview marker.
    MalformedThumbnail,
    /// The derived text is not an absolute URL.
    InvalidUrl,
}

/// The clip fields that the service reads from the platform.
#[derive(Debug)]
pub struct Clip {
    pub thumbnail_url: String,
}

/// The application's credentials with the platform.
#[derive(Debug)]
pub struct TwitchClientSetup {
    pub client_id: String,
    pub client_secret: String,
}

/// A client of the clips endpoint: the application's identifier and a bearer token.
#[derive(Debug)]
pub struct Client {
    pub client_id: String,
    pub access_token: String,
}

/// What is posted to the token endpoint to obtain a bearer token.
#[derive(Debug)]
pub struct TokenRequest {
    pub url: String,
    pub content_type: String,
    pub body: String,
}

/// What is sent to the clips endpoint to look up one clip.
#[derive(Debug)]
pub struct ClipsRequest {
    pub url: String,
    pub client_id: String,
    pub authorization: String,
}

/// Why the clips endpoint's answer names no single clip.
#[derive(Debug, Clone, Copy, PartialEq, Eq)]
pub enum LookupError {
    /// The answer's data does not hold exactly one clip.
    UnexpectedClipCount,
}

/// The form-encoded body of a client-credentials token request.
pub open spec fn auth_body_of(client_id: Seq<char>, client_secret: Seq<char>) -> Seq<char> {
    "client_id="@ + client_id + "&client_secret="@ + client_secret
        + "&grant_type=client_credentials"@
}

/// The address of the token endpoint.
pub open spec fn token_url() -> Seq<char> {
    "https://id.twitch.tv/oauth2/token"@
}

/// The content type of a token request.
pub open spec fn form_content_type() -> Seq<char> {
    "application/x-www-form-urlencoded"@
}

/// The address of the clips endpoint for one clip.
pub open spec fn clips_url_of(id: Seq<char>) -> Seq<char> {
    "https://api.twitch.tv/helix/clips?id="@ + id
}

/// The authorization header value for a bearer token.
pub open spec fn bearer_of(token: Seq<char>) -> Seq<char> {
    "Bearer "@ + token
}

impl TwitchClientSetup {
    pub fn new(client_id: String, client_secret: String) -> (r: Self)
        ensures
            r.client_id@ == client_id@,
            r.client_secret@ == client_secret@,
    {
        TwitchClientSetup { client_id, client_secret }
    }

    /// The body of the token request for these credentials.
    pub fn auth_body(&self) -> (r: String)
        ensures
            r@ == auth_body_of(self.client_id@, self.client_secret@),
    {
        let mut body = "client_id=".to_owned();
        body.append(self.client_id.as_str());
        body.append("&client_secret=");
        body.append(self.client_secret.as_str());
        body.append("&grant_type=client_credentials");
        proof {
            assert(body@ =~= auth_body_of(self.client_id@, self.client_secret@));
        }
        body
    }

    /// The token request for these credentials.
    pub fn auth_request(&self) -> (r: TokenRequest)
        ensures
            r.url@ == token_url(),
            r.content_type@ == form_content_type(),
            r.body@ == auth_body_of(self.client_id@, self.client_secret@),
    {
        let url = "https://id.twitch.tv/oauth2/token".to_owned();
        let content_type = "application/x-www-form-urlencoded".to_owned();
        let body = self.auth_body();
        TokenRequest { url, content_type, body }
    }
}

impl Client {
    /// The client for these credentials once the token endpoint granted `access_token`.
    pub fn authenticated(setup: TwitchClientSetup, access_token: String) -> (r: Self)
        ensures
            r.client_id@ == setup.client_id@,
            r.access_token@ == access_token@,
    {
        Client { client_id: setup.client_id, access_token }
    }

    /// The request that looks up the clip `id`.
    pub fn clips_request(&self, id: &str) -> (r: ClipsRequest)
        ensures
            r.url@ == clips_url_of(id@),
            r.client_id@ == self.client_id@,
            r.authorization@ == bearer_of(self.access_token@),
    {
        let mut url = "https://api.twitch.tv/helix/clips?id=".to_owned();
        url.append(id);
        let mut authorization = "Bearer ".to_owned();
        authorization.append(self.access_token.as_str());
        let client_id = self.client_id.as_str().to_owned();
        ClipsRequest { url, client_id, authorization }
    }

    /// The one clip of the clips endpoint's answer; any other count is an error.
    pub fn single_clip(clips: Vec<Clip>) -> (r: Result<Clip, LookupError>)
        ensures
            r is Ok <==> clips@.len() == 1,
            r is Ok ==> r.unwrap().thumbnail_url@ == clips@[0].thumbnail_url@,
            r is Err ==> r == Err::<Clip, LookupError>(LookupError::UnexpectedClipCount),
    {
        let mut clips = clips;
        if clips.len() != 1 {
            return Err(LookupError::UnexpectedClipCount);
        }
        let clip = clips.pop().unwrap();
        Ok(clip)
    }
}

/// Only the first character of the marker is a dash.
proof fn lemma_marker_dash_only_first(k: int)
    requires
        0 < k < preview_marker().len(),
    ensures
        preview_marker()[k] != '-',
{
    let m = preview_marker();
    assert(m[1] == 'p' && m[2] == 'r' && m[3] == 'e' && m[4] == 'v');
    assert(m[5] == 'i' && m[6] == 'e' && m[7] == 'w');
}

proof fn lemma_no_marker_after(prefix: Seq<char>, suffix: Seq<char>, j: int)
    requires
        forall|j: int| !#[trigger] occurs_at(suffix, preview_marker(), j),
        prefix.len() < j,
    ensures
        !occurs_at(prefix + preview_marker() + suffix, preview_marker(), j),
{
    let m = preview_marker();
    let s = prefix + m + suffix;
    let p = prefix.len() as int;
    if occurs_at(s, m, j) {
        if j < p + m.len() {
            lemma_marker_dash_only_first(j - p);
            assert(s.subrange(j, j + m.len())[0] == m[0]);
            assert(s[j] == m[j - p]);
        } else {
            let k = j - p - m.len();
            assert(suffix.subrange(k, k + m.len()) =~= s.subrange(j, j + m.len()));
            assert(occurs_at(suffix, m, k));
        }
    }
}

/// A thumbnail address `prefix + "-preview" + suffix`, where the suffix holds
/// no further marker, gives the media address `prefix + ".mp4"`, whatever the
/// prefix holds, markers included: the last marker decides.
pub proof fn lemma_media_text_of_marked(prefix: Seq<char>, suffix: Seq<char>)
    requires
        forall|j: int| !#[trigger] occurs_at(suffix, preview_marker(), j),
    ensures
        media_text_of(prefix + preview_marker() + suffix) == Some(prefix + media_extension()),
{
    let m = preview_marker();
    let s = prefix + m + suffix;
    let p = prefix.len() as int;
    assert(s.subrange(p, p + m.len()) =~= m);
    assert(occurs_at(s, m, p));
    assert forall|j: int| p < j implies !#[trigger] occurs_at(s, m, j) by {
        lemma_no_marker_after(prefix, suffix, j);
    }
    assert(is_last_occurrence(s, m, p));
    let i = choose|i: int| is_last_occurrence(s, m, i);
    if i < p {
        assert(!occurs_at(s, m, p));
    } else if i > p {
        assert(!occurs_at(s, m, i));
    }
    assert(s.subrange(0, p) =~= prefix);
}

/// Two thumbnail addresses that differ only after their last marker give the
/// same media address.
pub proof fn lemma_media_text_ignores_suffix(prefix: Seq<char>, s1: Seq<char>, s2: Seq<char>)
    requires
        forall|j: int| !#[trigger] occurs_at(s1, preview_marker(), j),
        forall|j: int| !#[trigger] occurs_at(s2, preview_marker(), j),
    ensures
        media_text_of(prefix + preview_marker() + s1) == media_text_of(
            prefix + preview_marker() + s2,
        ),
{
    lemma_media_text_of_marked(prefix, s1);
    lemma_media_text_of_marked(prefix, s2);
}

/// A thumbnail address without the marker gives no media address.
pub proof fn lemma_media_text_of_unmarked(thumb: Seq<char>)
    requires
        forall|j: int| !#[trigger] occurs_at(thumb, preview_marker(), j),
    ensures
        media_text_of(thumb) is None,
{
}

/// Whether `m` stands in `s` at index `i`.
pub(crate) fn matches_at(s: &str, n: usize, m: &str, mlen: usize, i: usize) -> (r: bool)
    requires
        n == s@.len(),
        mlen == m@.len(),
        i + mlen <= n,
    ensures
        r == occurs_at(s@, m@, i as int),
{
    let mut k: usize = 0;
    while k < mlen
        invariant
            n == s@.len(),
            mlen == m@.len(),
            i + mlen <= n,
            k <= mlen,
            forall|t: int| 0 <= t < k ==> s@[i + t] == m@[t],
        decreases mlen - k,
    {
        if s.get_char(i + k) != m.get_char(k) {
            assert(s@.subrange(i as int, i + mlen)[k as int] != m@[k as int]);
            return false;
        }
        k += 1;
    }
    assert(s@.subrange(i as int, i + mlen) =~= m@);
    true
}

/// The last index at which `m` stands in `s`, if any.
fn last_occurrence(s: &str, m: &str) -> (r: Option<usize>)
    ensures
        r is Some ==> is_last_occurrence(s@, m@, r.unwrap() as int),
        r is None ==> forall|j: int| !#[trigger] occurs_at(s@, m@, j),
{
    let n = s.unicode_len();
    let mlen = m.unicode_len();
    if mlen > n {
        return None;
    }
    let mut i: usize = n - mlen;
    loop
        invariant
            n == s@.len(),
            mlen == m@.len(),
            mlen <= n,
            i <= n - mlen,
            forall|j: int| i < j ==> !#[trigger] occurs_at(s@, m@, j),
        decreases i,
    {
        if matches_at(s, n, m, mlen, i) {
            return Some(i);
        }
        if i == 0 {
            assert(forall|j: int| j < 0 ==> !#[trigger] occurs_at(s@, m@, j));
            return None;
        }
        i -= 1;
    }
}

/// The text of the media address for a thumbnail address.
pub fn media_url_text(thumbnail_url: &str) -> (r: Option<String>)
    ensures
        r is Some <==> media_text_of(thumbnail_url@) is Some,
        r is Some ==> media_text_of(thumbnail_url@) == Some(r.unwrap()@),
{
    let marker = "-preview";
    proof {
        reveal_strlit("-preview");
        assert(marker@ =~= preview_marker());
    }
    match last_occurrence(thumbnail_url, marker) {
        None => None,
        Some(i) => {
            let ghost s = thumbnail_url@;
            proof {
                let k = choose|k: int| is_last_occurrence(s, preview_marker(), k);
                if k < i {
                    assert(!occurs_at(s, preview_marker(), i as int));
                } else if k > i {
                    assert(!occurs_at(s, preview_marker(), k));
                }
            }
            let mut text = thumbnail_url.substring_char(0, i).to_owned();
            text.append(".mp4");
            proof {
                reveal_strlit(".mp4");
                assert(text@ =~= s.subrange(0, i as int) + media_extension());
            }
            Some(text)
        },
    }
}

impl Clip {
    /// The address of the clip's media file, derived from its thumbnail address.
    pub fn media_url(&self) -> (r: Result<Url, MediaUrlError>)
        ensures
            match media_text_of(self.thumbnail_url@) {
                None => r == Err::<Url, MediaUrlError>(MediaUrlError::MalformedThumbnail),
                Some(t) => match parsed_url(t) {
                    Some(url) => r == Ok::<Url, MediaUrlError>(url),
                    None => r == Err::<Url, MediaUrlError>(MediaUrlError::InvalidUrl),
                },
            },
    {
        match media_url_text(self.thumbnail_url.as_str()) {
            None => Err(MediaUrlError::MalformedThumbnail),
            Some(text) => match parse_url(text.as_str()) {
                Some(url) => Ok(url),
                None => Err(MediaUrlError::InvalidUrl),
            },
        }
    }
}

} // verus!
