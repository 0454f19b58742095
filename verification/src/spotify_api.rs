//! The credentials of the application and of its user, when they go stale, and
//! the steps that make them ready: resolve, refresh, or ask the user to
//! authorize the application.
//!
//! A [`SpotifyClient`] performs no file or network access. Each step hands out a
//! [`Request`] that says what to do in the outside world, and takes the outcome
//! as a [`Reply`].

use crate::local_store::app_auth_step;
use crate::local_store::app_view;
use crate::local_store::fetched_view;
use crate::local_store::persist_plan;
use crate::local_store::secret_view;
use crate::local_store::user_auth_step;
use crate::local_store::user_view;
use crate::local_store::AppAuthStep;
use crate::local_store::AppAuthStepView;
use crate::local_store::CredStorage;
use crate::local_store::LoadError;
use crate::local_store::PersistPlan;
use crate::local_store::PersistPlanView;
use crate::local_store::Secret;
use crate::local_store::SecretError;
use crate::local_store::SecretView;
use crate::local_store::UserAuthStep;
use crate::local_store::UserAuthStepView;
use crate::pkce::code_challenge;
use crate::pkce::encode_s256;
use crate::pkce::generate_code_verifier;
use crate::pkce::verifier_text;
use crate::time::elapsed_secs;
use crate::time::Timestamp;
use url::ParseError;
use url::Url;
use vstd::prelude::*;
use vstd::string::*;
use vstd::utf8::decode_utf8;
use vstd::utf8::valid_utf8;

verus! {

/// The capabilities that are asked of the user, separated by spaces.
pub const SCOPE: &'static str =
    "user-read-playback-state user-read-currently-playing playlist-read-private user-read-playback-position user-top-read user-read-recently-played user-library-read";

/// The only kind of token that the authorization server hands out.
pub const TOKEN_TYPE: &'static str = "Bearer";

/// Where the user authorizes the application.
pub const SPOTIFY_AUTH_URL: &'static str = "https://accounts.spotify.com/authorize";

/// Where tokens are granted and refreshed.
pub const SPOTIFY_TOKENS_URL: &'static str = "https://accounts.spotify.com/api/token";

/// The player resource of the user.
pub const SPOTIFY_API_URL: &'static str = "https://api.spotify.com/v1/me/player";

/// The track that is playing, below the player resource.
pub const CUR_PLAYING_API_PATH: &'static str = "/currently-playing";

/// Where the authorization server sends the user back to.
pub const REDIRECT_URI: &'static str = "http://localhost:8080";

/// How the code challenge is derived from the code verifier.
pub const CHALLENGE_METHOD: &'static str = "S256";

/// The content type of a request to the token endpoint.
pub const CONTENT_TYPE_URL_ENCODED: &'static str = "application/x-www-form-urlencoded";

/// The longest URL, in characters, to which parameters are added.
pub const MAX_BASE_URL_LEN: usize = 0xffff;

/// Seconds before its expiry at which an access token already counts as expired.
pub const REFRESH_MARGIN_SECS: i64 = 5;

/// Identity of the registered client application.
#[derive(Debug, PartialEq, Eq)]
pub struct AppAuthData {
    pub client_id: String,
    pub client_secret: Option<String>,
}

/// What an [`AppAuthData`] holds.
pub struct AppAuthDataView {
    pub client_id: Seq<char>,
    pub client_secret: Option<Seq<char>>,
}

impl View for AppAuthData {
    type V = AppAuthDataView;

    open spec fn view(&self) -> AppAuthDataView {
        AppAuthDataView {
            client_id: self.client_id@,
            client_secret: match self.client_secret {
                Some(s) => Some(s@),
                None => None,
            },
        }
    }
}

impl Clone for AppAuthData {
    fn clone(&self) -> (copy: Self)
        ensures
            copy@ == self@,
    {
        AppAuthData {
            client_id: self.client_id.clone(),
            client_secret: match &self.client_secret {
                Some(s) => Some(s.clone()),
                None => None,
            },
        }
    }
}

/// The bearer-token bundle of one user.
#[derive(Debug, PartialEq, Eq)]
pub struct UserAuthData {
    pub access_token: String,
    pub token_type: String,
    pub scope: String,
    pub expires_in: i64,
    pub refresh_token: String,
    pub last_refresh: Option<Timestamp>,
}

/// What a [`UserAuthData`] holds.
pub struct UserAuthDataView {
    pub access_token: Seq<char>,
    pub token_type: Seq<char>,
    pub scope: Seq<char>,
    pub expires_in: i64,
    pub refresh_token: Seq<char>,
    pub last_refresh: Option<Timestamp>,
}

impl View for UserAuthData {
    type V = UserAuthDataView;

    open spec fn view(&self) -> UserAuthDataView {
        UserAuthDataView {
            access_token: self.access_token@,
            token_type: self.token_type@,
            scope: self.scope@,
            expires_in: self.expires_in,
            refresh_token: self.refresh_token@,
            last_refresh: self.last_refresh,
        }
    }
}

impl Clone for UserAuthData {
    fn clone(&self) -> (copy: Self)
        ensures
            copy@ == self@,
    {
        UserAuthData {
            access_token: self.access_token.clone(),
            token_type: self.token_type.clone(),
            scope: self.scope.clone(),
            expires_in: self.expires_in,
            refresh_token: self.refresh_token.clone(),
            last_refresh: self.last_refresh,
        }
    }
}

/// Whether a token that lives `expires_in` seconds counts as expired once
/// `elapsed` seconds have passed since it was obtained. A token whose age cannot
/// be told counts as expired.
pub open spec fn expired_after(expires_in: i64, elapsed: Option<nat>) -> bool {
    match elapsed {
        Some(e) => e >= expires_in - REFRESH_MARGIN_SECS,
        None => true,
    }
}

impl UserAuthDataView {
    /// Whether the access token needs refreshing when the clock shows `now`. It
    /// does when the time of the last refresh is unknown, when the clock is not
    /// readable or stands before that time, and from `REFRESH_MARGIN_SECS`
    /// seconds before the token expires.
    pub open spec fn needs_refresh(self, now: Option<Timestamp>) -> bool {
        match (self.last_refresh, now) {
            (Some(then), Some(now)) => expired_after(self.expires_in, elapsed_secs(then, now)),
            _ => true,
        }
    }
}

/// A bundle without a time of last refresh needs refreshing, whatever its
/// lifetime and whatever the clock shows.
pub proof fn lemma_unstamped_needs_refresh(data: UserAuthDataView, now: Option<Timestamp>)
    requires
        data.last_refresh is None,
    ensures
        data.needs_refresh(now),
{
}

/// A bundle that was refreshed `elapsed` seconds before `now` needs refreshing
/// exactly when `elapsed` has reached its lifetime less the margin.
pub proof fn lemma_refresh_margin(data: UserAuthDataView, now: Timestamp, elapsed: nat)
    requires
        data.last_refresh matches Some(then) && elapsed_secs(then, now) == Some(elapsed),
    ensures
        data.needs_refresh(Some(now)) <==> elapsed >= data.expires_in - REFRESH_MARGIN_SECS,
{
}

/// A bundle that was refreshed after `now`, as the clock has it, needs
/// refreshing.
pub proof fn lemma_clock_skew_needs_refresh(data: UserAuthDataView, now: Timestamp)
    requires
        data.last_refresh matches Some(then) && then.total_nanos() > now.total_nanos(),
    ensures
        data.needs_refresh(Some(now)),
{
}

impl UserAuthData {
    /// Whether the access token needs refreshing once `elapsed` seconds have
    /// passed since the last refresh (`None`: the age cannot be told).
    pub fn token_expired_after(&self, elapsed: Option<u64>) -> (expired: bool)
        ensures
            expired == expired_after(
                self.expires_in,
                match elapsed {
                    Some(e) => Some(e as nat),
                    None => None,
                },
            ),
    {
        match elapsed {
            Some(e) => (e as i128) >= (self.expires_in as i128) - (REFRESH_MARGIN_SECS as i128),
            None => true,
        }
    }

    /// Whether the access token needs refreshing when the clock shows `now`
    /// (`None`: the clock is not readable).
    pub fn token_needs_refresh_at(&self, now: Option<Timestamp>) -> (needed: bool)
        ensures
            needed == self@.needs_refresh(now),
    {
        match (self.last_refresh, now) {
            (Some(then), Some(now)) => self.token_expired_after(then.elapsed_at(&now)),
            _ => true,
        }
    }

    /// Whether the access token needs refreshing now. Without a time of last
    /// refresh it always does; otherwise the answer is that of
    /// [`Self::token_needs_refresh_at`] for some reading of the clock.
    pub fn token_needs_refresh(&self) -> (needed: bool)
        ensures
            self.last_refresh is None ==> needed,
            exists|now: Option<Timestamp>| needed == #[trigger] self@.needs_refresh(now),
    {
        let now = Timestamp::now();
        self.token_needs_refresh_at(now)
    }
}


/// Why the credentials could not be made ready.
#[derive(Clone, Copy, Debug, PartialEq, Eq, Structural)]
pub enum SetupError {
    /// Neither the local cache nor the secret store gave the application's
    /// identity.
    CredentialUnavailable,
    /// The token endpoint could not be reached for a refresh, or its answer
    /// could not be read.
    RefreshFailed,
    /// The token endpoint could not be reached for the exchange of the
    /// authorization code, or its answer could not be read.
    AuthExchangeFailed,
    /// What the operator pasted is no URL, reports an error, or holds no code.
    NoAuthorizationCode,
    /// The authorization URL could not be built.
    InvalidAuthorizationUrl,
    /// The code verifier is not text.
    VerifierNotText,
    /// A step was taken without the credentials that it needs.
    NotSetUp,
    /// A reply or a call that the stage at hand does not expect.
    OutOfTurn,
}

/// A form to post to the token endpoint.
#[derive(Debug, PartialEq, Eq)]
pub struct TokenRequest {
    pub url: String,
    pub content_type: String,
    pub form: Vec<(String, String)>,
}

/// What a [`TokenRequest`] holds.
pub struct TokenRequestView {
    pub url: Seq<char>,
    pub content_type: Seq<char>,
    pub form: Seq<(Seq<char>, Seq<char>)>,
}

impl View for TokenRequest {
    type V = TokenRequestView;

    open spec fn view(&self) -> TokenRequestView {
        TokenRequestView {
            url: self.url@,
            content_type: self.content_type@,
            form: self.form.deep_view(),
        }
    }
}

/// A call of the resource API on behalf of the user.
#[derive(Debug, PartialEq, Eq)]
pub struct ApiRequest {
    pub url: String,
    pub bearer_token: String,
}

/// What an [`ApiRequest`] holds.
pub struct ApiRequestView {
    pub url: Seq<char>,
    pub bearer_token: Seq<char>,
}

impl View for ApiRequest {
    type V = ApiRequestView;

    open spec fn view(&self) -> ApiRequestView {
        ApiRequestView { url: self.url@, bearer_token: self.bearer_token@ }
    }
}

/// What came of a request to the token endpoint.
#[derive(Debug, PartialEq, Eq)]
pub enum TokenReply {
    /// The request could not be sent or got no answer.
    Unreachable,
    /// The answer is no token bundle.
    Unreadable,
    /// The bundle that the endpoint granted.
    Granted(UserAuthData),
}

/// What a [`TokenReply`] holds.
pub enum TokenReplyView {
    Unreachable,
    Unreadable,
    Granted(UserAuthDataView),
}

impl View for TokenReply {
    type V = TokenReplyView;

    open spec fn view(&self) -> TokenReplyView {
        match *self {
            TokenReply::Unreachable => TokenReplyView::Unreachable,
            TokenReply::Unreadable => TokenReplyView::Unreadable,
            TokenReply::Granted(data) => TokenReplyView::Granted(data@),
        }
    }
}

/// What the caller is asked to do next.
#[derive(Debug, PartialEq, Eq)]
pub enum Request {
    /// Read the application's identity from the local cache.
    LoadAppAuth,
    /// Read the user's bundle from the local cache.
    LoadUserAuth,
    /// Read the secret of this name from the secret store.
    FetchSecret(String),
    /// Write the application's identity to the local cache, as well as can be.
    StoreAppAuth(AppAuthData),
    /// Write the user's credentials to both places, as well as can be.
    Persist(PersistPlan),
    /// Post this form to the token endpoint.
    PostToken(TokenRequest),
    /// Start the authorization flow: there are no usable credentials.
    Authorize,
    /// Show this URL to the operator and read the URL that they paste back.
    AskOperator(Url),
    /// Nothing: the credentials are ready.
    Done,
    /// Nothing: the credentials could not be made ready.
    Fail(SetupError),
}

/// What a [`Request`] holds.
pub enum RequestView {
    LoadAppAuth,
    LoadUserAuth,
    FetchSecret(Seq<char>),
    StoreAppAuth(AppAuthDataView),
    Persist(PersistPlanView),
    PostToken(TokenRequestView),
    Authorize,
    AskOperator(Url),
    Done,
    Fail(SetupError),
}

impl View for Request {
    type V = RequestView;

    open spec fn view(&self) -> RequestView {
        match *self {
            Request::LoadAppAuth => RequestView::LoadAppAuth,
            Request::LoadUserAuth => RequestView::LoadUserAuth,
            Request::FetchSecret(key) => RequestView::FetchSecret(key@),
            Request::StoreAppAuth(data) => RequestView::StoreAppAuth(data@),
            Request::Persist(plan) => RequestView::Persist(plan@),
            Request::PostToken(request) => RequestView::PostToken(request@),
            Request::Authorize => RequestView::Authorize,
            Request::AskOperator(url) => RequestView::AskOperator(url),
            Request::Done => RequestView::Done,
            Request::Fail(why) => RequestView::Fail(why),
        }
    }
}

/// What came of a [`Request`].
#[derive(Debug, PartialEq, Eq)]
pub enum Reply {
    /// The application's identity as the local cache has it.
    AppAuth(Result<AppAuthData, LoadError>),
    /// The user's bundle as the local cache has it.
    UserAuth(Result<UserAuthData, LoadError>),
    /// The secret as the secret store has it.
    Secret(Result<Secret, SecretError>),
    /// The writes were attempted. Whether they succeeded does not matter.
    Stored,
    /// The answer of the token endpoint.
    Token(TokenReply),
    /// The line that the operator pasted.
    Redirect(String),
}

/// What a [`Reply`] holds.
pub enum ReplyView {
    AppAuth(Result<AppAuthDataView, LoadError>),
    UserAuth(Result<UserAuthDataView, LoadError>),
    Secret(Result<SecretView, SecretError>),
    Stored,
    Token(TokenReplyView),
    Redirect(Seq<char>),
}

impl View for Reply {
    type V = ReplyView;

    open spec fn view(&self) -> ReplyView {
        match *self {
            Reply::AppAuth(loaded) => ReplyView::AppAuth(
                match loaded {
                    Ok(data) => Ok(data@),
                    Err(e) => Err(e),
                },
            ),
            Reply::UserAuth(loaded) => ReplyView::UserAuth(
                match loaded {
                    Ok(data) => Ok(data@),
                    Err(e) => Err(e),
                },
            ),
            Reply::Secret(answer) => ReplyView::Secret(secret_view(answer)),
            Reply::Stored => ReplyView::Stored,
            Reply::Token(reply) => ReplyView::Token(reply@),
            Reply::Redirect(line) => ReplyView::Redirect(line@),
        }
    }
}

/// How far the credentials have come.
#[derive(Debug, PartialEq, Eq)]
pub enum Stage {
    /// Nothing has been asked yet.
    Unstarted,
    /// The local cache is being read for the application's identity.
    LoadingAppAuth,
    /// The secret store is being read for the client id.
    FetchingClientId,
    /// The application's identity is being written to the local cache.
    CachingAppAuth,
    /// The local cache is being read for the user's bundle.
    LoadingUserAuth,
    /// The secret store is being read for the refresh token. `local` is what
    /// the cache gave, read when the clock showed `checked_at`.
    FetchingRefreshToken { local: Option<UserAuthData>, checked_at: Option<Timestamp> },
    /// The secret store is being read for the access token, after it gave
    /// `refresh`.
    FetchingAccessToken {
        local: Option<UserAuthData>,
        checked_at: Option<Timestamp>,
        refresh: Secret,
    },
    /// The token endpoint is being asked for a refreshed access token.
    Refreshing,
    /// There are no credentials, and the authorization flow has not begun.
    Idle,
    /// The operator has the authorization URL and is to paste the redirect.
    AwaitingUserCode { code_verifier: Vec<u8> },
    /// The token endpoint is being asked to exchange the authorization code.
    Exchanging,
    /// The new credentials are being written to both places.
    Persisting,
    /// The credentials are ready.
    Complete,
    /// The credentials could not be made ready.
    Failed(SetupError),
}

/// What a [`Stage`] holds.
pub enum StageView {
    Unstarted,
    LoadingAppAuth,
    FetchingClientId,
    CachingAppAuth,
    LoadingUserAuth,
    FetchingRefreshToken { local: Option<UserAuthDataView>, checked_at: Option<Timestamp> },
    FetchingAccessToken {
        local: Option<UserAuthDataView>,
        checked_at: Option<Timestamp>,
        refresh: SecretView,
    },
    Refreshing,
    Idle,
    AwaitingUserCode { code_verifier: Seq<u8> },
    Exchanging,
    Persisting,
    Complete,
    Failed(SetupError),
}

impl View for Stage {
    type V = StageView;

    open spec fn view(&self) -> StageView {
        match *self {
            Stage::Unstarted => StageView::Unstarted,
            Stage::LoadingAppAuth => StageView::LoadingAppAuth,
            Stage::FetchingClientId => StageView::FetchingClientId,
            Stage::CachingAppAuth => StageView::CachingAppAuth,
            Stage::LoadingUserAuth => StageView::LoadingUserAuth,
            Stage::FetchingRefreshToken { local, checked_at } => StageView::FetchingRefreshToken {
                local: user_view(local),
                checked_at,
            },
            Stage::FetchingAccessToken {
                local,
                checked_at,
                refresh,
            } => StageView::FetchingAccessToken {
                local: user_view(local),
                checked_at,
                refresh: refresh@,
            },
            Stage::Refreshing => StageView::Refreshing,
            Stage::Idle => StageView::Idle,
            Stage::AwaitingUserCode { code_verifier } => StageView::AwaitingUserCode {
                code_verifier: code_verifier@,
            },
            Stage::Exchanging => StageView::Exchanging,
            Stage::Persisting => StageView::Persisting,
            Stage::Complete => StageView::Complete,
            Stage::Failed(why) => StageView::Failed(why),
        }
    }
}

/// The credentials of one user of the application, and how far they have come.
#[derive(Debug)]
pub struct SpotifyClient {
    pub user_id: String,
    pub app_client_id: Option<String>,
    pub user_auth: Option<UserAuthData>,
    pub creds_storage: CredStorage,
    pub stage: Stage,
}

/// What a [`SpotifyClient`] holds.
pub struct SpotifyClientView {
    pub user_id: Seq<char>,
    pub app_client_id: Option<Seq<char>>,
    pub user_auth: Option<UserAuthDataView>,
    pub creds_storage: CredStorage,
    pub stage: StageView,
}

impl View for SpotifyClient {
    type V = SpotifyClientView;

    open spec fn view(&self) -> SpotifyClientView {
        SpotifyClientView {
            user_id: self.user_id@,
            app_client_id: match self.app_client_id {
                Some(id) => Some(id@),
                None => None,
            },
            user_auth: user_view(self.user_auth),
            creds_storage: self.creds_storage,
            stage: self.stage@,
        }
    }
}

/// `url::Url`, a parsed absolute URL: carried through, and looked into only
/// through [`query_pairs_of`].
#[verifier::external_type_specification]
#[verifier::external_body]
pub struct ExUrl(Url);

/// `url::ParseError`, the error of `Url::parse`: carried through, never looked
/// into.
#[verifier::external_type_specification]
#[verifier::external_body]
pub struct ExParseError(ParseError);

/// The URL that `input` parses to, as the `url` crate parses it; `None` for
/// what is no absolute URL.
pub uninterp spec fn parsed_url(input: Seq<char>) -> Option<Url>;

/// The URL that `input` parses to with `params` added to its query, as the `url`
/// crate builds it; `None` when `input` is no absolute URL.
pub uninterp spec fn url_with_params(input: Seq<char>, params: Seq<(Seq<char>, Seq<char>)>)
    -> Option<Url>;

/// The names and values of the query of `url`, decoded, in their order.
pub uninterp spec fn query_pairs_of(url: Url) -> Seq<(Seq<char>, Seq<char>)>;

/// `Url::parse`: the outcome is a function of the input alone.
#[verifier::external_body]
fn parse_url(input: &str) -> (parsed: Result<Url, ParseError>)
    ensures
        match parsed {
            Ok(url) => parsed_url(input@) == Some(url),
            Err(_) => parsed_url(input@) is None,
        },
{
    Url::parse(input)
}

/// `Url::parse_with_params`: the outcome is a function of the input and the
/// parameters alone. The input has no fragment and is short: the crate keeps
/// positions in the URL as 32-bit numbers and panics where one does not fit,
/// when it opens the query of a longer URL or puts a fragment back behind the
/// parameters.
#[verifier::external_body]
fn parse_url_with_params(input: &str, params: &Vec<(String, String)>) -> (parsed: Result<
    Url,
    ParseError,
>)
    requires
        !input@.contains('#'),
        input@.len() <= MAX_BASE_URL_LEN,
    ensures
        match parsed {
            Ok(url) => url_with_params(input@, params.deep_view()) == Some(url),
            Err(_) => url_with_params(input@, params.deep_view()) is None,
        },
{
    Url::parse_with_params(input, params)
}

/// `Url::query_pairs`, each pair as owned strings: what the query holds.
#[verifier::external_body]
fn query_pairs(url: &Url) -> (pairs: Vec<(String, String)>)
    ensures
        pairs.deep_view() == query_pairs_of(*url),
{
    url.query_pairs().into_owned().collect()
}

/// What an optional string holds.
pub open spec fn text_view(text: Option<String>) -> Option<Seq<char>> {
    match text {
        Some(s) => Some(s@),
        None => None,
    }
}

/// Whether a parameter is named `error`.
pub open spec fn names_error(pairs: Seq<(Seq<char>, Seq<char>)>) -> bool {
    exists|i: int| 0 <= i < pairs.len() && (#[trigger] pairs[i]).0 == "error"@
}

/// The value of the first parameter named `code`, if there is one.
pub open spec fn first_code(pairs: Seq<(Seq<char>, Seq<char>)>) -> Option<Seq<char>>
    decreases pairs.len(),
{
    if pairs.len() == 0 {
        None
    } else if pairs[0].0 == "code"@ {
        Some(pairs[0].1)
    } else {
        first_code(pairs.drop_first())
    }
}

/// The authorization code among the parameters of a redirect: none where any
/// parameter is named `error`, wherever it stands; else the value of the first
/// parameter named `code`.
pub open spec fn code_in_pairs(pairs: Seq<(Seq<char>, Seq<char>)>) -> Option<Seq<char>> {
    if names_error(pairs) {
        None
    } else {
        first_code(pairs)
    }
}

/// The authorization code in the line that the operator pasted.
pub open spec fn authorization_code(line: Seq<char>) -> Option<Seq<char>> {
    match parsed_url(line) {
        Some(url) => code_in_pairs(query_pairs_of(url)),
        None => None,
    }
}

/// The parameters of the authorization URL.
pub open spec fn authorize_params(client_id: Seq<char>, challenge: Seq<char>) -> Seq<
    (Seq<char>, Seq<char>),
> {
    seq![
        ("response_type"@, "code"@),
        ("client_id"@, client_id),
        ("scope"@, SCOPE@),
        ("code_challenge_method"@, CHALLENGE_METHOD@),
        ("code_challenge"@, challenge),
        ("redirect_uri"@, REDIRECT_URI@),
    ]
}

/// The form that asks for a refreshed access token.
pub open spec fn refresh_request(refresh_token: Seq<char>, client_id: Seq<char>)
    -> TokenRequestView {
    TokenRequestView {
        url: SPOTIFY_TOKENS_URL@,
        content_type: CONTENT_TYPE_URL_ENCODED@,
        form: seq![
            ("grant_type"@, "refresh_token"@),
            ("refresh_token"@, refresh_token),
            ("client_id"@, client_id),
        ],
    }
}

/// The form that exchanges an authorization code for tokens. It carries the
/// code verifier itself, not its challenge.
pub open spec fn exchange_request(
    code: Seq<char>,
    client_id: Seq<char>,
    code_verifier: Seq<char>,
) -> TokenRequestView {
    TokenRequestView {
        url: SPOTIFY_TOKENS_URL@,
        content_type: CONTENT_TYPE_URL_ENCODED@,
        form: seq![
            ("grant_type"@, "authorization_code"@),
            ("code"@, code),
            ("client_id"@, client_id),
            ("code_verifier"@, code_verifier),
            ("redirect_uri"@, REDIRECT_URI@),
        ],
    }
}

/// The call that asks which track is playing.
pub open spec fn currently_playing_request(access_token: Seq<char>) -> ApiRequestView {
    ApiRequestView { url: SPOTIFY_API_URL@ + CUR_PLAYING_API_PATH@, bearer_token: access_token }
}

/// A name and a value as owned strings.
fn pair(name: &str, value: &str) -> (p: (String, String))
    ensures
        p.0@ == name@,
        p.1@ == value@,
{
    (String::from_str(name), String::from_str(value))
}

/// The authorization code among the parameters of a redirect.
pub fn find_code(pairs: &Vec<(String, String)>) -> (code: Option<String>)
    ensures
        text_view(code) == code_in_pairs(pairs.deep_view()),
{
    let error_name = String::from_str("error");
    let code_name = String::from_str("code");
    let mut found: Option<String> = None;
    let mut i: usize = 0;
    assert(pairs.deep_view().skip(0) =~= pairs.deep_view());
    while i < pairs.len()
        invariant
            i <= pairs@.len(),
            error_name@ == "error"@,
            code_name@ == "code"@,
            forall|k: int| 0 <= k < i ==> (#[trigger] pairs.deep_view()[k]).0 != "error"@,
            first_code(pairs.deep_view()) == match found {
                Some(value) => Some(value@),
                None => first_code(pairs.deep_view().skip(i as int)),
            },
        decreases pairs@.len() - i,
    {
        let ghost rest = pairs.deep_view().skip(i as int);
        proof {
            assert(rest[0] == pairs.deep_view()[i as int]);
            assert(rest.drop_first() =~= pairs.deep_view().skip(i + 1));
        }
        if pairs[i].0 == error_name {
            assert(pairs.deep_view()[i as int].0 == "error"@);
            return None;
        }
        if found.is_none() && pairs[i].0 == code_name {
            found = Some(pairs[i].1.clone());
        }
        i = i + 1;
    }
    found
}

/// The authorization code that a redirect URL carries.
pub fn get_code_from_query_pairs(url: Url) -> (code: Option<String>)
    ensures
        text_view(code) == code_in_pairs(query_pairs_of(url)),
{
    let pairs = query_pairs(&url);
    find_code(&pairs)
}

/// The authorization URL for the application `client_id` and the given code
/// challenge; `None` when it cannot be built.
pub fn authorization_url(client_id: &str, code_challenge: &str) -> (url: Option<Url>)
    ensures
        url == url_with_params(SPOTIFY_AUTH_URL@, authorize_params(client_id@, code_challenge@)),
{
    let mut params: Vec<(String, String)> = Vec::with_capacity(6);
    params.push(pair("response_type", "code"));
    params.push(pair("client_id", client_id));
    params.push(pair("scope", SCOPE));
    params.push(pair("code_challenge_method", CHALLENGE_METHOD));
    params.push(pair("code_challenge", code_challenge));
    params.push(pair("redirect_uri", REDIRECT_URI));
    assert(params.deep_view() =~= authorize_params(client_id@, code_challenge@));
    proof {
        reveal_strlit("https://accounts.spotify.com/authorize");
        assert(!SPOTIFY_AUTH_URL@.contains('#'));
    }
    match parse_url_with_params(SPOTIFY_AUTH_URL, &params) {
        Ok(url) => Some(url),
        Err(_) => None,
    }
}

/// The form that asks for a refreshed access token.
pub fn make_refresh_request(refresh_token: &str, client_id: &str) -> (request: TokenRequest)
    ensures
        request@ == refresh_request(refresh_token@, client_id@),
{
    let mut form: Vec<(String, String)> = Vec::with_capacity(3);
    form.push(pair("grant_type", "refresh_token"));
    form.push(pair("refresh_token", refresh_token));
    form.push(pair("client_id", client_id));
    assert(form.deep_view() =~= refresh_request(refresh_token@, client_id@).form);
    TokenRequest {
        url: String::from_str(SPOTIFY_TOKENS_URL),
        content_type: String::from_str(CONTENT_TYPE_URL_ENCODED),
        form,
    }
}

/// The form that exchanges an authorization code for tokens.
pub fn make_exchange_request(code: &str, client_id: &str, code_verifier: &str) -> (request:
    TokenRequest)
    ensures
        request@ == exchange_request(code@, client_id@, code_verifier@),
{
    let mut form: Vec<(String, String)> = Vec::with_capacity(5);
    form.push(pair("grant_type", "authorization_code"));
    form.push(pair("code", code));
    form.push(pair("client_id", client_id));
    form.push(pair("code_verifier", code_verifier));
    form.push(pair("redirect_uri", REDIRECT_URI));
    assert(form.deep_view() =~= exchange_request(code@, client_id@, code_verifier@).form);
    TokenRequest {
        url: String::from_str(SPOTIFY_TOKENS_URL),
        content_type: String::from_str(CONTENT_TYPE_URL_ENCODED),
        form,
    }
}


impl SpotifyClientView {
    /// Whether both the application's identity and the user's bundle are there.
    pub open spec fn creds_are_loaded(self) -> bool {
        self.app_client_id is Some && self.user_auth is Some
    }

    /// What holds of a client that is only ever changed by its steps: from the
    /// moment the user's bundle is looked for, the client id is known; while a
    /// token is refreshed or written, and once the credentials are ready, they
    /// are there.
    pub open spec fn consistent(self) -> bool {
        &&& 3 <= progress(self.stage) <= 11 ==> self.app_client_id is Some
        &&& (self.stage is Refreshing || self.stage is Persisting || self.stage is Complete)
            ==> self.user_auth is Some
    }

    /// The same credentials at another stage.
    pub open spec fn at(self, stage: StageView) -> SpotifyClientView {
        SpotifyClientView { stage, ..self }
    }

    /// Giving up.
    pub open spec fn failed(self, why: SetupError) -> (SpotifyClientView, RequestView) {
        (self.at(StageView::Failed(why)), RequestView::Fail(why))
    }

    /// The start, from any stage: the application's identity is looked for in
    /// the local cache.
    pub open spec fn started(self) -> (SpotifyClientView, RequestView) {
        (self.at(StageView::LoadingAppAuth), RequestView::LoadAppAuth)
    }

    /// What follows from what is known of the application's identity. Once it
    /// is known, the user's bundle is looked for in the local cache; an identity
    /// that came from the secret store is first written to the cache.
    pub open spec fn app_resolved(
        self,
        local: Option<AppAuthDataView>,
        remote: Option<Result<SecretView, SecretError>>,
    ) -> (SpotifyClientView, RequestView) {
        match app_auth_step(local, remote) {
            AppAuthStepView::Cached(app) => (
                SpotifyClientView {
                    app_client_id: Some(app.client_id),
                    stage: StageView::LoadingUserAuth,
                    ..self
                },
                RequestView::LoadUserAuth,
            ),
            AppAuthStepView::Fetch(key) => (
                self.at(StageView::FetchingClientId),
                RequestView::FetchSecret(key),
            ),
            AppAuthStepView::Fetched(app) => (
                SpotifyClientView {
                    app_client_id: Some(app.client_id),
                    stage: StageView::CachingAppAuth,
                    ..self
                },
                RequestView::StoreAppAuth(app),
            ),
            AppAuthStepView::Unavailable => self.failed(SetupError::CredentialUnavailable),
        }
    }

    /// What follows once credentials are there: nothing if the access token is
    /// fresh at `now`, else a request for a refreshed one.
    pub open spec fn refreshed(self, now: Option<Timestamp>) -> (SpotifyClientView, RequestView) {
        match (self.app_client_id, self.user_auth) {
            (Some(client_id), Some(user)) => {
                if user.needs_refresh(now) {
                    (
                        self.at(StageView::Refreshing),
                        RequestView::PostToken(refresh_request(user.refresh_token, client_id)),
                    )
                } else {
                    (self.at(StageView::Complete), RequestView::Done)
                }
            },
            _ => self.failed(SetupError::NotSetUp),
        }
    }

    /// What follows from what is known of the user's credentials, the local
    /// bundle having been read at `checked_at`. Resolved credentials are
    /// refreshed if `now` asks for it; without any, the user has to authorize
    /// the application.
    pub open spec fn user_resolved(
        self,
        checked_at: Option<Timestamp>,
        local: Option<UserAuthDataView>,
        refresh: Option<Result<SecretView, SecretError>>,
        access: Option<Result<SecretView, SecretError>>,
        now: Option<Timestamp>,
    ) -> (SpotifyClientView, RequestView) {
        match user_auth_step(self.user_id, checked_at, local, refresh, access) {
            UserAuthStepView::Fetch(key) => (
                self.at(
                    match refresh {
                        Some(Ok(secret)) => StageView::FetchingAccessToken {
                            local,
                            checked_at,
                            refresh: secret,
                        },
                        _ => StageView::FetchingRefreshToken { local, checked_at },
                    },
                ),
                RequestView::FetchSecret(key),
            ),
            UserAuthStepView::Resolved(user) => {
                let resolved = SpotifyClientView { user_auth: user, ..self };
                if resolved.creds_are_loaded() {
                    resolved.refreshed(now)
                } else {
                    (resolved.at(StageView::Idle), RequestView::Authorize)
                }
            },
        }
    }

    /// What follows from the answer of the token endpoint: a granted bundle is
    /// stamped with `now`, becomes the user's credentials and is written to both
    /// places; anything else fails with `failure`.
    pub open spec fn token_received(
        self,
        reply: TokenReplyView,
        now: Option<Timestamp>,
        failure: SetupError,
    ) -> (SpotifyClientView, RequestView) {
        match reply {
            TokenReplyView::Granted(data) => {
                let stamped = UserAuthDataView { last_refresh: now, ..data };
                (
                    SpotifyClientView {
                        user_auth: Some(stamped),
                        stage: StageView::Persisting,
                        ..self
                    },
                    RequestView::Persist(persist_plan(stamped, self.user_id)),
                )
            },
            _ => self.failed(failure),
        }
    }

    /// What follows from the line that the operator pasted: with an
    /// authorization code in it, the exchange of that code.
    pub open spec fn code_received(self, code_verifier: Seq<u8>, line: Seq<char>) -> (
        SpotifyClientView,
        RequestView,
    ) {
        match authorization_code(line) {
            None => self.failed(SetupError::NoAuthorizationCode),
            Some(code) => match self.app_client_id {
                None => self.failed(SetupError::NotSetUp),
                Some(client_id) => {
                    if valid_utf8(code_verifier) {
                        (
                            self.at(StageView::Exchanging),
                            RequestView::PostToken(
                                exchange_request(code, client_id, decode_utf8(code_verifier)),
                            ),
                        )
                    } else {
                        self.failed(SetupError::VerifierNotText)
                    }
                },
            },
        }
    }

    /// The start of the authorization flow with the given code verifier: the
    /// operator is shown the authorization URL, which carries the challenge of
    /// the verifier.
    pub open spec fn authorization_begun(self, code_verifier: Seq<u8>) -> (
        SpotifyClientView,
        RequestView,
    ) {
        if self.stage is Idle {
            match self.app_client_id {
                None => self.failed(SetupError::NotSetUp),
                Some(client_id) => match url_with_params(
                    SPOTIFY_AUTH_URL@,
                    authorize_params(client_id, code_challenge(code_verifier)),
                ) {
                    Some(url) => (
                        self.at(StageView::AwaitingUserCode { code_verifier }),
                        RequestView::AskOperator(url),
                    ),
                    None => self.failed(SetupError::InvalidAuthorizationUrl),
                },
            }
        } else {
            self.failed(SetupError::OutOfTurn)
        }
    }

    /// The step that `reply` brings about when the clock shows `now`. A reply
    /// that the stage does not wait for is a failure.
    pub open spec fn resumed(self, reply: ReplyView, now: Option<Timestamp>) -> (
        SpotifyClientView,
        RequestView,
    ) {
        match (self.stage, reply) {
            (StageView::LoadingAppAuth, ReplyView::AppAuth(loaded)) => self.app_resolved(
                match loaded {
                    Ok(data) => Some(data),
                    Err(_) => None,
                },
                None,
            ),
            (StageView::FetchingClientId, ReplyView::Secret(answer)) => self.app_resolved(
                None,
                Some(answer),
            ),
            (StageView::CachingAppAuth, ReplyView::Stored) => (
                self.at(StageView::LoadingUserAuth),
                RequestView::LoadUserAuth,
            ),
            (StageView::LoadingUserAuth, ReplyView::UserAuth(loaded)) => self.user_resolved(
                now,
                match loaded {
                    Ok(data) => Some(data),
                    Err(_) => None,
                },
                None,
                None,
                now,
            ),
            (
                StageView::FetchingRefreshToken { local, checked_at },
                ReplyView::Secret(answer),
            ) => self.user_resolved(checked_at, local, Some(answer), None, now),
            (
                StageView::FetchingAccessToken { local, checked_at, refresh },
                ReplyView::Secret(answer),
            ) => self.user_resolved(checked_at, local, Some(Ok(refresh)), Some(answer), now),
            (StageView::Refreshing, ReplyView::Token(reply)) => self.token_received(
                reply,
                now,
                SetupError::RefreshFailed,
            ),
            (
                StageView::AwaitingUserCode { code_verifier },
                ReplyView::Redirect(line),
            ) => self.code_received(code_verifier, line),
            (StageView::Exchanging, ReplyView::Token(reply)) => self.token_received(
                reply,
                now,
                SetupError::AuthExchangeFailed,
            ),
            (StageView::Persisting, ReplyView::Stored) => (
                self.at(StageView::Complete),
                RequestView::Done,
            ),
            _ => self.failed(SetupError::OutOfTurn),
        }
    }
}

/// A redirect with a parameter named `error` carries no authorization code,
/// wherever the parameter stands, and the authorization fails on it.
pub proof fn lemma_error_gives_no_code(
    client: SpotifyClientView,
    code_verifier: Seq<u8>,
    line: Seq<char>,
    pairs: Seq<(Seq<char>, Seq<char>)>,
    at: int,
)
    requires
        0 <= at < pairs.len(),
        pairs[at].0 == "error"@,
    ensures
        code_in_pairs(pairs) is None,
        parsed_url(line) matches Some(url) && query_pairs_of(url) == pairs
            ==> client.code_received(code_verifier, line) == client.failed(
            SetupError::NoAuthorizationCode,
        ),
{
}

/// A cached bundle that is still fresh becomes the user's credentials as it is,
/// and the secret store is not asked for anything. With the application's
/// identity at hand the credentials are then ready.
pub proof fn lemma_fresh_local_asks_nothing(
    client: SpotifyClientView,
    local: UserAuthDataView,
    now: Option<Timestamp>,
)
    requires
        client.stage is LoadingUserAuth,
        !local.needs_refresh(now),
    ensures
        client.resumed(ReplyView::UserAuth(Ok(local)), now).0.user_auth == Some(local),
        !(client.resumed(ReplyView::UserAuth(Ok(local)), now).1 is FetchSecret),
        client.app_client_id is Some ==> client.resumed(ReplyView::UserAuth(Ok(local)), now) == (
            SpotifyClientView { user_auth: Some(local), stage: StageView::Complete, ..client },
            RequestView::Done,
        ),
{
}

/// Without a cached bundle and without a stored refresh token there are no
/// credentials, and the user is asked to authorize the application.
pub proof fn lemma_nothing_anywhere_asks_user(
    client: SpotifyClientView,
    why: SecretError,
    checked_at: Option<Timestamp>,
    now: Option<Timestamp>,
)
    requires
        client.stage == (StageView::FetchingRefreshToken { local: None, checked_at }),
    ensures
        client.resumed(ReplyView::Secret(Err(why)), now) == (
            SpotifyClientView { user_auth: None, stage: StageView::Idle, ..client },
            RequestView::Authorize,
        ),
{
}

/// A granted bundle is stamped with the time of the grant, becomes the user's
/// credentials and is sent to both places; it then needs no refresh at that
/// time if it lives longer than the margin.
pub proof fn lemma_granted_bundle_is_fresh(
    client: SpotifyClientView,
    granted: UserAuthDataView,
    now: Timestamp,
    failure: SetupError,
)
    ensures
        client.token_received(TokenReplyView::Granted(granted), Some(now), failure).0.user_auth
            matches Some(user) && user.last_refresh == Some(now) && (user.needs_refresh(Some(now))
            <==> granted.expires_in <= REFRESH_MARGIN_SECS),
        client.token_received(TokenReplyView::Granted(granted), Some(now), failure).1
            matches RequestView::Persist(plan) && plan.local.last_refresh == Some(now),
{
    assert(elapsed_secs(now, now) == Some(0nat));
}

/// How far a stage is from the start. No step leads to a stage that is
/// nearer to it.
pub open spec fn progress(stage: StageView) -> nat {
    match stage {
        StageView::Unstarted => 0,
        StageView::LoadingAppAuth => 1,
        StageView::FetchingClientId => 2,
        StageView::CachingAppAuth => 3,
        StageView::LoadingUserAuth => 4,
        StageView::FetchingRefreshToken { .. } => 5,
        StageView::FetchingAccessToken { .. } => 6,
        StageView::Idle => 7,
        StageView::AwaitingUserCode { .. } => 8,
        StageView::Refreshing => 9,
        StageView::Exchanging => 9,
        StageView::Persisting => 10,
        StageView::Complete => 11,
        StageView::Failed(_) => 12,
    }
}

/// Every reply brings the client to a later stage, until it has failed: no
/// stage is tried again, and twelve replies at most are taken.
pub proof fn lemma_every_reply_advances(
    client: SpotifyClientView,
    reply: ReplyView,
    now: Option<Timestamp>,
)
    ensures
        progress(client.stage) < progress(client.resumed(reply, now).0.stage) || (client.stage
            is Failed && client.resumed(reply, now).0.stage is Failed),
        progress(client.resumed(reply, now).0.stage) <= 12,
{
}

/// The client says that it is done exactly when it is complete, and that it
/// has failed exactly when it has, for the same reason. It asks for the
/// authorization flow exactly when it is idle.
pub proof fn lemma_request_tells_the_stage(
    client: SpotifyClientView,
    reply: ReplyView,
    now: Option<Timestamp>,
)
    ensures
        client.resumed(reply, now).1 is Done <==> client.resumed(reply, now).0.stage is Complete,
        forall|why: SetupError|
            client.resumed(reply, now).1 == RequestView::Fail(why) <==> client.resumed(
                reply,
                now,
            ).0.stage == StageView::Failed(why),
        client.resumed(reply, now).1 is Authorize <==> client.resumed(reply, now).0.stage is Idle,
{
}

/// Every way of taking a step keeps the client consistent, and a consistent
/// client never fails for want of credentials that the step needs.
pub proof fn lemma_steps_keep_consistency(
    client: SpotifyClientView,
    reply: ReplyView,
    now: Option<Timestamp>,
    code_verifier: Seq<u8>,
)
    requires
        client.consistent(),
    ensures
        client.started().0.consistent(),
        client.resumed(reply, now).0.consistent(),
        client.authorization_begun(code_verifier).0.consistent(),
        client.resumed(reply, now).1 != RequestView::Fail(SetupError::NotSetUp),
        client.authorization_begun(code_verifier).1 != RequestView::Fail(SetupError::NotSetUp),
        client.resumed(reply, now).0.stage is Complete ==> client.resumed(
            reply,
            now,
        ).0.creds_are_loaded(),
{
}

/// The user's id and the store do not change, and a known client id is never
/// forgotten.
pub proof fn lemma_identity_is_kept(
    client: SpotifyClientView,
    reply: ReplyView,
    now: Option<Timestamp>,
)
    ensures
        client.resumed(reply, now).0.user_id == client.user_id,
        client.resumed(reply, now).0.creds_storage == client.creds_storage,
        client.app_client_id is Some ==> client.resumed(reply, now).0.app_client_id is Some,
{
}

impl SpotifyClient {
    /// A client for `user_id` that has nothing yet.
    pub fn new(user_id: String, creds_storage: CredStorage) -> (client: SpotifyClient)
        ensures
            client@ == (SpotifyClientView {
                user_id: user_id@,
                app_client_id: None,
                user_auth: None,
                creds_storage,
                stage: StageView::Unstarted,
            }),
            client@.consistent(),
    {
        SpotifyClient {
            user_id,
            app_client_id: None,
            user_auth: None,
            creds_storage,
            stage: Stage::Unstarted,
        }
    }

    /// Whether both the application's identity and the user's bundle are there.
    pub fn creds_are_loaded(&self) -> (loaded: bool)
        ensures
            loaded == self@.creds_are_loaded(),
    {
        self.app_client_id.is_some() && self.user_auth.is_some()
    }

    /// The user's access token.
    pub fn access_token(&self) -> (token: String)
        requires
            self.user_auth is Some,
        ensures
            token@ == self.user_auth->0.access_token@,
    {
        match &self.user_auth {
            Some(auth) => auth.access_token.clone(),
            None => String::new(),
        }
    }

    fn fail(&mut self, why: SetupError) -> (request: Request)
        ensures
            (final(self)@, request@) == old(self)@.failed(why),
    {
        self.stage = Stage::Failed(why);
        Request::Fail(why)
    }

    /// Starts to make the credentials ready, whatever the stage.
    pub fn setup_creds(&mut self) -> (request: Request)
        ensures
            (final(self)@, request@) == old(self)@.started(),
    {
        self.stage = Stage::LoadingAppAuth;
        Request::LoadAppAuth
    }

    fn app_resolved(
        &mut self,
        local: Option<AppAuthData>,
        remote: Option<Result<Secret, SecretError>>,
    ) -> (request: Request)
        ensures
            (final(self)@, request@) == old(self)@.app_resolved(
                app_view(local),
                fetched_view(remote),
            ),
    {
        match self.creds_storage.load_app_auth_data(&local, &remote) {
            AppAuthStep::Cached(app) => {
                self.app_client_id = Some(app.client_id);
                self.stage = Stage::LoadingUserAuth;
                Request::LoadUserAuth
            },
            AppAuthStep::Fetch(key) => {
                self.stage = Stage::FetchingClientId;
                Request::FetchSecret(key)
            },
            AppAuthStep::Fetched(app) => {
                self.app_client_id = Some(app.client_id.clone());
                self.stage = Stage::CachingAppAuth;
                Request::StoreAppAuth(app)
            },
            AppAuthStep::Unavailable => self.fail(SetupError::CredentialUnavailable),
        }
    }

    /// Asks for a refreshed access token if the one at hand needs it at `now`.
    /// Without credentials this fails.
    pub fn refresh_access_token(&mut self, now: Option<Timestamp>) -> (request: Request)
        ensures
            (final(self)@, request@) == old(self)@.refreshed(now),
    {
        let form: Option<Option<TokenRequest>> = match (&self.app_client_id, &self.user_auth) {
            (Some(client_id), Some(user)) => {
                if user.token_needs_refresh_at(now) {
                    Some(
                        Some(
                            make_refresh_request(user.refresh_token.as_str(), client_id.as_str()),
                        ),
                    )
                } else {
                    Some(None)
                }
            },
            _ => None,
        };
        match form {
            Some(Some(form)) => {
                self.stage = Stage::Refreshing;
                Request::PostToken(form)
            },
            Some(None) => {
                self.stage = Stage::Complete;
                Request::Done
            },
            None => self.fail(SetupError::NotSetUp),
        }
    }

    fn user_resolved(
        &mut self,
        checked_at: Option<Timestamp>,
        local: Option<UserAuthData>,
        refresh: Option<Result<Secret, SecretError>>,
        access: Option<Result<Secret, SecretError>>,
        now: Option<Timestamp>,
    ) -> (request: Request)
        ensures
            (final(self)@, request@) == old(self)@.user_resolved(
                checked_at,
                user_view(local),
                fetched_view(refresh),
                fetched_view(access),
                now,
            ),
    {
        let step = self.creds_storage.load_user_auth_data(
            self.user_id.as_str(),
            checked_at,
            &local,
            &refresh,
            &access,
        );
        match step {
            UserAuthStep::Fetch(key) => {
                self.stage = match refresh {
                    Some(Ok(secret)) => Stage::FetchingAccessToken {
                        local,
                        checked_at,
                        refresh: secret,
                    },
                    _ => Stage::FetchingRefreshToken { local, checked_at },
                };
                Request::FetchSecret(key)
            },
            UserAuthStep::Resolved(user) => {
                self.user_auth = user;
                if self.creds_are_loaded() {
                    self.refresh_access_token(now)
                } else {
                    self.stage = Stage::Idle;
                    Request::Authorize
                }
            },
        }
    }

    /// Takes the answer of the token endpoint: a granted bundle is stamped with
    /// `now`, becomes the user's credentials and is to be written to both
    /// places; anything else fails with `failure`.
    pub fn update_user_auth(
        &mut self,
        reply: TokenReply,
        now: Option<Timestamp>,
        failure: SetupError,
    ) -> (request: Request)
        ensures
            (final(self)@, request@) == old(self)@.token_received(reply@, now, failure),
    {
        match reply {
            TokenReply::Granted(data) => {
                let mut data = data;
                data.last_refresh = now;
                let plan = self.creds_storage.store_user_auth_data(&data, self.user_id.as_str());
                self.user_auth = Some(data);
                self.stage = Stage::Persisting;
                Request::Persist(plan)
            },
            _ => self.fail(failure),
        }
    }

    /// The authorization code in the line that the operator pasted; `None` when
    /// the line is no URL, reports an error, or holds no code.
    pub fn read_spotify_code(line: &str) -> (code: Option<String>)
        ensures
            text_view(code) == authorization_code(line@),
    {
        match parse_url(line) {
            Ok(url) => get_code_from_query_pairs(url),
            Err(_) => None,
        }
    }

    fn code_received(&mut self, code_verifier: Vec<u8>, line: String) -> (request: Request)
        ensures
            (final(self)@, request@) == old(self)@.code_received(code_verifier@, line@),
    {
        let code = match Self::read_spotify_code(line.as_str()) {
            Some(code) => code,
            None => {
                return self.fail(SetupError::NoAuthorizationCode);
            },
        };
        let client_id = match &self.app_client_id {
            Some(id) => id.clone(),
            None => {
                return self.fail(SetupError::NotSetUp);
            },
        };
        let verifier = match verifier_text(code_verifier) {
            Some(text) => text,
            None => {
                return self.fail(SetupError::VerifierNotText);
            },
        };
        self.stage = Stage::Exchanging;
        Request::PostToken(
            make_exchange_request(code.as_str(), client_id.as_str(), verifier.as_str()),
        )
    }

    /// Begins the authorization flow with the given code verifier.
    pub fn begin_authorization(&mut self, code_verifier: Vec<u8>) -> (request: Request)
        ensures
            (final(self)@, request@) == old(self)@.authorization_begun(code_verifier@),
    {
        match &self.stage {
            Stage::Idle => {},
            _ => {
                return self.fail(SetupError::OutOfTurn);
            },
        }
        let client_id = match &self.app_client_id {
            Some(id) => id.clone(),
            None => {
                return self.fail(SetupError::NotSetUp);
            },
        };
        let challenge = encode_s256(&code_verifier);
        match authorization_url(client_id.as_str(), challenge.as_str()) {
            Some(url) => {
                self.stage = Stage::AwaitingUserCode { code_verifier };
                Request::AskOperator(url)
            },
            None => self.fail(SetupError::InvalidAuthorizationUrl),
        }
    }

    /// Begins the authorization flow with a fresh code verifier.
    pub fn authorize(&mut self) -> (request: Request)
        ensures
            exists|code_verifier: Seq<u8>|
                crate::pkce::is_code_verifier(code_verifier) && (final(self)@, request@) == #[trigger] old(
                    self,
                )@.authorization_begun(code_verifier),
    {
        let code_verifier = generate_code_verifier();
        self.begin_authorization(code_verifier)
    }

    /// Takes the outcome of the last request, the clock showing `now`, and says
    /// what to do next.
    pub fn resume_at(&mut self, reply: Reply, now: Option<Timestamp>) -> (request: Request)
        ensures
            (final(self)@, request@) == old(self)@.resumed(reply@, now),
    {
        let mut stage = Stage::Complete;
        core::mem::swap(&mut self.stage, &mut stage);
        match (stage, reply) {
            (Stage::LoadingAppAuth, Reply::AppAuth(loaded)) => {
                let local = match loaded {
                    Ok(data) => Some(data),
                    Err(_) => None,
                };
                self.app_resolved(local, None)
            },
            (Stage::FetchingClientId, Reply::Secret(answer)) => self.app_resolved(
                None,
                Some(answer),
            ),
            (Stage::CachingAppAuth, Reply::Stored) => {
                self.stage = Stage::LoadingUserAuth;
                Request::LoadUserAuth
            },
            (Stage::LoadingUserAuth, Reply::UserAuth(loaded)) => {
                let local = match loaded {
                    Ok(data) => Some(data),
                    Err(_) => None,
                };
                self.user_resolved(now, local, None, None, now)
            },
            (
                Stage::FetchingRefreshToken { local, checked_at },
                Reply::Secret(answer),
            ) => self.user_resolved(checked_at, local, Some(answer), None, now),
            (
                Stage::FetchingAccessToken { local, checked_at, refresh },
                Reply::Secret(answer),
            ) => self.user_resolved(checked_at, local, Some(Ok(refresh)), Some(answer), now),
            (Stage::Refreshing, Reply::Token(reply)) => self.update_user_auth(
                reply,
                now,
                SetupError::RefreshFailed,
            ),
            (Stage::AwaitingUserCode { code_verifier }, Reply::Redirect(line)) => {
                self.code_received(code_verifier, line)
            },
            (Stage::Exchanging, Reply::Token(reply)) => self.update_user_auth(
                reply,
                now,
                SetupError::AuthExchangeFailed,
            ),
            (Stage::Persisting, Reply::Stored) => {
                self.stage = Stage::Complete;
                Request::Done
            },
            (_, _) => self.fail(SetupError::OutOfTurn),
        }
    }

    /// Takes the outcome of the last request and says what to do next. The
    /// step is that of [`Self::resume_at`] for some reading of the clock.
    pub fn resume(&mut self, reply: Reply) -> (request: Request)
        ensures
            exists|now: Option<Timestamp>|
                (final(self)@, request@) == #[trigger] old(self)@.resumed(reply@, now),
    {
        let now = Timestamp::now();
        self.resume_at(reply, now)
    }

    /// The call that asks which track is playing; an error without
    /// credentials.
    pub fn get_currently_playing_track(&self) -> (request: Result<ApiRequest, SetupError>)
        ensures
            match request {
                Ok(call) => self@.creds_are_loaded() && call@ == currently_playing_request(
                    self@.user_auth->0.access_token,
                ),
                Err(why) => !self@.creds_are_loaded() && why == SetupError::NotSetUp,
            },
    {
        if !self.creds_are_loaded() {
            return Err(SetupError::NotSetUp);
        }
        let bearer_token = self.access_token();
        let mut url = String::from_str(SPOTIFY_API_URL);
        url.append(CUR_PLAYING_API_PATH);
        Ok(ApiRequest { url, bearer_token })
    }
}

} // verus!
