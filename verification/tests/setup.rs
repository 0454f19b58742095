use spotify_rs::local_store::CredStorage;
use spotify_rs::local_store::LoadError;
use spotify_rs::local_store::RefreshNote;
use spotify_rs::local_store::Secret;
use spotify_rs::local_store::SecretError;
use spotify_rs::local_store::SecretPut;
use spotify_rs::local_store::SecretWrite;
use spotify_rs::pkce::encode_s256;
use spotify_rs::spotify_api::AppAuthData;
use spotify_rs::spotify_api::Reply;
use spotify_rs::spotify_api::Request;
use spotify_rs::spotify_api::SetupError;
use spotify_rs::spotify_api::SpotifyClient;
use spotify_rs::spotify_api::Stage;
use spotify_rs::spotify_api::TokenReply;
use spotify_rs::spotify_api::TokenRequest;
use spotify_rs::spotify_api::UserAuthData;
use spotify_rs::spotify_api::SCOPE;
use spotify_rs::time::Timestamp;

const NOW: u64 = 1_700_000_000;

fn at(secs: u64, nanos: u32) -> Timestamp {
    Timestamp::new(secs, nanos).unwrap()
}

fn now() -> Option<Timestamp> {
    Some(at(NOW, 0))
}

fn pair(name: &str, value: &str) -> (String, String) {
    (String::from(name), String::from(value))
}

fn bundle(refresh_token: &str, expires_in: i64, last_refresh: Option<Timestamp>) -> UserAuthData {
    UserAuthData {
        access_token: String::from("local-access"),
        token_type: String::from("Bearer"),
        scope: String::from(SCOPE),
        expires_in,
        refresh_token: String::from(refresh_token),
        last_refresh,
    }
}

fn granted() -> UserAuthData {
    UserAuthData {
        access_token: String::from("new-access"),
        token_type: String::from("Bearer"),
        scope: String::from("user-top-read"),
        expires_in: 3600,
        refresh_token: String::from("new-refresh"),
        last_refresh: None,
    }
}

fn app(client_id: &str) -> AppAuthData {
    AppAuthData { client_id: String::from(client_id), client_secret: None }
}

fn client() -> SpotifyClient {
    SpotifyClient::new(String::from("jorge"), CredStorage::new(0x11, 0x22))
}

/// Both places and the two outside parties, as far as a run needs them.
struct World {
    app_local: Result<AppAuthData, LoadError>,
    user_local: Result<UserAuthData, LoadError>,
    reachable: bool,
    next_id: u128,
    secrets: Vec<(u128, String, String, Option<RefreshNote>)>,
    token: Option<UserAuthData>,
    line: String,
    fetched: Vec<String>,
    posted: Vec<TokenRequest>,
    shown: Vec<String>,
}

fn world() -> World {
    World {
        app_local: Err(LoadError::Absent),
        user_local: Err(LoadError::Absent),
        reachable: true,
        next_id: 100,
        secrets: Vec::new(),
        token: None,
        line: String::new(),
        fetched: Vec::new(),
        posted: Vec::new(),
        shown: Vec::new(),
    }
}

fn fetch(world: &mut World, store: &CredStorage, key: &str) -> Result<Secret, SecretError> {
    world.fetched.push(String::from(key));
    if !world.reachable {
        return Err(SecretError::Remote);
    }
    let listing: Vec<(String, u128)> =
        world.secrets.iter().map(|s| (s.1.clone(), s.0)).collect();
    let id = store.get_secret(&listing, key)?;
    let found = world.secrets.iter().find(|s| s.0 == id).unwrap();
    Ok(Secret { value: found.2.clone(), note: found.3 })
}

fn put(world: &mut World, store: &CredStorage, secret: &SecretPut) {
    if !world.reachable {
        return;
    }
    let listing: Vec<(String, u128)> =
        world.secrets.iter().map(|s| (s.1.clone(), s.0)).collect();
    match store.put_secret(&listing, &secret.key, &secret.value, secret.note) {
        SecretWrite::Create { organization_id, project_id, secret } => {
            assert_eq!((organization_id, project_id), (0x11, 0x22));
            let id = world.next_id;
            world.next_id += 1;
            world.secrets.push((id, secret.key, secret.value, secret.note));
        }
        SecretWrite::Update { id, organization_id, project_id, secret } => {
            assert_eq!((organization_id, project_id), (0x11, 0x22));
            for s in world.secrets.iter_mut() {
                if s.0 == id {
                    *s = (id, secret.key.clone(), secret.value.clone(), secret.note);
                }
            }
        }
    }
}

/// Carries out requests until the client has none left.
fn run(client: &mut SpotifyClient, world: &mut World) -> Result<(), SetupError> {
    let store = client.creds_storage;
    let mut request = client.setup_creds();
    loop {
        let reply = match request {
            Request::LoadAppAuth => Reply::AppAuth(world.app_local.clone()),
            Request::LoadUserAuth => Reply::UserAuth(world.user_local.clone()),
            Request::FetchSecret(key) => Reply::Secret(fetch(world, &store, &key)),
            Request::StoreAppAuth(data) => {
                world.app_local = Ok(data);
                Reply::Stored
            }
            Request::Persist(plan) => {
                put(world, &store, &plan.refresh_token);
                put(world, &store, &plan.access_token);
                world.user_local = Ok(plan.local);
                Reply::Stored
            }
            Request::PostToken(form) => {
                world.posted.push(form);
                match world.token.clone() {
                    Some(data) => Reply::Token(TokenReply::Granted(data)),
                    None => Reply::Token(TokenReply::Unreachable),
                }
            }
            Request::Authorize => {
                request = client.authorize();
                continue;
            }
            Request::AskOperator(url) => {
                world.shown.push(String::from(url.as_str()));
                Reply::Redirect(world.line.clone())
            }
            Request::Done => return Ok(()),
            Request::Fail(why) => return Err(why),
        };
        request = client.resume_at(reply, now());
    }
}

fn add_secret(world: &mut World, key: &str, value: &str, note: Option<RefreshNote>) {
    let id = world.next_id;
    world.next_id += 1;
    world.secrets.push((id, String::from(key), String::from(value), note));
}

#[test]
fn a_new_client_has_nothing() {
    let c = client();
    assert_eq!(c.user_id, "jorge");
    assert_eq!(c.app_client_id, None);
    assert_eq!(c.user_auth, None);
    assert_eq!(c.stage, Stage::Unstarted);
    assert!(!c.creds_are_loaded());
}

#[test]
fn setup_starts_with_the_cached_app_identity() {
    let mut c = client();
    assert_eq!(c.setup_creds(), Request::LoadAppAuth);
    assert_eq!(c.stage, Stage::LoadingAppAuth);
    c.stage = Stage::Failed(SetupError::RefreshFailed);
    assert_eq!(c.setup_creds(), Request::LoadAppAuth);
    assert_eq!(c.stage, Stage::LoadingAppAuth);
}

#[test]
fn fresh_local_credentials_need_no_remote_call() {
    let mut w = world();
    w.app_local = Ok(app("cached-client"));
    let local = bundle("local-refresh", 3600, Some(at(NOW - 10, 0)));
    w.user_local = Ok(local.clone());
    add_secret(&mut w, "spotify_refresh_token_jorge", "remote-refresh", None);
    let mut c = client();
    assert_eq!(run(&mut c, &mut w), Ok(()));
    assert_eq!(w.fetched.len(), 0);
    assert_eq!(w.posted.len(), 0);
    assert_eq!(c.user_auth, Some(local));
    assert_eq!(c.app_client_id, Some(String::from("cached-client")));
    assert_eq!(c.stage, Stage::Complete);
    assert!(c.creds_are_loaded());
}

#[test]
fn app_identity_is_fetched_and_cached() {
    let mut w = world();
    w.app_local = Err(LoadError::Corrupt);
    w.user_local = Ok(bundle("local-refresh", 3600, Some(at(NOW - 10, 0))));
    add_secret(&mut w, "spotify_client_id", "remote-client", None);
    let mut c = client();
    assert_eq!(run(&mut c, &mut w), Ok(()));
    assert_eq!(w.fetched, vec![String::from("spotify_client_id")]);
    assert_eq!(w.app_local, Ok(app("remote-client")));
    assert_eq!(c.app_client_id, Some(String::from("remote-client")));
}

#[test]
fn every_kind_of_cache_failure_falls_back_to_the_secret_store() {
    for why in [LoadError::Absent, LoadError::Corrupt, LoadError::Io] {
        let mut c = client();
        c.setup_creds();
        assert_eq!(
            c.resume_at(Reply::AppAuth(Err(why)), now()),
            Request::FetchSecret(String::from("spotify_client_id"))
        );
        assert_eq!(c.stage, Stage::FetchingClientId);
    }
}

#[test]
fn setup_fails_without_an_app_identity() {
    let mut w = world();
    let mut c = client();
    assert_eq!(run(&mut c, &mut w), Err(SetupError::CredentialUnavailable));
    assert_eq!(c.stage, Stage::Failed(SetupError::CredentialUnavailable));
    assert_eq!(c.app_client_id, None);
    let mut w = world();
    w.reachable = false;
    let mut c = client();
    assert_eq!(run(&mut c, &mut w), Err(SetupError::CredentialUnavailable));
}

#[test]
fn stored_credentials_are_used_when_the_cache_is_empty() {
    let mut w = world();
    w.app_local = Ok(app("cached-client"));
    let note = Some(RefreshNote { expires_in: 3600, last_refresh: Some(at(NOW - 100, 0)) });
    add_secret(&mut w, "spotify_refresh_token_jorge", "remote-refresh", note);
    add_secret(&mut w, "spotify_access_token_jorge", "remote-access", note);
    let mut c = client();
    assert_eq!(run(&mut c, &mut w), Ok(()));
    assert_eq!(
        w.fetched,
        vec![
            String::from("spotify_refresh_token_jorge"),
            String::from("spotify_access_token_jorge")
        ]
    );
    assert_eq!(w.posted.len(), 0);
    assert_eq!(
        c.user_auth,
        Some(UserAuthData {
            access_token: String::from("remote-access"),
            token_type: String::from("Bearer"),
            scope: String::from(SCOPE),
            expires_in: 3600,
            refresh_token: String::from("remote-refresh"),
            last_refresh: Some(at(NOW - 100, 0)),
        })
    );
}

#[test]
fn stale_stored_credentials_are_refreshed_and_persisted() {
    let mut w = world();
    w.app_local = Ok(app("cached-client"));
    add_secret(&mut w, "spotify_refresh_token_jorge", "remote-refresh", None);
    w.token = Some(granted());
    let mut c = client();
    assert_eq!(run(&mut c, &mut w), Ok(()));
    assert_eq!(w.posted.len(), 1);
    assert_eq!(
        w.posted[0].form,
        vec![
            pair("grant_type", "refresh_token"),
            pair("refresh_token", "remote-refresh"),
            pair("client_id", "cached-client"),
        ]
    );
    let mut expected = granted();
    expected.last_refresh = now();
    assert_eq!(c.user_auth, Some(expected.clone()));
    assert_eq!(w.user_local, Ok(expected));
    let note = Some(RefreshNote { expires_in: 3600, last_refresh: now() });
    assert_eq!(
        w.secrets,
        vec![
            (100, String::from("spotify_refresh_token_jorge"), String::from("new-refresh"), note),
            (101, String::from("spotify_access_token_jorge"), String::from("new-access"), note),
        ]
    );
    assert_eq!(c.stage, Stage::Complete);
}

#[test]
fn expired_local_credentials_confirmed_by_the_store_are_refreshed() {
    let mut w = world();
    w.app_local = Ok(app("cached-client"));
    let local = bundle("same-refresh", 3600, Some(at(NOW - 4000, 0)));
    w.user_local = Ok(local.clone());
    add_secret(&mut w, "spotify_refresh_token_jorge", "same-refresh", None);
    add_secret(&mut w, "spotify_access_token_jorge", "remote-access", None);
    let mut c = client();
    c.setup_creds();
    c.resume_at(Reply::AppAuth(w.app_local.clone()), now());
    let request = c.resume_at(Reply::UserAuth(Ok(local.clone())), now());
    assert_eq!(request, Request::FetchSecret(String::from("spotify_refresh_token_jorge")));
    let request = c.resume_at(
        Reply::Secret(Ok(Secret { value: String::from("same-refresh"), note: None })),
        now(),
    );
    assert_eq!(c.user_auth, Some(local));
    assert_eq!(c.stage, Stage::Refreshing);
    match request {
        Request::PostToken(form) => assert_eq!(form.form[1], pair("refresh_token", "same-refresh")),
        other => panic!("{:?}", other),
    }
}

#[test]
fn stale_local_credentials_stand_when_the_store_is_unreachable() {
    let mut w = world();
    w.app_local = Ok(app("cached-client"));
    let local = bundle("local-refresh", 3600, Some(at(NOW - 4000, 0)));
    w.user_local = Ok(local.clone());
    w.reachable = false;
    w.token = None;
    let mut c = client();
    assert_eq!(run(&mut c, &mut w), Err(SetupError::RefreshFailed));
    assert_eq!(c.user_auth, Some(local));
    assert_eq!(w.fetched, vec![String::from("spotify_refresh_token_jorge")]);
    assert_eq!(w.posted.len(), 1);
    assert_eq!(w.posted[0].form[1], pair("refresh_token", "local-refresh"));
}

#[test]
fn freshness_is_judged_at_the_time_of_the_cache_read() {
    let local = bundle("local-refresh", 3600, Some(at(NOW - 3590, 0)));
    let mut c = client();
    c.setup_creds();
    c.resume_at(Reply::AppAuth(Ok(app("cached-client"))), now());
    let late = Some(at(NOW + 10, 0));
    assert_eq!(
        c.resume_at(Reply::UserAuth(Ok(local.clone())), late),
        Request::FetchSecret(String::from("spotify_refresh_token_jorge"))
    );
    assert_eq!(
        c.stage,
        Stage::FetchingRefreshToken { local: Some(local.clone()), checked_at: late }
    );
    let mut c = client();
    c.setup_creds();
    c.resume_at(Reply::AppAuth(Ok(app("cached-client"))), now());
    assert_eq!(c.resume_at(Reply::UserAuth(Ok(local)), now()), Request::Done);
}

#[test]
fn refresh_failures_are_reported() {
    for reply in [TokenReply::Unreachable, TokenReply::Unreadable] {
        let mut c = client();
        c.app_client_id = Some(String::from("cached-client"));
        c.user_auth = Some(bundle("local-refresh", 3600, None));
        match c.refresh_access_token(now()) {
            Request::PostToken(_) => {}
            other => panic!("{:?}", other),
        }
        assert_eq!(c.stage, Stage::Refreshing);
        assert_eq!(
            c.resume_at(Reply::Token(reply), now()),
            Request::Fail(SetupError::RefreshFailed)
        );
        assert_eq!(c.stage, Stage::Failed(SetupError::RefreshFailed));
        assert_eq!(c.user_auth, Some(bundle("local-refresh", 3600, None)));
    }
}

#[test]
fn refresh_is_skipped_for_a_fresh_token() {
    let mut c = client();
    c.app_client_id = Some(String::from("cached-client"));
    c.user_auth = Some(bundle("local-refresh", 3600, Some(at(NOW - 10, 0))));
    assert_eq!(c.refresh_access_token(now()), Request::Done);
    assert_eq!(c.stage, Stage::Complete);
    assert_eq!(
        c.refresh_access_token(Some(at(NOW + 3585, 0))),
        Request::PostToken(spotify_rs::spotify_api::make_refresh_request(
            "local-refresh",
            "cached-client"
        ))
    );
}

#[test]
fn refresh_without_credentials_fails() {
    let mut c = client();
    assert_eq!(c.refresh_access_token(now()), Request::Fail(SetupError::NotSetUp));
    assert_eq!(c.stage, Stage::Failed(SetupError::NotSetUp));
    let mut c = client();
    c.user_auth = Some(bundle("r", 3600, None));
    assert_eq!(c.refresh_access_token(now()), Request::Fail(SetupError::NotSetUp));
}

#[test]
fn missing_credentials_start_the_authorization_flow() {
    let mut w = world();
    w.app_local = Ok(app("cached-client"));
    w.line = String::from("http://localhost:8080/?state=xyz&code=the-code\n");
    w.token = Some(granted());
    let mut c = client();
    assert_eq!(run(&mut c, &mut w), Ok(()));
    assert_eq!(w.fetched, vec![String::from("spotify_refresh_token_jorge")]);
    assert_eq!(w.shown.len(), 1);
    assert!(w.shown[0].starts_with(
        "https://accounts.spotify.com/authorize?response_type=code&client_id=cached-client&scope="
    ));
    assert_eq!(w.posted.len(), 1);
    let form = &w.posted[0].form;
    assert_eq!(form.len(), 5);
    assert_eq!(form[0], pair("grant_type", "authorization_code"));
    assert_eq!(form[1], pair("code", "the-code"));
    assert_eq!(form[2], pair("client_id", "cached-client"));
    assert_eq!(form[3].0, "code_verifier");
    assert_eq!(form[3].1.len(), 128);
    assert_eq!(form[4], pair("redirect_uri", "http://localhost:8080"));
    let challenge = encode_s256(&form[3].1.clone().into_bytes());
    assert!(w.shown[0].contains(&format!("&code_challenge={}&", challenge)));
    let mut expected = granted();
    expected.last_refresh = now();
    assert_eq!(c.user_auth, Some(expected.clone()));
    assert_eq!(w.user_local, Ok(expected));
    assert_eq!(w.secrets.len(), 2);
    assert_eq!(c.stage, Stage::Complete);
}

#[test]
fn authorization_walks_through_its_stages() {
    let mut c = client();
    c.app_client_id = Some(String::from("cached-client"));
    c.stage = Stage::Idle;
    let verifier = vec![b'a'; 128];
    let request = c.begin_authorization(verifier.clone());
    let challenge = encode_s256(&verifier);
    match request {
        Request::AskOperator(url) => {
            let pairs: Vec<(String, String)> = url.query_pairs().into_owned().collect();
            assert_eq!(pairs[4], pair("code_challenge", &challenge));
            assert_eq!(pairs[1], pair("client_id", "cached-client"));
        }
        other => panic!("{:?}", other),
    }
    assert_eq!(c.stage, Stage::AwaitingUserCode { code_verifier: verifier });
    let request =
        c.resume_at(Reply::Redirect(String::from("http://localhost:8080/?code=the-code")), now());
    assert_eq!(
        request,
        Request::PostToken(spotify_rs::spotify_api::make_exchange_request(
            "the-code",
            "cached-client",
            &"a".repeat(128)
        ))
    );
    assert_eq!(c.stage, Stage::Exchanging);
    let request = c.resume_at(Reply::Token(TokenReply::Granted(granted())), now());
    let mut expected = granted();
    expected.last_refresh = now();
    assert_eq!(
        request,
        Request::Persist(c.creds_storage.store_user_auth_data(&expected, "jorge"))
    );
    assert_eq!(c.stage, Stage::Persisting);
    assert_eq!(c.resume_at(Reply::Stored, now()), Request::Done);
    assert_eq!(c.stage, Stage::Complete);
}

#[test]
fn authorize_draws_a_fresh_verifier() {
    let mut c = client();
    c.app_client_id = Some(String::from("cached-client"));
    c.stage = Stage::Idle;
    let request = c.authorize();
    let verifier = match &c.stage {
        Stage::AwaitingUserCode { code_verifier } => code_verifier.clone(),
        other => panic!("{:?}", other),
    };
    assert_eq!(verifier.len(), 128);
    match request {
        Request::AskOperator(url) => {
            let pairs: Vec<(String, String)> = url.query_pairs().into_owned().collect();
            assert_eq!(pairs[4], pair("code_challenge", &encode_s256(&verifier)));
        }
        other => panic!("{:?}", other),
    }
}

#[test]
fn authorization_fails_on_an_error_redirect() {
    for line in [
        "http://localhost:8080/?error=access_denied&state=xyz",
        "http://localhost:8080/?code=the-code&error=access_denied",
        "http://localhost:8080/?state=xyz",
        "no url at all",
        "",
    ] {
        let mut w = world();
        w.app_local = Ok(app("cached-client"));
        w.line = String::from(line);
        w.token = Some(granted());
        let mut c = client();
        assert_eq!(run(&mut c, &mut w), Err(SetupError::NoAuthorizationCode));
        assert_eq!(c.stage, Stage::Failed(SetupError::NoAuthorizationCode));
        assert_eq!(w.posted.len(), 0);
        assert_eq!(c.user_auth, None);
    }
}

#[test]
fn authorization_fails_when_the_exchange_fails() {
    for reply in [TokenReply::Unreachable, TokenReply::Unreadable] {
        let mut c = client();
        c.app_client_id = Some(String::from("cached-client"));
        c.stage = Stage::Exchanging;
        assert_eq!(
            c.resume_at(Reply::Token(reply), now()),
            Request::Fail(SetupError::AuthExchangeFailed)
        );
        assert_eq!(c.stage, Stage::Failed(SetupError::AuthExchangeFailed));
        assert_eq!(c.user_auth, None);
    }
}

#[test]
fn authorization_needs_its_turn_and_a_client_id() {
    let mut c = client();
    assert_eq!(c.begin_authorization(vec![b'a'; 128]), Request::Fail(SetupError::OutOfTurn));
    assert_eq!(c.stage, Stage::Failed(SetupError::OutOfTurn));
    let mut c = client();
    c.stage = Stage::Idle;
    assert_eq!(c.begin_authorization(vec![b'a'; 128]), Request::Fail(SetupError::NotSetUp));
    let mut c = client();
    c.stage = Stage::AwaitingUserCode { code_verifier: vec![b'a'; 128] };
    assert_eq!(
        c.resume_at(Reply::Redirect(String::from("http://localhost:8080/?code=c")), now()),
        Request::Fail(SetupError::NotSetUp)
    );
}

#[test]
fn a_verifier_that_is_no_text_cannot_be_sent() {
    let mut c = client();
    c.app_client_id = Some(String::from("cached-client"));
    c.stage = Stage::Idle;
    match c.begin_authorization(vec![0xff, 0xfe]) {
        Request::AskOperator(_) => {}
        other => panic!("{:?}", other),
    }
    assert_eq!(
        c.resume_at(Reply::Redirect(String::from("http://localhost:8080/?code=c")), now()),
        Request::Fail(SetupError::VerifierNotText)
    );
    assert_eq!(c.stage, Stage::Failed(SetupError::VerifierNotText));
}

#[test]
fn a_reply_out_of_turn_fails() {
    let mut c = client();
    assert_eq!(c.resume_at(Reply::Stored, now()), Request::Fail(SetupError::OutOfTurn));
    assert_eq!(c.stage, Stage::Failed(SetupError::OutOfTurn));
    let mut c = client();
    c.setup_creds();
    assert_eq!(
        c.resume_at(Reply::UserAuth(Err(LoadError::Absent)), now()),
        Request::Fail(SetupError::OutOfTurn)
    );
    let mut c = client();
    c.stage = Stage::Complete;
    assert_eq!(
        c.resume_at(Reply::Token(TokenReply::Granted(granted())), now()),
        Request::Fail(SetupError::OutOfTurn)
    );
    assert_eq!(c.user_auth, None);
}

#[test]
fn an_unreadable_clock_stamps_nothing() {
    let mut c = client();
    c.app_client_id = Some(String::from("cached-client"));
    c.stage = Stage::Refreshing;
    match c.resume_at(Reply::Token(TokenReply::Granted(granted())), None) {
        Request::Persist(plan) => {
            assert_eq!(plan.local.last_refresh, None);
            assert_eq!(plan.refresh_token.note, None);
            assert_eq!(plan.access_token.note, None);
        }
        other => panic!("{:?}", other),
    }
    assert_eq!(c.user_auth, Some(granted()));
}

#[test]
fn resume_reads_the_clock() {
    let clock = Timestamp::now().unwrap();
    let local = bundle("local-refresh", 3600, Some(at(clock.secs() - 10, 0)));
    let mut c = client();
    c.setup_creds();
    assert_eq!(c.resume(Reply::AppAuth(Ok(app("cached-client")))), Request::LoadUserAuth);
    assert_eq!(c.resume(Reply::UserAuth(Ok(local.clone()))), Request::Done);
    assert_eq!(c.user_auth, Some(local));
    let mut c = client();
    c.app_client_id = Some(String::from("cached-client"));
    c.stage = Stage::Refreshing;
    c.resume(Reply::Token(TokenReply::Granted(granted())));
    let stamp = c.user_auth.unwrap().last_refresh.unwrap();
    assert!(stamp.secs() >= clock.secs());
    assert!(stamp.secs() <= clock.secs() + 60);
}

#[test]
fn persisting_twice_is_persisting_once() {
    let store = CredStorage::new(0x11, 0x22);
    let mut data = granted();
    data.last_refresh = now();
    let plan = store.store_user_auth_data(&data, "jorge");
    for prior in 0..4 {
        let mut w = world();
        if prior & 1 != 0 {
            add_secret(&mut w, "spotify_refresh_token_jorge", "old-refresh", None);
        }
        add_secret(&mut w, "unrelated", "value", None);
        if prior & 2 != 0 {
            add_secret(&mut w, "spotify_access_token_jorge", "old-access", None);
        }
        put(&mut w, &store, &plan.refresh_token);
        put(&mut w, &store, &plan.access_token);
        w.user_local = Ok(plan.local.clone());
        let once = (w.secrets.clone(), w.user_local.clone());
        assert_eq!(once.0.len(), 3);
        put(&mut w, &store, &plan.refresh_token);
        put(&mut w, &store, &plan.access_token);
        w.user_local = Ok(plan.local.clone());
        assert_eq!((w.secrets.clone(), w.user_local.clone()), once);
        let stored = fetch(&mut w, &store, "spotify_refresh_token_jorge").unwrap();
        assert_eq!(stored.value, "new-refresh");
        assert_eq!(stored.note, Some(RefreshNote { expires_in: 3600, last_refresh: now() }));
        let stored = fetch(&mut w, &store, "spotify_access_token_jorge").unwrap();
        assert_eq!(stored.value, "new-access");
        assert_eq!(fetch(&mut w, &store, "unrelated").unwrap().value, "value");
    }
}

#[test]
fn stored_credentials_are_found_again() {
    let mut w = world();
    w.app_local = Ok(app("cached-client"));
    w.line = String::from("http://localhost:8080/?code=the-code");
    w.token = Some(granted());
    let mut c = client();
    assert_eq!(run(&mut c, &mut w), Ok(()));
    let first = c.user_auth.clone();
    w.user_local = Err(LoadError::Absent);
    w.fetched.clear();
    w.posted.clear();
    let mut again = client();
    assert_eq!(run(&mut again, &mut w), Ok(()));
    assert_eq!(w.posted.len(), 0);
    assert_eq!(w.fetched.len(), 2);
    let mut expected = first.unwrap();
    expected.scope = String::from(SCOPE);
    assert_eq!(again.user_auth, Some(expected));
}
