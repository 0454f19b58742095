//! The two places where credentials are kept, a local cache and a remote secret
//! store, and the policy that reconciles them.
//!
//! Nothing here reads or writes either place. The functions take what was read
//! and say what to trust, what to read next and what to write.

use crate::spotify_api::AppAuthData;
use crate::spotify_api::AppAuthDataView;
use crate::spotify_api::UserAuthData;
use crate::spotify_api::UserAuthDataView;
use crate::spotify_api::SCOPE;
use crate::spotify_api::TOKEN_TYPE;
use crate::time::Timestamp;
use vstd::prelude::*;
use vstd::string::*;

verus! {

/// Name of the secret that holds the application's client id.
pub const BW_SPOTIFY_APP_CLIENTID_KEY: &'static str = "spotify_client_id";

/// Name, before the user's id, of the secret that holds a user's access token.
pub const BW_SPOTIFY_TOKEN_KEY: &'static str = "spotify_access_token";

/// Name, before the user's id, of the secret that holds a user's refresh token.
pub const BW_SPOTIFY_REFRESH_KEY: &'static str = "spotify_refresh_token";

/// Why the local cache gave no value.
#[derive(Clone, Copy, Debug, PartialEq, Eq, Structural)]
pub enum LoadError {
    /// The document does not exist.
    Absent,
    /// The document exists and cannot be parsed.
    Corrupt,
    /// The document could not be read.
    Io,
}

/// Why the secret store gave no value.
#[derive(Clone, Copy, Debug, PartialEq, Eq, Structural)]
pub enum SecretError {
    /// The store lists no secret of that name.
    NotFound,
    /// The store could not be reached or refused the call.
    Remote,
}

/// When a token was obtained and how long it lives: kept beside a stored token
/// so that its freshness can be told from the secret store alone.
#[derive(Clone, Copy, Debug, PartialEq, Eq)]
pub struct RefreshNote {
    pub expires_in: i64,
    pub last_refresh: Option<Timestamp>,
}

impl Default for RefreshNote {
    fn default() -> (note: RefreshNote)
        ensures
            note == RefreshNote::unknown(),
    {
        RefreshNote { expires_in: 0, last_refresh: None }
    }
}

impl RefreshNote {
    /// The note of a token of which nothing is known: it lives no time and was
    /// never refreshed.
    pub open spec fn unknown() -> RefreshNote {
        RefreshNote { expires_in: 0, last_refresh: None }
    }
}

/// A secret as the store returned it. The note is `None` when the secret
/// carries none or carries one that cannot be read.
#[derive(Debug, PartialEq, Eq)]
pub struct Secret {
    pub value: String,
    pub note: Option<RefreshNote>,
}

/// What a [`Secret`] holds.
pub struct SecretView {
    pub value: Seq<char>,
    pub note: Option<RefreshNote>,
}

impl View for Secret {
    type V = SecretView;

    open spec fn view(&self) -> SecretView {
        SecretView { value: self.value@, note: self.note }
    }
}

/// A secret to be written under a name.
#[derive(Debug, PartialEq, Eq)]
pub struct SecretPut {
    pub key: String,
    pub value: String,
    pub note: Option<RefreshNote>,
}

/// What a [`SecretPut`] holds.
pub struct SecretPutView {
    pub key: Seq<char>,
    pub value: Seq<char>,
    pub note: Option<RefreshNote>,
}

impl View for SecretPut {
    type V = SecretPutView;

    open spec fn view(&self) -> SecretPutView {
        SecretPutView { key: self.key@, value: self.value@, note: self.note }
    }
}

/// The call that writes a secret: the store creates a secret by name and
/// updates one by its identifier.
#[derive(Debug, PartialEq, Eq)]
pub enum SecretWrite {
    Create { organization_id: u128, project_id: u128, secret: SecretPut },
    Update { id: u128, organization_id: u128, project_id: u128, secret: SecretPut },
}

/// What a [`SecretWrite`] holds.
pub enum SecretWriteView {
    Create { organization_id: u128, project_id: u128, secret: SecretPutView },
    Update { id: u128, organization_id: u128, project_id: u128, secret: SecretPutView },
}

impl View for SecretWrite {
    type V = SecretWriteView;

    open spec fn view(&self) -> SecretWriteView {
        match *self {
            SecretWrite::Create { organization_id, project_id, secret } => SecretWriteView::Create {
                organization_id,
                project_id,
                secret: secret@,
            },
            SecretWrite::Update {
                id,
                organization_id,
                project_id,
                secret,
            } => SecretWriteView::Update { id, organization_id, project_id, secret: secret@ },
        }
    }
}

/// Everything that is written when a user's credentials are stored: the bundle
/// to the local cache, and the two tokens to the secret store. The three writes
/// do not depend on each other.
#[derive(Debug, PartialEq, Eq)]
pub struct PersistPlan {
    pub local: UserAuthData,
    pub refresh_token: SecretPut,
    pub access_token: SecretPut,
}

/// What a [`PersistPlan`] holds.
pub struct PersistPlanView {
    pub local: UserAuthDataView,
    pub refresh_token: SecretPutView,
    pub access_token: SecretPutView,
}

impl View for PersistPlan {
    type V = PersistPlanView;

    open spec fn view(&self) -> PersistPlanView {
        PersistPlanView {
            local: self.local@,
            refresh_token: self.refresh_token@,
            access_token: self.access_token@,
        }
    }
}

/// Where the resolution of the application's identity stands.
#[derive(Debug, PartialEq, Eq)]
pub enum AppAuthStep {
    /// The local cache held it.
    Cached(AppAuthData),
    /// The secret of this name has to be fetched.
    Fetch(String),
    /// The secret store held it; the local cache should now get it.
    Fetched(AppAuthData),
    /// Neither place gave it.
    Unavailable,
}

/// What an [`AppAuthStep`] holds.
pub enum AppAuthStepView {
    Cached(AppAuthDataView),
    Fetch(Seq<char>),
    Fetched(AppAuthDataView),
    Unavailable,
}

impl View for AppAuthStep {
    type V = AppAuthStepView;

    open spec fn view(&self) -> AppAuthStepView {
        match *self {
            AppAuthStep::Cached(data) => AppAuthStepView::Cached(data@),
            AppAuthStep::Fetch(key) => AppAuthStepView::Fetch(key@),
            AppAuthStep::Fetched(data) => AppAuthStepView::Fetched(data@),
            AppAuthStep::Unavailable => AppAuthStepView::Unavailable,
        }
    }
}

/// Where the resolution of a user's credentials stands.
#[derive(Debug, PartialEq, Eq)]
pub enum UserAuthStep {
    /// The secret of this name has to be fetched.
    Fetch(String),
    /// The credentials to trust; `None` when neither place has any.
    Resolved(Option<UserAuthData>),
}

/// What a [`UserAuthStep`] holds.
pub enum UserAuthStepView {
    Fetch(Seq<char>),
    Resolved(Option<UserAuthDataView>),
}

impl View for UserAuthStep {
    type V = UserAuthStepView;

    open spec fn view(&self) -> UserAuthStepView {
        match *self {
            UserAuthStep::Fetch(key) => UserAuthStepView::Fetch(key@),
            UserAuthStep::Resolved(data) => UserAuthStepView::Resolved(user_view(data)),
        }
    }
}

/// What an optional bundle holds.
pub open spec fn user_view(data: Option<UserAuthData>) -> Option<UserAuthDataView> {
    match data {
        Some(d) => Some(d@),
        None => None,
    }
}

/// What an optional application identity holds.
pub open spec fn app_view(data: Option<AppAuthData>) -> Option<AppAuthDataView> {
    match data {
        Some(d) => Some(d@),
        None => None,
    }
}

/// What the answer of the secret store holds.
pub open spec fn secret_view(answer: Result<Secret, SecretError>) -> Result<
    SecretView,
    SecretError,
> {
    match answer {
        Ok(s) => Ok(s@),
        Err(e) => Err(e),
    }
}

/// What an answer of the secret store holds, if it was asked.
pub open spec fn fetched_view(answer: Option<Result<Secret, SecretError>>) -> Option<
    Result<SecretView, SecretError>,
> {
    match answer {
        Some(a) => Some(secret_view(a)),
        None => None,
    }
}

/// The name of a user's secret: the kind of secret, an underscore, the user.
pub open spec fn user_key(kind: Seq<char>, user_id: Seq<char>) -> Seq<char> {
    kind + seq!['_'] + user_id
}

/// The identifier listed for `key`: that of the last entry of that name.
pub open spec fn secret_id_in(listing: Seq<(Seq<char>, u128)>, key: Seq<char>) -> Option<u128>
    decreases listing.len(),
{
    if listing.len() == 0 {
        None
    } else if listing.last().0 == key {
        Some(listing.last().1)
    } else {
        secret_id_in(listing.drop_last(), key)
    }
}

/// The write that puts `secret` into a store with this listing: an update of
/// the listed secret of that name, else the creation of one.
pub open spec fn secret_write(
    store: CredStorage,
    listing: Seq<(Seq<char>, u128)>,
    secret: SecretPutView,
) -> SecretWriteView {
    match secret_id_in(listing, secret.key) {
        Some(id) => SecretWriteView::Update {
            id,
            organization_id: store.organization_id,
            project_id: store.project_id,
            secret,
        },
        None => SecretWriteView::Create {
            organization_id: store.organization_id,
            project_id: store.project_id,
            secret,
        },
    }
}

/// The note stored beside the tokens of `data`: one only for a bundle with a
/// time of last refresh.
pub open spec fn refresh_note_of(data: UserAuthDataView) -> Option<RefreshNote> {
    match data.last_refresh {
        Some(at) => Some(RefreshNote { expires_in: data.expires_in, last_refresh: Some(at) }),
        None => None,
    }
}

/// What storing `data` for `user_id` writes.
pub open spec fn persist_plan(data: UserAuthDataView, user_id: Seq<char>) -> PersistPlanView {
    PersistPlanView {
        local: data,
        refresh_token: SecretPutView {
            key: user_key(BW_SPOTIFY_REFRESH_KEY@, user_id),
            value: data.refresh_token,
            note: refresh_note_of(data),
        },
        access_token: SecretPutView {
            key: user_key(BW_SPOTIFY_TOKEN_KEY@, user_id),
            value: data.access_token,
            note: refresh_note_of(data),
        },
    }
}

/// The identity of the application: the cached one if there is one, else the
/// one built from the client id in the secret store.
pub open spec fn app_auth_step(
    local: Option<AppAuthDataView>,
    remote: Option<Result<SecretView, SecretError>>,
) -> AppAuthStepView {
    match local {
        Some(data) => AppAuthStepView::Cached(data),
        None => match remote {
            None => AppAuthStepView::Fetch(BW_SPOTIFY_APP_CLIENTID_KEY@),
            Some(Ok(secret)) => AppAuthStepView::Fetched(
                AppAuthDataView { client_id: secret.value, client_secret: None },
            ),
            Some(Err(_)) => AppAuthStepView::Unavailable,
        },
    }
}

/// The bundle that the secret store alone gives: the stored refresh token, the
/// stored access token or an empty one, and the lifetime and time of refresh
/// from the note of the refresh token, or none.
pub open spec fn remote_user_auth(
    refresh: SecretView,
    access: Result<SecretView, SecretError>,
) -> UserAuthDataView {
    let note = match refresh.note {
        Some(n) => n,
        None => RefreshNote::unknown(),
    };
    UserAuthDataView {
        access_token: match access {
            Ok(a) => a.value,
            Err(_) => Seq::empty(),
        },
        token_type: TOKEN_TYPE@,
        scope: SCOPE@,
        expires_in: note.expires_in,
        refresh_token: refresh.value,
        last_refresh: note.last_refresh,
    }
}

/// The reconciliation of the local cache and the secret store.
///
/// A cached bundle that is still fresh at `now` is trusted and nothing else is
/// looked at. Otherwise the stored refresh token decides: without one the
/// cached bundle stands, stale or absent as it is; one equal to the cached
/// refresh token confirms the cached bundle; any other makes the secret store
/// the authority, and the bundle is built from what it holds.
pub open spec fn user_auth_step(
    user_id: Seq<char>,
    now: Option<Timestamp>,
    local: Option<UserAuthDataView>,
    refresh: Option<Result<SecretView, SecretError>>,
    access: Option<Result<SecretView, SecretError>>,
) -> UserAuthStepView {
    if local matches Some(data) && !data.needs_refresh(now) {
        UserAuthStepView::Resolved(local)
    } else {
        match refresh {
            None => UserAuthStepView::Fetch(user_key(BW_SPOTIFY_REFRESH_KEY@, user_id)),
            Some(Err(_)) => UserAuthStepView::Resolved(local),
            Some(Ok(secret)) => {
                if local matches Some(data) && data.refresh_token == secret.value {
                    UserAuthStepView::Resolved(local)
                } else {
                    match access {
                        None => UserAuthStepView::Fetch(user_key(BW_SPOTIFY_TOKEN_KEY@, user_id)),
                        Some(a) => UserAuthStepView::Resolved(Some(remote_user_auth(secret, a))),
                    }
                }
            },
        }
    }
}

/// A cached bundle that is still fresh is trusted as it is, and the secret store
/// is not asked: whatever it would say changes nothing.
pub proof fn lemma_fresh_local_is_trusted(
    user_id: Seq<char>,
    now: Option<Timestamp>,
    local: UserAuthDataView,
    refresh: Option<Result<SecretView, SecretError>>,
    access: Option<Result<SecretView, SecretError>>,
)
    requires
        !local.needs_refresh(now),
    ensures
        user_auth_step(user_id, now, Some(local), refresh, access) == UserAuthStepView::Resolved(
            Some(local),
        ),
{
}

/// A stale or missing cached bundle stands, as it is, when the secret store
/// gives no refresh token; with neither there are no credentials.
pub proof fn lemma_unreachable_store_keeps_local(
    user_id: Seq<char>,
    now: Option<Timestamp>,
    local: Option<UserAuthDataView>,
    why: SecretError,
    access: Option<Result<SecretView, SecretError>>,
)
    ensures
        user_auth_step(user_id, now, local, Some(Err(why)), access) == UserAuthStepView::Resolved(
            local,
        ),
{
}

/// A stale cached bundle whose refresh token is the stored one is returned
/// unchanged.
pub proof fn lemma_matching_refresh_token_keeps_local(
    user_id: Seq<char>,
    now: Option<Timestamp>,
    local: UserAuthDataView,
    refresh: SecretView,
    access: Option<Result<SecretView, SecretError>>,
)
    requires
        local.refresh_token == refresh.value,
    ensures
        user_auth_step(user_id, now, Some(local), Some(Ok(refresh)), access)
            == UserAuthStepView::Resolved(Some(local)),
{
}

/// Where the stored refresh token is not that of a fresh cached bundle, nor that
/// of the cached bundle at all, the secret store is the authority: the
/// resolved bundle has the stored refresh token and what the note says of its
/// lifetime.
pub proof fn lemma_store_is_authority(
    user_id: Seq<char>,
    now: Option<Timestamp>,
    local: Option<UserAuthDataView>,
    refresh: SecretView,
    access: Result<SecretView, SecretError>,
)
    requires
        local matches Some(data) ==> data.needs_refresh(now) && data.refresh_token
            != refresh.value,
    ensures
        user_auth_step(user_id, now, local, Some(Ok(refresh)), Some(access))
            == UserAuthStepView::Resolved(Some(remote_user_auth(refresh, access))),
        remote_user_auth(refresh, access).refresh_token == refresh.value,
        refresh.note matches Some(note) ==> remote_user_auth(refresh, access).expires_in
            == note.expires_in && remote_user_auth(refresh, access).last_refresh
            == note.last_refresh,
        refresh.note is None ==> remote_user_auth(refresh, access).expires_in == 0
            && remote_user_auth(refresh, access).last_refresh is None,
{
}

/// The resolution asks for the refresh token first and for the access token
/// second, and with both answers it has resolved. An answer that it did not ask
/// for changes nothing.
pub proof fn lemma_resolution_ends(
    user_id: Seq<char>,
    now: Option<Timestamp>,
    local: Option<UserAuthDataView>,
    refresh: Result<SecretView, SecretError>,
    access: Result<SecretView, SecretError>,
)
    ensures
        user_auth_step(user_id, now, local, None, None) matches UserAuthStepView::Fetch(key)
            ==> key == user_key(BW_SPOTIFY_REFRESH_KEY@, user_id),
        user_auth_step(user_id, now, local, Some(refresh), None) matches UserAuthStepView::Fetch(
            key,
        ) ==> key == user_key(BW_SPOTIFY_TOKEN_KEY@, user_id),
        user_auth_step(user_id, now, local, Some(refresh), Some(access)) is Resolved,
        user_auth_step(user_id, now, local, None, None) is Resolved ==> user_auth_step(
            user_id,
            now,
            local,
            Some(refresh),
            Some(access),
        ) == user_auth_step(user_id, now, local, None, None),
        user_auth_step(user_id, now, local, Some(refresh), None) is Resolved ==> user_auth_step(
            user_id,
            now,
            local,
            Some(refresh),
            Some(access),
        ) == user_auth_step(user_id, now, local, Some(refresh), None),
{
}

/// The name of a user's secret.
fn make_user_key(kind: &str, user_id: &str) -> (key: String)
    ensures
        key@ == user_key(kind@, user_id@),
{
    proof {
        reveal_strlit("_");
    }
    let mut key = String::from_str(kind);
    key.append("_");
    key.append(user_id);
    assert(key@ =~= user_key(kind@, user_id@));
    key
}

/// The note stored beside the tokens of `data`.
pub fn make_refresh_note(data: &UserAuthData) -> (note: Option<RefreshNote>)
    ensures
        note == refresh_note_of(data@),
{
    match data.last_refresh {
        Some(at) => Some(RefreshNote { expires_in: data.expires_in, last_refresh: Some(at) }),
        None => None,
    }
}

/// The identifier that `listing` gives for `key`.
pub fn find_secret_id(listing: &Vec<(String, u128)>, key: &str) -> (id: Option<u128>)
    ensures
        id == secret_id_in(listing.deep_view(), key@),
{
    let wanted = String::from_str(key);
    let mut i: usize = listing.len();
    assert(listing.deep_view().take(i as int) =~= listing.deep_view());
    while i > 0
        invariant
            i <= listing@.len(),
            wanted@ == key@,
            secret_id_in(listing.deep_view(), key@) == secret_id_in(
                listing.deep_view().take(i as int),
                key@,
            ),
        decreases i,
    {
        let ghost prefix = listing.deep_view().take(i as int);
        i = i - 1;
        proof {
            assert(prefix.last() == listing.deep_view()[i as int]);
            assert(prefix.drop_last() =~= listing.deep_view().take(i as int));
        }
        if listing[i].0 == wanted {
            return Some(listing[i].1);
        }
    }
    proof {
        assert(listing.deep_view().take(0).len() == 0);
    }
    None
}

/// The organization and the project whose secrets hold the credentials.
#[derive(Clone, Copy, Debug, PartialEq, Eq)]
pub struct CredStorage {
    pub organization_id: u128,
    pub project_id: u128,
}

impl CredStorage {
    /// The store of the given project of the given organization.
    pub fn new(organization_id: u128, project_id: u128) -> (store: CredStorage)
        ensures
            store.organization_id == organization_id,
            store.project_id == project_id,
    {
        CredStorage { organization_id, project_id }
    }

    /// The identifier under which the secret named `key` can be read, given
    /// the listing of the store.
    pub fn get_secret(&self, listing: &Vec<(String, u128)>, key: &str) -> (id: Result<
        u128,
        SecretError,
    >)
        ensures
            id == match secret_id_in(listing.deep_view(), key@) {
                Some(found) => Ok::<u128, SecretError>(found),
                None => Err(SecretError::NotFound),
            },
    {
        match find_secret_id(listing, key) {
            Some(found) => Ok(found),
            None => Err(SecretError::NotFound),
        }
    }

    /// The call that puts `value` with `note` under the name `key`, given the
    /// listing of the store.
    pub fn put_secret(
        &self,
        listing: &Vec<(String, u128)>,
        key: &str,
        value: &str,
        note: Option<RefreshNote>,
    ) -> (write: SecretWrite)
        ensures
            write@ == secret_write(
                *self,
                listing.deep_view(),
                SecretPutView { key: key@, value: value@, note },
            ),
    {
        let secret = SecretPut { key: String::from_str(key), value: String::from_str(value), note };
        match find_secret_id(listing, key) {
            Some(id) => SecretWrite::Update {
                id,
                organization_id: self.organization_id,
                project_id: self.project_id,
                secret,
            },
            None => SecretWrite::Create {
                organization_id: self.organization_id,
                project_id: self.project_id,
                secret,
            },
        }
    }

    /// Resolves the identity of the application from what has been read so
    /// far: `local` from the cache (`None`: nothing usable), `remote` from the
    /// secret store (`None`: not asked yet).
    pub fn load_app_auth_data(
        &self,
        local: &Option<AppAuthData>,
        remote: &Option<Result<Secret, SecretError>>,
    ) -> (step: AppAuthStep)
        ensures
            step@ == app_auth_step(app_view(*local), fetched_view(*remote)),
    {
        match local {
            Some(data) => AppAuthStep::Cached(data.clone()),
            None => match remote {
                None => AppAuthStep::Fetch(String::from_str(BW_SPOTIFY_APP_CLIENTID_KEY)),
                Some(Ok(secret)) => AppAuthStep::Fetched(
                    AppAuthData { client_id: secret.value.clone(), client_secret: None },
                ),
                Some(Err(_)) => AppAuthStep::Unavailable,
            },
        }
    }

    /// Resolves the credentials of `user_id` from what has been read so far:
    /// `local` from the cache (`None`: nothing usable), `refresh` and `access`
    /// from the secret store (`None`: not asked yet), with the clock at `now`.
    pub fn load_user_auth_data(
        &self,
        user_id: &str,
        now: Option<Timestamp>,
        local: &Option<UserAuthData>,
        refresh: &Option<Result<Secret, SecretError>>,
        access: &Option<Result<Secret, SecretError>>,
    ) -> (step: UserAuthStep)
        ensures
            step@ == user_auth_step(
                user_id@,
                now,
                user_view(*local),
                fetched_view(*refresh),
                fetched_view(*access),
            ),
    {
        match local {
            Some(data) => {
                if !data.token_needs_refresh_at(now) {
                    return UserAuthStep::Resolved(Some(data.clone()));
                }
            },
            None => {},
        }
        let secret = match refresh {
            None => {
                return UserAuthStep::Fetch(make_user_key(BW_SPOTIFY_REFRESH_KEY, user_id));
            },
            Some(Err(_)) => {
                return UserAuthStep::Resolved(
                    match local {
                        Some(data) => Some(data.clone()),
                        None => None,
                    },
                );
            },
            Some(Ok(secret)) => secret,
        };
        match local {
            Some(data) => {
                if secret.value == data.refresh_token {
                    return UserAuthStep::Resolved(Some(data.clone()));
                }
            },
            None => {},
        }
        let access_token = match access {
            None => {
                return UserAuthStep::Fetch(make_user_key(BW_SPOTIFY_TOKEN_KEY, user_id));
            },
            Some(Ok(a)) => a.value.clone(),
            Some(Err(_)) => String::new(),
        };
        let note = match secret.note {
            Some(n) => n,
            None => RefreshNote::default(),
        };
        UserAuthStep::Resolved(
            Some(
                UserAuthData {
                    access_token,
                    token_type: String::from_str(TOKEN_TYPE),
                    scope: String::from_str(SCOPE),
                    expires_in: note.expires_in,
                    refresh_token: secret.value.clone(),
                    last_refresh: note.last_refresh,
                },
            ),
        )
    }

    /// What storing `user_auth` for `user_id` writes.
    pub fn store_user_auth_data(&self, user_auth: &UserAuthData, user_id: &str) -> (plan:
        PersistPlan)
        ensures
            plan@ == persist_plan(user_auth@, user_id@),
    {
        PersistPlan {
            local: user_auth.clone(),
            refresh_token: SecretPut {
                key: make_user_key(BW_SPOTIFY_REFRESH_KEY, user_id),
                value: user_auth.refresh_token.clone(),
                note: make_refresh_note(user_auth),
            },
            access_token: SecretPut {
                key: make_user_key(BW_SPOTIFY_TOKEN_KEY, user_id),
                value: user_auth.access_token.clone(),
                note: make_refresh_note(user_auth),
            },
        }
    }
}

} // verus!
