//! A model of the two places where credentials are kept, and what the writes
//! that the library asks for do to them when each of them is carried out.

use crate::local_store::persist_plan;
use crate::local_store::secret_id_in;
use crate::local_store::secret_write;
use crate::local_store::user_key;
use crate::local_store::CredStorage;
use crate::local_store::PersistPlanView;
use crate::local_store::refresh_note_of;
use crate::local_store::user_auth_step;
use crate::local_store::RefreshNote;
use crate::local_store::SecretError;
use crate::local_store::SecretPutView;
use crate::local_store::SecretView;
use crate::local_store::SecretWriteView;
use crate::local_store::UserAuthStepView;
use crate::local_store::BW_SPOTIFY_REFRESH_KEY;
use crate::local_store::BW_SPOTIFY_TOKEN_KEY;
use crate::spotify_api::UserAuthDataView;
use crate::spotify_api::SCOPE;
use crate::spotify_api::TOKEN_TYPE;
use crate::time::Timestamp;
use vstd::prelude::*;

verus! {

/// A secret as the secret store holds it.
pub struct StoredSecret {
    pub id: u128,
    pub key: Seq<char>,
    pub value: Seq<char>,
    pub note: Option<RefreshNote>,
}

/// The user's bundle in the local cache and the secrets of the secret store.
pub struct Stores {
    pub local_user: Option<UserAuthDataView>,
    pub secrets: Seq<StoredSecret>,
}

/// No two secrets have the same identifier.
pub open spec fn distinct_ids(secrets: Seq<StoredSecret>) -> bool {
    forall|i: int, j: int|
        0 <= i < secrets.len() && 0 <= j < secrets.len() && i != j ==> (#[trigger] secrets[i]).id
            != (#[trigger] secrets[j]).id
}

/// No secret has this identifier.
pub open spec fn unused_id(secrets: Seq<StoredSecret>, id: u128) -> bool {
    forall|i: int| 0 <= i < secrets.len() ==> (#[trigger] secrets[i]).id != id
}

/// What the store lists: the name and the identifier of each secret.
pub open spec fn listing_of(secrets: Seq<StoredSecret>) -> Seq<(Seq<char>, u128)> {
    Seq::new(secrets.len(), |i: int| (secrets[i].key, secrets[i].id))
}

/// The secrets after a write: a creation adds a secret under the identifier
/// `new_id`; an update replaces what the secret of that identifier holds.
pub open spec fn written(secrets: Seq<StoredSecret>, write: SecretWriteView, new_id: u128) -> Seq<
    StoredSecret,
> {
    match write {
        SecretWriteView::Create { secret, .. } => secrets.push(
            StoredSecret { id: new_id, key: secret.key, value: secret.value, note: secret.note },
        ),
        SecretWriteView::Update { id, secret, .. } => Seq::new(
            secrets.len(),
            |i: int|
                if secrets[i].id == id {
                    StoredSecret { id, key: secret.key, value: secret.value, note: secret.note }
                } else {
                    secrets[i]
                },
        ),
    }
}

/// The secrets after `secret` was put: the store was listed, and the write
/// that the listing asks for was carried out.
pub open spec fn put(
    store: CredStorage,
    secrets: Seq<StoredSecret>,
    secret: SecretPutView,
    new_id: u128,
) -> Seq<StoredSecret> {
    written(secrets, secret_write(store, listing_of(secrets), secret), new_id)
}

/// Both places after everything in `plan` was written, the secret store giving
/// out `new_ids` to what it creates.
pub open spec fn persisted(
    store: CredStorage,
    stores: Stores,
    plan: PersistPlanView,
    new_ids: (u128, u128),
) -> Stores {
    Stores {
        local_user: Some(plan.local),
        secrets: put(
            store,
            put(store, stores.secrets, plan.refresh_token, new_ids.0),
            plan.access_token,
            new_ids.1,
        ),
    }
}

/// The first secret with this identifier.
pub open spec fn secret_with_id(secrets: Seq<StoredSecret>, id: u128) -> Option<StoredSecret>
    decreases secrets.len(),
{
    if secrets.len() == 0 {
        None
    } else if secrets[0].id == id {
        Some(secrets[0])
    } else {
        secret_with_id(secrets.drop_first(), id)
    }
}

/// What a read of the secret named `key` gives: the store is listed, and the
/// secret of the listed identifier is read.
pub open spec fn fetched(secrets: Seq<StoredSecret>, key: Seq<char>) -> Result<
    SecretView,
    SecretError,
> {
    match secret_id_in(listing_of(secrets), key) {
        None => Err(SecretError::NotFound),
        Some(id) => match secret_with_id(secrets, id) {
            Some(found) => Ok(SecretView { value: found.value, note: found.note }),
            None => Err(SecretError::Remote),
        },
    }
}

/// The secret that a lookup of `secret.key` finds holds exactly `secret`.
pub open spec fn holds(secrets: Seq<StoredSecret>, secret: SecretPutView) -> bool {
    secret_id_in(listing_of(secrets), secret.key) matches Some(id) && forall|i: int|
        0 <= i < secrets.len() && (#[trigger] secrets[i]).id == id ==> secrets[i] == (StoredSecret {
            id,
            key: secret.key,
            value: secret.value,
            note: secret.note,
        })
}

/// An identifier that a listing gives for a name stands in the listing beside
/// that name.
proof fn lemma_found_id_is_listed(listing: Seq<(Seq<char>, u128)>, key: Seq<char>)
    ensures
        secret_id_in(listing, key) matches Some(id) ==> exists|i: int|
            0 <= i < listing.len() && #[trigger] listing[i] == (key, id),
    decreases listing.len(),
{
    if listing.len() > 0 && listing.last().0 != key {
        lemma_found_id_is_listed(listing.drop_last(), key);
        if secret_id_in(listing, key) is Some {
            let id = secret_id_in(listing, key)->0;
            let i = choose|i: int|
                0 <= i < listing.drop_last().len() && #[trigger] listing.drop_last()[i] == (
                    key,
                    id,
                );
            assert(listing[i] == (key, id));
        }
    } else if listing.len() > 0 {
        assert(listing[listing.len() - 1] == (key, listing.last().1));
    }
}

/// An update of the secret that the listing gives for a name, under that name,
/// leaves the listing as it was.
proof fn lemma_update_keeps_listing(
    secrets: Seq<StoredSecret>,
    id: u128,
    secret: SecretPutView,
    write: SecretWriteView,
)
    requires
        distinct_ids(secrets),
        secret_id_in(listing_of(secrets), secret.key) == Some(id),
        write matches SecretWriteView::Update { id: i, secret: s, .. } && i == id && s == secret,
    ensures
        listing_of(written(secrets, write, 0)) == listing_of(secrets),
        distinct_ids(written(secrets, write, 0)),
{
    lemma_found_id_is_listed(listing_of(secrets), secret.key);
    let j = choose|j: int|
        0 <= j < listing_of(secrets).len() && #[trigger] listing_of(secrets)[j] == (
            secret.key,
            id,
        );
    let after = written(secrets, write, 0);
    assert forall|i: int| 0 <= i < secrets.len() implies listing_of(after)[i] == listing_of(
        secrets,
    )[i] by {
        if secrets[i].id == id {
            assert(secrets[j].id == id);
            assert(i == j);
        }
    }
    assert(listing_of(after) =~= listing_of(secrets));
}

/// After a secret was put, a lookup of its name finds it, and no two secrets
/// share an identifier.
proof fn lemma_put_holds(
    store: CredStorage,
    secrets: Seq<StoredSecret>,
    secret: SecretPutView,
    new_id: u128,
)
    requires
        distinct_ids(secrets),
        unused_id(secrets, new_id),
    ensures
        holds(put(store, secrets, secret, new_id), secret),
        distinct_ids(put(store, secrets, secret, new_id)),
        forall|other: u128|
            unused_id(secrets, other) && other != new_id ==> unused_id(
                put(store, secrets, secret, new_id),
                other,
            ),
{
    let write = secret_write(store, listing_of(secrets), secret);
    let after = put(store, secrets, secret, new_id);
    match secret_id_in(listing_of(secrets), secret.key) {
        Some(id) => {
            lemma_update_keeps_listing(secrets, id, secret, write);
            assert(after == written(secrets, write, 0));
        },
        None => {
            assert(listing_of(after).last() == (secret.key, new_id));
            assert(after[secrets.len() as int].id == new_id);
        },
    }
}

/// Putting again what a lookup already finds changes nothing.
proof fn lemma_put_again(
    store: CredStorage,
    secrets: Seq<StoredSecret>,
    secret: SecretPutView,
    new_id: u128,
)
    requires
        holds(secrets, secret),
    ensures
        put(store, secrets, secret, new_id) == secrets,
{
    assert(put(store, secrets, secret, new_id) =~= secrets);
}

/// Putting a secret under another name does not touch what a lookup finds.
proof fn lemma_put_other_keeps(
    store: CredStorage,
    secrets: Seq<StoredSecret>,
    kept: SecretPutView,
    secret: SecretPutView,
    new_id: u128,
)
    requires
        distinct_ids(secrets),
        unused_id(secrets, new_id),
        holds(secrets, kept),
        kept.key != secret.key,
    ensures
        holds(put(store, secrets, secret, new_id), kept),
{
    let write = secret_write(store, listing_of(secrets), secret);
    let after = put(store, secrets, secret, new_id);
    let kept_id = secret_id_in(listing_of(secrets), kept.key)->0;
    lemma_found_id_is_listed(listing_of(secrets), kept.key);
    let k = choose|k: int|
        0 <= k < listing_of(secrets).len() && #[trigger] listing_of(secrets)[k] == (
            kept.key,
            kept_id,
        );
    assert(secrets[k].id == kept_id);
    match secret_id_in(listing_of(secrets), secret.key) {
        Some(id) => {
            lemma_update_keeps_listing(secrets, id, secret, write);
            assert(after == written(secrets, write, 0));
            lemma_found_id_is_listed(listing_of(secrets), secret.key);
            let j = choose|j: int|
                0 <= j < listing_of(secrets).len() && #[trigger] listing_of(secrets)[j] == (
                    secret.key,
                    id,
                );
            assert(secrets[j].id == id && secrets[j].key == secret.key);
            assert(id != kept_id);
        },
        None => {
            assert(listing_of(after).drop_last() =~= listing_of(secrets));
            assert(listing_of(after).last().0 == secret.key);
            assert(after[secrets.len() as int].id == new_id);
            assert(new_id != kept_id);
        },
    }
}

/// The secret with an identifier that some secret has is one of the secrets
/// with that identifier.
proof fn lemma_secret_with_id_is_stored(secrets: Seq<StoredSecret>, id: u128, at: int)
    requires
        0 <= at < secrets.len(),
        secrets[at].id == id,
    ensures
        secret_with_id(secrets, id) matches Some(found) && exists|i: int|
            0 <= i < secrets.len() && (#[trigger] secrets[i]).id == id && secrets[i] == found,
    decreases secrets.len(),
{
    if secrets[0].id != id {
        lemma_secret_with_id_is_stored(secrets.drop_first(), id, at - 1);
        let found = secret_with_id(secrets, id)->0;
        let i = choose|i: int|
            0 <= i < secrets.drop_first().len() && (#[trigger] secrets.drop_first()[i]).id == id
                && secrets.drop_first()[i] == found;
        assert(secrets[i + 1] == found);
    }
}

/// What a lookup finds is what a read gives.
proof fn lemma_held_is_fetched(secrets: Seq<StoredSecret>, secret: SecretPutView)
    requires
        holds(secrets, secret),
    ensures
        fetched(secrets, secret.key) == Ok::<SecretView, SecretError>(
            SecretView { value: secret.value, note: secret.note },
        ),
{
    let id = secret_id_in(listing_of(secrets), secret.key)->0;
    lemma_found_id_is_listed(listing_of(secrets), secret.key);
    let k = choose|k: int|
        0 <= k < listing_of(secrets).len() && #[trigger] listing_of(secrets)[k] == (
            secret.key,
            id,
        );
    assert(secrets[k].id == id);
    lemma_secret_with_id_is_stored(secrets, id, k);
}

/// After everything in the plan for `data` was written, a lookup finds each of
/// the two tokens.
proof fn lemma_persisted_holds(
    store: CredStorage,
    stores: Stores,
    data: UserAuthDataView,
    user_id: Seq<char>,
    new_ids: (u128, u128),
)
    requires
        distinct_ids(stores.secrets),
        unused_id(stores.secrets, new_ids.0),
        unused_id(stores.secrets, new_ids.1),
        new_ids.0 != new_ids.1,
    ensures
        holds(
            persisted(store, stores, persist_plan(data, user_id), new_ids).secrets,
            persist_plan(data, user_id).refresh_token,
        ),
        holds(
            persisted(store, stores, persist_plan(data, user_id), new_ids).secrets,
            persist_plan(data, user_id).access_token,
        ),
        distinct_ids(persisted(store, stores, persist_plan(data, user_id), new_ids).secrets),
{
    let plan = persist_plan(data, user_id);
    let one = put(store, stores.secrets, plan.refresh_token, new_ids.0);
    lemma_user_keys_differ(user_id);
    lemma_put_holds(store, stores.secrets, plan.refresh_token, new_ids.0);
    assert(unused_id(one, new_ids.1));
    lemma_put_holds(store, one, plan.access_token, new_ids.1);
    lemma_put_other_keeps(store, one, plan.refresh_token, plan.access_token, new_ids.1);
}

/// Where two lists of secrets agree on every identifier, and on every secret
/// with the identifier `id`, the secret with that identifier is the same in
/// both.
proof fn lemma_secret_with_id_agrees(a: Seq<StoredSecret>, b: Seq<StoredSecret>, id: u128)
    requires
        a.len() == b.len(),
        forall|i: int| 0 <= i < a.len() ==> (#[trigger] a[i]).id == b[i].id,
        forall|i: int| 0 <= i < a.len() && (#[trigger] a[i]).id == id ==> a[i] == b[i],
    ensures
        secret_with_id(a, id) == secret_with_id(b, id),
    decreases a.len(),
{
    if a.len() > 0 && a[0].id != id {
        assert forall|i: int| 0 <= i < a.drop_first().len() implies (#[trigger] a.drop_first()[i]).id
            == b.drop_first()[i].id && (a.drop_first()[i].id == id ==> a.drop_first()[i]
            == b.drop_first()[i]) by {
            assert(a[i + 1].id == b[i + 1].id);
        }
        lemma_secret_with_id_agrees(a.drop_first(), b.drop_first(), id);
    } else if a.len() > 0 {
        assert(a[0] == b[0]);
    }
}

/// A secret that is added behind the others does not hide any of them.
proof fn lemma_secret_with_id_push(
    secrets: Seq<StoredSecret>,
    added: StoredSecret,
    id: u128,
    at: int,
)
    requires
        0 <= at < secrets.len(),
        secrets[at].id == id,
    ensures
        secret_with_id(secrets.push(added), id) == secret_with_id(secrets, id),
    decreases secrets.len(),
{
    assert(secrets.push(added)[0] == secrets[0]);
    if secrets[0].id != id {
        assert(secrets.push(added).drop_first() =~= secrets.drop_first().push(added));
        lemma_secret_with_id_push(secrets.drop_first(), added, id, at - 1);
    }
}

/// Putting a secret leaves a read of any other name as it was.
proof fn lemma_put_keeps_other_names(
    store: CredStorage,
    secrets: Seq<StoredSecret>,
    secret: SecretPutView,
    new_id: u128,
    key: Seq<char>,
)
    requires
        distinct_ids(secrets),
        unused_id(secrets, new_id),
        key != secret.key,
    ensures
        fetched(put(store, secrets, secret, new_id), key) == fetched(secrets, key),
{
    let write = secret_write(store, listing_of(secrets), secret);
    let after = put(store, secrets, secret, new_id);
    lemma_found_id_is_listed(listing_of(secrets), key);
    match secret_id_in(listing_of(secrets), secret.key) {
        Some(id) => {
            lemma_update_keeps_listing(secrets, id, secret, write);
            assert(after == written(secrets, write, 0));
            if secret_id_in(listing_of(secrets), key) is Some {
                let key_id = secret_id_in(listing_of(secrets), key)->0;
                let i = choose|i: int|
                    0 <= i < listing_of(secrets).len() && #[trigger] listing_of(secrets)[i] == (
                        key,
                        key_id,
                    );
                lemma_found_id_is_listed(listing_of(secrets), secret.key);
                let j = choose|j: int|
                    0 <= j < listing_of(secrets).len() && #[trigger] listing_of(secrets)[j] == (
                        secret.key,
                        id,
                    );
                assert(secrets[i].id == key_id && secrets[i].key == key);
                assert(secrets[j].id == id && secrets[j].key == secret.key);
                assert(key_id != id);
                lemma_secret_with_id_agrees(after, secrets, key_id);
            }
        },
        None => {
            assert(listing_of(after).drop_last() =~= listing_of(secrets));
            assert(listing_of(after).last().0 == secret.key);
            if secret_id_in(listing_of(secrets), key) is Some {
                let key_id = secret_id_in(listing_of(secrets), key)->0;
                let i = choose|i: int|
                    0 <= i < listing_of(secrets).len() && #[trigger] listing_of(secrets)[i] == (
                        key,
                        key_id,
                    );
                assert(secrets[i].id == key_id);
                lemma_secret_with_id_push(
                    secrets,
                    StoredSecret {
                        id: new_id,
                        key: secret.key,
                        value: secret.value,
                        note: secret.note,
                    },
                    key_id,
                    i,
                );
            }
        },
    }
}

/// The two secrets of a user have different names.
proof fn lemma_user_keys_differ(user_id: Seq<char>)
    ensures
        user_key(BW_SPOTIFY_REFRESH_KEY@, user_id) != user_key(BW_SPOTIFY_TOKEN_KEY@, user_id),
{
    reveal_strlit("spotify_refresh_token");
    reveal_strlit("spotify_access_token");
    assert(user_key(BW_SPOTIFY_REFRESH_KEY@, user_id).len() == 22 + user_id.len());
    assert(user_key(BW_SPOTIFY_TOKEN_KEY@, user_id).len() == 21 + user_id.len());
}

/// The secrets of two users have different names.
pub proof fn lemma_users_have_their_own_secrets(user_id: Seq<char>, other_id: Seq<char>)
    requires
        user_id != other_id,
    ensures
        user_key(BW_SPOTIFY_REFRESH_KEY@, user_id) != user_key(BW_SPOTIFY_REFRESH_KEY@, other_id),
        user_key(BW_SPOTIFY_TOKEN_KEY@, user_id) != user_key(BW_SPOTIFY_TOKEN_KEY@, other_id),
        user_key(BW_SPOTIFY_REFRESH_KEY@, user_id) != user_key(BW_SPOTIFY_TOKEN_KEY@, other_id),
        user_key(BW_SPOTIFY_TOKEN_KEY@, user_id) != user_key(BW_SPOTIFY_REFRESH_KEY@, other_id),
{
    reveal_strlit("spotify_refresh_token");
    reveal_strlit("spotify_access_token");
    let refresh = BW_SPOTIFY_REFRESH_KEY@;
    let access = BW_SPOTIFY_TOKEN_KEY@;
    assert(user_key(refresh, user_id)[8] == 'r' && user_key(refresh, other_id)[8] == 'r');
    assert(user_key(access, user_id)[8] == 'a' && user_key(access, other_id)[8] == 'a');
    assert(user_key(refresh, user_id).len() == 22 + user_id.len());
    assert(user_key(refresh, other_id).len() == 22 + other_id.len());
    assert(user_key(access, user_id).len() == 21 + user_id.len());
    assert(user_key(access, other_id).len() == 21 + other_id.len());
    if user_key(refresh, user_id) == user_key(refresh, other_id) {
        assert(user_id.len() == other_id.len());
        assert forall|i: int| 0 <= i < user_id.len() implies user_id[i] == other_id[i] by {
            assert(user_key(refresh, user_id)[22 + i] == user_id[i]);
            assert(user_key(refresh, other_id)[22 + i] == other_id[i]);
        }
        assert(user_id =~= other_id);
    }
    if user_key(access, user_id) == user_key(access, other_id) {
        assert(user_id.len() == other_id.len());
        assert forall|i: int| 0 <= i < user_id.len() implies user_id[i] == other_id[i] by {
            assert(user_key(access, user_id)[21 + i] == user_id[i]);
            assert(user_key(access, other_id)[21 + i] == other_id[i]);
        }
        assert(user_id =~= other_id);
    }
}

/// Storing a user's credentials leaves a read of any secret but that user's
/// two as it was, and so every secret of any other user.
pub proof fn lemma_persist_keeps_other_secrets(
    store: CredStorage,
    stores: Stores,
    data: UserAuthDataView,
    user_id: Seq<char>,
    new_ids: (u128, u128),
    key: Seq<char>,
    other_id: Seq<char>,
)
    requires
        distinct_ids(stores.secrets),
        unused_id(stores.secrets, new_ids.0),
        unused_id(stores.secrets, new_ids.1),
        new_ids.0 != new_ids.1,
    ensures
        key != user_key(BW_SPOTIFY_REFRESH_KEY@, user_id) && key != user_key(
            BW_SPOTIFY_TOKEN_KEY@,
            user_id,
        ) ==> fetched(persisted(store, stores, persist_plan(data, user_id), new_ids).secrets, key)
            == fetched(stores.secrets, key),
        other_id != user_id ==> fetched(
            persisted(store, stores, persist_plan(data, user_id), new_ids).secrets,
            user_key(BW_SPOTIFY_REFRESH_KEY@, other_id),
        ) == fetched(stores.secrets, user_key(BW_SPOTIFY_REFRESH_KEY@, other_id)),
        other_id != user_id ==> fetched(
            persisted(store, stores, persist_plan(data, user_id), new_ids).secrets,
            user_key(BW_SPOTIFY_TOKEN_KEY@, other_id),
        ) == fetched(stores.secrets, user_key(BW_SPOTIFY_TOKEN_KEY@, other_id)),
{
    let plan = persist_plan(data, user_id);
    let one = put(store, stores.secrets, plan.refresh_token, new_ids.0);
    lemma_put_holds(store, stores.secrets, plan.refresh_token, new_ids.0);
    assert(unused_id(one, new_ids.1));
    if key != plan.refresh_token.key && key != plan.access_token.key {
        lemma_put_keeps_other_names(store, stores.secrets, plan.refresh_token, new_ids.0, key);
        lemma_put_keeps_other_names(store, one, plan.access_token, new_ids.1, key);
    }
    if other_id != user_id {
        lemma_users_have_their_own_secrets(user_id, other_id);
        let theirs = user_key(BW_SPOTIFY_REFRESH_KEY@, other_id);
        lemma_put_keeps_other_names(store, stores.secrets, plan.refresh_token, new_ids.0, theirs);
        lemma_put_keeps_other_names(store, one, plan.access_token, new_ids.1, theirs);
        let theirs = user_key(BW_SPOTIFY_TOKEN_KEY@, other_id);
        lemma_put_keeps_other_names(store, stores.secrets, plan.refresh_token, new_ids.0, theirs);
        lemma_put_keeps_other_names(store, one, plan.access_token, new_ids.1, theirs);
    }
}

/// Storing the same credentials twice leaves both places as storing them once
/// does, whatever identifiers the secret store gives out, as long as it gives
/// out unused ones.
pub proof fn lemma_persist_is_idempotent(
    store: CredStorage,
    stores: Stores,
    data: UserAuthDataView,
    user_id: Seq<char>,
    first_ids: (u128, u128),
    second_ids: (u128, u128),
)
    requires
        distinct_ids(stores.secrets),
        unused_id(stores.secrets, first_ids.0),
        unused_id(stores.secrets, first_ids.1),
        first_ids.0 != first_ids.1,
    ensures
        persisted(
            store,
            persisted(store, stores, persist_plan(data, user_id), first_ids),
            persist_plan(data, user_id),
            second_ids,
        ) == persisted(store, stores, persist_plan(data, user_id), first_ids),
        persisted(store, stores, persist_plan(data, user_id), first_ids).local_user == Some(data),
{
    let plan = persist_plan(data, user_id);
    let once = persisted(store, stores, plan, first_ids);
    lemma_persisted_holds(store, stores, data, user_id, first_ids);
    lemma_put_again(store, once.secrets, plan.refresh_token, second_ids.0);
    lemma_put_again(store, once.secrets, plan.access_token, second_ids.1);
}

/// Credentials that were stored are found again in the secret store alone:
/// with an empty cache, the resolution gives the stored tokens, and the
/// lifetime and time of refresh of a bundle that had a time of refresh. The
/// kind of token and the scope are the fixed ones.
pub proof fn lemma_stored_credentials_resolve(
    store: CredStorage,
    stores: Stores,
    data: UserAuthDataView,
    user_id: Seq<char>,
    new_ids: (u128, u128),
    now: Option<Timestamp>,
)
    requires
        distinct_ids(stores.secrets),
        unused_id(stores.secrets, new_ids.0),
        unused_id(stores.secrets, new_ids.1),
        new_ids.0 != new_ids.1,
    ensures
        ({
            let after = persisted(store, stores, persist_plan(data, user_id), new_ids);
            let refresh = fetched(after.secrets, user_key(BW_SPOTIFY_REFRESH_KEY@, user_id));
            let access = fetched(after.secrets, user_key(BW_SPOTIFY_TOKEN_KEY@, user_id));
            &&& refresh == Ok::<SecretView, SecretError>(
                SecretView { value: data.refresh_token, note: refresh_note_of(data) },
            )
            &&& access == Ok::<SecretView, SecretError>(
                SecretView { value: data.access_token, note: refresh_note_of(data) },
            )
            &&& user_auth_step(user_id, now, None, Some(refresh), Some(access))
                == UserAuthStepView::Resolved(
                Some(
                    UserAuthDataView {
                        access_token: data.access_token,
                        token_type: TOKEN_TYPE@,
                        scope: SCOPE@,
                        expires_in: if data.last_refresh is Some {
                            data.expires_in
                        } else {
                            0
                        },
                        refresh_token: data.refresh_token,
                        last_refresh: data.last_refresh,
                    },
                ),
            )
        }),
{
    let plan = persist_plan(data, user_id);
    let after = persisted(store, stores, plan, new_ids);
    lemma_persisted_holds(store, stores, data, user_id, new_ids);
    lemma_held_is_fetched(after.secrets, plan.refresh_token);
    lemma_held_is_fetched(after.secrets, plan.access_token);
}

} // verus!
