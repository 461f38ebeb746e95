use vstd::prelude::*;

use crate::text::{index_of, lemma_index_of, lemma_index_of_at};
use crate::{find_credential, ids, unique_ids, without_id, Credential, CredentialRequest};

verus! {

/// The backend that took a write or a delete.
#[derive(Debug, PartialEq, Eq, Structural)]
pub enum Backend {
    /// The operating system's secure store.
    Keychain,
    /// The bundles list of the configuration file.
    File,
}

/// The file-backed bundle stored under the identity of `request`.
pub fn fetch_file_credential(request: &CredentialRequest) -> (r: Option<Credential>)
    requires
        request.identity_known(),
    ensures
        r == find_credential(request.config.cred_seq(), request.identity()),
{
    let client_id = request.client_id();
    request.config.credential_for(client_id)
}

/// The bundle for `request`: what the secure store gave (`keychain`), else the file-backed one.
pub fn fetch_credential(request: &CredentialRequest, keychain: Option<Credential>) -> (r: Option<
    Credential,
>)
    requires
        request.identity_known(),
    ensures
        keychain is Some ==> r == keychain,
        keychain is None ==> r == find_credential(request.config.cred_seq(), request.identity()),
{
    if keychain.is_some() {
        return keychain;
    }
    fetch_file_credential(request)
}

/// Gives `credential` the storage identity of `request`, as both backends store it.
pub fn bind_credential(credential: &mut Credential, request: &CredentialRequest)
    requires
        request.identity_known(),
    ensures
        final(credential).client_id@ == request.identity(),
        final(credential).token == old(credential).token,
        final(credential).expiry == old(credential).expiry,
        final(credential).refresh_token == old(credential).refresh_token,
{
    credential.client_id = request.client_id();
}

/// Binds `credential` to `request` and puts it among the file-backed bundles.
pub fn store_file_credential(credential: &mut Credential, request: &mut CredentialRequest)
    requires
        old(request).identity_known(),
    ensures
        final(credential).client_id@ == old(request).identity(),
        final(credential).token == old(credential).token,
        final(credential).expiry == old(credential).expiry,
        final(credential).refresh_token == old(credential).refresh_token,
        final(request).config.credentials is Some,
        final(request).config.cred_seq() == without_id(
            old(request).config.cred_seq(),
            old(request).identity(),
        ).push(*final(credential)),
        final(request).config.app_configs == old(request).config.app_configs,
        final(request).config.version == old(request).config.version,
        final(request).config.fallback == old(request).config.fallback,
        final(request).username == old(request).username,
        final(request).host == old(request).host,
        final(request).path == old(request).path,
        final(request).protocol == old(request).protocol,
        final(request).port == old(request).port,
{
    bind_credential(credential, request);
    request.config.store_credential(credential);
}

/// Binds `credential` to `request`; when the secure store did not take it
/// (`keychain_stored` false), stores it in the file-backed list instead.
/// A write taken by the secure store leaves the file-backed list alone.
pub fn store_credential(
    credential: &mut Credential,
    request: &mut CredentialRequest,
    keychain_stored: bool,
) -> (r: Backend)
    requires
        old(request).identity_known(),
    ensures
        final(credential).client_id@ == old(request).identity(),
        final(credential).token == old(credential).token,
        final(credential).expiry == old(credential).expiry,
        final(credential).refresh_token == old(credential).refresh_token,
        keychain_stored ==> r == Backend::Keychain && *final(request) == *old(request),
        !keychain_stored ==> {
            &&& r == Backend::File
            &&& final(request).config.credentials is Some
            &&& final(request).config.cred_seq() == without_id(
                old(request).config.cred_seq(),
                old(request).identity(),
            ).push(*final(credential))
            &&& final(request).config.app_configs == old(request).config.app_configs
            &&& final(request).config.version == old(request).config.version
            &&& final(request).config.fallback == old(request).config.fallback
            &&& final(request).username == old(request).username
            &&& final(request).host == old(request).host
            &&& final(request).path == old(request).path
            &&& final(request).protocol == old(request).protocol
            &&& final(request).port == old(request).port
        },
{
    if keychain_stored {
        bind_credential(credential, request);
        return Backend::Keychain;
    }
    store_file_credential(credential, request);
    Backend::File
}

/// Removes the file-backed bundle of `request` from its configuration.
pub fn delete_file_credential(request: &mut CredentialRequest)
    requires
        old(request).config.credentials is Some ==> old(request).identity_known(),
    ensures
        old(request).config.credentials is None ==> final(request).config@ == old(request).config@,
        old(request).config.credentials is Some ==> final(request).config.cred_seq() == without_id(
            old(request).config.cred_seq(),
            old(request).identity(),
        ),
        final(request).config@.app_configs == old(request).config@.app_configs,
        final(request).config@.version == old(request).config@.version,
        final(request).config@.fallback == old(request).config@.fallback,
        final(request).username == old(request).username,
        final(request).host == old(request).host,
        final(request).path == old(request).path,
        final(request).protocol == old(request).protocol,
        final(request).port == old(request).port,
{
    request.config = request.delete_credential();
}

/// When the secure store did not delete the bundle (`keychain_deleted` false),
/// removes it from the file-backed list instead.
pub fn delete_credential(request: &mut CredentialRequest, keychain_deleted: bool) -> (r: Backend)
    requires
        old(request).config.credentials is Some ==> old(request).identity_known(),
    ensures
        keychain_deleted ==> r == Backend::Keychain && *final(request) == *old(request),
        !keychain_deleted ==> {
            &&& r == Backend::File
            &&& old(request).config.credentials is None ==> final(request).config@ == old(
                request,
            ).config@
            &&& old(request).config.credentials is Some ==> final(request).config.cred_seq()
                == without_id(old(request).config.cred_seq(), old(request).identity())
            &&& final(request).config@.app_configs == old(request).config@.app_configs
            &&& final(request).config@.version == old(request).config@.version
            &&& final(request).config@.fallback == old(request).config@.fallback
            &&& final(request).username == old(request).username
            &&& final(request).host == old(request).host
            &&& final(request).path == old(request).path
            &&& final(request).protocol == old(request).protocol
            &&& final(request).port == old(request).port
        },
{
    if keychain_deleted {
        return Backend::Keychain;
    }
    delete_file_credential(request);
    Backend::File
}

proof fn lemma_without_id(s: Seq<Credential>, id: Seq<char>)
    requires
        unique_ids(s),
    ensures
        forall|j: int|
            0 <= j < without_id(s, id).len() ==> #[trigger] without_id(s, id)[j].client_id@ != id,
        unique_ids(without_id(s, id)),
{
    lemma_index_of(ids(s), id);
    let i = index_of(ids(s), id);
    let w = without_id(s, id);
    if i < s.len() {
        assert forall|j: int| 0 <= j < w.len() implies #[trigger] w[j].client_id@ != id by {
            if j < i {
                assert(w[j] == s[j]);
                assert(ids(s)[j] == s[j].client_id@);
            } else {
                assert(w[j] == s[j + 1]);
                assert(ids(s)[i] == s[i].client_id@);
            }
        }
        assert forall|a: int, b: int| 0 <= a < b < w.len() implies #[trigger] w[a].client_id@
            != #[trigger] w[b].client_id@ by {
            let a0 = if a < i { a } else { a + 1 };
            let b0 = if b < i { b } else { b + 1 };
            assert(w[a] == s[a0]);
            assert(w[b] == s[b0]);
        }
    } else {
        assert forall|j: int| 0 <= j < w.len() implies #[trigger] w[j].client_id@ != id by {
            assert(ids(s)[j] == s[j].client_id@);
            if s[j].client_id@ == id {
                assert(ids(s).contains(id));
            }
        }
    }
}

/// Storing a bundle in the file-backed list and then looking up its identity
/// gives the bundle back, and the list keeps one bundle per identity.
pub proof fn lemma_file_store_then_fetch(s: Seq<Credential>, c: Credential)
    requires
        unique_ids(s),
    ensures
        find_credential(without_id(s, c.client_id@).push(c), c.client_id@) == Some(c),
        unique_ids(without_id(s, c.client_id@).push(c)),
{
    let id = c.client_id@;
    lemma_without_id(s, id);
    let w = without_id(s, id);
    let t = w.push(c);
    assert forall|j: int| 0 <= j < w.len() implies ids(t)[j] != id by {
        assert(t[j] == w[j]);
        assert(w[j].client_id@ != id);
    }
    assert(ids(t)[w.len() as int] == id);
    lemma_index_of_at(ids(t), id, w.len() as int);
    assert forall|a: int, b: int| 0 <= a < b < t.len() implies #[trigger] t[a].client_id@
        != #[trigger] t[b].client_id@ by {
        assert(t[a] == w[a]);
        if b < w.len() {
            assert(t[b] == w[b]);
        } else {
            assert(w[a].client_id@ != id);
        }
    }
}

/// Deleting an identity from the file-backed list leaves no bundle under it,
/// and the list keeps one bundle per identity.
pub proof fn lemma_file_delete_then_fetch(s: Seq<Credential>, id: Seq<char>)
    requires
        unique_ids(s),
    ensures
        find_credential(without_id(s, id), id) is None,
        unique_ids(without_id(s, id)),
{
    lemma_without_id(s, id);
    let w = without_id(s, id);
    assert forall|j: int| 0 <= j < w.len() implies ids(w)[j] != id by {
        assert(w[j].client_id@ != id);
    }
    lemma_index_of_at(ids(w), id, w.len() as int);
}

/// A request whose file-backed list took `c` under its identity (what
/// `store_credential` does when the secure store refuses) fetches `c` back.
pub proof fn lemma_store_then_fetch(before: CredentialRequest, after: CredentialRequest, c: Credential)
    requires
        before.config.wf(),
        before.identity_known(),
        c.client_id@ == before.identity(),
        after.config.cred_seq() == without_id(before.config.cred_seq(), before.identity()).push(c),
        after.config.app_configs == before.config.app_configs,
        after.username == before.username,
        after.host == before.host,
        after.path == before.path,
    ensures
        after.identity_known(),
        after.identity() == before.identity(),
        find_credential(after.config.cred_seq(), after.identity()) == Some(c),
        after.config.wf(),
{
    lemma_file_store_then_fetch(before.config.cred_seq(), c);
}

/// A request whose file-backed bundle was deleted (what `delete_credential`
/// does when the secure store refuses) fetches nothing under its identity.
pub proof fn lemma_delete_then_fetch(before: CredentialRequest, after: CredentialRequest)
    requires
        before.config.wf(),
        before.identity_known(),
        before.config.credentials is None ==> after.config@ == before.config@,
        before.config.credentials is Some ==> after.config.cred_seq() == without_id(
            before.config.cred_seq(),
            before.identity(),
        ),
        after.config@.app_configs == before.config@.app_configs,
        after.username == before.username,
        after.host == before.host,
        after.path == before.path,
    ensures
        after.identity_known(),
        after.identity() == before.identity(),
        find_credential(after.config.cred_seq(), after.identity()) is None,
        after.config.wf(),
{
    lemma_file_delete_then_fetch(before.config.cred_seq(), before.identity());
    assert(after.config.app_seq() == before.config.app_seq());
    if before.config.credentials is None {
        assert(after.config.cred_seq() == before.config.cred_seq());
        assert(without_id(before.config.cred_seq(), before.identity()) == before.config.cred_seq());
    }
}

} // verus!
