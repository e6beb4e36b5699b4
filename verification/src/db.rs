//! The store of share grants and encrypted payloads.
//!
//! A grant and its payload are two records. They are written together, and
//! retired in two steps: first the expired grants, then the payloads that no
//! grant refers to any more. A grant therefore never refers to a payload
//! that is gone, while a payload may outlive its grant until the next sweep.

use crate::error::{ResolveError, StoreError};
use crate::filtering::{
    lemma_filter_element, lemma_filter_keeps, lemma_filter_order, lemma_filter_step,
};
use crate::models::{File, SharedLink};
use vstd::prelude::*;

verus! {

/// What a user is looked up by.
#[derive(Clone, Copy, Debug)]
pub enum UserLookup<'a> {
    Id(u128),
    Name(&'a str),
    Email(&'a str),
}

/// What a user is looked up by, of the three things that a caller may know:
/// the identifier where there is one, else the name, else the address, and
/// nothing where the caller knows none of them.
pub fn get_user<'a>(user_id: Option<u128>, name: Option<&'a str>, email: Option<&'a str>) -> (r:
    Option<UserLookup<'a>>)
    ensures
        r == match (user_id, name, email) {
            (Some(id), _, _) => Some(UserLookup::Id(id)),
            (None, Some(name), _) => Some(UserLookup::Name(name)),
            (None, None, Some(email)) => Some(UserLookup::Email(email)),
            (None, None, None) => None,
        },
{
    if let Some(id) = user_id {
        Some(UserLookup::Id(id))
    } else if let Some(name) = name {
        Some(UserLookup::Name(name))
    } else if let Some(email) = email {
        Some(UserLookup::Email(email))
    } else {
        None
    }
}

/// No two grants share an identifier.
pub open spec fn link_ids_distinct(links: Seq<SharedLink>) -> bool {
    forall|i: int, j: int| 0 <= i < j < links.len() ==> links[i].id != links[j].id
}

/// No two payloads share an identifier.
pub open spec fn file_ids_distinct(files: Seq<File>) -> bool {
    forall|i: int, j: int| 0 <= i < j < files.len() ==> files[i].id != files[j].id
}

/// Some payload has the identifier `file_id`.
pub open spec fn has_file(files: Seq<File>, file_id: u128) -> bool {
    exists|i: int| 0 <= i < files.len() && (#[trigger] files[i]).id == file_id
}

/// Some grant refers to the payload `file_id`.
pub open spec fn has_link_to(links: Seq<SharedLink>, file_id: u128) -> bool {
    exists|i: int| 0 <= i < links.len() && (#[trigger] links[i]).file_id == Some(file_id)
}

/// Every grant that names a payload names one that is there.
pub open spec fn no_dangling_link(files: Seq<File>, links: Seq<SharedLink>) -> bool {
    forall|i: int|
        0 <= i < links.len() ==> ((#[trigger] links[i]).file_id matches Some(file_id) ==> has_file(
            files,
            file_id,
        ))
}

/// The grant that `caller` resolves under `shared_id` at `now`, if there is
/// one. Among grants with distinct identifiers there is at most one.
pub open spec fn resolving_link(
    links: Seq<SharedLink>,
    shared_id: u128,
    caller: u128,
    now: i64,
) -> Option<SharedLink> {
    if exists|i: int|
        0 <= i < links.len() && (#[trigger] links[i]).spec_resolves(shared_id, caller, now) {
        Some(
            links[choose|i: int|
                0 <= i < links.len() && (#[trigger] links[i]).spec_resolves(
                    shared_id,
                    caller,
                    now,
                )],
        )
    } else {
        None
    }
}

/// The payload with the identifier `file_id`, if there is one.
pub open spec fn file_with_id(files: Seq<File>, file_id: u128) -> Option<File> {
    if has_file(files, file_id) {
        Some(files[choose|i: int| 0 <= i < files.len() && (#[trigger] files[i]).id == file_id])
    } else {
        None
    }
}

/// The test that the first step of the sweep at `now` keeps a grant by.
pub open spec fn survives_sweep(now: i64) -> spec_fn(SharedLink) -> bool {
    |link: SharedLink| !link.spec_is_expired(now)
}

/// The test that the second step of the sweep keeps a payload by.
pub open spec fn is_referenced(links: Seq<SharedLink>) -> spec_fn(File) -> bool {
    |file: File| has_link_to(links, file.id)
}

/// The grants that the sweep at `now` leaves: those not expired, in their
/// order.
pub open spec fn live_links(links: Seq<SharedLink>, now: i64) -> Seq<SharedLink> {
    links.filter(survives_sweep(now))
}

/// The payloads that some grant of `links` refers to, in their order.
pub open spec fn referenced_files(files: Seq<File>, links: Seq<SharedLink>) -> Seq<File> {
    files.filter(is_referenced(links))
}

/// What resolving a grant gives: `NotFound` where `caller` resolves no grant
/// under `shared_id` at `now` (there is none, it is another recipient's, or
/// it has expired), `AccessDenied` where the password does not match,
/// `PayloadMissing` where the grant's payload is not there, else the payload.
pub open spec fn resolve_grant_spec(
    files: Seq<File>,
    links: Seq<SharedLink>,
    shared_id: u128,
    caller: u128,
    now: i64,
    password_matches: bool,
) -> Result<File, ResolveError> {
    match resolving_link(links, shared_id, caller, now) {
        None => Err(ResolveError::NotFound),
        Some(link) => if !password_matches {
            Err(ResolveError::AccessDenied)
        } else {
            match link.file_id {
                None => Err(ResolveError::PayloadMissing),
                Some(file_id) => match file_with_id(files, file_id) {
                    None => Err(ResolveError::PayloadMissing),
                    Some(file) => Ok(file),
                },
            }
        },
    }
}

/// The test that the sweep at `now` retires a grant by.
pub open spec fn retired_by_sweep(now: i64) -> spec_fn(SharedLink) -> bool {
    |link: SharedLink| link.spec_is_expired(now)
}

/// The test that the sweep at `now` retires the payload `file_id` by: no
/// grant that the sweep leaves refers to it.
pub open spec fn orphaned_by_sweep(links: Seq<SharedLink>, now: i64) -> spec_fn(u128) -> bool {
    |file_id: u128| !has_link_to(live_links(links, now), file_id)
}

/// The identifiers of the grants that the sweep at `now` retires, in the
/// order of the grants.
pub open spec fn expired_link_ids_spec(links: Seq<SharedLink>, now: i64) -> Seq<u128> {
    links.filter(retired_by_sweep(now)).map_values(|link: SharedLink| link.id)
}

/// The identifiers among `file_ids` of the payloads that the sweep at `now`
/// retires, in their order.
pub open spec fn orphaned_file_ids_spec(
    file_ids: Seq<u128>,
    links: Seq<SharedLink>,
    now: i64,
) -> Seq<u128> {
    file_ids.filter(orphaned_by_sweep(links, now))
}

/// The grants that are left when those with an identifier among `ids` are
/// deleted.
pub open spec fn links_without(links: Seq<SharedLink>, ids: Seq<u128>) -> Seq<SharedLink> {
    links.filter(|link: SharedLink| !ids.contains(link.id))
}

/// The payloads that are left when those with an identifier among `ids` are
/// deleted.
pub open spec fn files_without(files: Seq<File>, ids: Seq<u128>) -> Seq<File> {
    files.filter(|file: File| !ids.contains(file.id))
}

/// What one sweep is to delete: first the grants, then the payloads.
#[derive(Debug)]
pub struct SweepPlan {
    pub link_ids: Vec<u128>,
    pub file_ids: Vec<u128>,
}

/// Whether some grant that has not expired at `now` refers to the payload
/// `file_id`.
pub fn live_links_refer_to(links: &[SharedLink], now: i64, file_id: u128) -> (r: bool)
    ensures
        r == has_link_to(live_links(links@, now), file_id),
{
    let mut i: usize = 0;
    while i < links.len()
        invariant
            i <= links@.len(),
            forall|j: int|
                0 <= j < i ==> !((#[trigger] links@[j]).file_id == Some(file_id)
                    && !links@[j].spec_is_expired(now)),
        decreases links.len() - i,
    {
        let refers = match links[i].file_id {
            Some(id) => id == file_id,
            None => false,
        };
        if refers && !links[i].is_expired(now) {
            proof {
                lemma_filter_keeps(links@, survives_sweep(now), i as int);
            }
            return true;
        }
        i += 1;
    }
    proof {
        let kept = live_links(links@, now);
        assert forall|k: int| 0 <= k < kept.len() implies (#[trigger] kept[k]).file_id != Some(
            file_id,
        ) by {
            lemma_filter_element(links@, survives_sweep(now), k);
        }
    }
    false
}

/// Plans the sweep at `now` over the grants and the identifiers of the
/// payloads as the store holds them: the grants that have expired go, and
/// with them every payload that none of the remaining grants refers to,
/// whether its grant goes now or went before.
pub fn plan_sweep(links: &[SharedLink], file_ids: &[u128], now: i64) -> (plan: SweepPlan)
    ensures
        plan.link_ids@ == expired_link_ids_spec(links@, now),
        plan.file_ids@ == orphaned_file_ids_spec(file_ids@, links@, now),
{
    let mut link_ids: Vec<u128> = Vec::new();
    let ghost retired = retired_by_sweep(now);
    let ghost id_of = |link: SharedLink| link.id;
    let mut i: usize = 0;
    assert(links@.take(0).filter(retired) =~= Seq::<SharedLink>::empty()) by {
        reveal(Seq::filter);
    }
    while i < links.len()
        invariant
            i <= links@.len(),
            retired == retired_by_sweep(now),
            id_of == |link: SharedLink| link.id,
            link_ids@ =~= links@.take(i as int).filter(retired).map_values(id_of),
        decreases links.len() - i,
    {
        proof {
            lemma_filter_step(links@, retired, i as int);
        }
        if links[i].is_expired(now) {
            link_ids.push(links[i].id);
        }
        i += 1;
    }
    assert(links@.take(i as int) =~= links@);
    let mut orphans: Vec<u128> = Vec::new();
    let ghost orphaned = orphaned_by_sweep(links@, now);
    let mut k: usize = 0;
    assert(file_ids@.take(0).filter(orphaned) =~= Seq::<u128>::empty()) by {
        reveal(Seq::filter);
    }
    while k < file_ids.len()
        invariant
            k <= file_ids@.len(),
            orphaned == orphaned_by_sweep(links@, now),
            orphans@ =~= file_ids@.take(k as int).filter(orphaned),
        decreases file_ids.len() - k,
    {
        proof {
            lemma_filter_step(file_ids@, orphaned, k as int);
        }
        if !live_links_refer_to(links, now, file_ids[k]) {
            orphans.push(file_ids[k]);
        }
        k += 1;
    }
    assert(file_ids@.take(k as int) =~= file_ids@);
    SweepPlan { link_ids, file_ids: orphans }
}

/// Whether some grant refers to the payload `file_id`.
pub fn links_refer_to(links: &Vec<SharedLink>, file_id: u128) -> (r: bool)
    ensures
        r == has_link_to(links@, file_id),
{
    let mut i: usize = 0;
    while i < links.len()
        invariant
            i <= links.len(),
            forall|j: int| 0 <= j < i ==> (#[trigger] links@[j]).file_id != Some(file_id),
        decreases links.len() - i,
    {
        let refers = match links[i].file_id {
            Some(id) => id == file_id,
            None => false,
        };
        if refers {
            return true;
        }
        i += 1;
    }
    false
}

/// Takes the grants that have expired at `now` out of `links`, keeping the
/// order of the others.
pub fn retain_live_links(links: &mut Vec<SharedLink>, now: i64)
    ensures
        final(links)@ == live_links(old(links)@, now),
{
    let ghost orig = links@;
    let ghost pred = survives_sweep(now);
    let ghost mut k: int = 0;
    let mut i: usize = 0;
    assert(orig.take(0).filter(pred) =~= Seq::<SharedLink>::empty()) by {
        reveal(Seq::filter);
    }
    while i < links.len()
        invariant
            0 <= k <= orig.len(),
            pred == survives_sweep(now),
            i == orig.take(k).filter(pred).len(),
            links@ =~= orig.take(k).filter(pred) + orig.skip(k),
        decreases orig.len() - k,
    {
        proof {
            lemma_filter_step(orig, pred, k);
            assert(links@[i as int] == orig.skip(k)[0]);
        }
        if links[i].is_expired(now) {
            links.remove(i);
        } else {
            i += 1;
        }
        proof {
            k = k + 1;
        }
    }
    assert(orig.take(k) =~= orig);
}

/// Takes the payloads that no grant of `links` refers to out of `files`,
/// keeping the order of the others.
pub fn retain_referenced_files(files: &mut Vec<File>, links: &Vec<SharedLink>)
    ensures
        final(files)@ == referenced_files(old(files)@, links@),
{
    let ghost orig = files@;
    let ghost pred = is_referenced(links@);
    let ghost mut k: int = 0;
    let mut i: usize = 0;
    assert(orig.take(0).filter(pred) =~= Seq::<File>::empty()) by {
        reveal(Seq::filter);
    }
    while i < files.len()
        invariant
            0 <= k <= orig.len(),
            pred == is_referenced(links@),
            i == orig.take(k).filter(pred).len(),
            files@ =~= orig.take(k).filter(pred) + orig.skip(k),
        decreases orig.len() - k,
    {
        proof {
            lemma_filter_step(orig, pred, k);
            assert(files@[i as int] == orig.skip(k)[0]);
        }
        if links_refer_to(links, files[i].id) {
            i += 1;
        } else {
            files.remove(i);
        }
        proof {
            k = k + 1;
        }
    }
    assert(orig.take(k) =~= orig);
}

/// Grants with distinct identifiers keep them distinct through a sweep.
proof fn lemma_live_links_distinct(links: Seq<SharedLink>, now: i64)
    requires
        link_ids_distinct(links),
    ensures
        link_ids_distinct(live_links(links, now)),
{
    let kept = live_links(links, now);
    assert forall|i: int, j: int| 0 <= i < j < kept.len() implies kept[i].id != kept[j].id by {
        lemma_filter_order(links, survives_sweep(now), i, j);
    }
}

/// Payloads with distinct identifiers keep them distinct through a sweep.
proof fn lemma_referenced_files_distinct(files: Seq<File>, links: Seq<SharedLink>)
    requires
        file_ids_distinct(files),
    ensures
        file_ids_distinct(referenced_files(files, links)),
{
    let kept = referenced_files(files, links);
    assert forall|i: int, j: int| 0 <= i < j < kept.len() implies kept[i].id != kept[j].id by {
        lemma_filter_order(files, is_referenced(links), i, j);
    }
}

/// The identifiers of a grant that was stored with its payload.
#[derive(Clone, Copy, Debug, PartialEq, Eq, Structural)]
pub struct SavedShare {
    pub shared_id: u128,
    pub file_id: u128,
}

/// What one sweep retired.
#[derive(Clone, Copy, Debug, PartialEq, Eq, Structural)]
pub struct SweepReport {
    pub links_deleted: usize,
    pub files_deleted: usize,
}

/// The grants and the payloads, in the order in which they were stored.
pub struct ShareStore {
    files: Vec<File>,
    links: Vec<SharedLink>,
    next_id: u128,
}

impl ShareStore {
    /// The payloads in the store.
    pub closed spec fn files(&self) -> Seq<File> {
        self.files@
    }

    /// The grants in the store.
    pub closed spec fn links(&self) -> Seq<SharedLink> {
        self.links@
    }

    /// Whether the store has given out all its identifiers but one.
    pub closed spec fn is_full(&self) -> bool {
        self.next_id >= u128::MAX - 1
    }

    /// Every identifier in the store is one that the store has given out.
    pub closed spec fn ids_given_out(&self) -> bool {
        &&& forall|i: int| 0 <= i < self.files@.len() ==> (#[trigger] self.files@[i]).id < self.next_id
        &&& forall|i: int| 0 <= i < self.links@.len() ==> (#[trigger] self.links@[i]).id < self.next_id
    }

    /// The store is well formed: identifiers are distinct among the grants
    /// and among the payloads, and no grant names a payload that is gone.
    pub open spec fn wf(&self) -> bool {
        &&& link_ids_distinct(self.links())
        &&& file_ids_distinct(self.files())
        &&& no_dangling_link(self.files(), self.links())
        &&& self.ids_given_out()
    }

    /// The empty store.
    pub fn new() -> (store: ShareStore)
        ensures
            store.wf(),
            store.files() == Seq::<File>::empty(),
            store.links() == Seq::<SharedLink>::empty(),
            !store.is_full(),
    {
        ShareStore { files: Vec::new(), links: Vec::new(), next_id: 0 }
    }

    /// The number of grants in the store.
    pub fn link_count(&self) -> (r: usize)
        ensures
            r == self.links().len(),
    {
        self.links.len()
    }

    /// The number of payloads in the store.
    pub fn file_count(&self) -> (r: usize)
        ensures
            r == self.files().len(),
    {
        self.files.len()
    }

    /// Stores an encrypted payload together with the grant that shares it
    /// with `recipient_user_id` until `expiration_date`, both created at
    /// `now`, and gives their new identifiers. `password` is the hash of the
    /// access password.
    ///
    /// Either both records are stored or, on an error, neither: the
    /// expiration must lie strictly after `now`, and the store must have
    /// identifiers left.
    pub fn save_encrypted_file(
        &mut self,
        user_id: u128,
        file_name: String,
        file_size: i64,
        recipient_user_id: u128,
        password: String,
        expiration_date: i64,
        encrypted_aes_key: Vec<u8>,
        encrypted_file: Vec<u8>,
        iv: Vec<u8>,
        now: i64,
    ) -> (r: Result<SavedShare, StoreError>)
        requires
            old(self).wf(),
        ensures
            final(self).wf(),
            match r {
                Ok(saved) => {
                    &&& expiration_date > now
                    &&& !old(self).is_full()
                    &&& saved.shared_id != saved.file_id
                    &&& !has_file(old(self).files(), saved.file_id)
                    &&& forall|i: int|
                        0 <= i < old(self).links().len() ==> (#[trigger] old(self).links()[i]).id
                            != saved.shared_id
                    &&& final(self).files() == old(self).files().push(
                        File {
                            id: saved.file_id,
                            user_id: Some(user_id),
                            file_name,
                            file_size,
                            encrypted_aes_key,
                            encrypted_file,
                            iv,
                            created_at: Some(now),
                        },
                    )
                    &&& final(self).links() == old(self).links().push(
                        SharedLink {
                            id: saved.shared_id,
                            file_id: Some(saved.file_id),
                            recipient_user_id: Some(recipient_user_id),
                            password,
                            expiration_date: Some(expiration_date),
                            created_at: Some(now),
                        },
                    )
                },
                Err(e) => {
                    &&& final(self).files() == old(self).files()
                    &&& final(self).links() == old(self).links()
                    &&& final(self).is_full() == old(self).is_full()
                    &&& e == if expiration_date <= now {
                        StoreError::InvalidExpiration
                    } else {
                        StoreError::Full
                    }
                    &&& expiration_date <= now || old(self).is_full()
                },
            },
    {
        if expiration_date <= now {
            return Err(StoreError::InvalidExpiration);
        }
        if self.next_id >= u128::MAX - 1 {
            return Err(StoreError::Full);
        }
        let file_id = self.next_id;
        let shared_id = self.next_id + 1;
        let ghost old_files = self.files@;
        let ghost old_links = self.links@;
        self.files.push(
            File {
                id: file_id,
                user_id: Some(user_id),
                file_name,
                file_size,
                encrypted_aes_key,
                encrypted_file,
                iv,
                created_at: Some(now),
            },
        );
        self.links.push(
            SharedLink {
                id: shared_id,
                file_id: Some(file_id),
                recipient_user_id: Some(recipient_user_id),
                password,
                expiration_date: Some(expiration_date),
                created_at: Some(now),
            },
        );
        self.next_id = self.next_id + 2;
        proof {
            assert forall|i: int| 0 <= i < self.links@.len() implies ((
            #[trigger] self.links@[i]).file_id matches Some(id) ==> has_file(self.files@, id)) by {
                if i < old_links.len() {
                    if let Some(id) = old_links[i].file_id {
                        let k = choose|k: int| 0 <= k < old_files.len() && (#[trigger] old_files[k]).id == id;
                        assert(self.files@[k].id == id);
                    }
                } else {
                    assert(self.files@[old_files.len() as int].id == file_id);
                }
            }
        }
        Ok(SavedShare { shared_id, file_id })
    }

    /// The grant that `user_id` resolves under `shared_id` at `now`: the
    /// grant with this identifier, where `user_id` is its recipient and its
    /// expiration lies strictly after `now`.
    pub fn get_shared(&self, shared_id: u128, user_id: u128, now: i64) -> (r: Option<&SharedLink>)
        requires
            self.wf(),
        ensures
            match r {
                Some(link) => resolving_link(self.links(), shared_id, user_id, now) == Some(*link),
                None => resolving_link(self.links(), shared_id, user_id, now) is None,
            },
    {
        let mut i: usize = 0;
        while i < self.links.len()
            invariant
                i <= self.links@.len(),
                link_ids_distinct(self.links@),
                forall|j: int|
                    0 <= j < i ==> !(#[trigger] self.links@[j]).spec_resolves(shared_id, user_id, now),
            decreases self.links.len() - i,
        {
            if self.links[i].resolves(shared_id, user_id, now) {
                proof {
                    let j = choose|j: int|
                        0 <= j < self.links@.len() && (#[trigger] self.links@[j]).spec_resolves(
                            shared_id,
                            user_id,
                            now,
                        );
                    assert(self.links@[i as int].spec_resolves(shared_id, user_id, now));
                    assert(j == i);
                }
                return Some(&self.links[i]);
            }
            i += 1;
        }
        None
    }

    /// The payload with the identifier `file_id`.
    pub fn get_file(&self, file_id: u128) -> (r: Option<&File>)
        requires
            self.wf(),
        ensures
            match r {
                Some(file) => file_with_id(self.files(), file_id) == Some(*file),
                None => file_with_id(self.files(), file_id) is None,
            },
    {
        let mut i: usize = 0;
        while i < self.files.len()
            invariant
                i <= self.files@.len(),
                file_ids_distinct(self.files@),
                forall|j: int| 0 <= j < i ==> (#[trigger] self.files@[j]).id != file_id,
            decreases self.files.len() - i,
        {
            if self.files[i].id == file_id {
                proof {
                    let j = choose|j: int|
                        0 <= j < self.files@.len() && (#[trigger] self.files@[j]).id == file_id;
                    assert(self.files@[i as int].id == file_id);
                    assert(j == i);
                }
                return Some(&self.files[i]);
            }
            i += 1;
        }
        None
    }

    /// Resolves the grant `shared_id` for `caller` at `now`, once the
    /// password that the caller supplied has been compared with the hash
    /// that the grant holds: `password_matches` is the outcome. A grant is
    /// not used up by being resolved.
    pub fn resolve_grant(
        &self,
        shared_id: u128,
        caller: u128,
        now: i64,
        password_matches: bool,
    ) -> (r: Result<&File, ResolveError>)
        requires
            self.wf(),
        ensures
            match r {
                Ok(file) => resolve_grant_spec(
                    self.files(),
                    self.links(),
                    shared_id,
                    caller,
                    now,
                    password_matches,
                ) == Ok::<File, ResolveError>(*file),
                Err(e) => resolve_grant_spec(
                    self.files(),
                    self.links(),
                    shared_id,
                    caller,
                    now,
                    password_matches,
                ) == Err::<File, ResolveError>(e),
            },
    {
        let link = match self.get_shared(shared_id, caller, now) {
            Some(link) => link,
            None => {
                return Err(ResolveError::NotFound);
            },
        };
        if !password_matches {
            return Err(ResolveError::AccessDenied);
        }
        let file_id = match link.file_id {
            Some(file_id) => file_id,
            None => {
                return Err(ResolveError::PayloadMissing);
            },
        };
        match self.get_file(file_id) {
            Some(file) => Ok(file),
            None => Err(ResolveError::PayloadMissing),
        }
    }

    /// The first step of the sweep: deletes the grants that have expired at
    /// `now`, and says how many they were. The payloads stay.
    pub fn delete_expired_links(&mut self, now: i64) -> (deleted: usize)
        requires
            old(self).wf(),
        ensures
            final(self).wf(),
            final(self).links() == live_links(old(self).links(), now),
            final(self).files() == old(self).files(),
            final(self).is_full() == old(self).is_full(),
            deleted == old(self).links().len() - final(self).links().len(),
    {
        let before = self.links.len();
        let ghost old_links = self.links@;
        retain_live_links(&mut self.links, now);
        proof {
            old_links.lemma_filter_len(survives_sweep(now));
            lemma_live_links_distinct(old_links, now);
            assert forall|i: int| 0 <= i < self.links@.len() implies (#[trigger] self.links@[i]).id
                < self.next_id && (self.links@[i].file_id matches Some(id) ==> has_file(
                self.files@,
                id,
            )) by {
                lemma_filter_element(old_links, survives_sweep(now), i);
            }
        }
        before - self.links.len()
    }

    /// The second step of the sweep: deletes the payloads that no grant
    /// refers to, and says how many they were. The grants stay.
    pub fn delete_unreferenced_files(&mut self) -> (deleted: usize)
        requires
            old(self).wf(),
        ensures
            final(self).wf(),
            final(self).files() == referenced_files(old(self).files(), old(self).links()),
            final(self).links() == old(self).links(),
            final(self).is_full() == old(self).is_full(),
            deleted == old(self).files().len() - final(self).files().len(),
    {
        let before = self.files.len();
        let ghost old_files = self.files@;
        retain_referenced_files(&mut self.files, &self.links);
        proof {
            let pred = is_referenced(self.links@);
            old_files.lemma_filter_len(pred);
            lemma_referenced_files_distinct(old_files, self.links@);
            assert forall|i: int| 0 <= i < self.files@.len() implies (#[trigger] self.files@[i]).id
                < self.next_id by {
                lemma_filter_element(old_files, pred, i);
            }
            assert forall|i: int| 0 <= i < self.links@.len() implies ((
            #[trigger] self.links@[i]).file_id matches Some(id) ==> has_file(self.files@, id)) by {
                if let Some(id) = self.links@[i].file_id {
                    let a = choose|a: int| 0 <= a < old_files.len() && (#[trigger] old_files[a]).id == id;
                    assert(has_link_to(self.links@, old_files[a].id));
                    lemma_filter_keeps(old_files, pred, a);
                    let k = choose|k: int|
                        0 <= k < old_files.filter(pred).len() && old_files.filter(pred)[k]
                            == old_files[a];
                    assert(self.files@[k].id == id);
                }
            }
        }
        before - self.files.len()
    }

    /// The sweep at `now`: deletes the grants that have expired, then the
    /// payloads that no remaining grant refers to, whether their grant went
    /// in this sweep or in an earlier one that did not finish.
    pub fn delete_expired_files(&mut self, now: i64) -> (report: SweepReport)
        requires
            old(self).wf(),
        ensures
            final(self).wf(),
            final(self).links() == live_links(old(self).links(), now),
            final(self).files() == referenced_files(old(self).files(), final(self).links()),
            final(self).is_full() == old(self).is_full(),
            report.links_deleted == old(self).links().len() - final(self).links().len(),
            report.files_deleted == old(self).files().len() - final(self).files().len(),
    {
        let links_deleted = self.delete_expired_links(now);
        let files_deleted = self.delete_unreferenced_files();
        SweepReport { links_deleted, files_deleted }
    }
}

} // verus!
