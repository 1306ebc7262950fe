//! The repository contract: the capability set every storage engine must
//! support, stated over an abstract directory — a map from id to record.
//! The service layer depends only on this contract, never on a concrete
//! engine, so storage is pluggable.

use vstd::prelude::*;
use crate::errors::RepoError;
use crate::types::{User, UserView};

verus! {

/// A well-formed directory: finitely many records, each stored under its
/// own id.
pub open spec fn directory_wf(m: Map<u128, UserView>) -> bool {
    &&& m.dom().finite()
    &&& forall|k: u128| m.dom().contains(k) ==> (#[trigger] m[k]).id == k
}

/// The directory of a freshly constructed engine: no records.
pub open spec fn empty_directory() -> Map<u128, UserView> {
    Map::empty()
}

/// The record an update installs under `id`: the id is immutable, name
/// and email are taken from the replacement record.
pub open spec fn replaced(id: u128, u: UserView) -> UserView {
    UserView { id, name: u.name, email: u.email }
}

/// Operations every backing engine supports. Absence of a row is never an
/// error: it is `None`. An `Err` means the engine could not even ask its
/// store, and leaves the directory as it was.
pub trait UserRepository: Sized {
    /// The records the engine holds, keyed by id.
    spec fn repo_view(&self) -> Map<u128, UserView>;

    /// The engine's internal well-formedness.
    spec fn inv(&self) -> bool;

    /// A well-formed engine holds a well-formed directory.
    proof fn inv_implies_wf(&self)
        requires
            self.inv(),
        ensures
            directory_wf(self.repo_view()),
    ;

    /// Inserts a record under its id, overwriting any record already
    /// there. Uniqueness is not the engine's job; the service enforces it.
    fn add_user(&mut self, user: User) -> (r: Result<(), RepoError>)
        requires
            old(self).inv(),
        ensures
            final(self).inv(),
            r is Ok ==> final(self).repo_view() == old(self).repo_view().insert(user@.id, user@),
            r matches Err(e) ==> final(self).repo_view() == old(self).repo_view()
                && !(e is UserNotFound),
    ;

    /// A full, unordered snapshot of the directory.
    fn get_all_users(&self) -> (r: Result<Vec<User>, RepoError>)
        requires
            self.inv(),
        ensures
            r matches Ok(v) ==> {
                &&& v@.len() == self.repo_view().dom().len()
                &&& forall|i: int|
                    0 <= i < v@.len() ==> self.repo_view().contains_pair(
                        (#[trigger] v@[i])@.id,
                        v@[i]@,
                    )
                &&& forall|i: int, j: int|
                    0 <= i < j < v@.len() ==> (#[trigger] v@[i])@.id != (#[trigger] v@[j])@.id
            },
    ;

    /// The record with that id, or `None`.
    fn get_user(&self, user_id: u128) -> (r: Result<Option<User>, RepoError>)
        requires
            self.inv(),
        ensures
            r matches Ok(Some(u)) ==> self.repo_view().dom().contains(user_id)
                && u@ == self.repo_view()[user_id],
            r matches Ok(None) ==> !self.repo_view().dom().contains(user_id),
    ;

    /// Existence probe: the same id back when a record with it exists.
    fn get_user_id(&self, user_id: u128) -> (r: Result<Option<u128>, RepoError>)
        requires
            self.inv(),
        ensures
            r matches Ok(Some(v)) ==> v == user_id && self.repo_view().dom().contains(user_id),
            r matches Ok(None) ==> !self.repo_view().dom().contains(user_id),
    ;

    /// Secondary lookup: the id of some record bearing that name.
    fn get_user_id_by_nickname(&self, user_name: &str) -> (r: Result<Option<u128>, RepoError>)
        requires
            self.inv(),
        ensures
            r matches Ok(Some(k)) ==> self.repo_view().dom().contains(k)
                && self.repo_view()[k].name == user_name@,
            r matches Ok(None) ==> forall|k: u128|
                self.repo_view().dom().contains(k) ==> (#[trigger] self.repo_view()[k]).name
                    != user_name@,
    ;

    /// Replaces name and email of the record with that id; `Ok(None)`
    /// (not an error) when no record matched.
    fn update_user_by_id(&mut self, user_id: u128, updated_user: User) -> (r: Result<
        Option<()>,
        RepoError,
    >)
        requires
            old(self).inv(),
        ensures
            final(self).inv(),
            r matches Ok(Some(_)) ==> old(self).repo_view().dom().contains(user_id)
                && final(self).repo_view() == old(self).repo_view().insert(
                user_id,
                replaced(user_id, updated_user@),
            ),
            r matches Ok(None) ==> !old(self).repo_view().dom().contains(user_id)
                && final(self).repo_view() == old(self).repo_view(),
            r is Err ==> final(self).repo_view() == old(self).repo_view(),
    ;

    /// Resolves a name to an id, then updates by id; `Ok(None)` when the
    /// name is not found.
    fn update_user_by_nickname(&mut self, nick_name: &str, updated_user: User) -> (r: Result<
        Option<()>,
        RepoError,
    >)
        requires
            old(self).inv(),
        ensures
            final(self).inv(),
            r matches Ok(Some(_)) ==> exists|k: u128|
                old(self).repo_view().dom().contains(k)
                    && (#[trigger] old(self).repo_view()[k]).name == nick_name@
                    && final(self).repo_view() == old(self).repo_view().insert(
                    k,
                    replaced(k, updated_user@),
                ),
            r matches Ok(None) ==> (forall|k: u128|
                old(self).repo_view().dom().contains(k)
                    ==> (#[trigger] old(self).repo_view()[k]).name != nick_name@)
                && final(self).repo_view() == old(self).repo_view(),
            r is Err ==> final(self).repo_view() == old(self).repo_view(),
    ;
}

} // verus!
