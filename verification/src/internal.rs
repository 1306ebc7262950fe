//! The in-memory engine: a concurrent map from id to record, safe for
//! simultaneous access without an external lock. A non-production
//! stand-in for the relational engine, behind the identical contract.

use vstd::prelude::*;
use crate::errors::RepoError;
use crate::repo::{directory_wf, empty_directory, UserRepository};
use crate::strutil::str_eq;
use crate::types::{User, UserView};

verus! {

#[verifier::external_type_specification]
#[verifier::external_body]
#[verifier::reject_recursive_types(K)]
#[verifier::reject_recursive_types(V)]
#[verifier::reject_recursive_types(S)]
pub struct ExDashMap<K, V, S>(dashmap::DashMap<K, V, S>);

/// The concrete shape of the in-memory store.
pub type Storage = dashmap::DashMap<u128, User>;

/// What the concurrent map holds: record views keyed by the key they
/// were inserted under.
pub uninterp spec fn dash_contents(m: Storage) -> Map<u128, UserView>;

/// Relies on `dashmap::DashMap::insert`: maps `key` to `value`,
/// replacing any previous entry under `key`.
#[verifier::external_body]
fn dash_insert(m: &mut Storage, key: u128, value: User)
    ensures
        dash_contents(*final(m)) == dash_contents(*old(m)).insert(key, value@),
{
    m.insert(key, value);
}

/// Relies on `dashmap::DashMap::get`: a clone of the value under `key`,
/// or `None` when the key is absent.
#[verifier::external_body]
fn dash_get(m: &Storage, key: u128) -> (r: Option<User>)
    ensures
        r matches Some(u) ==> dash_contents(*m).dom().contains(key)
            && u@ == dash_contents(*m)[key],
        r is None ==> !dash_contents(*m).dom().contains(key),
{
    m.get(&key).map(|entry| entry.value().clone())
}

/// Relies on `dashmap::DashMap::contains_key`.
#[verifier::external_body]
fn dash_contains(m: &Storage, key: u128) -> (r: bool)
    ensures
        r == dash_contents(*m).dom().contains(key),
{
    m.contains_key(&key)
}

/// Relies on `dashmap::DashMap::iter`: every entry exactly once, cloned,
/// in no fixed order.
#[verifier::external_body]
fn dash_entries(m: &Storage) -> (r: Vec<(u128, User)>)
    ensures
        r@.len() == dash_contents(*m).dom().len(),
        forall|i: int|
            0 <= i < r@.len() ==> dash_contents(*m).contains_pair((#[trigger] r@[i]).0, r@[i].1@),
        forall|i: int, j: int| 0 <= i < j < r@.len() ==> (#[trigger] r@[i]).0 != (#[trigger] r@[j]).0,
        forall|k: u128|
            dash_contents(*m).dom().contains(k) ==> exists|i: int|
                0 <= i < r@.len() && (#[trigger] r@[i]).0 == k,
{
    m.iter().map(|entry| (*entry.key(), entry.value().clone())).collect()
}

/// The concurrent in-memory engine.
pub struct InternalRepository {
    storage: Storage,
}

impl View for InternalRepository {
    type V = Map<u128, UserView>;

    closed spec fn view(&self) -> Map<u128, UserView> {
        dash_contents(self.storage)
    }
}

/// Relies on `dashmap::DashMap::new`: the engine starts empty.
#[verifier::external_body]
fn empty_repository() -> (r: InternalRepository)
    ensures
        r@ == empty_directory(),
{
    InternalRepository { storage: dashmap::DashMap::new() }
}

impl InternalRepository {
    pub fn new() -> (r: InternalRepository)
        ensures
            r.inv(),
            r.repo_view() == empty_directory(),
    {
        empty_repository()
    }
}

impl UserRepository for InternalRepository {
    closed spec fn repo_view(&self) -> Map<u128, UserView> {
        dash_contents(self.storage)
    }

    closed spec fn inv(&self) -> bool {
        directory_wf(dash_contents(self.storage))
    }

    proof fn inv_implies_wf(&self) {
    }

    /// Insert or overwrite; never fails.
    fn add_user(&mut self, user: User) -> (r: Result<(), RepoError>)
        ensures
            r is Ok,
    {
        let id = user.get_id();
        dash_insert(&mut self.storage, id, user);
        Ok(())
    }

    /// A snapshot of all records; never fails.
    fn get_all_users(&self) -> (r: Result<Vec<User>, RepoError>)
        ensures
            r is Ok,
    {
        let entries = dash_entries(&self.storage);
        let mut users: Vec<User> = Vec::new();
        let n = entries.len();
        let mut i: usize = 0;
        while i < n
            invariant
                n == entries@.len(),
                i <= n,
                users@.len() == i,
                self.inv(),
                forall|j: int|
                    0 <= j < entries@.len() ==> dash_contents(self.storage).contains_pair(
                        (#[trigger] entries@[j]).0,
                        entries@[j].1@,
                    ),
                forall|j: int, l: int|
                    0 <= j < l < entries@.len() ==> (#[trigger] entries@[j]).0
                        != (#[trigger] entries@[l]).0,
                forall|j: int| 0 <= j < i ==> (#[trigger] users@[j])@ == entries@[j].1@,
            decreases n - i,
        {
            let entry_id = entries[i].0;
            let entry_name = entries[i].1.get_username().to_owned();
            let entry_email = entries[i].1.get_email().to_owned();
            users.push(User::new(entry_id, entry_name, entry_email));
            i += 1;
        }
        Ok(users)
    }

    /// Point lookup; never fails.
    fn get_user(&self, user_id: u128) -> (r: Result<Option<User>, RepoError>)
        ensures
            r is Ok,
    {
        Ok(dash_get(&self.storage, user_id))
    }

    /// Existence probe; never fails.
    fn get_user_id(&self, user_id: u128) -> (r: Result<Option<u128>, RepoError>)
        ensures
            r is Ok,
    {
        if dash_contains(&self.storage, user_id) {
            Ok(Some(user_id))
        } else {
            Ok(None)
        }
    }

    /// Linear scan for a record bearing the name; never fails.
    fn get_user_id_by_nickname(&self, user_name: &str) -> (r: Result<Option<u128>, RepoError>)
        ensures
            r is Ok,
    {
        let entries = dash_entries(&self.storage);
        let n = entries.len();
        let mut i: usize = 0;
        while i < n
            invariant
                n == entries@.len(),
                i <= n,
                self.inv(),
                forall|j: int|
                    0 <= j < entries@.len() ==> dash_contents(self.storage).contains_pair(
                        (#[trigger] entries@[j]).0,
                        entries@[j].1@,
                    ),
                forall|k: u128|
                    dash_contents(self.storage).dom().contains(k) ==> exists|j: int|
                        0 <= j < entries@.len() && (#[trigger] entries@[j]).0 == k,
                forall|j: int| 0 <= j < i ==> (#[trigger] entries@[j]).1@.name != user_name@,
            decreases n - i,
        {
            if str_eq(entries[i].1.get_username(), user_name) {
                return Ok(Some(entries[i].0));
            }
            i += 1;
        }
        Ok(None)
    }

    /// Read-check-then-write under the map's per-key synchronization;
    /// never fails.
    fn update_user_by_id(&mut self, user_id: u128, updated_user: User) -> (r: Result<
        Option<()>,
        RepoError,
    >)
        ensures
            r is Ok,
    {
        if dash_contains(&self.storage, user_id) {
            let mut replacement = updated_user;
            replacement.set_id(user_id);
            dash_insert(&mut self.storage, user_id, replacement);
            Ok(Some(()))
        } else {
            Ok(None)
        }
    }

    /// Resolve the name, then delegate to the id-based update. The two
    /// steps are not atomic across the whole map; never fails.
    fn update_user_by_nickname(&mut self, nick_name: &str, updated_user: User) -> (r: Result<
        Option<()>,
        RepoError,
    >)
        ensures
            r is Ok,
    {
        match self.get_user_id_by_nickname(nick_name) {
            Ok(Some(user_id)) => self.update_user_by_id(user_id, updated_user),
            Ok(None) => Ok(None),
            Err(e) => Err(e),
        }
    }
}

} // verus!
