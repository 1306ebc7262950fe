//! The service layer: generic over any engine that meets the repository
//! contract. It validates every request before touching storage, enforces
//! id uniqueness by probe-then-insert, and translates every failure into
//! the status taxonomy before it leaves.

use vstd::prelude::*;
use vstd::string::StringExecFns;
use crate::errors::GrpcError;
use crate::internal::InternalRepository;
use crate::repo::{empty_directory, UserRepository};
use crate::strutil::str_eq;
use crate::types::{User, UserView};
use crate::uuid_codec::{format_uuid, uuid_of_str, uuid_str_of};
use crate::validation::{
    valid_user_email, valid_user_name, valid_uuid, validate_user_email, validate_user_name,
    validate_uuid,
};

verus! {

#[derive(Debug)]
pub struct PutUserResponse {
    pub message: String,
}

#[derive(Debug)]
pub struct GetUserByIdResponse {
    pub user_name: String,
    pub user_email: String,
}

#[derive(Debug)]
pub struct GetUserIdByNicknameResponse {
    pub user_uuid: String,
}

#[derive(Debug)]
pub struct GetUserResponse {
    pub uuid: String,
}

#[derive(Debug)]
pub struct UpdateUserResponse {
    pub message: String,
}

/// One record of the listing, in wire shape: the id back in text form.
#[derive(Debug)]
pub struct UserEntry {
    pub user_uuid: String,
    pub user_name: String,
    pub user_email: String,
}

#[derive(Debug)]
pub struct GetAllUsersResponse {
    pub users: Vec<UserEntry>,
}

/// The directory after a create of `(id, name, email)`.
pub open spec fn created(
    m: Map<u128, UserView>,
    id: u128,
    name: Seq<char>,
    email: Seq<char>,
) -> Map<u128, UserView> {
    m.insert(id, UserView { id, name, email })
}

/// The record a partial update leaves under the current one's id: an
/// empty name or email in the request leaves that field unchanged.
pub open spec fn apply_update(cur: UserView, name: Seq<char>, email: Seq<char>) -> UserView {
    UserView {
        id: cur.id,
        name: if name.len() > 0 { name } else { cur.name },
        email: if email.len() > 0 { email } else { cur.email },
    }
}

/// Whether a partial update changes anything at all.
pub open spec fn update_changes(cur: UserView, name: Seq<char>, email: Seq<char>) -> bool {
    (name.len() > 0 && name != cur.name) || (email.len() > 0 && email != cur.email)
}

pub open spec fn added_message(uuid_text: Seq<char>) -> Seq<char> {
    "User "@ + uuid_text + " added successfully"@
}

pub open spec fn updated_message(uuid_text: Seq<char>) -> Seq<char> {
    "User "@ + uuid_text + " updated successfully"@
}

pub open spec fn no_changes_message(uuid_text: Seq<char>) -> Seq<char> {
    "No changes detected for user "@ + uuid_text
}

/// `users` lists the directory `m` exactly: one wire entry per record,
/// each id exactly once, in some order.
pub open spec fn lists_directory(m: Map<u128, UserView>, users: Seq<UserEntry>) -> bool {
    exists|ids: Seq<u128>| listing_of(m, users, ids)
}

/// `users` lists the directory `m` in the order of `ids`, which
/// enumerates the ids without repetition.
pub open spec fn listing_of(m: Map<u128, UserView>, users: Seq<UserEntry>, ids: Seq<u128>) -> bool {
    &&& ids.len() == users.len()
    &&& users.len() == m.dom().len()
    &&& forall|i: int| 0 <= i < ids.len() ==> m.dom().contains(#[trigger] ids[i])
    &&& forall|i: int, j: int| 0 <= i < j < ids.len() ==> ids[i] != ids[j]
    &&& forall|i: int|
        0 <= i < ids.len() ==> (#[trigger] users[i]).user_uuid@ == uuid_str_of(ids[i])
            && users[i].user_name@ == m[ids[i]].name && users[i].user_email@ == m[ids[i]].email
}

/// The partial-update step, shared with unverified engine drivers: from
/// the record as fetched and the requested name and email, the record to
/// persist and whether anything changed. An empty field is left
/// unchanged; a non-empty value that differs from the current one is
/// validated before it replaces the field.
pub fn revise_user(current: User, user_name: String, user_email: String) -> (r: Result<
    (User, bool),
    GrpcError,
>)
    ensures
        r matches Ok(p) ==> p.0@ == apply_update(current@, user_name@, user_email@) && p.1
            == update_changes(current@, user_name@, user_email@) && (user_email@.len() > 0
            && user_email@ != current@.email ==> valid_user_email(user_email@)),
        r matches Err(e) ==> e matches GrpcError::InvalidArgument(m) && user_email@.len() > 0
            && user_email@ != current@.email && !valid_user_email(user_email@) && m@
            == "Invalid email format"@,
{
    let mut user = current;
    let mut updated = false;
    if !user_name.as_str().is_empty() && !str_eq(user.get_username(), user_name.as_str()) {
        match validate_user_name(user_name.as_str()) {
            Ok(_) => {},
            Err(e) => {
                return Err(e);
            },
        }
        user.set_username(user_name);
        updated = true;
    }
    if !user_email.as_str().is_empty() && !str_eq(user.get_email(), user_email.as_str()) {
        match validate_user_email(user_email.as_str()) {
            Ok(_) => {},
            Err(e) => {
                return Err(e);
            },
        }
        user.set_email(user_email);
        updated = true;
    }
    Ok((user, updated))
}

/// The service; it owns one engine for its whole lifetime.
///
/// Uniqueness is enforced by probe-then-insert: two separate engine
/// calls with no cross-call guard. Calls through one `&mut` handle are
/// serialized, so the contracts here speak of sequential calls; callers
/// that share a service across tasks must bring their own
/// synchronization or accept that two concurrent creates of one id can
/// both pass the probe.
pub struct UserServiceCore<R: UserRepository> {
    pub repository: R,
}

impl<R: UserRepository> UserServiceCore<R> {
    pub fn new(repository: R) -> (s: UserServiceCore<R>)
        ensures
            s.repository == repository,
    {
        UserServiceCore { repository }
    }

    /// Create: reject a malformed id, an empty name or a malformed
    /// email, reject an id already present, then insert; the response
    /// carries the confirmation message.
    pub fn put_user_data(&mut self, user_uuid: &str, user_name: String, user_email: String) -> (r:
        Result<PutUserResponse, GrpcError>)
        requires
            old(self).repository.inv(),
        ensures
            final(self).repository.inv(),
            r matches Ok(resp) ==> uuid_of_str(user_uuid@) matches Some(id)
                && valid_user_name(user_name@) && valid_user_email(user_email@)
                && !old(self).repository.repo_view().dom().contains(id)
                && final(self).repository.repo_view() == created(
                old(self).repository.repo_view(),
                id,
                user_name@,
                user_email@,
            ) && resp.message@ == added_message(user_uuid@),
            r matches Err(e) ==> final(self).repository.repo_view() == old(
                self,
            ).repository.repo_view() && {
                ||| e matches GrpcError::InvalidArgument(m) && !valid_uuid(user_uuid@) && m@
                    == "Invalid UUID"@
                ||| e matches GrpcError::InvalidArgument(m) && valid_uuid(user_uuid@)
                    && !valid_user_name(user_name@) && m@ == "User name cannot be empty"@
                ||| e matches GrpcError::InvalidArgument(m) && valid_uuid(user_uuid@)
                    && valid_user_name(user_name@) && !valid_user_email(user_email@) && (
                user_email@.len() == 0 ==> m@ == "User email cannot be empty"@) && (
                user_email@.len() > 0 ==> m@ == "Invalid email format"@)
                ||| e matches GrpcError::AlreadyExists(m) && uuid_of_str(user_uuid@) matches Some(
                    id,
                ) && valid_user_name(user_name@) && valid_user_email(user_email@) && old(
                    self,
                ).repository.repo_view().dom().contains(id) && m@
                    == "User with this UUID already exists"@
                ||| e matches GrpcError::Internal(m) && valid_uuid(user_uuid@) && valid_user_name(
                    user_name@,
                ) && valid_user_email(user_email@) && m@ == "Internal server error"@
            },
            !(valid_uuid(user_uuid@) && valid_user_name(user_name@) && valid_user_email(
                user_email@,
            )) ==> (r matches Err(e) && e is InvalidArgument),
    {
        let user_id = match validate_uuid(user_uuid) {
            Ok(v) => v,
            Err(e) => {
                return Err(e);
            },
        };
        match validate_user_name(user_name.as_str()) {
            Ok(_) => {},
            Err(e) => {
                return Err(e);
            },
        }
        match validate_user_email(user_email.as_str()) {
            Ok(_) => {},
            Err(e) => {
                return Err(e);
            },
        }
        match self.repository.get_user_id(user_id) {
            Ok(Some(_)) => {
                return Err(
                    GrpcError::AlreadyExists(
                        String::from_str("User with this UUID already exists"),
                    ),
                );
            },
            Ok(None) => {},
            Err(_) => {
                return Err(GrpcError::Internal(String::from_str("Internal server error")));
            },
        }
        let user = User::new(user_id, user_name, user_email);
        match self.repository.add_user(user) {
            Ok(_) => {},
            Err(_) => {
                return Err(GrpcError::Internal(String::from_str("Internal server error")));
            },
        }
        let message = String::from_str("User ").concat(user_uuid).concat(" added successfully");
        Ok(PutUserResponse { message })
    }

    /// The same create under the newer request name, with an empty
    /// response: the confirmation message is dropped.
    pub fn create_user(&mut self, uuid: &str, username: String, email: String) -> (r: Result<
        (),
        GrpcError,
    >)
        requires
            old(self).repository.inv(),
        ensures
            final(self).repository.inv(),
            r is Ok ==> (uuid_of_str(uuid@) matches Some(id) && valid_user_name(username@)
                && valid_user_email(email@) && !old(self).repository.repo_view().dom().contains(id)
                && final(self).repository.repo_view() == created(
                old(self).repository.repo_view(),
                id,
                username@,
                email@,
            )),
            r matches Err(e) ==> final(self).repository.repo_view() == old(
                self,
            ).repository.repo_view() && {
                ||| e matches GrpcError::InvalidArgument(m) && !valid_uuid(uuid@) && m@
                    == "Invalid UUID"@
                ||| e matches GrpcError::InvalidArgument(m) && valid_uuid(uuid@) && !valid_user_name(
                    username@,
                ) && m@ == "User name cannot be empty"@
                ||| e matches GrpcError::InvalidArgument(m) && valid_uuid(uuid@) && valid_user_name(
                    username@,
                ) && !valid_user_email(email@) && (email@.len() == 0 ==> m@
                    == "User email cannot be empty"@) && (email@.len() > 0 ==> m@
                    == "Invalid email format"@)
                ||| e matches GrpcError::AlreadyExists(m) && uuid_of_str(uuid@) matches Some(id)
                    && valid_user_name(username@) && valid_user_email(email@) && old(
                    self,
                ).repository.repo_view().dom().contains(id) && m@
                    == "User with this UUID already exists"@
                ||| e matches GrpcError::Internal(m) && valid_uuid(uuid@) && valid_user_name(
                    username@,
                ) && valid_user_email(email@) && m@ == "Internal server error"@
            },
            !(valid_uuid(uuid@) && valid_user_name(username@) && valid_user_email(email@)) ==> (
            r matches Err(e) && e is InvalidArgument),
    {
        match self.put_user_data(uuid, username, email) {
            Ok(_) => Ok(()),
            Err(e) => Err(e),
        }
    }

    /// Read by id: a malformed id is rejected, an absent record is
    /// `NotFound`, a present one is projected to name and email.
    pub fn get_user_data_by_id(&self, user_uuid: &str) -> (r: Result<
        GetUserByIdResponse,
        GrpcError,
    >)
        requires
            self.repository.inv(),
        ensures
            r matches Ok(resp) ==> uuid_of_str(user_uuid@) matches Some(id)
                && self.repository.repo_view().dom().contains(id) && resp.user_name@
                == self.repository.repo_view()[id].name && resp.user_email@
                == self.repository.repo_view()[id].email,
            r matches Err(e) ==> {
                ||| e matches GrpcError::InvalidArgument(m) && !valid_uuid(user_uuid@) && m@
                    == "Invalid UUID"@
                ||| e matches GrpcError::NotFound(m) && uuid_of_str(user_uuid@) matches Some(id)
                    && !self.repository.repo_view().dom().contains(id) && m@ == "User not found"@
                ||| e matches GrpcError::Internal(m) && valid_uuid(user_uuid@) && m@
                    == "Internal server error"@
            },
            !valid_uuid(user_uuid@) ==> (r matches Err(e) && e is InvalidArgument),
    {
        let user_id = match validate_uuid(user_uuid) {
            Ok(v) => v,
            Err(e) => {
                return Err(e);
            },
        };
        match self.repository.get_user(user_id) {
            Ok(Some(user)) => {
                let user_name = user.get_username().to_owned();
                let user_email = user.get_email().to_owned();
                Ok(GetUserByIdResponse { user_name, user_email })
            },
            Ok(None) => Err(GrpcError::NotFound(String::from_str("User not found"))),
            Err(_) => Err(GrpcError::Internal(String::from_str("Internal server error"))),
        }
    }

    /// Resolve a name to the id of a record bearing it: an empty name is
    /// rejected, an unknown one is `NotFound`.
    pub fn get_user_id_by_nickname(&self, user_name: &str) -> (r: Result<
        GetUserIdByNicknameResponse,
        GrpcError,
    >)
        requires
            self.repository.inv(),
        ensures
            r matches Ok(resp) ==> user_name@.len() > 0 && (exists|k: u128|
                self.repository.repo_view().dom().contains(k)
                    && (#[trigger] self.repository.repo_view()[k]).name == user_name@
                    && resp.user_uuid@ == uuid_str_of(k)),
            r matches Err(e) ==> {
                ||| e matches GrpcError::InvalidArgument(m) && user_name@.len() == 0 && m@
                    == "user_name cannot be empty"@
                ||| e matches GrpcError::NotFound(m) && user_name@.len() > 0 && (forall|k: u128|
                    self.repository.repo_view().dom().contains(k)
                        ==> (#[trigger] self.repository.repo_view()[k]).name != user_name@) && m@
                    == "User not found"@
                ||| e matches GrpcError::Internal(m) && user_name@.len() > 0 && m@
                    == "Internal server error"@
            },
            user_name@.len() == 0 ==> (r matches Err(e) && e is InvalidArgument),
    {
        if user_name.is_empty() {
            return Err(GrpcError::InvalidArgument(String::from_str("user_name cannot be empty")));
        }
        match self.repository.get_user_id_by_nickname(user_name) {
            Ok(Some(user_id)) => {
                Ok(GetUserIdByNicknameResponse { user_uuid: format_uuid(user_id) })
            },
            Ok(None) => Err(GrpcError::NotFound(String::from_str("User not found"))),
            Err(_) => Err(GrpcError::Internal(String::from_str("Internal server error"))),
        }
    }

    /// Resolve a name to an id under the older request name: the same
    /// lookup, with the name validated as a user name.
    pub fn get_user(&self, username: &str) -> (r: Result<GetUserResponse, GrpcError>)
        requires
            self.repository.inv(),
        ensures
            r matches Ok(resp) ==> username@.len() > 0 && (exists|k: u128|
                self.repository.repo_view().dom().contains(k)
                    && (#[trigger] self.repository.repo_view()[k]).name == username@
                    && resp.uuid@ == uuid_str_of(k)),
            r matches Err(e) ==> {
                ||| e matches GrpcError::InvalidArgument(m) && username@.len() == 0 && m@
                    == "User name cannot be empty"@
                ||| e matches GrpcError::NotFound(m) && username@.len() > 0 && (forall|k: u128|
                    self.repository.repo_view().dom().contains(k)
                        ==> (#[trigger] self.repository.repo_view()[k]).name != username@) && m@
                    == "User not found"@
                ||| e matches GrpcError::Internal(m) && username@.len() > 0 && m@
                    == "Internal server error"@
            },
            username@.len() == 0 ==> (r matches Err(e) && e is InvalidArgument),
    {
        match validate_user_name(username) {
            Ok(_) => {},
            Err(e) => {
                return Err(e);
            },
        }
        match self.repository.get_user_id_by_nickname(username) {
            Ok(Some(user_id)) => Ok(GetUserResponse { uuid: format_uuid(user_id) }),
            Ok(None) => Err(GrpcError::NotFound(String::from_str("User not found"))),
            Err(_) => Err(GrpcError::Internal(String::from_str("Internal server error"))),
        }
    }

    /// Partial update: fetch the record, replace whichever of name and
    /// email is non-empty and different (validating the new value), and
    /// persist only when something changed.
    pub fn update_user_data(&mut self, user_uuid: &str, user_name: String, user_email: String) -> (r:
        Result<UpdateUserResponse, GrpcError>)
        requires
            old(self).repository.inv(),
        ensures
            final(self).repository.inv(),
            r matches Ok(resp) ==> (uuid_of_str(user_uuid@) matches Some(id) && old(
                self,
            ).repository.repo_view().dom().contains(id) && {
                let cur = old(self).repository.repo_view()[id];
                (user_email@.len() > 0 && user_email@ != cur.email ==> valid_user_email(
                    user_email@,
                )) && if update_changes(cur, user_name@, user_email@) {
                    final(self).repository.repo_view() == old(self).repository.repo_view().insert(
                        id,
                        apply_update(cur, user_name@, user_email@),
                    ) && resp.message@ == updated_message(user_uuid@)
                } else {
                    final(self).repository.repo_view() == old(self).repository.repo_view()
                        && resp.message@ == no_changes_message(user_uuid@)
                }
            }),
            r matches Err(e) ==> final(self).repository.repo_view() == old(
                self,
            ).repository.repo_view() && {
                ||| e matches GrpcError::InvalidArgument(m) && !valid_uuid(user_uuid@) && m@
                    == "Invalid UUID"@
                ||| e matches GrpcError::NotFound(m) && uuid_of_str(user_uuid@) matches Some(id)
                    && !old(self).repository.repo_view().dom().contains(id) && m@
                    == "User not found"@
                ||| e matches GrpcError::InvalidArgument(m) && uuid_of_str(user_uuid@) matches Some(
                    id,
                ) && old(self).repository.repo_view().dom().contains(id) && user_email@.len() > 0
                    && user_email@ != old(self).repository.repo_view()[id].email
                    && !valid_user_email(user_email@) && m@ == "Invalid email format"@
                ||| e matches GrpcError::Internal(m) && valid_uuid(user_uuid@) && m@
                    == "Internal server error"@
            },
            !valid_uuid(user_uuid@) ==> (r matches Err(e) && e is InvalidArgument),
    {
        let user_id = match validate_uuid(user_uuid) {
            Ok(v) => v,
            Err(e) => {
                return Err(e);
            },
        };
        let fetched = match self.repository.get_user(user_id) {
            Ok(o) => o,
            Err(_) => {
                return Err(GrpcError::Internal(String::from_str("Internal server error")));
            },
        };
        let current = match fetched {
            Some(u) => u,
            None => {
                return Err(GrpcError::NotFound(String::from_str("User not found")));
            },
        };
        proof {
            self.repository.inv_implies_wf();
        }
        let (user, updated) = match revise_user(current, user_name, user_email) {
            Ok(p) => p,
            Err(e) => {
                return Err(e);
            },
        };
        if updated {
            match self.repository.update_user_by_id(user_id, user) {
                Ok(_) => {},
                Err(_) => {
                    return Err(GrpcError::Internal(String::from_str("Internal server error")));
                },
            }
            let message = String::from_str("User ").concat(user_uuid).concat(
                " updated successfully",
            );
            Ok(UpdateUserResponse { message })
        } else {
            let message = String::from_str("No changes detected for user ").concat(user_uuid);
            Ok(UpdateUserResponse { message })
        }
    }

    /// Project every record to the wire shape; no validation.
    pub fn get_all_users(&self) -> (r: Result<GetAllUsersResponse, GrpcError>)
        requires
            self.repository.inv(),
        ensures
            r matches Ok(resp) ==> lists_directory(self.repository.repo_view(), resp.users@),
            r matches Err(e) ==> e matches GrpcError::Internal(m) && m@
                == "Internal server error"@,
    {
        let users = match self.repository.get_all_users() {
            Ok(v) => v,
            Err(_) => {
                return Err(GrpcError::Internal(String::from_str("Internal server error")));
            },
        };
        proof {
            self.repository.inv_implies_wf();
        }
        let mut entries: Vec<UserEntry> = Vec::new();
        let n = users.len();
        let mut i: usize = 0;
        while i < n
            invariant
                n == users@.len(),
                i <= n,
                entries@.len() == i,
                self.repository.inv(),
                users@.len() == self.repository.repo_view().dom().len(),
                forall|j: int|
                    0 <= j < users@.len() ==> self.repository.repo_view().contains_pair(
                        (#[trigger] users@[j])@.id,
                        users@[j]@,
                    ),
                forall|j: int, l: int|
                    0 <= j < l < users@.len() ==> (#[trigger] users@[j])@.id
                        != (#[trigger] users@[l])@.id,
                forall|j: int|
                    0 <= j < i ==> (#[trigger] entries@[j]).user_uuid@ == uuid_str_of(users@[j]@.id)
                        && entries@[j].user_name@ == users@[j]@.name && entries@[j].user_email@
                        == users@[j]@.email,
            decreases n - i,
        {
            let user_uuid = format_uuid(users[i].get_id());
            let user_name = users[i].get_username().to_owned();
            let user_email = users[i].get_email().to_owned();
            entries.push(UserEntry { user_uuid, user_name, user_email });
            i += 1;
        }
        let response = GetAllUsersResponse { users: entries };
        proof {
            let ids = Seq::new(users@.len() as nat, |j: int| users@[j]@.id);
            assert forall|j: int| 0 <= j < ids.len() implies self.repository.repo_view(
            ).dom().contains(#[trigger] ids[j]) by {
                assert(self.repository.repo_view().contains_pair(users@[j]@.id, users@[j]@));
            }
            assert forall|j: int|
                0 <= j < ids.len() implies (#[trigger] response.users@[j]).user_uuid@
                == uuid_str_of(ids[j]) && response.users@[j].user_name@ == self.repository.repo_view()[ids[j]].name
                && response.users@[j].user_email@ == self.repository.repo_view()[ids[j]].email by {
                assert(self.repository.repo_view().contains_pair(users@[j]@.id, users@[j]@));
            }
            assert(listing_of(self.repository.repo_view(), response.users@, ids));
            assert(lists_directory(self.repository.repo_view(), response.users@));
        }
        Ok(response)
    }

    /// Read by id under the older request name; same behaviour.
    pub fn get_user_data(&self, user_uuid: &str) -> (r: Result<GetUserByIdResponse, GrpcError>)
        requires
            self.repository.inv(),
        ensures
            r matches Ok(resp) ==> uuid_of_str(user_uuid@) matches Some(id)
                && self.repository.repo_view().dom().contains(id) && resp.user_name@
                == self.repository.repo_view()[id].name && resp.user_email@
                == self.repository.repo_view()[id].email,
            r matches Err(e) ==> {
                ||| e matches GrpcError::InvalidArgument(m) && !valid_uuid(user_uuid@) && m@
                    == "Invalid UUID"@
                ||| e matches GrpcError::NotFound(m) && uuid_of_str(user_uuid@) matches Some(id)
                    && !self.repository.repo_view().dom().contains(id) && m@ == "User not found"@
                ||| e matches GrpcError::Internal(m) && valid_uuid(user_uuid@) && m@
                    == "Internal server error"@
            },
            !valid_uuid(user_uuid@) ==> (r matches Err(e) && e is InvalidArgument),
    {
        self.get_user_data_by_id(user_uuid)
    }
}

impl Default for UserServiceCore<InternalRepository> {
    /// A service over a fresh in-memory engine.
    fn default() -> (s: Self)
        ensures
            s.repository.inv(),
            s.repository.repo_view() == empty_directory(),
    {
        UserServiceCore { repository: InternalRepository::new() }
    }
}

} // verus!
