//! The user entity: a record of id, name and email. The id is a 128-bit
//! value (the numeric form of a UUID) and never changes after creation;
//! name and email may be replaced.

use vstd::prelude::*;

verus! {

/// Mathematical image of a user record: the id as an integer, the two
/// text fields as character sequences.
#[verifier::ext_equal]
pub struct UserView {
    pub id: u128,
    pub name: Seq<char>,
    pub email: Seq<char>,
}

/// A stored user record. Identity is `id`; equality of records is
/// structural over the view.
#[derive(Clone, Debug)]
pub struct User {
    id: u128,
    username: String,
    email: String,
}

impl View for User {
    type V = UserView;

    closed spec fn view(&self) -> UserView {
        UserView { id: self.id, name: self.username@, email: self.email@ }
    }
}

impl User {
    pub fn new(id: u128, username: String, email: String) -> (u: User)
        ensures
            u@ == (UserView { id, name: username@, email: email@ }),
    {
        User { id, username, email }
    }

    pub fn get_id(&self) -> (r: u128)
        ensures
            r == self@.id,
    {
        self.id
    }

    pub fn get_username(&self) -> (r: &str)
        ensures
            r@ == self@.name,
    {
        self.username.as_str()
    }

    pub fn get_email(&self) -> (r: &str)
        ensures
            r@ == self@.email,
    {
        self.email.as_str()
    }

    pub fn set_username(&mut self, username: String)
        ensures
            final(self)@ == (UserView { name: username@, ..old(self)@ }),
    {
        self.username = username;
    }

    pub fn set_email(&mut self, email: String)
        ensures
            final(self)@ == (UserView { email: email@, ..old(self)@ }),
    {
        self.email = email;
    }

    pub fn set_id(&mut self, id: u128)
        ensures
            final(self)@ == (UserView { id, ..old(self)@ }),
    {
        self.id = id;
    }
}

} // verus!
