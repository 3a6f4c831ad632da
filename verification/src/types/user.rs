//! Users and the reference that names a user across hosts.

use vstd::prelude::*;
use vstd::string::*;
use vstd::std_specs::cmp::PartialEqSpecImpl;
use vstd::std_specs::convert::FromSpecImpl;
use crate::text::{chars_of, find_char, is_first_index_of, str_eq};
use crate::types::Timestamp;

use crate::util::{pad_host_spec, same_host};

verus! {

/// The role of a user on its home host.
#[derive(Clone, Copy, Debug, PartialEq, Eq, Structural)]
pub enum UserRole {
    User,
    Admin,
}

/// The stable identity of a user across hosts: a name on a host.
#[derive(Debug, Eq, Hash)]
pub struct UserRef {
    pub name: String,
    pub host: String,
}

/// A user as a host stores it.
#[derive(Debug, PartialEq, Eq)]
pub struct User {
    pub name: String,
    pub host: String,
    pub role: UserRole,
    pub created_at: Timestamp,
    pub updated_at: Timestamp,
    pub synced_at: Option<Timestamp>,
}

/// What is needed to create a user.
#[derive(Debug, PartialEq, Eq)]
pub struct NewUser {
    pub name: String,
    pub host: String,
    pub role: UserRole,
}

impl View for UserRef {
    type V = (Seq<char>, Seq<char>);

    open spec fn view(&self) -> (Seq<char>, Seq<char>) {
        (self.name@, self.host@)
    }
}

impl Clone for UserRef {
    fn clone(&self) -> (r: Self)
        ensures
            r == *self,
    {
        UserRef { name: self.name.clone(), host: self.host.clone() }
    }
}

impl PartialEq for UserRef {
    fn eq(&self, other: &Self) -> (r: bool) {
        self.name == other.name && self.host == other.host
    }
}

impl PartialEqSpecImpl for UserRef {
    open spec fn obeys_eq_spec() -> bool {
        true
    }

    open spec fn eq_spec(&self, other: &Self) -> bool {
        self@ == other@
    }
}

impl Clone for User {
    fn clone(&self) -> (r: Self)
        ensures
            r == *self,
    {
        User {
            name: self.name.clone(),
            host: self.host.clone(),
            role: self.role,
            created_at: self.created_at,
            updated_at: self.updated_at,
            synced_at: self.synced_at,
        }
    }
}

impl Clone for NewUser {
    fn clone(&self) -> (r: Self)
        ensures
            r == *self,
    {
        NewUser { name: self.name.clone(), host: self.host.clone(), role: self.role }
    }
}

/// The subject text `name@host`.
pub open spec fn subject_spec(name: Seq<char>, host: Seq<char>) -> Seq<char> {
    name + seq!['@'] + host
}

/// The reference that a subject names: split at its first `@`.
pub open spec fn parse_subject_spec(subject: Seq<char>) -> Option<(Seq<char>, Seq<char>)> {
    if exists|c: int| is_first_index_of(subject, '@', c) {
        let c = choose|c: int| is_first_index_of(subject, '@', c);
        Some((subject.subrange(0, c), subject.subrange(c + 1, subject.len() as int)))
    } else {
        None
    }
}

impl UserRef {
    pub fn new(name: String, host: String) -> (r: Self)
        ensures
            r.name == name,
            r.host == host,
    {
        UserRef { name, host }
    }

    /// The subject form `name@host`.
    pub fn as_subject(&self) -> (r: String)
        ensures
            r@ == subject_spec(self.name@, self.host@),
    {
        proof {
            reveal_strlit("@");
        }
        self.name.clone().concat("@").concat(self.host.as_str())
    }

    /// Reads a subject of the form `name@host`; `None` where it holds no `@`.
    pub fn parse_subject(subject: &str) -> (r: Option<Self>)
        ensures
            match r {
                Some(u) => parse_subject_spec(subject@) == Some(u@),
                None => parse_subject_spec(subject@).is_none(),
            },
    {
        let v = chars_of(subject);
        match find_char(&v, '@') {
            Some(c) => {
                assert(c < v.len());
                let name = String::from_str(subject.substring_char(0, c));
                let host = String::from_str(subject.substring_char(c + 1, v.len()));
                Some(UserRef { name, host })
            },
            None => {
                None
            },
        }
    }

    /// Whether this reference names a user of `host`: the padded forms of
    /// the two hosts are equal.
    pub fn is_on_host(&self, host: &str) -> (r: bool)
        ensures
            r == (pad_host_spec(self.host@) == pad_host_spec(host@)),
    {
        same_host(self.host.as_str(), host)
    }
}

/// The reference that names `user`.
pub open spec fn user_ref_of(user: User) -> UserRef {
    UserRef { name: user.name, host: user.host }
}

impl User {
    /// The reference that names this user.
    pub fn as_ref(&self) -> (r: UserRef)
        ensures
            r == user_ref_of(*self),
    {
        UserRef { name: self.name.clone(), host: self.host.clone() }
    }
}

impl From<User> for UserRef {
    fn from(user: User) -> (r: Self) {
        UserRef { name: user.name, host: user.host }
    }
}

impl FromSpecImpl<User> for UserRef {
    open spec fn obeys_from_spec() -> bool {
        true
    }

    open spec fn from_spec(user: User) -> Self {
        user_ref_of(user)
    }
}

/// A subject written from a reference reads back as that reference, where
/// the name holds no `@`.
pub proof fn lemma_subject_round_trip(name: Seq<char>, host: Seq<char>)
    requires
        !name.contains('@'),
    ensures
        parse_subject_spec(subject_spec(name, host)) == Some((name, host)),
{
    let s = subject_spec(name, host);
    let c = name.len() as int;
    assert(is_first_index_of(s, '@', c));
}

/// Whether the two references name the same user: the same name on the
/// same host. Two hosts are the same where their padded forms are equal.
pub open spec fn same_user_spec(a: (Seq<char>, Seq<char>), b: (Seq<char>, Seq<char>)) -> bool {
    a.0 == b.0 && pad_host_spec(a.1) == pad_host_spec(b.1)
}

impl UserRef {
    /// Whether this reference and `other` name the same user.
    pub fn same_user(&self, other: &UserRef) -> (r: bool)
        ensures
            r == same_user_spec(self@, other@),
    {
        str_eq(self.name.as_str(), other.name.as_str()) && same_host(
            self.host.as_str(),
            other.host.as_str(),
        )
    }
}

} // verus!
