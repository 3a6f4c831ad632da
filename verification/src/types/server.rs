//! Servers (guilds) and the memberships of users in them.

use vstd::prelude::*;
use vstd::string::*;
use vstd::std_specs::convert::FromSpecImpl;
use crate::text::{uuid_text, uuid_to_string};
use crate::types::{Timestamp, Uuid};
use crate::types::channel::Channel;
use crate::types::user::{user_ref_of, User, UserRef};

verus! {

/// A server. `host` is its home host; on any other host it is a cached mirror.
#[derive(Debug, PartialEq, Eq)]
pub struct Server {
    pub id: Uuid,
    pub host: String,
    pub title: String,
    pub description: Option<String>,
    pub created_at: Timestamp,
    pub updated_at: Timestamp,
}

/// What is needed to create a server.
#[derive(Debug, PartialEq, Eq)]
pub struct NewServer {
    pub title: String,
    pub description: Option<String>,
}

/// A server together with its channels.
#[derive(Clone, Debug, PartialEq, Eq)]
pub struct ServerWithChannels {
    pub server: Server,
    pub channels: Vec<Channel>,
}

/// The role of a member in a server.
#[derive(Clone, Copy, Debug, PartialEq, Eq, Structural)]
pub enum ServerRole {
    Member,
    Admin,
}

/// A membership, naming the user by reference. `synced_at` is `None` for a
/// native row and `Some` for a row that mirrors a membership kept on
/// another host.
#[derive(Debug, PartialEq, Eq)]
pub struct ServerMembership {
    pub server: Server,
    pub user_ref: UserRef,
    pub role: ServerRole,
    pub joined_at: Timestamp,
    pub updated_at: Timestamp,
    pub synced_at: Option<Timestamp>,
}

/// A membership that carries the whole user.
#[derive(Debug, PartialEq, Eq)]
pub struct FullServerMembership {
    pub server: Server,
    pub user: User,
    pub role: ServerRole,
    pub joined_at: Timestamp,
    pub updated_at: Timestamp,
    pub synced_at: Option<Timestamp>,
}

/// A member as seen from its server.
#[derive(Debug, PartialEq, Eq)]
pub struct ServerMember {
    pub user: User,
    pub role: ServerRole,
    pub joined_at: Timestamp,
    pub updated_at: Timestamp,
}

/// What is needed to create a membership.
#[derive(Debug, PartialEq, Eq)]
pub struct NewServerMembership {
    pub user_ref: UserRef,
    pub server_id: Uuid,
    pub server_host: String,
    pub role: ServerRole,
}

impl Clone for Server {
    fn clone(&self) -> (r: Self)
        ensures
            r == *self,
    {
        Server {
            id: self.id,
            host: self.host.clone(),
            title: self.title.clone(),
            description: self.description.clone(),
            created_at: self.created_at,
            updated_at: self.updated_at,
        }
    }
}

impl Clone for NewServer {
    fn clone(&self) -> (r: Self)
        ensures
            r == *self,
    {
        NewServer { title: self.title.clone(), description: self.description.clone() }
    }
}

impl Clone for ServerMembership {
    fn clone(&self) -> (r: Self)
        ensures
            r == *self,
    {
        ServerMembership {
            server: self.server.clone(),
            user_ref: self.user_ref.clone(),
            role: self.role,
            joined_at: self.joined_at,
            updated_at: self.updated_at,
            synced_at: self.synced_at,
        }
    }
}

impl Clone for FullServerMembership {
    fn clone(&self) -> (r: Self)
        ensures
            r == *self,
    {
        FullServerMembership {
            server: self.server.clone(),
            user: self.user.clone(),
            role: self.role,
            joined_at: self.joined_at,
            updated_at: self.updated_at,
            synced_at: self.synced_at,
        }
    }
}

impl Clone for ServerMember {
    fn clone(&self) -> (r: Self)
        ensures
            r == *self,
    {
        ServerMember {
            user: self.user.clone(),
            role: self.role,
            joined_at: self.joined_at,
            updated_at: self.updated_at,
        }
    }
}

impl Clone for NewServerMembership {
    fn clone(&self) -> (r: Self)
        ensures
            r == *self,
    {
        NewServerMembership {
            user_ref: self.user_ref.clone(),
            server_id: self.server_id,
            server_host: self.server_host.clone(),
            role: self.role,
        }
    }
}

/// The one-line form of a server: its title, then ` - ` and the description
/// where it has one.
pub open spec fn server_line_spec(s: Server) -> Seq<char> {
    match s.description {
        Some(d) => s.title@ + " - "@ + d@,
        None => s.title@,
    }
}

impl Server {
    /// The one-line form of this server.
    pub fn to_string(&self) -> (r: String)
        ensures
            r@ == server_line_spec(*self),
    {
        match &self.description {
            Some(d) => self.title.clone().concat(" - ").concat(d.as_str()),
            None => self.title.clone(),
        }
    }

    /// The title of this server, with its identifier in brackets.
    pub fn verbose(&self) -> (r: String)
        ensures
            r@ == self.title@ + " ("@ + uuid_text(self.id) + ")"@,
    {
        self.title.clone().concat(" (").concat(uuid_to_string(self.id).as_str()).concat(")")
    }
}

/// The full membership that `m` and `user` make.
pub open spec fn full_membership_of(m: ServerMembership, user: User) -> FullServerMembership {
    FullServerMembership {
        server: m.server,
        user: user,
        role: m.role,
        joined_at: m.joined_at,
        updated_at: m.updated_at,
        synced_at: m.synced_at,
    }
}

/// The membership by reference that `full` describes.
pub open spec fn membership_of(full: FullServerMembership) -> ServerMembership {
    ServerMembership {
        server: full.server,
        user_ref: user_ref_of(full.user),
        role: full.role,
        joined_at: full.joined_at,
        updated_at: full.updated_at,
        synced_at: full.synced_at,
    }
}

/// The member that `full` describes.
pub open spec fn member_of(full: FullServerMembership) -> ServerMember {
    ServerMember {
        user: full.user,
        role: full.role,
        joined_at: full.joined_at,
        updated_at: full.updated_at,
    }
}

impl ServerMembership {
    /// This membership with the whole user in place of the reference.
    pub fn as_full(self, user: User) -> (r: FullServerMembership)
        ensures
            r == full_membership_of(self, user),
    {
        FullServerMembership {
            server: self.server,
            user,
            role: self.role,
            joined_at: self.joined_at,
            updated_at: self.updated_at,
            synced_at: self.synced_at,
        }
    }
}

impl From<FullServerMembership> for ServerMembership {
    fn from(full_membership: FullServerMembership) -> (r: Self) {
        let user_ref = full_membership.user.as_ref();
        ServerMembership {
            server: full_membership.server,
            user_ref,
            role: full_membership.role,
            joined_at: full_membership.joined_at,
            updated_at: full_membership.updated_at,
            synced_at: full_membership.synced_at,
        }
    }
}

impl FromSpecImpl<FullServerMembership> for ServerMembership {
    open spec fn obeys_from_spec() -> bool {
        true
    }

    open spec fn from_spec(full_membership: FullServerMembership) -> Self {
        membership_of(full_membership)
    }
}

impl From<FullServerMembership> for ServerMember {
    fn from(full_membership: FullServerMembership) -> (r: Self) {
        ServerMember {
            user: full_membership.user,
            role: full_membership.role,
            joined_at: full_membership.joined_at,
            updated_at: full_membership.updated_at,
        }
    }
}

impl FromSpecImpl<FullServerMembership> for ServerMember {
    open spec fn obeys_from_spec() -> bool {
        true
    }

    open spec fn from_spec(full_membership: FullServerMembership) -> Self {
        member_of(full_membership)
    }
}

/// A membership made full with a user and then brought back keeps every
/// field but the reference, which is the one that the user gives.
pub proof fn lemma_membership_round_trip(m: ServerMembership, user: User)
    ensures
        membership_of(full_membership_of(m, user)) == (ServerMembership {
            user_ref: user_ref_of(user),
            ..m
        }),
{
}

} // verus!
