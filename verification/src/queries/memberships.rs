//! What the store answers on memberships, read into the library's values.
//!
//! The statements themselves are made by the caller; a row comes in with
//! every column that may be missing as an option.

use vstd::prelude::*;
use vstd::string::*;
use crate::config::{local_host_spec, ServerConfig};
use crate::error::{ApiError, ApiResult};
use crate::types::{Timestamp, Uuid};
use crate::types::server::{Server, ServerMember, ServerMembership, ServerRole};
use crate::types::user::{user_ref_of, User, UserRef};

verus! {

/// A row that joins a member with its user.
#[derive(Debug, PartialEq, Eq)]
pub struct ServerMemberRow {
    pub user: Option<User>,
    pub role: ServerRole,
    pub created_at: Timestamp,
    pub updated_at: Timestamp,
}

impl Clone for ServerMemberRow {
    fn clone(&self) -> (r: Self)
        ensures
            r == *self,
    {
        ServerMemberRow {
            user: self.user.clone(),
            role: self.role,
            created_at: self.created_at,
            updated_at: self.updated_at,
        }
    }
}

/// A row that joins a membership, native or mirrored, with its server.
#[derive(Debug, PartialEq, Eq)]
pub struct ServerMembershipRow {
    pub server_id: Option<Uuid>,
    pub server_title: Option<String>,
    pub server_description: Option<String>,
    /// The host of the server, for a mirrored membership only.
    pub server_host_from_db: Option<String>,
    pub server_created_at: Option<Timestamp>,
    pub server_updated_at: Option<Timestamp>,
    pub user_name: Option<String>,
    pub user_host: Option<String>,
    pub role: Option<ServerRole>,
    pub created_at: Option<Timestamp>,
    pub updated_at: Option<Timestamp>,
    pub synced_at: Option<Timestamp>,
}

impl Clone for ServerMembershipRow {
    fn clone(&self) -> (r: Self)
        ensures
            r == *self,
    {
        ServerMembershipRow {
            server_id: self.server_id,
            server_title: self.server_title.clone(),
            server_description: self.server_description.clone(),
            server_host_from_db: self.server_host_from_db.clone(),
            server_created_at: self.server_created_at,
            server_updated_at: self.server_updated_at,
            user_name: self.user_name.clone(),
            user_host: self.user_host.clone(),
            role: self.role,
            created_at: self.created_at,
            updated_at: self.updated_at,
            synced_at: self.synced_at,
        }
    }
}

/// Whether the row holds every column that a membership needs.
pub open spec fn is_complete_row(row: ServerMembershipRow) -> bool {
    &&& row.server_id.is_some()
    &&& row.server_title.is_some()
    &&& row.server_created_at.is_some()
    &&& row.server_updated_at.is_some()
    &&& row.user_name.is_some()
    &&& row.user_host.is_some()
    &&& row.role.is_some()
    &&& row.created_at.is_some()
    &&& row.updated_at.is_some()
}

/// Whether `m` is the membership that the complete row `row` holds, where
/// the local host is `local_host`.
pub open spec fn is_membership_of_row(
    m: ServerMembership,
    row: ServerMembershipRow,
    local_host: Seq<char>,
) -> bool {
    &&& m.server.id == row.server_id.unwrap()
    &&& m.server.title == row.server_title.unwrap()
    &&& m.server.description == row.server_description
    &&& m.server.host@ == (match row.server_host_from_db {
        Some(h) => h@,
        None => local_host,
    })
    &&& m.server.created_at == row.server_created_at.unwrap()
    &&& m.server.updated_at == row.server_updated_at.unwrap()
    &&& m.user_ref.name == row.user_name.unwrap()
    &&& m.user_ref.host == row.user_host.unwrap()
    &&& m.role == row.role.unwrap()
    &&& m.joined_at == row.created_at.unwrap()
    &&& m.updated_at == row.updated_at.unwrap()
    &&& m.synced_at == row.synced_at
}

impl ServerMember {
    /// The member that a row holds. A row without a user is refused.
    pub fn try_from(row: ServerMemberRow) -> (r: ApiResult<ServerMember>)
        ensures
            match row.user {
                Some(user) => r == Ok::<ServerMember, ApiError>(
                    ServerMember {
                        user,
                        role: row.role,
                        joined_at: row.created_at,
                        updated_at: row.updated_at,
                    },
                ),
                None => r matches Err(ApiError::Unknown(m)) && m@ == "User is null"@,
            },
    {
        match row.user {
            Some(user) => Ok(
                ServerMember {
                    user,
                    role: row.role,
                    joined_at: row.created_at,
                    updated_at: row.updated_at,
                },
            ),
            None => Err(ApiError::Unknown(String::from_str("User is null"))),
        }
    }
}

impl ServerMembershipRow {
    /// The membership that the row holds. The server of a native membership
    /// is on the local host. A row that lacks a column is refused.
    pub fn try_into_server_membership(self, config: &ServerConfig) -> (r: ApiResult<
        ServerMembership,
    >)
        ensures
            if is_complete_row(self) {
                r matches Ok(m) && is_membership_of_row(
                    m,
                    self,
                    local_host_spec(config.local_host_raw@, config.port),
                )
            } else {
                r matches Err(ApiError::Unknown(m)) && m@ == "Sqlx conversion error"@
            },
    {
        let server_host = match self.server_host_from_db {
            Some(h) => h,
            None => config.local_host(),
        };
        match (
            self.server_id,
            self.server_title,
            self.server_created_at,
            self.server_updated_at,
            self.user_name,
            self.user_host,
            self.role,
            self.created_at,
            self.updated_at,
        ) {
            (
                Some(id),
                Some(title),
                Some(server_created_at),
                Some(server_updated_at),
                Some(user_name),
                Some(user_host),
                Some(role),
                Some(joined_at),
                Some(updated_at),
            ) => Ok(
                ServerMembership {
                    server: Server {
                        id,
                        title,
                        description: self.server_description,
                        host: server_host,
                        created_at: server_created_at,
                        updated_at: server_updated_at,
                    },
                    user_ref: UserRef::new(user_name, user_host),
                    role,
                    joined_at,
                    updated_at,
                    synced_at: self.synced_at,
                },
            ),
            _ => Err(ApiError::Unknown(String::from_str("Sqlx conversion error"))),
        }
    }
}

/// The member that `row` holds, where it holds a user.
pub open spec fn member_of_row(row: ServerMemberRow) -> ServerMember {
    ServerMember {
        user: row.user.unwrap(),
        role: row.role,
        joined_at: row.created_at,
        updated_at: row.updated_at,
    }
}

/// The members that the rows hold, in order; a row without a user refuses all.
pub fn get_members_by_server(rows: &Vec<ServerMemberRow>) -> (r: ApiResult<Vec<ServerMember>>)
    ensures
        match r {
            Ok(members) => {
                &&& members@.len() == rows@.len()
                &&& forall|i: int|
                    0 <= i < rows@.len() ==> rows@[i].user.is_some() && #[trigger] members@[i]
                        == member_of_row(rows@[i])
            },
            Err(e) => {
                &&& exists|i: int| 0 <= i < rows@.len() && rows@[i].user.is_none()
                &&& e matches ApiError::Unknown(m) && m@ == "User is null"@
            },
        },
{
    let mut members: Vec<ServerMember> = Vec::new();
    let mut i: usize = 0;
    while i < rows.len()
        invariant
            i <= rows.len(),
            members@.len() == i,
            forall|k: int|
                0 <= k < i ==> rows@[k].user.is_some() && #[trigger] members@[k] == member_of_row(
                    rows@[k],
                ),
        decreases rows.len() - i,
    {
        match ServerMember::try_from(rows[i].clone()) {
            Ok(member) => {
                members.push(member);
            },
            Err(e) => {
                return Err(e);
            },
        }
        i = i + 1;
    }
    Ok(members)
}

/// The memberships of one user that the rows hold, native and mirrored, in
/// order; a row that lacks a column refuses all.
pub fn get_by_user(rows: &Vec<ServerMembershipRow>, config: &ServerConfig) -> (r: ApiResult<
    Vec<ServerMembership>,
>)
    ensures
        match r {
            Ok(memberships) => {
                &&& memberships@.len() == rows@.len()
                &&& forall|i: int| 0 <= i < rows@.len() ==> is_complete_row(#[trigger] rows@[i])
                &&& forall|i: int|
                    0 <= i < rows@.len() ==> is_membership_of_row(
                        #[trigger] memberships@[i],
                        rows@[i],
                        local_host_spec(config.local_host_raw@, config.port),
                    )
            },
            Err(e) => {
                &&& exists|i: int| 0 <= i < rows@.len() && !is_complete_row(rows@[i])
                &&& e matches ApiError::Unknown(m) && m@ == "Sqlx conversion error"@
            },
        },
{
    let mut memberships: Vec<ServerMembership> = Vec::new();
    let mut i: usize = 0;
    while i < rows.len()
        invariant
            i <= rows.len(),
            memberships@.len() == i,
            forall|k: int| 0 <= k < i ==> is_complete_row(#[trigger] rows@[k]),
            forall|k: int|
                0 <= k < i ==> is_membership_of_row(
                    #[trigger] memberships@[k],
                    rows@[k],
                    local_host_spec(config.local_host_raw@, config.port),
                ),
        decreases rows.len() - i,
    {
        match rows[i].clone().try_into_server_membership(config) {
            Ok(membership) => {
                memberships.push(membership);
            },
            Err(e) => {
                return Err(e);
            },
        }
        i = i + 1;
    }
    Ok(memberships)
}

/// The references of `members`, in order.
pub fn get_local_user_refs_by_server(members: &Vec<ServerMember>) -> (r: Vec<UserRef>)
    ensures
        r@.len() == members@.len(),
        forall|i: int| 0 <= i < members@.len() ==> #[trigger] r@[i] == user_ref_of(members@[i].user),
{
    let mut refs: Vec<UserRef> = Vec::new();
    let mut i: usize = 0;
    while i < members.len()
        invariant
            i <= members.len(),
            refs@.len() == i,
            forall|k: int| 0 <= k < i ==> #[trigger] refs@[k] == user_ref_of(members@[k].user),
        decreases members.len() - i,
    {
        refs.push(members[i].user.as_ref());
        i = i + 1;
    }
    refs
}

/// The member of a server, from the local memberships or else from the
/// mirrored ones: the mirror is asked only where the local store has none.
pub fn get_member_by_user_and_server(
    local: ApiResult<ServerMember>,
    mirrored: Option<ApiResult<ServerMember>>,
) -> (r: Option<ApiResult<ServerMember>>)
    ensures
        r == (match local {
            Ok(member) => Some(Ok::<ServerMember, ApiError>(member)),
            Err(_) => mirrored,
        }),
{
    match local {
        Ok(member) => Some(Ok(member)),
        Err(_) => mirrored,
    }
}

/// Checks that a deletion took a row away: a deletion of nothing is refused
/// as not found.
pub fn check_deleted(rows_affected: u64) -> (r: ApiResult<()>)
    ensures
        rows_affected > 0 ==> r.is_ok(),
        rows_affected == 0 ==> r == Err::<(), ApiError>(ApiError::NotFound),
{
    if rows_affected == 0 {
        return Err(ApiError::NotFound);
    }
    Ok(())
}

/// Checks a deletion of a native membership.
pub fn delete_local(rows_affected: u64) -> (r: ApiResult<()>)
    ensures
        rows_affected > 0 ==> r.is_ok(),
        rows_affected == 0 ==> r == Err::<(), ApiError>(ApiError::NotFound),
{
    check_deleted(rows_affected)
}

/// Checks a deletion of a mirrored membership.
pub fn delete_remote(rows_affected: u64) -> (r: ApiResult<()>)
    ensures
        rows_affected > 0 ==> r.is_ok(),
        rows_affected == 0 ==> r == Err::<(), ApiError>(ApiError::NotFound),
{
    check_deleted(rows_affected)
}

} // verus!
