//! Choosing from a list, and what is on offer.

use vstd::prelude::*;
use vstd::string::*;
use crate::types::Uuid;
use crate::types::server::Server;

verus! {

/// Which servers are on offer.
#[derive(Clone, Debug)]
pub enum ServerSelectionType<'a> {
    /// The servers that the user is a member of.
    MemberOnly,
    /// All servers of a host.
    All { host: &'a str },
    /// The servers of a host that the user is no member of.
    NonMemberOnly { host: &'a str },
}

/// A channel that was chosen, with where it lives.
#[derive(Clone, Debug, PartialEq, Eq)]
pub struct ChannelSelection {
    pub host: String,
    pub server_id: Uuid,
    pub channel_id: Uuid,
}

/// A key that moves the choice in a list.
#[derive(Clone, Copy, Debug, PartialEq, Eq, Structural)]
pub enum Movement {
    Up,
    Down,
    First,
    Last,
}

/// What is still to be chosen, given what the command line named.
#[derive(Clone, Copy, Debug, PartialEq, Eq, Structural)]
pub enum SelectionPlan {
    /// Nothing: server and channel were named.
    Done { server_id: Uuid, channel_id: Uuid },
    /// A channel was named without its server: the command is refused.
    MissingServer,
    /// The channel, among those of this server.
    Channel { server_id: Uuid },
    /// The server, among those of the user, and then the channel.
    ServerAndChannel,
}

/// Where the choice is after `movement`, in a list of `len` items: it stays
/// within the list and does not wrap.
pub open spec fn moved(selected: usize, len: usize, movement: Movement) -> usize {
    match movement {
        Movement::Up => if selected == 0 {
            0
        } else {
            (selected - 1) as usize
        },
        Movement::Down => if selected == len - 1 {
            (len - 1) as usize
        } else {
            (selected + 1) as usize
        },
        Movement::First => 0,
        Movement::Last => (len - 1) as usize,
    }
}

/// Moves the choice in a list of `len` items.
pub fn move_selection(selected: usize, len: usize, movement: Movement) -> (r: usize)
    requires
        0 < len,
        selected < len,
    ensures
        r == moved(selected, len, movement),
        r < len,
{
    match movement {
        Movement::Up => if selected == 0 {
            0
        } else {
            selected - 1
        },
        Movement::Down => if selected == len - 1 {
            len - 1
        } else {
            selected + 1
        },
        Movement::First => 0,
        Movement::Last => len - 1,
    }
}

/// Whether one of `servers` has the identifier `id`.
pub open spec fn has_server(servers: Seq<Server>, id: Uuid) -> bool {
    exists|i: int| 0 <= i < servers.len() && (#[trigger] servers[i]).id == id
}

/// The servers of `all` that are not among `member`, in order.
pub open spec fn non_members(all: Seq<Server>, member: Seq<Server>) -> Seq<Server>
    decreases all.len(),
{
    if all.len() == 0 {
        Seq::empty()
    } else {
        let rest = non_members(all.drop_last(), member);
        if has_server(member, all.last().id) {
            rest
        } else {
            rest.push(all.last())
        }
    }
}

/// The servers on offer to a user who is to join one: those of `all_servers`
/// that the user is no member of yet.
pub fn non_member_servers(all_servers: &Vec<Server>, member_servers: &Vec<Server>) -> (r: Vec<
    Server,
>)
    ensures
        r@ == non_members(all_servers@, member_servers@),
{
    let mut out: Vec<Server> = Vec::new();
    let mut i: usize = 0;
    while i < all_servers.len()
        invariant
            i <= all_servers.len(),
            out@ == non_members(all_servers@.take(i as int), member_servers@),
        decreases all_servers.len() - i,
    {
        let id = all_servers[i].id;
        let mut is_member = false;
        let mut k: usize = 0;
        while k < member_servers.len()
            invariant
                k <= member_servers.len(),
                is_member == exists|j: int| 0 <= j < k && (#[trigger] member_servers@[j]).id == id,
            decreases member_servers.len() - k,
        {
            if member_servers[k].id == id {
                is_member = true;
            }
            k = k + 1;
        }
        proof {
            assert(all_servers@.take(i as int + 1).drop_last() =~= all_servers@.take(i as int));
        }
        if !is_member {
            out.push(all_servers[i].clone());
        }
        i = i + 1;
    }
    assert(all_servers@.take(all_servers@.len() as int) =~= all_servers@);
    out
}

/// What is still to be chosen, given the channel and the server that the
/// command line named.
pub fn get_channel_selection_with_inputs(channel_id: Option<Uuid>, server_id: Option<Uuid>) -> (r:
    SelectionPlan)
    ensures
        r == (match (channel_id, server_id) {
            (Some(channel_id), Some(server_id)) => SelectionPlan::Done { server_id, channel_id },
            (Some(_), None) => SelectionPlan::MissingServer,
            (None, Some(server_id)) => SelectionPlan::Channel { server_id },
            (None, None) => SelectionPlan::ServerAndChannel,
        }),
{
    match (channel_id, server_id) {
        (Some(channel_id), Some(server_id)) => SelectionPlan::Done { server_id, channel_id },
        (Some(_), None) => SelectionPlan::MissingServer,
        (None, Some(server_id)) => SelectionPlan::Channel { server_id },
        (None, None) => SelectionPlan::ServerAndChannel,
    }
}

} // verus!
