//! The routing index: who is to hear of a change on a server.
//!
//! The index keeps nothing. It reads the answer off the references of the
//! server's members, as the store gives them.

use vstd::prelude::*;
use vstd::string::*;
use crate::config::{local_host_spec, ServerConfig};
use crate::text::{lemma_lex_lt_total, lemma_lex_lt_transitive, lex_lt, str_eq, str_lt};
use crate::types::user::UserRef;
use crate::util::{pad_host_spec, same_host};

verus! {

/// The routing index of one server instance.
pub struct RoutingIndex {
    pub server_config: ServerConfig,
}

/// The members among `members` on the host `local`, in order. A member is
/// on the host where the padded form of its host is that of `local`.
pub open spec fn local_members(members: Seq<UserRef>, local: Seq<char>) -> Seq<UserRef>
    decreases members.len(),
{
    if members.len() == 0 {
        Seq::empty()
    } else {
        let rest = local_members(members.drop_last(), local);
        if pad_host_spec(members.last().host@) == pad_host_spec(local) {
            rest.push(members.last())
        } else {
            rest
        }
    }
}

/// Whether `hosts` is in strictly ascending order; it then holds no text twice.
pub open spec fn is_strictly_ascending(hosts: Seq<String>) -> bool {
    forall|i: int, j: int|
        0 <= i < j < hosts.len() ==> lex_lt((#[trigger] hosts[i])@, (#[trigger] hosts[j])@)
}

/// Whether `hosts` holds the text `host`.
pub open spec fn has_host_text(hosts: Seq<String>, host: Seq<char>) -> bool {
    exists|i: int| 0 <= i < hosts.len() && (#[trigger] hosts[i])@ == host
}

/// Whether one of `members` is on `host`.
pub open spec fn has_member_on(members: Seq<UserRef>, host: Seq<char>) -> bool {
    exists|i: int| 0 <= i < members.len() && (#[trigger] members[i]).host@ == host
}

/// Whether `hosts` are the remote hosts of `members`: each host of a member
/// that is not the host `local`, once, in ascending order. A host is the
/// local one where its padded form is that of `local`, whatever its text.
pub open spec fn is_remote_hosts_of(hosts: Seq<String>, members: Seq<UserRef>, local: Seq<char>) -> bool {
    &&& is_strictly_ascending(hosts)
    &&& forall|h: Seq<char>|
        #![trigger has_host_text(hosts, h)]
        #![trigger has_member_on(members, h)]
        has_host_text(hosts, h) <==> (has_member_on(members, h) && pad_host_spec(h)
            != pad_host_spec(local))
}

/// The local host is no remote host under any of its names: a change on a
/// server is never sent back to the host that made it.
pub proof fn lemma_local_names_are_not_remote(
    hosts: Seq<String>,
    members: Seq<UserRef>,
    local: Seq<char>,
    name: Seq<char>,
)
    requires
        is_remote_hosts_of(hosts, members, local),
        pad_host_spec(name) == pad_host_spec(local),
    ensures
        !has_host_text(hosts, name),
{
}

/// Puts `host` into the ascending `hosts`, unless it is there.
pub fn insert_ascending(hosts: &mut Vec<String>, host: String)
    requires
        is_strictly_ascending(old(hosts)@),
    ensures
        is_strictly_ascending(final(hosts)@),
        forall|h: Seq<char>|
            has_host_text(final(hosts)@, h) <==> (has_host_text(old(hosts)@, h) || h == host@),
{
    let mut p: usize = 0;
    while p < hosts.len() && str_lt(hosts[p].as_str(), host.as_str())
        invariant
            p <= hosts.len(),
            *hosts == *old(hosts),
            forall|k: int| 0 <= k < p ==> lex_lt((#[trigger] hosts@[k])@, host@),
        decreases hosts.len() - p,
    {
        p = p + 1;
    }
    if p < hosts.len() && str_eq(hosts[p].as_str(), host.as_str()) {
        return ;
    }
    proof {
        let before = hosts@;
        let after = before.insert(p as int, host);
        assert(forall|k: int| 0 <= k < p ==> after[k] == before[k]);
        assert(after[p as int] == host);
        if p < before.len() {
            lemma_lex_lt_total(before[p as int]@, host@);
        }
        assert forall|i: int, j: int| 0 <= i < j < after.len() implies lex_lt(
            (#[trigger] after[i])@,
            (#[trigger] after[j])@,
        ) by {
            if i == p && j - 1 > p {
                lemma_lex_lt_transitive(host@, before[p as int]@, before[j - 1]@);
            }
        }
        assert forall|h: Seq<char>| has_host_text(after, h) <==> (has_host_text(before, h) || h
            == host@) by {
            if has_host_text(before, h) {
                let i = choose|i: int| 0 <= i < before.len() && (#[trigger] before[i])@ == h;
                if i >= p {
                    assert(after[i + 1]@ == h);
                }
            }
        }
    }
    hosts.insert(p, host);
}

/// The peer hosts with a member of a server: the hosts of `members`, the
/// local members of the server, each once and without the local host.
pub fn remote_hosts_of(config: &ServerConfig, members: &Vec<UserRef>) -> (r: Vec<String>)
    ensures
        is_remote_hosts_of(r@, members@, local_host_spec(config.local_host_raw@, config.port)),
{
    let ghost local = local_host_spec(config.local_host_raw@, config.port);
    let local_host = config.local_host();
    {
        let mut hosts: Vec<String> = Vec::new();
        let mut i: usize = 0;
        while i < members.len()
            invariant
                i <= members.len(),
                local_host@ == local,
                is_strictly_ascending(hosts@),
                forall|h: Seq<char>|
                    #![trigger has_host_text(hosts@, h)]
                    #![trigger has_member_on(members@.take(i as int), h)]
                    has_host_text(hosts@, h) <==> (has_member_on(members@.take(i as int), h)
                        && pad_host_spec(h) != pad_host_spec(local)),
            decreases members.len() - i,
        {
            let remote = !same_host(members[i].host.as_str(), local_host.as_str());
            if remote {
                insert_ascending(&mut hosts, members[i].host.clone());
            }
            proof {
                let done = members@.take(i as int);
                let next = members@.take(i as int + 1);
                assert forall|h: Seq<char>|
                    has_member_on(next, h) <==> (has_member_on(done, h) || h
                        == members@[i as int].host@) by {
                    if h == members@[i as int].host@ {
                        assert(next[i as int].host@ == h);
                    }
                }
            }
            i = i + 1;
        }
        assert(members@.take(members@.len() as int) =~= members@);
        hosts
    }
}

/// The users of this host with a membership on a server: those of
/// `members`, the local members of the server, that are on the local host.
pub fn local_users_of(config: &ServerConfig, members: &Vec<UserRef>) -> (r: Vec<UserRef>)
    ensures
        r@ == local_members(members@, local_host_spec(config.local_host_raw@, config.port)),
{
    let ghost local = local_host_spec(config.local_host_raw@, config.port);
    let local_host = config.local_host();
    {
        let mut users: Vec<UserRef> = Vec::new();
        let mut i: usize = 0;
        while i < members.len()
            invariant
                i <= members.len(),
                local_host@ == local,
                users@ == local_members(members@.take(i as int), local),
            decreases members.len() - i,
        {
            proof {
                assert(members@.take(i as int + 1).drop_last() =~= members@.take(i as int));
            }
            if same_host(members[i].host.as_str(), local_host.as_str()) {
                users.push(members[i].clone());
            }
            i = i + 1;
        }
        assert(members@.take(members@.len() as int) =~= members@);
        users
    }
}

impl RoutingIndex {
    pub fn new(server_config: ServerConfig) -> (r: Self)
        ensures
            r.server_config == server_config,
    {
        Self { server_config }
    }

    /// The local host, which the index leaves out of the remote hosts.
    pub open spec fn local(&self) -> Seq<char> {
        local_host_spec(self.server_config.local_host_raw@, self.server_config.port)
    }

    /// The peer hosts with a member of the server: see `remote_hosts_of`.
    pub fn hosts_for_server(&self, members: &Vec<UserRef>) -> (r: Vec<String>)
        ensures
            is_remote_hosts_of(r@, members@, self.local()),
    {
        remote_hosts_of(&self.server_config, members)
    }

    /// The users of this host with a membership on the server: see
    /// `local_users_of`.
    pub fn users_for_local_server(&self, members: &Vec<UserRef>) -> (r: Vec<UserRef>)
        ensures
            r@ == local_members(members@, self.local()),
    {
        local_users_of(&self.server_config, members)
    }
}

} // verus!
