//! Requests on servers. Each function gives the URL that the request goes to.

use vstd::prelude::*;
use vstd::string::*;
use crate::requests::{append_target, target_query};
use crate::text::{uuid_text, uuid_to_string};
use crate::types::Uuid;
use crate::types::server::{Server, ServerMembership};

verus! {

/// The URL that creates a server.
pub fn create(api_url: &str, target_host: Option<&str>) -> (url: String)
    ensures
        url@ == api_url@ + "/servers"@ + target_query(target_host),
{
    let mut url = String::from_str(api_url);
    url.append("/servers");
    append_target(&mut url, target_host);
    url
}

/// The URL that lists all servers.
pub fn fetch_all(api_url: &str, target_host: Option<&str>) -> (url: String)
    ensures
        url@ == api_url@ + "/servers"@ + target_query(target_host),
{
    let mut url = String::from_str(api_url);
    url.append("/servers");
    append_target(&mut url, target_host);
    url
}

/// The URL that gets a server.
pub fn fetch_by_id(api_url: &str, server_id: Uuid, target_host: Option<&str>) -> (url: String)
    ensures
        url@ == api_url@ + "/servers/"@ + uuid_text(server_id) + target_query(target_host),
{
    let mut url = String::from_str(api_url);
    url.append("/servers/");
    url.append(uuid_to_string(server_id).as_str());
    append_target(&mut url, target_host);
    url
}

/// The URL that gets a server with its channels.
pub fn fetch_with_channels(
    api_url: &str,
    server_id: Uuid,
    target_host: Option<&str>,
) -> (url: String)
    ensures
        url@ == api_url@ + "/servers/"@ + uuid_text(server_id) + "/with_channels"@
            + target_query(target_host),
{
    let mut url = String::from_str(api_url);
    url.append("/servers/");
    url.append(uuid_to_string(server_id).as_str());
    url.append("/with_channels");
    append_target(&mut url, target_host);
    url
}

/// The URL that deletes a server.
pub fn delete(api_url: &str, server_id: Uuid, target_host: Option<&str>) -> (url: String)
    ensures
        url@ == api_url@ + "/servers/"@ + uuid_text(server_id) + target_query(target_host),
{
    let mut url = String::from_str(api_url);
    url.append("/servers/");
    url.append(uuid_to_string(server_id).as_str());
    append_target(&mut url, target_host);
    url
}

/// The servers of the memberships `memberships`, in order: the servers
/// that a user is a member of.
pub fn fetch_by_user(memberships: Vec<ServerMembership>) -> (r: Vec<Server>)
    ensures
        r@.len() == memberships@.len(),
        forall|i: int| 0 <= i < r@.len() ==> #[trigger] r@[i] == memberships@[i].server,
{
    let mut servers: Vec<Server> = Vec::new();
    let mut i: usize = 0;
    while i < memberships.len()
        invariant
            i <= memberships.len(),
            servers@.len() == i,
            forall|k: int| 0 <= k < i ==> #[trigger] servers@[k] == memberships@[k].server,
        decreases memberships.len() - i,
    {
        servers.push(memberships[i].server.clone());
        i = i + 1;
    }
    servers
}

} // verus!
