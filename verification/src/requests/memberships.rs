//! Requests on memberships. Each function gives the URL that the request goes to.

use vstd::prelude::*;
use vstd::string::*;
use crate::requests::{append_target, target_query};
use crate::text::{uuid_text, uuid_to_string};
use crate::types::Uuid;
use crate::types::server::NewServerMembership;
use crate::types::user::UserRef;

verus! {

/// The URL that lists the memberships of a user.
pub fn fetch_by_user(api_url: &str, user: &UserRef) -> (url: String)
    ensures
        url@ == api_url@ + "/users/"@ + user.host@ + "/"@ + user.name@ + "/servers"@,
{
    let mut url = String::from_str(api_url);
    url.append("/users/");
    url.append(user.host.as_str());
    url.append("/");
    url.append(user.name.as_str());
    url.append("/servers");
    url
}

/// The URL that lists the members of a server.
pub fn fetch_members_by_server(
    api_url: &str,
    server_id: Uuid,
    target_host: Option<&str>,
) -> (url: String)
    ensures
        url@ == api_url@ + "/servers/"@ + uuid_text(server_id) + "/users"@
            + target_query(target_host),
{
    let mut url = String::from_str(api_url);
    url.append("/servers/");
    url.append(uuid_to_string(server_id).as_str());
    url.append("/users");
    append_target(&mut url, target_host);
    url
}

/// The URL that gets one member of a server.
pub fn fetch_member_by_user_and_server(
    api_url: &str,
    server_id: Uuid,
    user: &UserRef,
    target_host: Option<&str>,
) -> (url: String)
    ensures
        url@ == api_url@ + "/servers/"@ + uuid_text(server_id) + "/users/"@ + user.host@ + "/"@
            + user.name@ + target_query(target_host),
{
    let mut url = String::from_str(api_url);
    url.append("/servers/");
    url.append(uuid_to_string(server_id).as_str());
    url.append("/users/");
    url.append(user.host.as_str());
    url.append("/");
    url.append(user.name.as_str());
    append_target(&mut url, target_host);
    url
}

/// The URL that creates a membership; the server is the one that the membership names.
pub fn create(api_url: &str, new_membership: &NewServerMembership) -> (url: String)
    ensures
        url@ == api_url@ + "/servers/"@ + uuid_text(new_membership.server_id) + "/users"@,
{
    let mut url = String::from_str(api_url);
    url.append("/servers/");
    url.append(uuid_to_string(new_membership.server_id).as_str());
    url.append("/users");
    url
}

/// The URL that ends a membership.
pub fn delete(
    api_url: &str,
    server_id: Uuid,
    user: &UserRef,
    target_host: Option<&str>,
) -> (url: String)
    ensures
        url@ == api_url@ + "/servers/"@ + uuid_text(server_id) + "/users/"@ + user.host@ + "/"@
            + user.name@ + target_query(target_host),
{
    let mut url = String::from_str(api_url);
    url.append("/servers/");
    url.append(uuid_to_string(server_id).as_str());
    url.append("/users/");
    url.append(user.host.as_str());
    url.append("/");
    url.append(user.name.as_str());
    append_target(&mut url, target_host);
    url
}

} // verus!
