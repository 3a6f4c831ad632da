//! Requests on channels. Each function gives the URL that the request goes to.

use vstd::prelude::*;
use vstd::string::*;
use crate::requests::{append_target, target_query};
use crate::text::{uuid_text, uuid_to_string};
use crate::types::Uuid;

verus! {

/// The URL that creates a channel in a server.
pub fn create(api_url: &str, server_id: Uuid, target_host: Option<&str>) -> (url: String)
    ensures
        url@ == api_url@ + "/servers/"@ + uuid_text(server_id) + "/channels"@
            + target_query(target_host),
{
    let mut url = String::from_str(api_url);
    url.append("/servers/");
    url.append(uuid_to_string(server_id).as_str());
    url.append("/channels");
    append_target(&mut url, target_host);
    url
}

/// The URL that lists all channels.
pub fn fetch_all(api_url: &str, target_host: Option<&str>) -> (url: String)
    ensures
        url@ == api_url@ + "/channels"@ + target_query(target_host),
{
    let mut url = String::from_str(api_url);
    url.append("/channels");
    append_target(&mut url, target_host);
    url
}

/// The URL that lists the channels of a server.
pub fn fetch_by_server(api_url: &str, server_id: Uuid, target_host: Option<&str>) -> (url: String)
    ensures
        url@ == api_url@ + "/servers/"@ + uuid_text(server_id) + "/channels"@
            + target_query(target_host),
{
    let mut url = String::from_str(api_url);
    url.append("/servers/");
    url.append(uuid_to_string(server_id).as_str());
    url.append("/channels");
    append_target(&mut url, target_host);
    url
}

/// The URL that gets a channel.
pub fn fetch_by_id(
    api_url: &str,
    server_id: Uuid,
    channel_id: Uuid,
    target_host: Option<&str>,
) -> (url: String)
    ensures
        url@ == api_url@ + "/servers/"@ + uuid_text(server_id) + "/channels/"@
            + uuid_text(channel_id) + target_query(target_host),
{
    let mut url = String::from_str(api_url);
    url.append("/servers/");
    url.append(uuid_to_string(server_id).as_str());
    url.append("/channels/");
    url.append(uuid_to_string(channel_id).as_str());
    append_target(&mut url, target_host);
    url
}

/// The URL that deletes a channel.
pub fn delete(
    api_url: &str,
    server_id: Uuid,
    channel_id: Uuid,
    target_host: Option<&str>,
) -> (url: String)
    ensures
        url@ == api_url@ + "/servers/"@ + uuid_text(server_id) + "/channels/"@
            + uuid_text(channel_id) + target_query(target_host),
{
    let mut url = String::from_str(api_url);
    url.append("/servers/");
    url.append(uuid_to_string(server_id).as_str());
    url.append("/channels/");
    url.append(uuid_to_string(channel_id).as_str());
    append_target(&mut url, target_host);
    url
}

} // verus!
