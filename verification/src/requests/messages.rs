//! Requests on messages. Each function gives the URL that the request goes to.

use vstd::prelude::*;
use vstd::string::*;
use crate::requests::{append_target, target_query};
use crate::text::{uuid_text, uuid_to_string};
use crate::types::Uuid;

verus! {

/// The URL that creates a message in a channel.
pub fn create(
    api_url: &str,
    server_id: Uuid,
    channel_id: Uuid,
    target_host: Option<&str>,
) -> (url: String)
    ensures
        url@ == api_url@ + "/servers/"@ + uuid_text(server_id) + "/channels/"@
            + uuid_text(channel_id) + "/messages"@ + target_query(target_host),
{
    let mut url = String::from_str(api_url);
    url.append("/servers/");
    url.append(uuid_to_string(server_id).as_str());
    url.append("/channels/");
    url.append(uuid_to_string(channel_id).as_str());
    url.append("/messages");
    append_target(&mut url, target_host);
    url
}

/// The URL that lists all messages.
pub fn fetch_all(api_url: &str, target_host: Option<&str>) -> (url: String)
    ensures
        url@ == api_url@ + "/messages"@ + target_query(target_host),
{
    let mut url = String::from_str(api_url);
    url.append("/messages");
    append_target(&mut url, target_host);
    url
}

/// The URL that lists the messages of a server.
pub fn fetch_by_server(api_url: &str, server_id: Uuid, target_host: Option<&str>) -> (url: String)
    ensures
        url@ == api_url@ + "/servers/"@ + uuid_text(server_id) + "/messages"@
            + target_query(target_host),
{
    let mut url = String::from_str(api_url);
    url.append("/servers/");
    url.append(uuid_to_string(server_id).as_str());
    url.append("/messages");
    append_target(&mut url, target_host);
    url
}

/// The URL that lists the messages of a channel.
pub fn fetch_by_channel(
    api_url: &str,
    server_id: Uuid,
    channel_id: Uuid,
    target_host: Option<&str>,
) -> (url: String)
    ensures
        url@ == api_url@ + "/servers/"@ + uuid_text(server_id) + "/channels/"@
            + uuid_text(channel_id) + "/messages"@ + target_query(target_host),
{
    let mut url = String::from_str(api_url);
    url.append("/servers/");
    url.append(uuid_to_string(server_id).as_str());
    url.append("/channels/");
    url.append(uuid_to_string(channel_id).as_str());
    url.append("/messages");
    append_target(&mut url, target_host);
    url
}

/// The URL that gets a message.
pub fn fetch_by_id(
    api_url: &str,
    server_id: Uuid,
    channel_id: Uuid,
    message_id: Uuid,
    target_host: Option<&str>,
) -> (url: String)
    ensures
        url@ == api_url@ + "/servers/"@ + uuid_text(server_id) + "/channels/"@
            + uuid_text(channel_id) + "/messages/"@ + uuid_text(message_id)
            + target_query(target_host),
{
    let mut url = String::from_str(api_url);
    url.append("/servers/");
    url.append(uuid_to_string(server_id).as_str());
    url.append("/channels/");
    url.append(uuid_to_string(channel_id).as_str());
    url.append("/messages/");
    url.append(uuid_to_string(message_id).as_str());
    append_target(&mut url, target_host);
    url
}

/// The URL that deletes a message.
pub fn delete(
    api_url: &str,
    server_id: Uuid,
    channel_id: Uuid,
    message_id: Uuid,
    target_host: Option<&str>,
) -> (url: String)
    ensures
        url@ == api_url@ + "/servers/"@ + uuid_text(server_id) + "/channels/"@
            + uuid_text(channel_id) + "/messages/"@ + uuid_text(message_id)
            + target_query(target_host),
{
    let mut url = String::from_str(api_url);
    url.append("/servers/");
    url.append(uuid_to_string(server_id).as_str());
    url.append("/channels/");
    url.append(uuid_to_string(channel_id).as_str());
    url.append("/messages/");
    url.append(uuid_to_string(message_id).as_str());
    append_target(&mut url, target_host);
    url
}

} // verus!
