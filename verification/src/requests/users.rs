//! Requests on users. Each function gives the URL that the request goes to.

use vstd::prelude::*;
use vstd::string::*;
use crate::requests::{append_target, target_query};
use crate::types::user::UserRef;

verus! {

/// The URL that creates a user.
pub fn create(api_url: &str) -> (url: String)
    ensures
        url@ == api_url@ + "/users"@,
{
    let mut url = String::from_str(api_url);
    url.append("/users");
    url
}

/// The URL that lists all users.
pub fn fetch_all(api_url: &str, target_host: Option<&str>) -> (url: String)
    ensures
        url@ == api_url@ + "/users"@ + target_query(target_host),
{
    let mut url = String::from_str(api_url);
    url.append("/users");
    append_target(&mut url, target_host);
    url
}

/// The URL that gets a user.
pub fn fetch_by_ref(api_url: &str, user: &UserRef) -> (url: String)
    ensures
        url@ == api_url@ + "/users/"@ + user.host@ + "/"@ + user.name@,
{
    let mut url = String::from_str(api_url);
    url.append("/users/");
    url.append(user.host.as_str());
    url.append("/");
    url.append(user.name.as_str());
    url
}

/// The URL that deletes a user.
pub fn delete(api_url: &str, user: &UserRef) -> (url: String)
    ensures
        url@ == api_url@ + "/users/"@ + user.host@ + "/"@ + user.name@,
{
    let mut url = String::from_str(api_url);
    url.append("/users/");
    url.append(user.host.as_str());
    url.append("/");
    url.append(user.name.as_str());
    url
}

/// The URL that lists the hosts on which a user has memberships.
pub fn fetch_associated_hosts(
    api_url: &str,
    user: &UserRef,
    target_host: Option<&str>,
) -> (url: String)
    ensures
        url@ == api_url@ + "/users/"@ + user.host@ + "/"@ + user.name@ + "/hosts"@
            + target_query(target_host),
{
    let mut url = String::from_str(api_url);
    url.append("/users/");
    url.append(user.host.as_str());
    url.append("/");
    url.append(user.name.as_str());
    url.append("/hosts");
    append_target(&mut url, target_host);
    url
}

} // verus!
