//! Channels of a server.

use vstd::prelude::*;
use crate::types::{Timestamp, Uuid};

verus! {

/// A channel. It lives on the host of its server.
#[derive(Debug, PartialEq, Eq)]
pub struct Channel {
    pub id: Uuid,
    pub server_id: Uuid,
    pub title: String,
    pub description: Option<String>,
    pub created_at: Timestamp,
    pub updated_at: Timestamp,
}

/// What is needed to create a channel.
#[derive(Debug, PartialEq, Eq)]
pub struct NewChannel {
    pub title: String,
    pub description: Option<String>,
}

impl Clone for Channel {
    fn clone(&self) -> (r: Self)
        ensures
            r == *self,
    {
        Channel {
            id: self.id,
            server_id: self.server_id,
            title: self.title.clone(),
            description: self.description.clone(),
            created_at: self.created_at,
            updated_at: self.updated_at,
        }
    }
}

impl Clone for NewChannel {
    fn clone(&self) -> (r: Self)
        ensures
            r == *self,
    {
        NewChannel { title: self.title.clone(), description: self.description.clone() }
    }
}

} // verus!
