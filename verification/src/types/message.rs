//! Messages of a channel.

use vstd::prelude::*;
use vstd::string::*;
use crate::types::{Timestamp, Uuid};
use crate::types::user::{User, UserRef};

verus! {

/// A message. It lives on the host of its channel.
#[derive(Debug, PartialEq, Eq)]
pub struct Message {
    pub id: Uuid,
    pub channel_id: Uuid,
    pub author: Option<User>,
    pub body: String,
    pub created_at: Timestamp,
    pub updated_at: Timestamp,
}

/// What is needed to create a message.
#[derive(Debug, PartialEq, Eq)]
pub struct NewMessage {
    pub author: UserRef,
    pub body: String,
}

impl Clone for Message {
    fn clone(&self) -> (r: Self)
        ensures
            r == *self,
    {
        Message {
            id: self.id,
            channel_id: self.channel_id,
            author: self.author.clone(),
            body: self.body.clone(),
            created_at: self.created_at,
            updated_at: self.updated_at,
        }
    }
}

impl Clone for NewMessage {
    fn clone(&self) -> (r: Self)
        ensures
            r == *self,
    {
        NewMessage { author: self.author.clone(), body: self.body.clone() }
    }
}

/// The line that shows a message: the author's name, or `anon`, then the body.
pub open spec fn message_line_spec(m: Message) -> Seq<char> {
    match m.author {
        Some(u) => u.name@ + ": "@ + m.body@,
        None => "anon"@ + ": "@ + m.body@,
    }
}

impl Message {
    /// The line that shows this message.
    pub fn to_string(&self) -> (r: String)
        ensures
            r@ == message_line_spec(*self),
    {
        let name = match &self.author {
            Some(u) => u.name.clone(),
            None => String::from_str("anon"),
        };
        name.concat(": ").concat(self.body.as_str())
    }
}

} // verus!
