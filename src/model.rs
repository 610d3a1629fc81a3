use vstd::prelude::*;

verus! {

/// A stable, opaque identifier of a caller: a 256-bit number held as two halves.
#[derive(Clone, Copy, PartialEq, Eq, Structural, Debug, Hash)]
pub struct Identity {
    pub high: u128,
    pub low: u128,
}

/// A point in time, in microseconds since the Unix epoch.
#[derive(Clone, Copy, PartialEq, Eq, Structural, Debug, Hash)]
pub struct Timestamp {
    pub micros_since_unix_epoch: i64,
}

/// One known identity and its presence: an optional display name and whether it is online.
#[derive(Debug)]
pub struct User {
    pub identity: Identity,
    pub name: Option<String>,
    pub online: bool,
}

/// One chat message: who sent it, when, and its text.
#[derive(Debug)]
pub struct Message {
    pub sender: Identity,
    pub sent: Timestamp,
    pub text: String,
}

/// The mathematical value of a `User`.
pub ghost struct UserView {
    pub identity: Identity,
    pub name: Option<Seq<char>>,
    pub online: bool,
}

/// The mathematical value of a `Message`.
pub ghost struct MessageView {
    pub sender: Identity,
    pub sent: Timestamp,
    pub text: Seq<char>,
}

pub open spec fn opt_string_view(s: Option<String>) -> Option<Seq<char>> {
    match s {
        Some(t) => Some(t@),
        None => None,
    }
}

impl View for User {
    type V = UserView;

    open spec fn view(&self) -> UserView {
        UserView { identity: self.identity, name: opt_string_view(self.name), online: self.online }
    }
}

impl View for Message {
    type V = MessageView;

    open spec fn view(&self) -> MessageView {
        MessageView { sender: self.sender, sent: self.sent, text: self.text@ }
    }
}

impl User {
    /// A copy of this record with the same identity, name and presence.
    pub fn duplicate(&self) -> (r: User)
        ensures
            r@ == self@,
    {
        let name = match &self.name {
            Some(n) => Some(n.clone()),
            None => None,
        };
        User { identity: self.identity, name, online: self.online }
    }
}

impl Message {
    /// A copy of this message with the same sender, time and text.
    pub fn duplicate(&self) -> (r: Message)
        ensures
            r@ == self@,
    {
        Message { sender: self.sender, sent: self.sent, text: self.text.clone() }
    }
}

} // verus!
