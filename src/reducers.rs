use vstd::prelude::*;

use crate::model::{Identity, Message, MessageView, Timestamp, User, UserView};
use crate::validation::{validate_message, validate_name, validated_message, validated_name};

verus! {

broadcast use vstd::string::group_string_axioms;

/// What the hosting runtime hands each reducer: who is calling, and when.
#[derive(Clone, Copy, PartialEq, Eq, Structural, Debug)]
pub struct ReducerContext {
    pub sender: Identity,
    pub timestamp: Timestamp,
}

/// A write to the presence store decided by a reducer.
#[derive(Debug)]
pub enum UserWrite {
    /// Add a record for an identity that has none.
    Insert(User),
    /// Replace the record with the same identity.
    Update(User),
}

/// Error text returned when a name is set for an identity without a record.
pub open spec fn unknown_user_text() -> Seq<char> {
    "Cannot set name for unknown user"@
}

/// The record that results from setting the name of `u`.
pub open spec fn named(u: UserView, name: Seq<char>) -> UserView {
    UserView { name: Some(name), ..u }
}

/// The record that results from marking `u` online or offline.
pub open spec fn with_presence(u: UserView, online: bool) -> UserView {
    UserView { online, ..u }
}

/// The record created for an identity on its first connection.
pub open spec fn fresh_user(id: Identity) -> UserView {
    UserView { identity: id, name: None, online: true }
}

/// The message recorded when `ctx.sender` sends `text`.
pub open spec fn message_from(ctx: ReducerContext, text: Seq<char>) -> MessageView {
    MessageView { sender: ctx.sender, sent: ctx.timestamp, text }
}

/// Decides a name change. `found` is the record of the caller, if any; on success
/// the result is the record to write back.
pub fn set_name(found: Option<User>, name: String) -> (r: Result<User, String>)
    ensures
        name@.len() == 0 ==> (r matches Err(e) && Err::<Seq<char>, Seq<char>>(e@)
            == validated_name(name@)),
        name@.len() != 0 && found is None ==> (r matches Err(e) && e@ == unknown_user_text()),
        name@.len() != 0 && found is Some ==> (r matches Ok(u) && u@ == named(
            found->Some_0@,
            name@,
        )),
{
    let name = match validate_name(name) {
        Ok(n) => n,
        Err(e) => {
            return Err(e);
        },
    };
    match found {
        Some(user) => Ok(User { name: Some(name), ..user }),
        None => Err("Cannot set name for unknown user".to_string()),
    }
}

/// Decides a chat message: on success the result is the message to append.
pub fn send_message(ctx: &ReducerContext, text: String) -> (r: Result<Message, String>)
    ensures
        text@.len() == 0 ==> (r matches Err(e) && Err::<Seq<char>, Seq<char>>(e@)
            == validated_message(text@)),
        text@.len() != 0 ==> (r matches Ok(m) && m@ == message_from(*ctx, text@)),
{
    let text = match validate_message(text) {
        Ok(t) => t,
        Err(e) => {
            return Err(e);
        },
    };
    Ok(Message { sender: ctx.sender, text, sent: ctx.timestamp })
}

/// Decides what a connection does to the caller's record `found`: a returning
/// identity is marked online with its name kept, a new one gets a fresh record.
pub fn client_connected(ctx: &ReducerContext, found: Option<User>) -> (r: UserWrite)
    ensures
        found is None ==> (r matches UserWrite::Insert(u) && u@ == fresh_user(ctx.sender)),
        found is Some ==> (r matches UserWrite::Update(u) && u@ == with_presence(
            found->Some_0@,
            true,
        )),
{
    match found {
        Some(user) => UserWrite::Update(User { online: true, ..user }),
        None => UserWrite::Insert(User { name: None, identity: ctx.sender, online: true }),
    }
}

/// Decides what a disconnection does to the caller's record `found`: the record to
/// write back, marked offline, or `None` when there is no record to change.
pub fn identity_disconnected(found: Option<User>) -> (r: Option<User>)
    ensures
        found is None ==> r is None,
        found is Some ==> (r matches Some(u) && u@ == with_presence(found->Some_0@, false)),
{
    match found {
        Some(user) => Some(User { online: false, ..user }),
        None => None,
    }
}

} // verus!
