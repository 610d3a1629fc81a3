use vstd::prelude::*;

use crate::model::{Identity, UserView};
use crate::store::{connected_users, disconnected_users};
use crate::validation::{empty_message_text, empty_name_text, validated_message, validated_name};

verus! {

/// Validation accepts every non-empty text unchanged and rejects only the empty
/// text, each kind of input with its own error.
pub proof fn lemma_validation_accepts_non_empty(s: Seq<char>)
    ensures
        s.len() != 0 ==> validated_name(s) == Ok::<Seq<char>, Seq<char>>(s),
        s.len() != 0 ==> validated_message(s) == Ok::<Seq<char>, Seq<char>>(s),
        s.len() == 0 ==> validated_name(s) == Err::<Seq<char>, Seq<char>>(empty_name_text()),
        s.len() == 0 ==> validated_message(s) == Err::<Seq<char>, Seq<char>>(
            empty_message_text(),
        ),
{
}

/// Connecting twice is the same as connecting once: the identity has one record,
/// online, and its name is the one it had before, if any.
pub proof fn lemma_connect_idempotent(users: Map<Identity, UserView>, id: Identity)
    ensures
        connected_users(connected_users(users, id), id) == connected_users(users, id),
        connected_users(users, id).contains_key(id),
        connected_users(users, id)[id].online,
        connected_users(users, id)[id].name == (if users.contains_key(id) {
            users[id].name
        } else {
            None::<Seq<char>>
        }),
        connected_users(users, id).dom() == users.dom().insert(id),
{
    let once = connected_users(users, id);
    assert(connected_users(once, id) =~= once);
    assert(once.dom() =~= users.dom().insert(id));
}

/// Connecting and then disconnecting leaves the identity's record offline, with the
/// name it had before the two events, if any.
pub proof fn lemma_connect_then_disconnect(users: Map<Identity, UserView>, id: Identity)
    ensures
        disconnected_users(connected_users(users, id), id).contains_key(id),
        !disconnected_users(connected_users(users, id), id)[id].online,
        disconnected_users(connected_users(users, id), id)[id].name == (if users.contains_key(
            id,
        ) {
            users[id].name
        } else {
            None::<Seq<char>>
        }),
{
}

} // verus!
