use vstd::prelude::*;

use crate::model::{Identity, Message, MessageView, User, UserView};
use crate::reducers::{
    client_connected, fresh_user, identity_disconnected, message_from, named, send_message,
    set_name, unknown_user_text, with_presence, ReducerContext, UserWrite,
};
use crate::validation::{validated_message, validated_name};

verus! {

/// A diagnostic that a reducer reports instead of failing.
#[derive(Clone, Copy, PartialEq, Eq, Structural, Debug)]
pub enum Anomaly {
    /// A disconnection arrived for an identity that never connected.
    DisconnectOfUnknownUser(Identity),
}

/// The presence store after `id` connects: its record is marked online, or a fresh
/// record is made for it.
pub open spec fn connected_users(users: Map<Identity, UserView>, id: Identity) -> Map<
    Identity,
    UserView,
> {
    if users.contains_key(id) {
        users.insert(id, with_presence(users[id], true))
    } else {
        users.insert(id, fresh_user(id))
    }
}

/// The presence store after `id` disconnects: its record, if any, is marked offline.
pub open spec fn disconnected_users(users: Map<Identity, UserView>, id: Identity) -> Map<
    Identity,
    UserView,
> {
    if users.contains_key(id) {
        users.insert(id, with_presence(users[id], false))
    } else {
        users
    }
}

/// An in-memory presence store and message log, mutated only through the reducers
/// and the store operations below.
pub struct ChatDb {
    users: Vec<User>,
    messages: Vec<Message>,
    model: Ghost<Map<Identity, UserView>>,
}

impl ChatDb {
    /// The presence store: each known identity and its record.
    pub closed spec fn users(&self) -> Map<Identity, UserView> {
        self.model@
    }

    /// The message log, oldest first.
    pub closed spec fn messages(&self) -> Seq<MessageView> {
        self.messages@.map_values(|m: Message| m@)
    }

    /// One record per identity, and the records are those of `users()`.
    pub closed spec fn wf(&self) -> bool {
        &&& forall|i: int|
            0 <= i < self.users@.len() ==> #[trigger] self.model@.contains_key(
                self.users@[i].identity,
            ) && self.model@[self.users@[i].identity] == self.users@[i]@
        &&& forall|id: Identity| #[trigger]
            self.model@.contains_key(id) ==> exists|i: int|
                0 <= i < self.users@.len() && #[trigger] self.users@[i].identity == id
        &&& forall|i: int, j: int|
            0 <= i < j < self.users@.len() ==> self.users@[i].identity
                != self.users@[j].identity
        &&& self.model@.dom().finite()
        &&& self.model@.dom().len() == self.users@.len()
    }

    /// An empty store and log.
    pub fn new() -> (r: ChatDb)
        ensures
            r.wf(),
            r.users() == Map::<Identity, UserView>::empty(),
            r.messages() == Seq::<MessageView>::empty(),
    {
        let r = ChatDb { users: Vec::new(), messages: Vec::new(), model: Ghost(Map::empty()) };
        assert(r.messages() =~= Seq::<MessageView>::empty());
        r
    }

    /// Every record stands under its own identity.
    pub proof fn lemma_keys_match(&self, id: Identity)
        requires
            self.wf(),
            self.users().contains_key(id),
        ensures
            self.users()[id].identity == id,
    {
        let i = choose|i: int| 0 <= i < self.users@.len() && #[trigger] self.users@[i].identity == id;
    }

    fn index_of(&self, id: Identity) -> (r: Option<usize>)
        requires
            self.wf(),
        ensures
            match r {
                Some(i) => i < self.users@.len() && self.users@[i as int].identity == id,
                None => !self.users().contains_key(id),
            },
    {
        let mut i: usize = 0;
        while i < self.users.len()
            invariant
                i <= self.users@.len(),
                forall|k: int| 0 <= k < i ==> self.users@[k].identity != id,
            decreases self.users@.len() - i,
        {
            if self.users[i].identity == id {
                return Some(i);
            }
            i = i + 1;
        }
        None
    }

    /// The record of `id`, if it has one.
    pub fn find_by_identity(&self, id: Identity) -> (r: Option<User>)
        requires
            self.wf(),
        ensures
            match r {
                Some(u) => self.users().contains_key(id) && u@ == self.users()[id],
                None => !self.users().contains_key(id),
            },
    {
        match self.index_of(id) {
            Some(i) => {
                proof {
                    assert(self.model@.contains_key(self.users@[i as int].identity));
                }
                Some(self.users[i].duplicate())
            },
            None => None,
        }
    }

    /// How many identities have a record.
    pub fn user_count(&self) -> (r: usize)
        requires
            self.wf(),
        ensures
            r == self.users().dom().len(),
    {
        self.users.len()
    }

    /// How many messages the log holds.
    pub fn message_count(&self) -> (r: usize)
        ensures
            r == self.messages().len(),
    {
        self.messages.len()
    }

    /// The message at position `i` of the log, oldest first.
    pub fn message_at(&self, i: usize) -> (r: Option<Message>)
        ensures
            i < self.messages().len() ==> (r matches Some(m) && m@ == self.messages()[i as int]),
            i >= self.messages().len() ==> r is None,
    {
        if i < self.messages.len() {
            Some(self.messages[i].duplicate())
        } else {
            None
        }
    }

    /// Adds the record of an identity that has none.
    pub fn insert(&mut self, user: User)
        requires
            old(self).wf(),
            !old(self).users().contains_key(user.identity),
        ensures
            final(self).wf(),
            final(self).users() == old(self).users().insert(user.identity, user@),
            final(self).messages() == old(self).messages(),
    {
        let ghost id = user.identity;
        let ghost v = user@;
        let ghost old_users = self.users@;
        proof {
            assert forall|i: int| 0 <= i < old_users.len() implies old_users[i].identity != id by {
                assert(self.model@.contains_key(old_users[i].identity));
            }
        }
        self.users.push(user);
        self.model = Ghost(self.model@.insert(id, v));
        proof {
            assert(self.model@.dom() =~= old(self).model@.dom().insert(id));
            assert forall|k: Identity| #[trigger] self.model@.contains_key(k) implies exists|i: int|
                0 <= i < self.users@.len() && #[trigger] self.users@[i].identity == k by {
                if k == id {
                    assert(self.users@[old_users.len() as int].identity == k);
                } else {
                    let i = choose|i: int| 0 <= i < old_users.len() && #[trigger] old_users[i].identity == k;
                    assert(self.users@[i].identity == k);
                }
            }
        }
    }

    /// Replaces the record with the same identity as `user`.
    pub fn update(&mut self, user: User)
        requires
            old(self).wf(),
            old(self).users().contains_key(user.identity),
        ensures
            final(self).wf(),
            final(self).users() == old(self).users().insert(user.identity, user@),
            final(self).messages() == old(self).messages(),
    {
        let ghost id = user.identity;
        let ghost v = user@;
        let ghost old_users = self.users@;
        let i = match self.index_of(user.identity) {
            Some(i) => i,
            None => {
                return;
            },
        };
        self.users[i] = user;
        self.model = Ghost(self.model@.insert(id, v));
        proof {
            assert(self.model@.dom() =~= old(self).model@.dom());
            assert forall|k: Identity| #[trigger] self.model@.contains_key(k) implies exists|j: int|
                0 <= j < self.users@.len() && #[trigger] self.users@[j].identity == k by {
                if k == id {
                    assert(self.users@[i as int].identity == k);
                } else {
                    let j = choose|j: int| 0 <= j < old_users.len() && #[trigger] old_users[j].identity == k;
                    assert(self.users@[j].identity == k);
                }
            }
            assert forall|j: int| 0 <= j < self.users@.len() implies #[trigger] self.model@.contains_key(
                self.users@[j].identity,
            ) && self.model@[self.users@[j].identity] == self.users@[j]@ by {
                if j != i {
                    assert(old_users[j].identity != old_users[i as int].identity);
                }
            }
            assert forall|j: int, k: int| 0 <= j < k < self.users@.len() implies self.users@[j].identity
                != self.users@[k].identity by {
                assert(old_users[j].identity != old_users[k].identity);
            }
        }
    }

    /// Appends a message to the log.
    pub fn append(&mut self, message: Message)
        requires
            old(self).wf(),
        ensures
            final(self).wf(),
            final(self).users() == old(self).users(),
            final(self).messages() == old(self).messages().push(message@),
    {
        let ghost v = message@;
        self.messages.push(message);
        assert(self.users == old(self).users && self.model == old(self).model);
        assert(self.messages() =~= old(self).messages().push(v));
    }

    /// Sets the caller's display name. Fails on an empty name, then on a caller
    /// without a record; a failure changes nothing.
    pub fn set_name(&mut self, ctx: &ReducerContext, name: String) -> (r: Result<(), String>)
        requires
            old(self).wf(),
        ensures
            final(self).wf(),
            final(self).messages() == old(self).messages(),
            r is Err ==> final(self).users() == old(self).users(),
            name@.len() == 0 ==> (r matches Err(e) && Err::<Seq<char>, Seq<char>>(e@)
                == validated_name(name@)),
            name@.len() != 0 && !old(self).users().contains_key(ctx.sender) ==> (r matches Err(e)
                && e@ == unknown_user_text()),
            name@.len() != 0 && old(self).users().contains_key(ctx.sender) ==> r is Ok
                && final(self).users() == old(self).users().insert(
                ctx.sender,
                named(old(self).users()[ctx.sender], name@),
            ),
    {
        let found = self.find_by_identity(ctx.sender);
        proof {
            if self.users().contains_key(ctx.sender) {
                self.lemma_keys_match(ctx.sender);
            }
        }
        match set_name(found, name) {
            Ok(user) => {
                self.update(user);
                Ok(())
            },
            Err(e) => Err(e),
        }
    }

    /// Appends a message from the caller, stamped with the call's time. Fails on an
    /// empty text, leaving the log unchanged.
    pub fn send_message(&mut self, ctx: &ReducerContext, text: String) -> (r: Result<(), String>)
        requires
            old(self).wf(),
        ensures
            final(self).wf(),
            final(self).users() == old(self).users(),
            text@.len() == 0 ==> (r matches Err(e) && Err::<Seq<char>, Seq<char>>(e@)
                == validated_message(text@)) && final(self).messages() == old(self).messages(),
            text@.len() != 0 ==> r is Ok && final(self).messages() == old(self).messages().push(
                message_from(*ctx, text@),
            ),
    {
        match send_message(ctx, text) {
            Ok(m) => {
                self.append(m);
                Ok(())
            },
            Err(e) => Err(e),
        }
    }

    /// Marks the caller online, creating its record, without a name, on its first
    /// connection.
    pub fn on_connect(&mut self, ctx: &ReducerContext)
        requires
            old(self).wf(),
        ensures
            final(self).wf(),
            final(self).messages() == old(self).messages(),
            final(self).users() == connected_users(old(self).users(), ctx.sender),
    {
        let found = self.find_by_identity(ctx.sender);
        proof {
            if self.users().contains_key(ctx.sender) {
                self.lemma_keys_match(ctx.sender);
            }
        }
        match client_connected(ctx, found) {
            UserWrite::Insert(user) => self.insert(user),
            UserWrite::Update(user) => self.update(user),
        }
    }

    /// Marks the caller offline. A caller without a record is left without one, and
    /// the anomaly is returned for the runtime to report.
    pub fn on_disconnect(&mut self, ctx: &ReducerContext) -> (r: Option<Anomaly>)
        requires
            old(self).wf(),
        ensures
            final(self).wf(),
            final(self).messages() == old(self).messages(),
            final(self).users() == disconnected_users(old(self).users(), ctx.sender),
            old(self).users().contains_key(ctx.sender) ==> r is None,
            !old(self).users().contains_key(ctx.sender) ==> r == Some(
                Anomaly::DisconnectOfUnknownUser(ctx.sender),
            ),
    {
        let found = self.find_by_identity(ctx.sender);
        proof {
            if self.users().contains_key(ctx.sender) {
                self.lemma_keys_match(ctx.sender);
            }
        }
        match identity_disconnected(found) {
            Some(user) => {
                self.update(user);
                None
            },
            None => Some(Anomaly::DisconnectOfUnknownUser(ctx.sender)),
        }
    }
}

} // verus!
