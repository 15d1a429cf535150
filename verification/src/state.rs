//! Shared relay state: the directory and the offline queues, and the verbs
//! that sessions route with.

use crate::channel::{open_channels, Channel};
use crate::directory::{channels_of, no_empty_entry, swept, user_ids, Directory};
use crate::queue::{enqueued, queue_of, queues_bounded, OfflineQueue, MAX_PENDING_MESSAGES_PER_USER};
use crate::text::texts;
use vstd::prelude::*;

verus! {

/// Server state managing connected clients and pending messages.
pub struct ServerState {
    /// Who is connected, and through which channels.
    pub clients: Directory,
    /// What waits for those who are not connected.
    pending_messages: OfflineQueue,
}

impl ServerState {
    /// The directory: each connected user with the channels of that user's sessions.
    pub closed spec fn directory(&self) -> Map<Seq<char>, Seq<Channel>> {
        self.clients@
    }

    /// The offline queues: each user with undelivered messages, oldest first.
    pub closed spec fn pending(&self) -> Map<Seq<char>, Seq<Seq<char>>> {
        self.pending_messages@
    }

    /// The channels registered for a user; none for a user without an entry.
    pub open spec fn channels(&self, user_id: Seq<char>) -> Seq<Channel> {
        channels_of(self.directory(), user_id)
    }

    /// The messages that wait for a user; none for a user without an entry.
    pub open spec fn queued(&self, user_id: Seq<char>) -> Seq<Seq<char>> {
        queue_of(self.pending(), user_id)
    }

    /// A user is online when the directory holds at least one channel for that user.
    pub open spec fn online(&self, user_id: Seq<char>) -> bool {
        self.channels(user_id).len() > 0
    }

    /// What holds of every state that the relay is ever in: no directory entry
    /// is empty, and no queue is empty or longer than the limit.
    pub open spec fn wf(&self) -> bool {
        no_empty_entry(self.directory()) && queues_bounded(self.pending())
    }

    /// A state with nobody connected and nothing queued.
    pub fn new() -> (state: Self)
        ensures
            state.wf(),
            state.directory() == Map::<Seq<char>, Seq<Channel>>::empty(),
            state.pending() == Map::<Seq<char>, Seq<Seq<char>>>::empty(),
    {
        Self { clients: Directory::new(), pending_messages: OfflineQueue::new() }
    }

    /// Register a new client connection (supports multiple connections per user).
    pub fn add_client(&mut self, user_id: String, tx: Channel)
        ensures
            final(self).wf(),
            final(self).directory() == old(self).directory().insert(
                user_id@,
                old(self).channels(user_id@).push(tx),
            ),
            final(self).pending() == old(self).pending(),
    {
        self.clients.add(user_id, tx);
        proof {
            use_type_invariant(&self.clients);
            use_type_invariant(&self.pending_messages);
        }
    }

    /// Drops the user's closed channels, and the user's entry with the last of them.
    ///
    /// Which channels are closed is for their receiving halves to say; whatever
    /// they say, the channels that stay keep their order, and no other user changes.
    pub fn remove_client(&mut self, user_id: &str)
        ensures
            final(self).wf(),
            final(self).pending() == old(self).pending(),
            exists|closed: Seq<bool>|
                closed.len() == old(self).channels(user_id@).len() && final(self).directory() == swept(
                    old(self).directory(),
                    user_id@,
                    #[trigger] open_channels(old(self).channels(user_id@), closed),
                ),
    {
        self.clients.remove(user_id);
        proof {
            use_type_invariant(&self.clients);
            use_type_invariant(&self.pending_messages);
            let before = old(self).directory();
            let closed = choose|closed: Seq<bool>|
                closed.len() == channels_of(before, user_id@).len() && self.directory() == swept(
                    before,
                    user_id@,
                    #[trigger] open_channels(channels_of(before, user_id@), closed),
                );
            assert(self.directory() == swept(
                before,
                user_id@,
                open_channels(old(self).channels(user_id@), closed),
            ));
        }
    }

    /// Offers the message to every channel of every user but the excluded one.
    /// A channel that does not take it is passed over.
    pub fn broadcast(&self, message: &str, exclude_user_id: Option<&str>) {
        self.clients.broadcast(message, exclude_user_id);
    }

    /// Offers the message to each of the user's channels, in their order, and
    /// reports whether at least one of them took it.
    ///
    /// Whether a channel takes a message is for its receiving half to say; a user
    /// who is not online is never sent to.
    pub fn send_to_user(&self, user_id: &str, message: &str) -> (sent: bool)
        ensures
            sent ==> self.online(user_id@),
    {
        proof {
            use_type_invariant(&self.clients);
        }
        self.clients.send_to_user(user_id, message)
    }

    /// The users that are online, each once, in no promised order.
    pub fn online_users(&self) -> (users: Vec<String>)
        ensures
            user_ids(users@).no_duplicates(),
            forall|user_id: Seq<char>| user_ids(users@).contains(user_id) <==> self.online(user_id),
            forall|user_id: Seq<char>|
                user_ids(users@).contains(user_id) <==> self.directory().contains_key(user_id),
    {
        proof {
            use_type_invariant(&self.clients);
        }
        self.clients.online_users()
    }

    /// Whether the directory holds at least one channel for the user.
    pub fn is_online(&self, user_id: &str) -> (online: bool)
        ensures
            online == self.online(user_id@),
            online == self.directory().contains_key(user_id@),
    {
        self.clients.is_online(user_id)
    }

    /// Appends a message to the user's queue; a full queue loses its oldest entry first.
    pub fn queue_message(&mut self, user_id: &str, message: String)
        ensures
            final(self).wf(),
            final(self).directory() == old(self).directory(),
            final(self).pending() == old(self).pending().insert(
                user_id@,
                enqueued(old(self).queued(user_id@), message@),
            ),
    {
        self.pending_messages.queue(user_id, message);
        proof {
            use_type_invariant(&self.clients);
            use_type_invariant(&self.pending_messages);
        }
    }

    /// Takes the user's whole queue, oldest message first, and leaves no entry behind.
    pub fn take_pending_messages(&mut self, user_id: &str) -> (messages: Vec<String>)
        ensures
            final(self).wf(),
            texts(messages@) == old(self).queued(user_id@),
            messages@.len() <= MAX_PENDING_MESSAGES_PER_USER,
            final(self).directory() == old(self).directory(),
            final(self).pending() == old(self).pending().remove(user_id@),
            final(self).queued(user_id@) == Seq::<Seq<char>>::empty(),
    {
        let messages = self.pending_messages.take(user_id);
        proof {
            use_type_invariant(&self.clients);
            use_type_invariant(&self.pending_messages);
        }
        messages
    }

    /// What becomes of a message once it is known whether the user's channels took
    /// it: a message that was taken is done, one that was not joins the user's queue.
    /// Returns whether it was taken.
    pub fn settle(&mut self, user_id: &str, message: &str, sent: bool) -> (done: bool)
        ensures
            done == sent,
            final(self).wf(),
            final(self).directory() == old(self).directory(),
            sent ==> final(self).pending() == old(self).pending(),
            !sent ==> final(self).pending() == old(self).pending().insert(
                user_id@,
                enqueued(old(self).queued(user_id@), message@),
            ),
    {
        if sent {
            proof {
                use_type_invariant(&self.clients);
                use_type_invariant(&self.pending_messages);
            }
            true
        } else {
            self.queue_message(user_id, message.to_owned());
            false
        }
    }

    /// Sends to the user if a channel takes the message, and queues it otherwise.
    /// Returns true if it was sent, false if it was queued.
    ///
    /// A message for a user who is not online is always queued; for a user who is
    /// online it is queued exactly when none of the user's channels takes it.
    pub fn send_or_queue(&mut self, user_id: &str, message: &str) -> (sent: bool)
        ensures
            final(self).wf(),
            final(self).directory() == old(self).directory(),
            sent ==> old(self).online(user_id@),
            sent ==> final(self).pending() == old(self).pending(),
            !sent ==> final(self).pending() == old(self).pending().insert(
                user_id@,
                enqueued(old(self).queued(user_id@), message@),
            ),
    {
        let sent = self.send_to_user(user_id, message);
        self.settle(user_id, message, sent)
    }

    /// The number of messages that wait for the user, never more than the limit.
    pub fn pending_count(&self, user_id: &str) -> (count: usize)
        ensures
            count == self.queued(user_id@).len(),
            count <= MAX_PENDING_MESSAGES_PER_USER,
    {
        self.pending_messages.pending_count(user_id)
    }
}

impl Default for ServerState {
    fn default() -> (state: Self)
        ensures
            state.wf(),
            state.directory() == Map::<Seq<char>, Seq<Channel>>::empty(),
            state.pending() == Map::<Seq<char>, Seq<Seq<char>>>::empty(),
    {
        Self::new()
    }
}

/// A user is online exactly when the user is among those that
/// [`ServerState::online_users`] lists, and exactly when the directory holds
/// an entry for the user, which then has at least one channel in it.
pub proof fn lemma_online_iff_listed(state: ServerState, listed: Seq<Seq<char>>, user_id: Seq<char>)
    requires
        state.wf(),
        forall|other: Seq<char>| listed.contains(other) <==> state.online(other),
    ensures
        state.online(user_id) <==> listed.contains(user_id),
        state.online(user_id) <==> state.directory().contains_key(user_id),
        state.online(user_id) <==> state.channels(user_id).len() >= 1,
{
}

} // verus!
