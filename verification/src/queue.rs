//! The offline queues: what waits for users who are not connected.
//!
//! Each user with undelivered messages has a queue of them, oldest first. A
//! queue never holds more than [`MAX_PENDING_MESSAGES_PER_USER`] messages: a
//! message that joins a full queue pushes the oldest one out.

use crate::text::texts;
use dashmap::DashMap;
use vstd::prelude::*;

verus! {

/// The most messages that are kept for one user who is not connected.
pub const MAX_PENDING_MESSAGES_PER_USER: usize = 1000;

/// The queues that a map of pending messages holds, by user.
pub uninterp spec fn pending_contents(map: DashMap<String, Vec<String>>) -> Map<Seq<char>, Seq<Seq<char>>>;

/// `DashMap::new` for the offline queues: the new map holds nothing.
#[verifier::external_body]
fn pending_new() -> (map: DashMap<String, Vec<String>>)
    ensures
        pending_contents(map) =~= Map::empty(),
{
    DashMap::new()
}

/// `DashMap::get` on the offline queues, handing out a copy of the user's queue:
/// `None` when the user has no entry, else the messages in their order.
#[verifier::external_body]
fn pending_get(map: &DashMap<String, Vec<String>>, user_id: &str) -> (found: Option<Vec<String>>)
    ensures
        found is Some <==> pending_contents(*map).contains_key(user_id@),
        found is Some ==> texts(found->0@) == pending_contents(*map)[user_id@],
{
    map.get(user_id).map(|entry| entry.value().clone())
}

/// `DashMap::insert` on the offline queues: the key now maps to the given queue,
/// whatever it mapped to before, and no other key changes. The call does not unwind:
/// hashing a string cannot fail, and the map's locks are free whenever it is called.
#[verifier::external_body]
fn pending_insert(map: &mut DashMap<String, Vec<String>>, user_id: String, queue: Vec<String>)
    ensures
        pending_contents(*final(map)) == pending_contents(*old(map)).insert(user_id@, texts(queue@)),
    no_unwind
{
    map.insert(user_id, queue);
}

/// `DashMap::remove` on the offline queues: the key's queue is handed out if there
/// was one, the key is gone afterwards, and no other key changes. The call does not unwind.
#[verifier::external_body]
fn pending_remove(map: &mut DashMap<String, Vec<String>>, user_id: &str) -> (taken: Option<Vec<String>>)
    ensures
        taken is Some <==> pending_contents(*old(map)).contains_key(user_id@),
        taken is Some ==> texts(taken->0@) == pending_contents(*old(map))[user_id@],
        pending_contents(*final(map)) == pending_contents(*old(map)).remove(user_id@),
    no_unwind
{
    map.remove(user_id).map(|(_, queue)| queue)
}

/// A queue after one more message: at capacity the oldest entry leaves first.
pub open spec fn enqueued(queue: Seq<Seq<char>>, message: Seq<char>) -> Seq<Seq<char>> {
    if queue.len() >= MAX_PENDING_MESSAGES_PER_USER {
        queue.drop_first().push(message)
    } else {
        queue.push(message)
    }
}

/// The messages that wait for a user; none for a user without an entry.
pub open spec fn queue_of(pending: Map<Seq<char>, Seq<Seq<char>>>, user_id: Seq<char>) -> Seq<Seq<char>> {
    if pending.contains_key(user_id) {
        pending[user_id]
    } else {
        Seq::empty()
    }
}

/// No queue is empty, and none is longer than the limit.
pub open spec fn queues_bounded(pending: Map<Seq<char>, Seq<Seq<char>>>) -> bool {
    forall|user_id: Seq<char>| #[trigger]
        pending.contains_key(user_id) ==> 0 < pending[user_id].len() <= MAX_PENDING_MESSAGES_PER_USER
}

/// A queue after each of the given messages in turn.
pub open spec fn enqueued_all(queue: Seq<Seq<char>>, messages: Seq<Seq<char>>) -> Seq<Seq<char>>
    decreases messages.len(),
{
    if messages.len() == 0 {
        queue
    } else {
        enqueued(enqueued_all(queue, messages.drop_last()), messages.last())
    }
}

/// The last messages of a list, at most as many as one queue keeps.
pub open spec fn newest(messages: Seq<Seq<char>>) -> Seq<Seq<char>> {
    if messages.len() > MAX_PENDING_MESSAGES_PER_USER {
        messages.skip(messages.len() - MAX_PENDING_MESSAGES_PER_USER)
    } else {
        messages
    }
}

/// A queue within the limit stays within it when a message joins, and the
/// message that joined is its newest entry.
pub proof fn lemma_queue_stays_bounded(queue: Seq<Seq<char>>, message: Seq<char>)
    requires
        queue.len() <= MAX_PENDING_MESSAGES_PER_USER,
    ensures
        0 < enqueued(queue, message).len() <= MAX_PENDING_MESSAGES_PER_USER,
        enqueued(queue, message).last() == message,
{
}

/// Two messages that are queued for a user who had none are what the queue
/// holds, the first of them first.
pub proof fn lemma_queue_keeps_order(first: Seq<char>, second: Seq<char>)
    ensures
        enqueued(enqueued(Seq::empty(), first), second) == seq![first, second],
{
    assert(enqueued(enqueued(Seq::empty(), first), second) =~= seq![first, second]);
}

/// An empty queue that takes a list of messages one after the other holds the
/// newest of them in their order: all of them up to the limit, and beyond it
/// the last thousand, the older ones having been dropped.
pub proof fn lemma_queue_keeps_newest(messages: Seq<Seq<char>>)
    ensures
        enqueued_all(Seq::empty(), messages) == newest(messages),
    decreases messages.len(),
{
    if messages.len() > 0 {
        let earlier = messages.drop_last();
        lemma_queue_keeps_newest(earlier);
        assert(enqueued(newest(earlier), messages.last()) =~= newest(messages));
    }
}

/// The offline queues: for each user with undelivered messages, those
/// messages, oldest first, never more than the limit.
pub struct OfflineQueue {
    map: DashMap<String, Vec<String>>,
}

impl View for OfflineQueue {
    type V = Map<Seq<char>, Seq<Seq<char>>>;

    closed spec fn view(&self) -> Map<Seq<char>, Seq<Seq<char>>> {
        pending_contents(self.map)
    }
}

impl OfflineQueue {
    /// What holds of all queues: none is empty, and none is longer than the limit.
    #[verifier::type_invariant]
    pub open spec fn wf(&self) -> bool {
        queues_bounded(self@)
    }

    /// Queues with nothing in them.
    pub fn new() -> (queues: Self)
        ensures
            queues@ == Map::<Seq<char>, Seq<Seq<char>>>::empty(),
    {
        Self { map: pending_new() }
    }

    /// Appends a message to the user's queue; a full queue loses its oldest entry first.
    pub fn queue(&mut self, user_id: &str, message: String)
        ensures
            final(self)@ == old(self)@.insert(user_id@, enqueued(queue_of(old(self)@, user_id@), message@)),
    {
        proof {
            use_type_invariant(&*self);
        }
        let mut queue = match pending_remove(&mut self.map, user_id) {
            Some(queue) => queue,
            None => Vec::new(),
        };
        proof {
            assert(texts(queue@) == queue_of(old(self)@, user_id@));
        }
        if queue.len() >= MAX_PENDING_MESSAGES_PER_USER {
            let ghost before = queue@;
            let _ = queue.remove(0);
            proof {
                assert(texts(queue@) =~= texts(before).drop_first());
            }
        }
        let ghost before = queue@;
        queue.push(message);
        proof {
            assert(texts(queue@) =~= texts(before).push(message@));
        }
        pending_insert(&mut self.map, user_id.to_owned(), queue);
        assert(self@ =~= old(self)@.insert(user_id@, enqueued(queue_of(old(self)@, user_id@), message@)));
    }

    /// Takes the user's whole queue, oldest message first, and leaves no entry behind.
    pub fn take(&mut self, user_id: &str) -> (messages: Vec<String>)
        ensures
            texts(messages@) == queue_of(old(self)@, user_id@),
            messages@.len() <= MAX_PENDING_MESSAGES_PER_USER,
            final(self)@ == old(self)@.remove(user_id@),
    {
        proof {
            use_type_invariant(&*self);
        }
        match pending_remove(&mut self.map, user_id) {
            Some(queue) => {
                proof {
                    assert(texts(queue@).len() == queue@.len());
                }
                queue
            },
            None => {
                let empty: Vec<String> = Vec::new();
                proof {
                    assert(texts(empty@) =~= Seq::<Seq<char>>::empty());
                }
                empty
            },
        }
    }

    /// The number of messages that wait for the user, never more than the limit.
    pub fn pending_count(&self, user_id: &str) -> (count: usize)
        ensures
            count == queue_of(self@, user_id@).len(),
            count <= MAX_PENDING_MESSAGES_PER_USER,
    {
        proof {
            use_type_invariant(self);
        }
        match pending_get(&self.map, user_id) {
            Some(queue) => {
                proof {
                    assert(texts(queue@).len() == queue@.len());
                }
                queue.len()
            },
            None => 0,
        }
    }
}

} // verus!
