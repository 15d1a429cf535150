//! The directory: who is connected, and through which channels.
//!
//! Each user who is online has an entry with the outbound channels of that
//! user's sessions, in the order in which they were registered. An entry is
//! never empty: it goes when its last channel goes.

use crate::channel::{any_accepted, deliver, open_channels, probe_closed, retain_open, Channel};
use crate::text::{lemma_filter_members, str_eq, texts};
use dashmap::DashMap;
use vstd::prelude::*;

verus! {

/// The concurrent map of the `dashmap` crate. Nothing inside it is visible to proofs;
/// what it holds is spoken of through names for its contents.
#[verifier::external_type_specification]
#[verifier::external_body]
#[verifier::reject_recursive_types(K)]
#[verifier::reject_recursive_types(V)]
#[verifier::reject_recursive_types(S)]
pub struct ExDashMap<K, V, S>(DashMap<K, V, S>);

/// The channel lists that a directory map holds, by user.
pub uninterp spec fn client_channels(map: DashMap<String, Vec<Channel>>) -> Map<Seq<char>, Seq<Channel>>;

/// `DashMap::new` for the directory: the new map holds nothing.
#[verifier::external_body]
fn clients_new() -> (map: DashMap<String, Vec<Channel>>)
    ensures
        client_channels(map) =~= Map::empty(),
{
    DashMap::new()
}

/// `DashMap::get` on the directory, handing out clones of the user's channels:
/// `None` when the user has no entry, else the entry's list in its order.
#[verifier::external_body]
fn clients_get(map: &DashMap<String, Vec<Channel>>, user_id: &str) -> (found: Option<Vec<Channel>>)
    ensures
        found is Some <==> client_channels(*map).contains_key(user_id@),
        found is Some ==> found->0@ == client_channels(*map)[user_id@],
{
    map.get(user_id).map(|entry| entry.value().clone())
}

/// `DashMap::insert` on the directory: the key now maps to the given list, whatever
/// it mapped to before, and no other key changes. The call does not unwind: hashing
/// a string cannot fail, and the map's locks are free whenever it is called.
#[verifier::external_body]
fn clients_insert(map: &mut DashMap<String, Vec<Channel>>, user_id: String, channels: Vec<Channel>)
    ensures
        client_channels(*final(map)) == client_channels(*old(map)).insert(user_id@, channels@),
    no_unwind
{
    map.insert(user_id, channels);
}

/// `DashMap::remove` on the directory: the key's list is handed out if there was one,
/// the key is gone afterwards, and no other key changes. The call does not unwind.
#[verifier::external_body]
fn clients_remove(map: &mut DashMap<String, Vec<Channel>>, user_id: &str) -> (taken: Option<Vec<Channel>>)
    ensures
        taken is Some <==> client_channels(*old(map)).contains_key(user_id@),
        taken is Some ==> taken->0@ == client_channels(*old(map))[user_id@],
        client_channels(*final(map)) == client_channels(*old(map)).remove(user_id@),
    no_unwind
{
    map.remove(user_id).map(|(_, channels)| channels)
}

/// `DashMap::iter` on the directory, handing out a copy of each key: every key of
/// the map occurs exactly once, in an order that the map does not promise.
#[verifier::external_body]
fn clients_keys(map: &DashMap<String, Vec<Channel>>) -> (keys: Vec<String>)
    ensures
        user_ids(keys@).no_duplicates(),
        user_ids(keys@).to_set() == client_channels(*map).dom(),
{
    map.iter().map(|entry| entry.key().clone()).collect()
}

/// The user names of a list of keys.
pub open spec fn user_ids(keys: Seq<String>) -> Seq<Seq<char>> {
    texts(keys)
}

/// The channels that a directory holds for a user; none for a user without an entry.
pub open spec fn channels_of(directory: Map<Seq<char>, Seq<Channel>>, user_id: Seq<char>) -> Seq<Channel> {
    if directory.contains_key(user_id) {
        directory[user_id]
    } else {
        Seq::empty()
    }
}

/// No entry of the directory is empty: whoever has an entry has a channel.
pub open spec fn no_empty_entry(directory: Map<Seq<char>, Seq<Channel>>) -> bool {
    forall|user_id: Seq<char>| #[trigger] directory.contains_key(user_id) ==> directory[user_id].len() > 0
}

/// The directory once a user's list has been swept: an empty list takes the entry with it.
pub open spec fn swept(
    directory: Map<Seq<char>, Seq<Channel>>,
    user_id: Seq<char>,
    kept: Seq<Channel>,
) -> Map<Seq<char>, Seq<Channel>> {
    if kept.len() == 0 {
        directory.remove(user_id)
    } else {
        directory.insert(user_id, kept)
    }
}

/// The channels of the given users, one user's list after the other.
pub open spec fn channels_along(directory: Map<Seq<char>, Seq<Channel>>, users: Seq<Seq<char>>) -> Seq<Channel>
    decreases users.len(),
{
    if users.len() == 0 {
        Seq::empty()
    } else {
        channels_along(directory, users.drop_last()) + (if directory.contains_key(users.last()) {
            directory[users.last()]
        } else {
            Seq::empty()
        })
    }
}

/// The users that a broadcast reaches: everyone in the directory but the excluded one.
pub open spec fn audience(directory: Map<Seq<char>, Seq<Channel>>, exclude: Option<Seq<char>>) -> Set<Seq<char>> {
    match exclude {
        Some(user_id) => directory.dom().remove(user_id),
        None => directory.dom(),
    }
}

/// A broadcast that excludes a user reaches none of the users it excludes,
/// and everyone else in the directory.
pub proof fn lemma_audience_excludes(directory: Map<Seq<char>, Seq<Channel>>, user_id: Seq<char>)
    ensures
        !audience(directory, Some(user_id)).contains(user_id),
        forall|other: Seq<char>|
            other != user_id ==> (audience(directory, Some(user_id)).contains(other) <==> directory.contains_key(
                other,
            )),
{
}

/// The directory: each connected user with the outbound channels of that
/// user's sessions, in the order in which they were registered.
pub struct Directory {
    map: DashMap<String, Vec<Channel>>,
}

impl View for Directory {
    type V = Map<Seq<char>, Seq<Channel>>;

    closed spec fn view(&self) -> Map<Seq<char>, Seq<Channel>> {
        client_channels(self.map)
    }
}

impl Directory {
    /// What holds of every directory: whoever has an entry has a channel.
    #[verifier::type_invariant]
    pub open spec fn wf(&self) -> bool {
        no_empty_entry(self@)
    }

    /// A directory with nobody in it.
    pub fn new() -> (directory: Self)
        ensures
            directory@ == Map::<Seq<char>, Seq<Channel>>::empty(),
    {
        Self { map: clients_new() }
    }

    /// Whether nobody is in the directory.
    pub fn is_empty(&self) -> (empty: bool)
        ensures
            empty <==> self@ == Map::<Seq<char>, Seq<Channel>>::empty(),
    {
        let keys = clients_keys(&self.map);
        proof {
            if keys@.len() > 0 {
                assert(user_ids(keys@).to_set().contains(user_ids(keys@)[0]));
            } else {
                assert(user_ids(keys@).to_set() =~= Set::<Seq<char>>::empty());
                assert(self@ =~= Map::<Seq<char>, Seq<Channel>>::empty());
            }
        }
        keys.len() == 0
    }

    /// Appends a channel to the user's list, and makes the entry if there is none.
    pub fn add(&mut self, user_id: String, tx: Channel)
        ensures
            final(self)@ == old(self)@.insert(user_id@, channels_of(old(self)@, user_id@).push(tx)),
    {
        proof {
            use_type_invariant(&*self);
        }
        let mut channels = match clients_remove(&mut self.map, user_id.as_str()) {
            Some(channels) => channels,
            None => Vec::new(),
        };
        channels.push(tx);
        clients_insert(&mut self.map, user_id, channels);
        assert(self@ =~= old(self)@.insert(user_id@, channels_of(old(self)@, user_id@).push(tx)));
    }

    /// Drops the user's closed channels, and the user's entry with the last of them.
    ///
    /// Which channels are closed is for their receiving halves to say; whatever
    /// they say, the channels that stay keep their order, and no other user changes.
    pub fn remove(&mut self, user_id: &str)
        ensures
            exists|closed: Seq<bool>|
                closed.len() == channels_of(old(self)@, user_id@).len() && final(self)@ == swept(
                    old(self)@,
                    user_id@,
                    #[trigger] open_channels(channels_of(old(self)@, user_id@), closed),
                ),
    {
        proof {
            use_type_invariant(&*self);
        }
        match clients_remove(&mut self.map, user_id) {
            Some(channels) => {
                let closed = probe_closed(&channels);
                let kept = retain_open(channels, &closed);
                if kept.len() > 0 {
                    clients_insert(&mut self.map, user_id.to_owned(), kept);
                }
                proof {
                    let kept_channels = open_channels(channels_of(old(self)@, user_id@), closed@);
                    assert(self@ =~= swept(old(self)@, user_id@, kept_channels));
                }
            },
            None => {
                proof {
                    let closed = Seq::<bool>::empty();
                    let kept_channels = open_channels(channels_of(old(self)@, user_id@), closed);
                    assert(self@ =~= swept(old(self)@, user_id@, kept_channels));
                }
            },
        }
    }

    /// The channels that a broadcast goes to: those of every user but the excluded
    /// one, user by user, each user's channels in their order.
    pub fn broadcast_targets(&self, exclude_user_id: Option<&str>) -> (targets: Vec<Channel>)
        ensures
            exists|users: Seq<Seq<char>>|
                users.no_duplicates() && users.to_set() == audience(
                    self@,
                    match exclude_user_id {
                        Some(user_id) => Some(user_id@),
                        None => None,
                    },
                ) && targets@ == #[trigger] channels_along(self@, users),
    {
        let keys = clients_keys(&self.map);
        let ghost exclude: Option<Seq<char>> = match exclude_user_id {
            Some(user_id) => Some(user_id@),
            None => None,
        };
        let mut targets: Vec<Channel> = Vec::new();
        let ghost mut users: Seq<Seq<char>> = Seq::empty();
        let mut i: usize = 0;
        while i < keys.len()
            invariant
                i <= keys.len(),
                user_ids(keys@).no_duplicates(),
                user_ids(keys@).to_set() == self@.dom(),
                exclude == match exclude_user_id {
                    Some(user_id) => Some(user_id@),
                    None => None,
                },
                users == user_ids(keys@).take(i as int).filter(|u: Seq<char>| exclude != Some(u)),
                targets@ == channels_along(self@, users),
            decreases keys.len() - i,
        {
            let key = &keys[i];
            let skip = match exclude_user_id {
                Some(user_id) => str_eq(key.as_str(), user_id),
                None => false,
            };
            proof {
                let keep = |u: Seq<char>| exclude != Some(u);
                let prefix = user_ids(keys@).take(i as int);
                let next = user_ids(keys@).take(i + 1);
                assert(next == prefix.push(key@));
                assert(next.drop_last() == prefix);
                reveal(Seq::filter);
                assert(next.filter(keep) == if keep(key@) {
                    prefix.filter(keep).push(key@)
                } else {
                    prefix.filter(keep)
                });
            }
            if !skip {
                let ghost before = users;
                proof {
                    users = users.push(key@);
                    assert(users.drop_last() == before);
                }
                match clients_get(&self.map, key.as_str()) {
                    Some(channels) => {
                        let mut channels = channels;
                        targets.append(&mut channels);
                    },
                    None => {
                        proof {
                            assert(targets@ + Seq::<Channel>::empty() == targets@);
                        }
                    },
                }
            }
            i += 1;
        }
        proof {
            let keep = |u: Seq<char>| exclude != Some(u);
            let all = user_ids(keys@);
            assert(all.take(keys@.len() as int) == all);
            lemma_filter_members(all, keep);
            assert(users.to_set() =~= audience(self@, exclude)) by {
                assert forall|u: Seq<char>| users.to_set().contains(u) <==> audience(self@, exclude).contains(
                    u,
                ) by {
                    assert(all.to_set().contains(u) <==> all.contains(u));
                }
            }
        }
        targets
    }

    /// Offers the message to every channel of every user but the excluded one.
    /// A channel that does not take it is passed over.
    pub fn broadcast(&self, message: &str, exclude_user_id: Option<&str>) {
        let targets = self.broadcast_targets(exclude_user_id);
        let _ = deliver(&targets, message);
    }

    /// The channels that a message for one user goes to: the user's channels,
    /// in the order in which they were registered; none for a user without an
    /// entry.
    pub fn user_targets(&self, user_id: &str) -> (targets: Vec<Channel>)
        ensures
            targets@ == channels_of(self@, user_id@),
    {
        match clients_get(&self.map, user_id) {
            Some(channels) => channels,
            None => Vec::new(),
        }
    }

    /// Offers the message to each of the user's channels, in their order, and
    /// reports whether at least one of them took it.
    ///
    /// Whether a channel takes a message is for its receiving half to say; a user
    /// without a channel is never sent to.
    pub fn send_to_user(&self, user_id: &str, message: &str) -> (sent: bool)
        ensures
            sent ==> self@.contains_key(user_id@),
    {
        let targets = self.user_targets(user_id);
        let accepted = deliver(&targets, message);
        any_accepted(&accepted)
    }

    /// The users that are online, each once, in no promised order.
    pub fn online_users(&self) -> (users: Vec<String>)
        ensures
            user_ids(users@).no_duplicates(),
            forall|user_id: Seq<char>| user_ids(users@).contains(user_id) <==> self@.contains_key(user_id),
    {
        let keys = clients_keys(&self.map);
        proof {
            assert forall|user_id: Seq<char>| user_ids(keys@).contains(user_id) <==> self@.contains_key(
                user_id,
            ) by {
                assert(user_ids(keys@).to_set().contains(user_id) <==> user_ids(keys@).contains(user_id));
            }
        }
        keys
    }

    /// Whether the directory holds an entry, and with it a channel, for the user.
    pub fn is_online(&self, user_id: &str) -> (online: bool)
        ensures
            online == self@.contains_key(user_id@),
            online == (channels_of(self@, user_id@).len() > 0),
    {
        proof {
            use_type_invariant(self);
        }
        match clients_get(&self.map, user_id) {
            Some(channels) => channels.len() > 0,
            None => false,
        }
    }
}

} // verus!
