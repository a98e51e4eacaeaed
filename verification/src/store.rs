//! The conversation store: which user, if any, is the assistant's partner in
//! each channel.

use dashmap::DashMap;
use vstd::prelude::*;

verus! {

/// `dashmap::DashMap`, a hash map cut into shards that are locked one by one.
/// Nothing inside it is visible here: what it holds goes by `entries_of`.
#[verifier::external_type_specification]
#[verifier::external_body]
#[verifier::reject_recursive_types(K)]
#[verifier::reject_recursive_types(V)]
#[verifier::reject_recursive_types(S)]
pub struct ExDashMap<K, V, S>(DashMap<K, V, S>);

/// The entries that a map of sessions holds: for each channel with a session,
/// the user who has it.
pub uninterp spec fn entries_of(sessions: DashMap<u64, u64>) -> Map<u64, u64>;

/// The sessions of a store in which every channel is idle: none.
pub open spec fn all_idle() -> Map<u64, u64> {
    Map::empty()
}

/// Calls `DashMap::new`. Trusted: the new map holds no entry.
#[verifier::external_body]
fn sessions_new() -> (fresh: DashMap<u64, u64>)
    ensures
        entries_of(fresh) == all_idle(),
{
    DashMap::new()
}

/// Calls `DashMap::get` and copies the value out of the guard it returns.
/// Trusted: the result is the value stored under the key, or nothing where
/// the map has no such key.
#[verifier::external_body]
fn sessions_get(sessions: &DashMap<u64, u64>, channel: u64) -> (user: Option<u64>)
    ensures
        user == active_user(entries_of(*sessions), channel),
{
    match sessions.get(&channel) {
        Some(entry) => Some(*entry.value()),
        None => None,
    }
}

/// Calls `DashMap::insert`. Trusted: afterwards the key holds the new value
/// and every other key holds what it held; the result is the value that the
/// key held before.
#[verifier::external_body]
fn sessions_insert(sessions: &mut DashMap<u64, u64>, channel: u64, user: u64) -> (previous: Option<
    u64,
>)
    ensures
        entries_of(*final(sessions)) == entries_of(*old(sessions)).insert(channel, user),
        previous == active_user(entries_of(*old(sessions)), channel),
{
    sessions.insert(channel, user)
}

/// Calls `DashMap::remove`. Trusted: afterwards the key is absent and every
/// other key holds what it held; the result is the entry that was removed.
#[verifier::external_body]
fn sessions_remove(sessions: &mut DashMap<u64, u64>, channel: u64) -> (removed: Option<(u64, u64)>)
    ensures
        entries_of(*final(sessions)) == entries_of(*old(sessions)).remove(channel),
        removed == match active_user(entries_of(*old(sessions)), channel) {
            Some(user) => Some((channel, user)),
            None => None,
        },
{
    sessions.remove(&channel)
}

/// The user who holds the conversation in a channel, if anyone does.
pub open spec fn active_user(sessions: Map<u64, u64>, channel: u64) -> Option<u64> {
    if sessions.contains_key(channel) {
        Some(sessions[channel])
    } else {
        None
    }
}

/// The sessions of all channels. A channel has at most one active user: the
/// store is a map from channel to user, and setting a user replaces whoever
/// was there. Changing the store takes exclusive access to it, so no caller
/// ever sees an entry half-written; callers that share a store put it behind
/// a lock of their own.
pub struct ConversationStore {
    sessions: DashMap<u64, u64>,
}

impl View for ConversationStore {
    type V = Map<u64, u64>;

    closed spec fn view(&self) -> Map<u64, u64> {
        entries_of(self.sessions)
    }
}

impl ConversationStore {
    /// A store in which every channel is idle.
    pub fn new() -> (store: Self)
        ensures
            store@ == all_idle(),
    {
        ConversationStore { sessions: sessions_new() }
    }

    /// The active user of a channel, or nothing where the channel is idle.
    pub fn get_active_user(&self, channel: u64) -> (user: Option<u64>)
        ensures
            user == active_user(self@, channel),
    {
        sessions_get(&self.sessions, channel)
    }

    /// Makes `user` the active user of the channel, whoever was there before.
    pub fn set_active_user(&mut self, channel: u64, user: u64)
        ensures
            final(self)@ == old(self)@.insert(channel, user),
    {
        let _ = sessions_insert(&mut self.sessions, channel, user);
    }

    /// Makes the channel idle. Nothing changes where it already is.
    pub fn remove(&mut self, channel: u64)
        ensures
            final(self)@ == old(self)@.remove(channel),
    {
        let _ = sessions_remove(&mut self.sessions, channel);
    }

    /// Whether `user` is the active user of the channel.
    pub fn is_active_user(&self, channel: u64, user: u64) -> (yes: bool)
        ensures
            yes == (active_user(self@, channel) == Some(user)),
    {
        match sessions_get(&self.sessions, channel) {
            Some(active) => active == user,
            None => false,
        }
    }
}

/// A user that was set is the one that is found, whoever was there before,
/// and the other channels keep their users.
pub proof fn lemma_set_then_get(sessions: Map<u64, u64>, channel: u64, user: u64, other: u64)
    ensures
        active_user(sessions.insert(channel, user), channel) == Some(user),
        other != channel ==> active_user(sessions.insert(channel, user), other) == active_user(
            sessions,
            other,
        ),
{
}

/// A channel that was removed is idle, the other channels keep their users,
/// and removing an idle channel changes nothing.
pub proof fn lemma_remove_then_get(sessions: Map<u64, u64>, channel: u64, other: u64)
    ensures
        active_user(sessions.remove(channel), channel) is None,
        other != channel ==> active_user(sessions.remove(channel), other) == active_user(
            sessions,
            other,
        ),
        active_user(sessions, channel) is None ==> sessions.remove(channel) == sessions,
{
    if active_user(sessions, channel) is None {
        assert(sessions.remove(channel) =~= sessions);
    }
}

} // verus!
