//! The registry of active downloads: for each download key, the sending half
//! of the control channel of the one session that runs under it.
//!
//! The registry is a plain value. Whoever shares it between tasks guards it
//! with a lock, so that each operation below happens as a whole.

use vstd::prelude::*;
use vstd::hash_map::StringHashMap;
use tokio::sync::mpsc::{Receiver, Sender};
use crate::channel::{open_channel, try_signal, Delivery};

verus! {

/// How many signals a control channel holds before further ones are dropped.
pub const CONTROL_CAPACITY: usize = 100;

/// Whether a start under `key` is accepted while the keys in `active` are in
/// use: a key carries one session at a time.
pub open spec fn start_accepted(active: Set<Seq<char>>, key: Seq<char>) -> bool {
    !active.contains(key)
}

/// The keys in use after a start under `key`. A rejected start leaves them as
/// they were, for the key is among them already.
pub open spec fn after_start(active: Set<Seq<char>>, key: Seq<char>) -> Set<Seq<char>> {
    active.insert(key)
}

/// Whether a cancellation under `key` finds a session to signal.
pub open spec fn cancel_signalled(active: Set<Seq<char>>, key: Seq<char>) -> bool {
    active.contains(key)
}

/// The keys in use after the session under `key` has released its entry.
pub open spec fn after_remove(active: Set<Seq<char>>, key: Seq<char>) -> Set<Seq<char>> {
    active.remove(key)
}

/// The active downloads.
pub struct DownloadRegistry {
    entries: StringHashMap<Sender<()>>,
    handed: Ghost<Map<Seq<char>, Receiver<()>>>,
}

impl View for DownloadRegistry {
    type V = Map<Seq<char>, Sender<()>>;

    closed spec fn view(&self) -> Map<Seq<char>, Sender<()>> {
        self.entries@
    }
}

impl DownloadRegistry {
    /// The keys in use.
    pub open spec fn active(&self) -> Set<Seq<char>> {
        self@.dom()
    }

    /// For each key that was started and not released since, the receiving
    /// half that the start handed out: the other half of the channel whose
    /// sending half the start entered under the key.
    pub closed spec fn handed_out(&self) -> Map<Seq<char>, Receiver<()>> {
        self.handed@
    }

    /// A registry without downloads.
    pub fn new() -> (registry: DownloadRegistry)
        ensures
            registry@ == Map::<Seq<char>, Sender<()>>::empty(),
            registry.active() == Set::<Seq<char>>::empty(),
            registry.handed_out() == Map::<Seq<char>, Receiver<()>>::empty(),
    {
        let registry = DownloadRegistry {
            entries: StringHashMap::new(),
            handed: Ghost(Map::empty()),
        };
        assert(registry.active() =~= Set::<Seq<char>>::empty());
        registry
    }

    /// Whether a download runs under `key`.
    pub fn is_active(&self, key: &str) -> (active: bool)
        ensures
            active == self.active().contains(key@),
    {
        self.entries.contains_key(key)
    }

    /// Enters `sender` under `key` unless the key is in use. Tells whether it
    /// was entered.
    pub fn insert_if_absent(&mut self, key: String, sender: Sender<()>) -> (accepted: bool)
        ensures
            accepted == start_accepted(old(self).active(), key@),
            accepted ==> final(self)@ == old(self)@.insert(key@, sender),
            !accepted ==> final(self)@ == old(self)@,
            final(self).active() == after_start(old(self).active(), key@),
            final(self).handed_out() == old(self).handed_out(),
    {
        if self.entries.contains_key(key.as_str()) {
            assert(self.active() =~= after_start(self.active(), key@));
            false
        } else {
            self.entries.insert(key, sender);
            assert(self.active() =~= after_start(old(self).active(), key@));
            true
        }
    }

    /// The sending half that is entered under `key`, if the key is in use.
    pub fn get(&self, key: &str) -> (sender: Option<&Sender<()>>)
        ensures
            sender is Some <==> self.active().contains(key@),
            sender matches Some(found) ==> *found == self@[key@],
    {
        self.entries.get(key)
    }

    /// Starts a download under `key`: if the key is free, a fresh control
    /// channel is made, its sending half is entered under the key and its
    /// receiving half is handed out for the session. If the key is in use,
    /// nothing changes and nothing is handed out.
    pub fn start(&mut self, key: String) -> (control: Option<Receiver<()>>)
        ensures
            control is Some <==> start_accepted(old(self).active(), key@),
            final(self).active() == after_start(old(self).active(), key@),
            final(self)@.remove(key@) == old(self)@.remove(key@),
            control is None ==> final(self)@ == old(self)@,
            control matches Some(receiver) ==> final(self).handed_out() == old(
                self,
            ).handed_out().insert(key@, receiver),
            control is None ==> final(self).handed_out() == old(self).handed_out(),
    {
        if self.entries.contains_key(key.as_str()) {
            assert(self.active() =~= after_start(self.active(), key@));
            None
        } else {
            let ghost name = key@;
            let (sender, receiver) = open_channel(CONTROL_CAPACITY);
            let accepted = self.insert_if_absent(key, sender);
            self.handed = Ghost(self.handed@.insert(name, receiver));
            assert(self@.remove(name) =~= old(self)@.remove(name));
            Some(receiver)
        }
    }

    /// Asks the session under `key` to stop. If the key is in use, a signal
    /// is put into its control channel and the result is `true`, however the
    /// delivery went: a session that no longer listens is ending already. If
    /// the key is free, nothing is signalled and the result is `false`.
    pub fn cancel(&self, key: &str) -> (signalled: bool)
        ensures
            signalled == cancel_signalled(self.active(), key@),
    {
        match self.attempt_cancel(key) {
            Some(_) => true,
            None => false,
        }
    }

    /// As [`DownloadRegistry::cancel`], and tells how the delivery went where
    /// a signal was sent.
    pub fn attempt_cancel(&self, key: &str) -> (delivery: Option<Delivery>)
        ensures
            delivery is Some <==> cancel_signalled(self.active(), key@),
    {
        match self.entries.get(key) {
            Some(sender) => Some(try_signal(sender)),
            None => None,
        }
    }

    /// Releases the entry under `key`, if there is one.
    pub fn remove(&mut self, key: &str)
        ensures
            final(self)@ == old(self)@.remove(key@),
            final(self).active() == after_remove(old(self).active(), key@),
            final(self).handed_out() == old(self).handed_out().remove(key@),
    {
        self.entries.remove(key);
        self.handed = Ghost(self.handed@.remove(key@));
        assert(self.active() =~= after_remove(old(self).active(), key@));
    }
}

/// One call on the registry, as far as the keys in use are concerned.
pub ghost enum RegistryOp {
    Start(Seq<char>),
    Cancel(Seq<char>),
    Remove(Seq<char>),
}

impl RegistryOp {
    /// The key that the call names.
    pub open spec fn key(self) -> Seq<char> {
        match self {
            RegistryOp::Start(key) => key,
            RegistryOp::Cancel(key) => key,
            RegistryOp::Remove(key) => key,
        }
    }
}

/// The keys in use after one call.
pub open spec fn apply(active: Set<Seq<char>>, op: RegistryOp) -> Set<Seq<char>> {
    match op {
        RegistryOp::Start(key) => after_start(active, key),
        RegistryOp::Cancel(_) => active,
        RegistryOp::Remove(key) => after_remove(active, key),
    }
}

/// The keys in use after the calls in `ops`, one after the other.
pub open spec fn apply_all(active: Set<Seq<char>>, ops: Seq<RegistryOp>) -> Set<Seq<char>>
    decreases ops.len(),
{
    if ops.len() == 0 {
        active
    } else {
        apply(apply_all(active, ops.drop_last()), ops.last())
    }
}

/// A call changes nothing for any key but the one it names.
pub proof fn other_keys_untouched(active: Set<Seq<char>>, op: RegistryOp, other: Seq<char>)
    requires
        other != op.key(),
    ensures
        apply(active, op).contains(other) == active.contains(other),
{
}

/// A cancellation changes no entry, and one under a free key signals nobody.
pub proof fn cancel_changes_nothing(active: Set<Seq<char>>, key: Seq<char>)
    ensures
        apply(active, RegistryOp::Cancel(key)) == active,
        !active.contains(key) ==> !cancel_signalled(active, key),
{
}

/// A key stays in use until its entry is released: whatever is called in
/// between, short of a release under the key, a further start under it is
/// rejected and a cancellation under it finds the session.
pub proof fn key_in_use_until_released(active: Set<Seq<char>>, key: Seq<char>, ops: Seq<RegistryOp>)
    requires
        forall|i: int| 0 <= i < ops.len() ==> #[trigger] ops[i] != RegistryOp::Remove(key),
    ensures
        !start_accepted(apply_all(after_start(active, key), ops), key),
        cancel_signalled(apply_all(after_start(active, key), ops), key),
    decreases ops.len(),
{
    if ops.len() > 0 {
        let earlier = ops.drop_last();
        assert forall|i: int| 0 <= i < earlier.len() implies #[trigger] earlier[i]
            != RegistryOp::Remove(key) by {
            assert(earlier[i] == ops[i]);
        }
        key_in_use_until_released(active, key, earlier);
        assert(ops.last() == ops[ops.len() - 1]);
    }
}

/// A key is free once its entry is released: whatever is called afterwards,
/// short of a start under the key, a start under it is accepted and a
/// cancellation under it signals nobody.
pub proof fn key_free_once_released(active: Set<Seq<char>>, key: Seq<char>, ops: Seq<RegistryOp>)
    requires
        forall|i: int| 0 <= i < ops.len() ==> #[trigger] ops[i] != RegistryOp::Start(key),
    ensures
        start_accepted(apply_all(after_remove(active, key), ops), key),
        !cancel_signalled(apply_all(after_remove(active, key), ops), key),
    decreases ops.len(),
{
    if ops.len() > 0 {
        let earlier = ops.drop_last();
        assert forall|i: int| 0 <= i < earlier.len() implies #[trigger] earlier[i]
            != RegistryOp::Start(key) by {
            assert(earlier[i] == ops[i]);
        }
        key_free_once_released(active, key, earlier);
        assert(ops.last() == ops[ops.len() - 1]);
    }
}

/// Two starts under one key, with no release in between: the first is
/// accepted if the key was free, the second is rejected; after the release a
/// third is accepted again.
pub proof fn one_session_per_key(active: Set<Seq<char>>, key: Seq<char>)
    requires
        start_accepted(active, key),
    ensures
        !start_accepted(after_start(active, key), key),
        after_start(after_start(active, key), key) == after_start(active, key),
        start_accepted(after_remove(after_start(active, key), key), key),
{
    assert(after_start(after_start(active, key), key) =~= after_start(active, key));
}

/// Releasing an entry twice is the same as releasing it once.
pub proof fn release_is_idempotent(active: Set<Seq<char>>, key: Seq<char>)
    ensures
        after_remove(after_remove(active, key), key) == after_remove(active, key),
{
    assert(after_remove(after_remove(active, key), key) =~= after_remove(active, key));
}


} // verus!
