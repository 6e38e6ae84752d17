//! The executor: applies models to the store and wakes the observers of the
//! keys that an application touched.
//!
//! An observer subscribes to a key and gets the receiving half of the key's
//! channel. A wake-up carries no data: whoever is woken reads the store
//! again. A channel whose receivers are all gone is closed; its entry stays
//! in the registry until the next notification for its key finds it, or a new
//! subscriber replaces it.
//!
//! Whether a wake-up arrives is up to the channel and to whoever holds its
//! receivers. What the executor answers for is which keys it tries to wake,
//! and how often: it keeps a record of its attempts, which exists for the
//! proofs only and costs nothing at run time.

use crate::error::Error;
use crate::keys::{
    dedup, dedup_keys, lemma_dedup_members, lemma_dedup_of_distinct, strings_view,
};
use crate::models::{lemma_execute_keys_distinct, AnyActerModel, ExecutableModel};
use crate::registry::{
    channel_is_closed, channel_new_receiver, channel_open, channel_set_overflow,
    channel_try_signal, guard_sender, registry_channels, registry_get, registry_insert,
    registry_new, registry_remove,
};
use crate::store::{Store, StoreView};
use async_broadcast::{Receiver, Sender};
use dashmap::DashMap;
use vstd::prelude::*;

verus! {

/// How many wake-ups a channel keeps for a receiver that has not read yet.
pub const BACKLOG: usize = 1;

/// How a channel is set up.
#[derive(Clone, Copy, Debug, PartialEq, Eq, Structural)]
pub struct ChannelSettings {
    /// How many wake-ups the channel keeps for a receiver that has not read
    /// yet.
    pub backlog: usize,
    /// Whether a wake-up that finds the channel full overwrites the oldest
    /// pending one, rather than be rejected.
    pub overflow: bool,
}

/// How every channel of the registry is set up: it keeps one pending
/// wake-up, and a new one overwrites it.
pub open spec fn coalescing() -> ChannelSettings {
    ChannelSettings { backlog: 1, overflow: true }
}

/// What became of the attempt to wake the observers of one key.
#[derive(Clone, Copy, Debug, PartialEq, Eq, Structural)]
pub enum Delivery {
    /// No channel is registered for the key: there is no one to wake.
    NoChannel,
    /// The channel was found closed: every receiver is gone.
    Closed,
    /// The channel did not take the wake-up.
    Rejected,
    /// The channel took the wake-up.
    Delivered,
}

impl Delivery {
    /// Whether the channel is dead and its entry leaves the registry.
    pub open spec fn drops_channel(self) -> bool {
        self is Closed || self is Rejected
    }

    /// Whether the attempt counts as a notification.
    pub open spec fn counts(self) -> bool {
        self is Delivered
    }
}

/// What a new observer of a key is given.
#[derive(Clone, Copy, Debug, PartialEq, Eq, Structural)]
pub enum Placement {
    /// One more receiver on the channel that is registered for the key.
    Join,
    /// The first receiver of a fresh channel that takes the entry of a
    /// closed one.
    Replace,
    /// The first receiver of a fresh channel for a key that had none.
    Create,
}

/// Where a new observer of a key is placed: `found` is `None` where no
/// channel is registered for the key, and else says whether the registered
/// channel is closed. A live channel is joined, a closed one replaced.
pub open spec fn placement(found: Option<bool>) -> Placement {
    match found {
        None => Placement::Create,
        Some(true) => Placement::Replace,
        Some(false) => Placement::Join,
    }
}

/// The number of the channel that takes the place of the one numbered
/// `number`. It differs from `number`.
pub open spec fn number_after(number: u64) -> u64 {
    if number < u64::MAX {
        (number + 1) as u64
    } else {
        0
    }
}

/// The registry `channels` after a fresh channel took the entry of `key`.
/// The first channel of a key has the number 0; one that replaces another
/// has the number after it, so that the entry is not what it was.
pub open spec fn reopened(channels: Map<Seq<char>, u64>, key: Seq<char>) -> Map<Seq<char>, u64> {
    channels.insert(
        key,
        if channels.dom().contains(key) {
            number_after(channels[key])
        } else {
            0
        },
    )
}

/// The registry `channels` after a new observer of `key` was placed as
/// `placement` says. Joining leaves the registry as it is: every entry, that
/// of `key` too, holds the channel it held. Replacing and creating put a
/// fresh channel under `key`. Joining a key without a channel opens one.
pub open spec fn seated(channels: Map<Seq<char>, u64>, key: Seq<char>, placement: Placement) -> Map<
    Seq<char>,
    u64,
> {
    match placement {
        Placement::Join => if channels.dom().contains(key) {
            channels
        } else {
            reopened(channels, key)
        },
        Placement::Replace | Placement::Create => reopened(channels, key),
    }
}

/// Whether `after` is what the registry `before` can be once a new observer
/// of `key` was registered: a key without a channel has got one, and a key
/// with a channel has kept it or has got a fresh one in its place.
pub open spec fn subscribed(
    before: Map<Seq<char>, u64>,
    after: Map<Seq<char>, u64>,
    key: Seq<char>,
) -> bool {
    if before.dom().contains(key) {
        after == seated(before, key, Placement::Join) || after == seated(
            before,
            key,
            Placement::Replace,
        )
    } else {
        after == seated(before, key, Placement::Create)
    }
}

/// A fresh channel under a key is never the channel that the key had.
pub proof fn lemma_reopened_is_fresh(channels: Map<Seq<char>, u64>, key: Seq<char>)
    requires
        channels.dom().contains(key),
    ensures
        reopened(channels, key)[key] != channels[key],
        reopened(channels, key) != channels,
{
    assert(reopened(channels, key)[key] == number_after(channels[key]));
}

/// Placing an observer changes no entry but that of its key, and leaves a
/// channel registered for the key.
pub proof fn lemma_seated_frame(channels: Map<Seq<char>, u64>, key: Seq<char>, placement: Placement)
    ensures
        seated(channels, key, placement).dom() == channels.dom().insert(key),
        forall|other: Seq<char>|
            other != key && channels.dom().contains(other) ==> seated(
                channels,
                key,
                placement,
            )[other] == channels[other],
{
    assert(channels.dom().contains(key) ==> channels.dom().insert(key) =~= channels.dom());
}

/// How a wait for a key begins.
pub enum WaitFor {
    /// The store already holds the model: there is nothing to wait for.
    Ready(AnyActerModel),
    /// The store does not hold the model yet: the next wake-up on this
    /// receiver, registered before the store was read, says when to look
    /// again.
    Pending(Receiver<()>),
}

/// How the suspension of a pending wait ended.
#[derive(Clone, Copy, Debug, PartialEq, Eq, Structural)]
pub enum Wake {
    /// A wake-up arrived.
    Signalled,
    /// The channel was closed or the receiver fell behind: no wake-up will
    /// tell more than the store does.
    Disconnected,
    /// The deadline passed before anything arrived.
    DeadlineElapsed,
}

/// The number of wake-ups after one more, which stops at `u32::MAX`.
pub open spec fn count_up(counter: u32) -> u32 {
    if counter < u32::MAX {
        (counter + 1) as u32
    } else {
        counter
    }
}

/// How many of `keys` are in `registered`.
pub open spec fn count_registered(keys: Seq<Seq<char>>, registered: Set<Seq<char>>) -> nat
    decreases keys.len(),
{
    if keys.len() == 0 {
        0
    } else {
        count_registered(keys.drop_last(), registered) + if registered.contains(keys.last()) {
            1nat
        } else {
            0nat
        }
    }
}

/// `n` as a count of wake-ups, which stops at `u32::MAX`.
pub open spec fn capped(n: nat) -> u32 {
    if n <= u32::MAX {
        n as u32
    } else {
        u32::MAX
    }
}

/// A registry that loses a key that is not among `keys` holds as many of
/// `keys` as before.
pub proof fn lemma_count_without(
    keys: Seq<Seq<char>>,
    registered: Set<Seq<char>>,
    key: Seq<char>,
)
    requires
        !keys.contains(key),
    ensures
        count_registered(keys, registered.remove(key)) == count_registered(keys, registered),
    decreases keys.len(),
{
    if keys.len() > 0 {
        let front = keys.drop_last();
        assert forall|k: Seq<char>| front.contains(k) implies keys.contains(k) by {
            let i = choose|i: int| 0 <= i < front.len() && front[i] == k;
            assert(keys[i] == k);
        }
        assert(keys[keys.len() - 1] == keys.last());
        assert(keys.contains(keys.last()));
        lemma_count_without(front, registered, key);
    }
}

/// Of `keys` no more are in a part of a registry than in the whole of it.
pub proof fn lemma_count_monotone(
    keys: Seq<Seq<char>>,
    part: Set<Seq<char>>,
    whole: Set<Seq<char>>,
)
    requires
        part.subset_of(whole),
    ensures
        count_registered(keys, part) <= count_registered(keys, whole),
    decreases keys.len(),
{
    if keys.len() > 0 {
        lemma_count_monotone(keys.drop_last(), part, whole);
    }
}

/// The store together with the registry of the channels, one per key.
pub struct Executor {
    store: Store,
    notifiers: DashMap<String, (u64, Sender<()>)>,
    /// How the observer that was registered last was placed.
    placed: Option<Placement>,
    attempts: Ghost<Seq<Seq<char>>>,
}

impl Executor {
    /// The contents of the store.
    pub closed spec fn store_view(&self) -> StoreView {
        self.store@
    }

    /// The registry: the keys for which a channel is registered, each with
    /// the number of its channel. The entry of a key holds the same channel
    /// as long as its number stays the same.
    pub closed spec fn channels(&self) -> Map<Seq<char>, u64> {
        registry_channels(self.notifiers)
    }

    /// The keys for which a channel is registered.
    pub open spec fn subscriptions(&self) -> Set<Seq<char>> {
        self.channels().dom()
    }

    /// How the observer that was registered last was placed; `None` as long
    /// as none was.
    pub closed spec fn placed(&self) -> Option<Placement> {
        self.placed
    }

    /// The keys that the executor has tried to wake the observers of, in the
    /// order of the attempts, each as often as it was tried.
    pub closed spec fn attempted(&self) -> Seq<Seq<char>> {
        self.attempts@
    }

    /// An executor over `store`, with no channel registered.
    pub fn new(store: Store) -> (executor: Result<Executor, Error>)
        ensures
            executor matches Ok(e) && e.store_view() == store@ && e.channels() == Map::<
                Seq<char>,
                u64,
            >::empty() && e.subscriptions() == Set::<Seq<char>>::empty() && e.attempted()
                == Seq::<Seq<char>>::empty() && e.placed() is None,
    {
        let notifiers = registry_new();
        assert(registry_channels(notifiers) =~= Map::<Seq<char>, u64>::empty());
        Ok(Executor { store, notifiers, placed: None, attempts: Ghost(Seq::empty()) })
    }

    /// The store. Every model in it is stored under its own identifier.
    pub fn store(&self) -> (store: &Store)
        ensures
            store@ == self.store_view(),
            self.store_view().keyed(),
    {
        self.store.check_keyed();
        &self.store
    }

    /// The store, for changing it directly. Whoever changes the store this
    /// way answers for the notifications: see [`Executor::notify`].
    pub fn store_mut(&mut self) -> (store: &mut Store)
        ensures
            store@ == old(self).store_view(),
            final(self).store_view() == final(store)@,
            final(self).channels() == old(self).channels(),
            final(self).placed() == old(self).placed(),
            final(self).attempted() == old(self).attempted(),
    {
        &mut self.store
    }

    /// The number of the channel that is registered for `key`, if one is.
    pub fn channel(&self, key: &String) -> (number: Option<u64>)
        ensures
            number == if self.subscriptions().contains(key@) {
                Some(self.channels()[key@])
            } else {
                None
            },
    {
        match registry_get(&self.notifiers, key) {
            Some(found) => Some(found.0),
            None => None,
        }
    }

    /// How the observer that was registered last was placed: whether it
    /// joined the channel of its key, or got a fresh one in the place of a
    /// closed one or of none.
    pub fn last_placement(&self) -> (placement: Option<Placement>)
        ensures
            placement == self.placed(),
    {
        self.placed
    }

    /// How the channels of the registry are set up: each keeps one pending
    /// wake-up, and a new one overwrites it rather than be rejected.
    pub fn settings() -> (settings: ChannelSettings)
        ensures
            settings == coalescing(),
    {
        ChannelSettings { backlog: BACKLOG, overflow: true }
    }

    /// Looks at the channel that is registered for `key`: `None` where none
    /// is, and else whether the channel is closed at the moment.
    ///
    /// Whether a channel is closed is up to the holders of its receivers;
    /// what is certain is that there is an answer exactly when a channel is
    /// registered for the key.
    pub fn probe(&self, key: &String) -> (found: Option<bool>)
        ensures
            found is Some <==> self.subscriptions().contains(key@),
    {
        match registry_get(&self.notifiers, key) {
            Some(found) => Some(channel_is_closed(guard_sender(&found.1))),
            None => None,
        }
    }

    /// Where a new observer of a key is placed, given what [`Executor::probe`]
    /// found: a live channel is joined, a closed one is replaced, and a key
    /// without a channel gets one.
    pub fn place(found: Option<bool>) -> (placement: Placement)
        ensures
            placement == self::placement(found),
    {
        match found {
            None => Placement::Create,
            Some(true) => Placement::Replace,
            Some(false) => Placement::Join,
        }
    }

    /// One more receiver on the channel that is registered for `key`, as far
    /// as one is registered. The registry is left as it is.
    pub fn join(&self, key: &String) -> (receiver: Option<Receiver<()>>)
        ensures
            receiver is Some <==> self.subscriptions().contains(key@),
    {
        match registry_get(&self.notifiers, key) {
            Some(found) => Some(channel_new_receiver(guard_sender(&found.1))),
            None => None,
        }
    }

    /// The number that a fresh channel for `key` gets: 0 for the first
    /// channel of a key, and for one that replaces another the number after
    /// that of the channel it replaces.
    pub fn fresh_number(&self, key: &String) -> (number: u64)
        ensures
            number == if self.subscriptions().contains(key@) {
                number_after(self.channels()[key@])
            } else {
                0
            },
            reopened(self.channels(), key@) == self.channels().insert(key@, number),
    {
        match self.channel(key) {
            Some(number) => if number < u64::MAX {
                number + 1
            } else {
                0
            },
            None => 0,
        }
    }

    /// Registers a fresh channel for `key`, in place of whatever was
    /// registered for it, and hands out its first receiver. The channel is
    /// set up as [`Executor::settings`] says. No other entry changes.
    pub fn open(&mut self, key: String) -> (receiver: Receiver<()>)
        ensures
            final(self).channels() == reopened(old(self).channels(), key@),
            final(self).placed() == old(self).placed(),
            final(self).subscriptions() == old(self).subscriptions().insert(key@),
            final(self).store_view() == old(self).store_view(),
            final(self).attempted() == old(self).attempted(),
    {
        let settings = Self::settings();
        let number = self.fresh_number(&key);
        let (mut sender, receiver) = channel_open(settings.backlog);
        channel_set_overflow(&mut sender, settings.overflow);
        registry_insert(&mut self.notifiers, key, number, sender);
        receiver
    }

    /// Places a new observer of `key` as `placement` says and hands out its
    /// receiver.
    ///
    /// To join is to get one more receiver on the channel that is registered
    /// for the key: the registry stays as it is, so the entry of the key
    /// still holds that channel. To replace or to create is to get the first
    /// receiver of a fresh channel, which takes the entry of the key.
    /// Joining a key without a channel opens one.
    pub fn seat(&mut self, key: String, placement: Placement) -> (receiver: Receiver<()>)
        ensures
            final(self).channels() == seated(old(self).channels(), key@, placement),
            final(self).placed() == Some(placement),
            final(self).subscriptions() == old(self).subscriptions().insert(key@),
            final(self).store_view() == old(self).store_view(),
            final(self).attempted() == old(self).attempted(),
    {
        self.placed = Some(placement);
        let joined = match placement {
            Placement::Join => self.join(&key),
            Placement::Replace | Placement::Create => None,
        };
        match joined {
            Some(receiver) => {
                assert(self.subscriptions().insert(key@) =~= self.subscriptions());
                receiver
            },
            None => self.open(key),
        }
    }

    /// Registers an observer for `key`, given what [`Executor::probe`] found
    /// for the key, and hands out its receiver: the observer is placed as
    /// [`Executor::place`] says. On a live channel the registry stays as it
    /// is and the receiver is one more on that channel; on a closed one, or
    /// on none, a fresh channel takes the entry of the key.
    pub fn register(&mut self, key: String, found: Option<bool>) -> (receiver: Receiver<()>)
        ensures
            final(self).channels() == seated(old(self).channels(), key@, placement(found)),
            final(self).placed() == Some(placement(found)),
            final(self).subscriptions() == old(self).subscriptions().insert(key@),
            final(self).store_view() == old(self).store_view(),
            final(self).attempted() == old(self).attempted(),
    {
        let placement = Self::place(found);
        self.seat(key, placement)
    }

    /// Registers an observer for `key` and hands out its receiver.
    ///
    /// The channel registered for the key is looked at, and the observer is
    /// placed by what was found, as [`Executor::place`] says. Where a live
    /// channel is registered, the receiver is one more on that channel, and
    /// the receivers it had stay as they are. Where none is registered, or
    /// the one registered is closed, a fresh channel takes the entry, so that
    /// a key is never left without a channel that can be woken. Either way a
    /// channel is registered for the key afterwards, and for every key that
    /// had one.
    ///
    /// Whether a registered channel is closed is up to the holders of its
    /// receivers, so for a key with a channel the registry afterwards is one
    /// of two: as it was, or with a fresh channel under the key. Which of
    /// the two it is stands in [`Executor::last_placement`] afterwards, and
    /// the registry is what that placement makes of the one before.
    pub fn subscribe(&mut self, key: String) -> (receiver: Receiver<()>)
        ensures
            final(self).placed() matches Some(how) && final(self).channels() == seated(
                old(self).channels(),
                key@,
                how,
            ) && (how is Create <==> !old(self).subscriptions().contains(key@)),
            subscribed(old(self).channels(), final(self).channels(), key@),
            final(self).subscriptions() == old(self).subscriptions().insert(key@),
            final(self).store_view() == old(self).store_view(),
            final(self).attempted() == old(self).attempted(),
    {
        let found = self.probe(&key);
        self.register(key, found)
    }

    /// Begins a wait for the model stored under `key`.
    ///
    /// The observer is registered first, and only then is the store read, so
    /// that a model that arrives in between still wakes the receiver. Where
    /// the store holds the model, it is returned at once. Otherwise the
    /// receiver is returned: after its next wake-up, or when its deadline has
    /// passed, [`Executor::finish_wait`] gives the result.
    pub fn wait_for(&mut self, key: String) -> (wait: WaitFor)
        ensures
            final(self).placed() matches Some(how) && final(self).channels() == seated(
                old(self).channels(),
                key@,
                how,
            ) && (how is Create <==> !old(self).subscriptions().contains(key@)),
            subscribed(old(self).channels(), final(self).channels(), key@),
            final(self).subscriptions() == old(self).subscriptions().insert(key@),
            final(self).store_view() == old(self).store_view(),
            final(self).attempted() == old(self).attempted(),
            match old(self).store_view().get(key@) {
                Ok(stored) => wait matches WaitFor::Ready(model) && model@ == stored,
                Err(_) => wait is Pending,
            },
    {
        let receiver = self.subscribe(key.clone());
        match self.store.get(&key) {
            Ok(model) => WaitFor::Ready(model),
            Err(_) => WaitFor::Pending(receiver),
        }
    }

    /// Ends a pending wait for the model stored under `key`.
    ///
    /// A wait whose deadline passed fails with `Timeout`. In every other case
    /// the store is read again and decides: the wake-up itself says nothing.
    pub fn finish_wait(&self, key: &String, wake: Wake) -> (model: Result<AnyActerModel, Error>)
        ensures
            wake is DeadlineElapsed ==> model == Err::<AnyActerModel, Error>(Error::Timeout),
            !(wake is DeadlineElapsed) ==> match self.store_view().get(key@) {
                Ok(stored) => model matches Ok(m) && m@ == stored,
                Err(e) => model == Err::<AnyActerModel, Error>(e),
            },
    {
        match wake {
            Wake::DeadlineElapsed => Err(Error::Timeout),
            _ => self.store.get(key),
        }
    }

    /// Tries once to wake the observers of `key`, without blocking, and
    /// records the attempt.
    ///
    /// Whether the channel is still open and whether it takes the wake-up is
    /// up to the holders of its receivers; what is certain is that the answer
    /// is `NoChannel` exactly when no channel is registered for the key.
    pub fn signal(&mut self, key: &String) -> (delivery: Delivery)
        ensures
            delivery is NoChannel <==> !old(self).subscriptions().contains(key@),
            final(self).attempted() == old(self).attempted().push(key@),
            final(self).channels() == old(self).channels(),
            final(self).placed() == old(self).placed(),
            final(self).store_view() == old(self).store_view(),
    {
        proof {
            self.attempts@ = self.attempts@.push(key@);
        }
        match registry_get(&self.notifiers, key) {
            None => Delivery::NoChannel,
            Some(found) => {
                let sender = guard_sender(&found.1);
                if channel_is_closed(sender) {
                    Delivery::Closed
                } else if channel_try_signal(sender) {
                    Delivery::Delivered
                } else {
                    Delivery::Rejected
                }
            },
        }
    }

    /// Acts on the outcome of an attempt to wake the observers of `key`: a
    /// dead channel leaves the registry, a wake-up that was taken is counted,
    /// and a key without a channel changes nothing.
    pub fn settle(&mut self, key: &String, delivery: Delivery, counter: u32) -> (count: u32)
        ensures
            final(self).store_view() == old(self).store_view(),
            final(self).attempted() == old(self).attempted(),
            final(self).channels() == if delivery.drops_channel() {
                old(self).channels().remove(key@)
            } else {
                old(self).channels()
            },
            final(self).placed() == old(self).placed(),
            count == if delivery.counts() {
                count_up(counter)
            } else {
                counter
            },
    {
        match delivery {
            Delivery::NoChannel => counter,
            Delivery::Closed | Delivery::Rejected => {
                registry_remove(&mut self.notifiers, key);
                counter
            },
            Delivery::Delivered => {
                if counter < u32::MAX {
                    counter + 1
                } else {
                    counter
                }
            },
        }
    }

    /// Wakes the observers of `keys` and returns how many channels took the
    /// wake-up.
    ///
    /// Each key is tried once, however often it is listed, in the order in
    /// which the keys are first listed. A key without a channel is passed
    /// over. A channel found dead leaves the registry; no other entry does.
    /// So a listed key that had a channel is either counted or gone from the
    /// registry: the count is the number of distinct keys listed that have a
    /// channel afterwards, as far as a `u32` can hold it.
    pub fn notify(&mut self, keys: Vec<String>) -> (count: u32)
        ensures
            final(self).store_view() == old(self).store_view(),
            final(self).attempted() == old(self).attempted() + dedup(strings_view(keys@)),
            final(self).subscriptions().subset_of(old(self).subscriptions()),
            final(self).channels() == old(self).channels().restrict(final(self).subscriptions()),
            final(self).placed() == old(self).placed(),
            forall|k: Seq<char>|
                old(self).subscriptions().contains(k) && !strings_view(keys@).contains(k)
                    ==> final(self).subscriptions().contains(k),
            count == capped(
                count_registered(dedup(strings_view(keys@)), final(self).subscriptions()),
            ),
            count <= count_registered(dedup(strings_view(keys@)), old(self).subscriptions()),
    {
        let distinct = dedup_keys(&keys);
        let ghost wanted = strings_view(distinct@);
        let ghost before = self.subscriptions();
        let ghost registry = self.channels();
        proof {
            lemma_dedup_members(strings_view(keys@));
            assert(registry =~= registry.restrict(before));
        }
        let mut counter: u32 = 0;
        let mut i: usize = 0;
        assert(old(self).attempted() + wanted.take(0) =~= old(self).attempted());
        while i < distinct.len()
            invariant
                i <= distinct.len(),
                wanted == strings_view(distinct@),
                wanted.no_duplicates(),
                self.store_view() == old(self).store_view(),
                self.attempted() == old(self).attempted() + wanted.take(i as int),
                self.subscriptions().subset_of(before),
                self.channels() == registry.restrict(self.subscriptions()),
                self.placed() == old(self).placed(),
                forall|k: Seq<char>|
                    before.contains(k) && !self.subscriptions().contains(k) ==> exists|j: int|
                        0 <= j < i && wanted[j] == k,
                counter == capped(count_registered(wanted.take(i as int), self.subscriptions())),
            decreases distinct.len() - i,
        {
            let ghost current = self.subscriptions();
            let delivery = self.signal(&distinct[i]);
            counter = self.settle(&distinct[i], delivery, counter);
            proof {
                let key = wanted[i as int];
                assert(key == distinct@[i as int]@);
                assert(wanted.take(i + 1).drop_last() =~= wanted.take(i as int));
                assert(wanted.take(i + 1).last() == key);
                assert(old(self).attempted() + wanted.take(i + 1) =~= (old(self).attempted()
                    + wanted.take(i as int)).push(key));
                assert(!wanted.take(i as int).contains(key)) by {
                    if wanted.take(i as int).contains(key) {
                        let j = choose|j: int|
                            0 <= j < wanted.take(i as int).len() && wanted.take(i as int)[j]
                                == key;
                        assert(wanted[j] == wanted[i as int]);
                    }
                }
                if delivery.drops_channel() {
                    lemma_count_without(wanted.take(i as int), current, key);
                }
                assert(self.channels() =~= registry.restrict(self.subscriptions()));
                if current.contains(key) {
                    assert(before.contains(key));
                }
                assert forall|k: Seq<char>|
                    before.contains(k) && !self.subscriptions().contains(k) implies exists|j: int|
                    0 <= j < i + 1 && wanted[j] == k by {
                    if current.contains(k) {
                        assert(k == key);
                        assert(wanted[i as int] == k);
                    } else {
                        let j = choose|j: int| 0 <= j < i && wanted[j] == k;
                        assert(0 <= j < i + 1 && wanted[j] == k);
                    }
                }
            }
            i += 1;
        }
        proof {
            assert(wanted.take(distinct.len() as int) =~= wanted);
            lemma_count_monotone(wanted, self.subscriptions(), before);
            assert forall|k: Seq<char>|
                before.contains(k) && !strings_view(keys@).contains(k)
                    implies self.subscriptions().contains(k) by {
                if !self.subscriptions().contains(k) {
                    let j = choose|j: int| 0 <= j < i && wanted[j] == k;
                    assert(wanted.contains(k));
                }
            }
        }
        counter
    }

    /// Applies `model` and wakes the observers of the keys it touched.
    ///
    /// Where applying the model succeeds, each of the keys it yields is tried
    /// once. Where it fails, the failure is returned, the store is as it was
    /// and nobody is woken.
    pub fn handle(&mut self, model: AnyActerModel) -> (done: Result<(), Error>)
        ensures
            match model@.execute(old(self).store_view()) {
                Ok(applied) => {
                    &&& done is Ok
                    &&& final(self).store_view() == applied.store
                    &&& final(self).attempted() == old(self).attempted() + applied.keys
                    &&& final(self).subscriptions().subset_of(old(self).subscriptions())
                    &&& final(self).channels() == old(self).channels().restrict(
                        final(self).subscriptions(),
                    )
                    &&& forall|k: Seq<char>|
                        old(self).subscriptions().contains(k) && !applied.keys.contains(k)
                            ==> final(self).subscriptions().contains(k)
                },
                Err(e) => {
                    &&& done == Err::<(), Error>(e)
                    &&& final(self).store_view() == old(self).store_view()
                    &&& final(self).channels() == old(self).channels()
                    &&& final(self).attempted() == old(self).attempted()
                },
            },
    {
        proof {
            lemma_execute_keys_distinct(self.store_view(), model@);
        }
        match model.execute(&mut self.store) {
            Ok(keys) => {
                proof {
                    lemma_dedup_of_distinct(strings_view(keys@));
                }
                self.notify(keys);
                Ok(())
            },
            Err(e) => Err(e),
        }
    }
}

} // verus!
