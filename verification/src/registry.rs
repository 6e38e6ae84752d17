//! The notification registry: one wake-up channel per notification key.
//!
//! The registry is a `DashMap` from key to the sending half of a payload-free
//! broadcast channel, stored together with a number that tells the channels
//! apart which a key has had one after the other. Everything in this file is
//! a declaration about those two crates that is taken on trust; the decisions
//! built on top of them live in the executor.
//!
//! Two things are trusted, and they are of different kinds. Which keys the map
//! holds, and the number stored under each, is a fact about the map: the
//! functions that change it take it by exclusive reference, so between two
//! calls nothing else can have changed it. Whether a channel is open, and
//! whether it takes a message, is a fact about the moment: the receivers are
//! in other hands, and nothing is claimed about it.

use async_broadcast::{Receiver, Sender};
use dashmap::mapref::one::Ref;
use dashmap::DashMap;
use vstd::prelude::*;

verus! {

/// `dashmap::DashMap`, carried as an opaque value.
#[verifier::external_type_specification]
#[verifier::external_body]
#[verifier::reject_recursive_types(K)]
#[verifier::reject_recursive_types(V)]
#[verifier::reject_recursive_types(S)]
pub struct ExDashMap<K, V, S>(DashMap<K, V, S>);

/// `dashmap::mapref::one::Ref`, the read guard that `DashMap::get` hands out.
#[verifier::external_type_specification]
#[verifier::external_body]
#[verifier::reject_recursive_types(K)]
#[verifier::reject_recursive_types(V)]
#[verifier::reject_recursive_types(S)]
pub struct ExRef<'a, K, V, S>(Ref<'a, K, V, S>);

/// `async_broadcast::Sender`, carried as an opaque value.
#[verifier::external_type_specification]
#[verifier::external_body]
#[verifier::reject_recursive_types(T)]
pub struct ExSender<T>(Sender<T>);

/// `async_broadcast::Receiver`, carried as an opaque value.
#[verifier::external_type_specification]
#[verifier::external_body]
#[verifier::reject_recursive_types(T)]
pub struct ExReceiver<T>(Receiver<T>);

/// The keys that a registry currently holds a channel for, each with the
/// number stored beside its channel.
pub uninterp spec fn registry_channels(m: DashMap<String, (u64, Sender<()>)>) -> Map<
    Seq<char>,
    u64,
>;

/// `DashMap::new`: a fresh map holds no key.
#[verifier::external_body]
pub(crate) fn registry_new() -> (m: DashMap<String, (u64, Sender<()>)>)
    ensures
        registry_channels(m).dom() == Set::<Seq<char>>::empty(),
{
    DashMap::new()
}

/// `DashMap::get`: a guard on the entry stored under `key`, present exactly
/// when the map holds that key, and beside it a copy of the number that the
/// entry holds.
#[verifier::external_body]
pub(crate) fn registry_get<'a>(
    m: &'a DashMap<String, (u64, Sender<()>)>,
    key: &String,
) -> (found: Option<(u64, Ref<'a, String, (u64, Sender<()>)>)>)
    ensures
        found is Some <==> registry_channels(*m).dom().contains(key@),
        found matches Some(entry) ==> registry_channels(*m)[key@] == entry.0,
{
    match m.get(key) {
        Some(guard) => {
            let number = guard.value().0;
            Some((number, guard))
        },
        None => None,
    }
}

/// `Ref::value`: the sender behind a guard.
#[verifier::external_body]
pub(crate) fn guard_sender<'a>(r: &'a Ref<'a, String, (u64, Sender<()>)>) -> (s: &'a Sender<()>)
{
    &r.value().1
}

/// `DashMap::insert`: afterwards the map holds `number` under `key`, and
/// under every other key what it held before; a channel stored under `key`
/// earlier is dropped.
#[verifier::external_body]
pub(crate) fn registry_insert(
    m: &mut DashMap<String, (u64, Sender<()>)>,
    key: String,
    number: u64,
    sender: Sender<()>,
)
    ensures
        registry_channels(*final(m)) == registry_channels(*old(m)).insert(key@, number),
{
    m.insert(key, (number, sender));
}

/// `DashMap::remove`: afterwards the map no longer holds `key`, and holds
/// under every other key what it held before.
#[verifier::external_body]
pub(crate) fn registry_remove(m: &mut DashMap<String, (u64, Sender<()>)>, key: &String)
    ensures
        registry_channels(*final(m)) == registry_channels(*old(m)).remove(key@),
{
    m.remove(key);
}

/// `async_broadcast::broadcast`: a new channel with room for `cap` pending
/// messages. The outside function panics on a capacity of zero.
#[verifier::external_body]
pub(crate) fn channel_open(cap: usize) -> (pair: (Sender<()>, Receiver<()>))
    requires
        cap > 0,
{
    async_broadcast::broadcast(cap)
}

/// `Sender::set_overflow`: switches the channel between rejecting a message
/// when full and overwriting the oldest pending one.
#[verifier::external_body]
pub(crate) fn channel_set_overflow(sender: &mut Sender<()>, overflow: bool)
{
    sender.set_overflow(overflow);
}

/// `Sender::is_closed`: whether the channel is closed at the moment of the
/// call. The answer depends on what the holders of the receivers have done, so
/// nothing is claimed about it.
#[verifier::external_body]
pub(crate) fn channel_is_closed(sender: &Sender<()>) -> (closed: bool)
{
    sender.is_closed()
}

/// `Sender::new_receiver`: one more independent receiver on the channel.
#[verifier::external_body]
pub(crate) fn channel_new_receiver(sender: &Sender<()>) -> (receiver: Receiver<()>)
{
    sender.new_receiver()
}

/// `Sender::try_broadcast`: tries to queue one wake-up without blocking and
/// reports whether the channel took it. It does not where the channel is
/// closed, has no active receiver, or is full and does not overwrite.
#[verifier::external_body]
pub(crate) fn channel_try_signal(sender: &Sender<()>) -> (sent: bool)
{
    sender.try_broadcast(()).is_ok()
}

} // verus!
