//! Read tracking: the receipt a user sends for a model, and the aggregate
//! that counts the users who have read it.
//!
//! An aggregate is loaded, changed and written back. Applying a receipt
//! holds the store for itself from the load to the write, so no other event
//! for the same model comes in between and no count is lost.

use crate::content::BelongsTo;
use crate::error::Error;
use crate::keys::{
    clone_keys, dedup, dedup_keys, derive_key, derived_key, key_listed, lemma_strings_push,
    strings_view,
};
use crate::models::{
    has_capability, written, ActerModel, AnyActerModel, AnyActerModelView, Applied, Capability,
    EventMeta, EventMetaView, ExecutableModel, RedactedActerModel,
};
use crate::store::{lemma_save_frame, RawValue, RawValueView, Store, StoreView};
use vstd::prelude::*;

verus! {

/// The content of a read receipt event: which model was read.
#[derive(Debug, PartialEq, Eq)]
pub struct ReadReceiptEventContent {
    /// The model that was read.
    pub on: BelongsTo,
}

impl Clone for ReadReceiptEventContent {
    fn clone(&self) -> (copy: Self)
        ensures
            copy.on.event_id@ == self.on.event_id@,
    {
        ReadReceiptEventContent { on: self.on.clone() }
    }
}

/// A read receipt: the sender of `meta` has read the model `inner.on`.
#[derive(Debug, PartialEq, Eq)]
pub struct ReadReceipt {
    pub inner: ReadReceiptEventContent,
    pub meta: EventMeta,
}

/// The contents of a [`ReadReceipt`].
pub struct ReadReceiptView {
    /// The identifier of the model that was read.
    pub on: Seq<char>,
    pub meta: EventMetaView,
}

impl View for ReadReceipt {
    type V = ReadReceiptView;

    open spec fn view(&self) -> ReadReceiptView {
        ReadReceiptView { on: self.inner.on.event_id@, meta: self.meta@ }
    }
}

impl Clone for ReadReceipt {
    fn clone(&self) -> (copy: Self)
        ensures
            copy@ == self@,
    {
        ReadReceipt { inner: self.inner.clone(), meta: self.meta.clone() }
    }
}

/// The tag of the derived key under which read tracking keeps its aggregate
/// and files its receipts.
pub open spec fn read_receipts_tag() -> Seq<char> {
    "read_receipts"@
}

/// The aggregate of the read receipts for one model: who has read it.
#[derive(Debug, PartialEq, Eq)]
pub struct ReadReceiptStats {
    /// Whether the user of the store's own account is among the readers.
    pub user_has_read: bool,
    /// How many users have read the model.
    pub total_views: u32,
    /// The users who have read the model, in the order their first receipt
    /// arrived.
    pub users_viewed: Vec<String>,
}

/// The contents of a [`ReadReceiptStats`].
pub struct ReadReceiptStatsView {
    pub user_has_read: bool,
    pub total_views: u32,
    pub users_viewed: Seq<Seq<char>>,
}

impl ReadReceiptStatsView {
    /// The aggregate of a model that nobody has read.
    pub open spec fn empty() -> ReadReceiptStatsView {
        ReadReceiptStatsView { user_has_read: false, total_views: 0, users_viewed: Seq::empty() }
    }

    /// Whether `user` is already counted.
    pub open spec fn has_counted(self, user: Seq<char>) -> bool {
        self.users_viewed.contains(user)
    }

    /// The aggregate after a receipt of `user`, who is the store's own user
    /// exactly if `own` holds. A user who is already counted changes nothing.
    /// The count stops at `u32::MAX`.
    pub open spec fn record(self, user: Seq<char>, own: bool) -> ReadReceiptStatsView {
        if self.has_counted(user) {
            self
        } else {
            ReadReceiptStatsView {
                user_has_read: self.user_has_read || own,
                total_views: if self.total_views < u32::MAX {
                    (self.total_views + 1) as u32
                } else {
                    self.total_views
                },
                users_viewed: self.users_viewed.push(user),
            }
        }
    }

    /// No user is listed twice, and the count is the number of users listed,
    /// as far as a `u32` can hold it.
    pub open spec fn wf(self) -> bool {
        &&& self.users_viewed.no_duplicates()
        &&& self.total_views == if self.users_viewed.len() <= u32::MAX {
            self.users_viewed.len() as int
        } else {
            u32::MAX as int
        }
    }
}

impl View for ReadReceiptStats {
    type V = ReadReceiptStatsView;

    open spec fn view(&self) -> ReadReceiptStatsView {
        ReadReceiptStatsView {
            user_has_read: self.user_has_read,
            total_views: self.total_views,
            users_viewed: strings_view(self.users_viewed@),
        }
    }
}

impl Clone for ReadReceiptStats {
    fn clone(&self) -> (copy: Self)
        ensures
            copy@ == self@,
    {
        ReadReceiptStats {
            user_has_read: self.user_has_read,
            total_views: self.total_views,
            users_viewed: clone_keys(&self.users_viewed),
        }
    }
}

impl ReadReceiptStats {
    /// Whether the user of the store's own account is among the readers.
    pub fn user_has_read(&self) -> (user_has_read: &bool)
        ensures
            *user_has_read == self@.user_has_read,
    {
        &self.user_has_read
    }

    /// How many users have read the model.
    pub fn total_views(&self) -> (total_views: &u32)
        ensures
            *total_views == self@.total_views,
    {
        &self.total_views
    }

    /// The users who have read the model, in the order their first receipt
    /// arrived.
    pub fn users_viewed(&self) -> (users_viewed: &Vec<String>)
        ensures
            strings_view(users_viewed@) == self@.users_viewed,
    {
        &self.users_viewed
    }
}

impl Default for ReadReceiptStats {
    fn default() -> (stats: Self)
        ensures
            stats@ == ReadReceiptStatsView::empty(),
    {
        let stats = ReadReceiptStats {
            user_has_read: false,
            total_views: 0,
            users_viewed: Vec::new(),
        };
        assert(stats@.users_viewed =~= Seq::<Seq<char>>::empty());
        stats
    }
}

/// Counting a user keeps the aggregate well formed and lists the user.
pub proof fn lemma_record_keeps_wf(stats: ReadReceiptStatsView, user: Seq<char>, own: bool)
    requires
        stats.wf(),
    ensures
        stats.record(user, own).wf(),
        stats.record(user, own).has_counted(user),
        forall|other: Seq<char>|
            stats.has_counted(other) ==> stats.record(user, own).has_counted(other),
{
    let after = stats.record(user, own);
    if !stats.has_counted(user) {
        assert(after.users_viewed[stats.users_viewed.len() as int] == user);
        assert forall|i: int, j: int|
            0 <= i < after.users_viewed.len() && 0 <= j < after.users_viewed.len() && i
                != j implies after.users_viewed[i] != after.users_viewed[j] by {
            if i < stats.users_viewed.len() && j < stats.users_viewed.len() {
                assert(stats.users_viewed[i] != stats.users_viewed[j]);
            } else if i < stats.users_viewed.len() {
                assert(stats.users_viewed.contains(stats.users_viewed[i]));
            } else {
                assert(stats.users_viewed.contains(stats.users_viewed[j]));
            }
        }
        assert forall|other: Seq<char>| stats.has_counted(other) implies after.has_counted(
            other,
        ) by {
            let i = choose|i: int| 0 <= i < stats.users_viewed.len() && stats.users_viewed[i]
                == other;
            assert(after.users_viewed[i] == other);
        }
    }
}

/// A user is counted once: a second receipt of the same user changes
/// nothing. Where the user was not counted before and the count has room, the
/// first receipt raises the count by one and appends the user.
pub proof fn lemma_record_counts_once(
    stats: ReadReceiptStatsView,
    user: Seq<char>,
    first: bool,
    second: bool,
)
    ensures
        stats.record(user, first).record(user, second) == stats.record(user, first),
        !stats.has_counted(user) ==> stats.record(user, first).users_viewed
            == stats.users_viewed.push(user),
        !stats.has_counted(user) && stats.total_views < u32::MAX ==> stats.record(
            user,
            first,
        ).total_views == stats.total_views + 1,
        stats.has_counted(user) ==> stats.record(user, first) == stats,
{
    if !stats.has_counted(user) {
        let after = stats.record(user, first);
        assert(after.users_viewed[stats.users_viewed.len() as int] == user);
        assert(after.has_counted(user));
    }
}

/// The key under which the aggregate of the model `parent` is stored:
/// `"{parent}::read_receipts"`.
pub open spec fn stats_key(parent: Seq<char>) -> Seq<char> {
    derived_key(parent, read_receipts_tag())
}

/// The aggregate that `store` holds under `key`, or the empty one where it
/// holds none that can be read as read receipts.
pub open spec fn loaded_stats(store: StoreView, key: Seq<char>) -> ReadReceiptStatsView {
    match store.get_raw(key) {
        Ok(RawValueView::ReadReceipts(stats)) => stats,
        _ => ReadReceiptStatsView::empty(),
    }
}

impl ReadReceiptView {
    /// Applying the receipt to `store`.
    ///
    /// The model it is about must be stored; otherwise the receipt fails as
    /// the lookup does. A model without read tracking has the receipt
    /// ignored. Otherwise the receipt is saved, its sender is counted in the
    /// aggregate of the model it is about unless already counted, and the
    /// keys are the indices of the receipt and, where the aggregate changed,
    /// the key of the aggregate, each once; with the backend down that fails
    /// with `StoreBackend`. The identifier of the receipt is not among the
    /// keys.
    pub open spec fn apply(self, store: StoreView) -> Result<Applied, Error> {
        match store.get(self.on) {
            Err(e) => Err(e),
            Ok(parent) => {
                if !parent.capabilities().contains(Capability::ReadTracking) {
                    Ok(Applied { store, keys: Seq::empty() })
                } else {
                    let key = stats_key(self.on);
                    let stats = loaded_stats(store, key);
                    let receipt = AnyActerModelView::ReadReceipt(self);
                    let saved = store.save(receipt);
                    let indizes = receipt.indizes(store.user_id);
                    if stats.has_counted(self.meta.sender) {
                        written(store, Applied { store: saved, keys: dedup(indizes) })
                    } else {
                        written(
                            store,
                            Applied {
                                store: saved.set_raw(
                                    key,
                                    RawValueView::ReadReceipts(
                                        stats.record(
                                            self.meta.sender,
                                            self.meta.sender == store.user_id,
                                        ),
                                    ),
                                ),
                                keys: dedup(indizes.push(key)),
                            },
                        )
                    }
                }
            },
        }
    }
}

/// The manager of the read receipts of one model: it loads the aggregate,
/// counts a reader and writes the aggregate back under its own key.
#[derive(Debug)]
pub struct ReadReceiptsManager {
    /// The aggregate as loaded, with the receipts added since.
    pub stats: ReadReceiptStats,
    event_id: String,
}

impl ReadReceiptsManager {
    /// The identifier of the model whose receipts are managed.
    pub closed spec fn parent(&self) -> Seq<char> {
        self.event_id@
    }

    /// The aggregate that the manager holds.
    pub closed spec fn counted(&self) -> ReadReceiptStatsView {
        self.stats@
    }

    fn stats_field_for(parent: &str) -> (key: String)
        ensures
            key@ == stats_key(parent@),
    {
        derive_key(parent, "read_receipts")
    }

    /// Loads the aggregate of the model `event_id` from `store`. Where the
    /// store holds none that can be read, the manager starts from the empty
    /// aggregate.
    pub fn from_store_and_event_id(store: &Store, event_id: &String) -> (manager:
        ReadReceiptsManager)
        ensures
            manager.parent() == event_id@,
            manager.counted() == loaded_stats(store@, stats_key(event_id@)),
    {
        let key = Self::stats_field_for(event_id.as_str());
        let stats = match store.get_raw(&key) {
            Ok(RawValue::ReadReceipts(stats)) => stats,
            _ => ReadReceiptStats::default(),
        };
        ReadReceiptsManager { stats, event_id: event_id.clone() }
    }

    /// The identifier of the model whose receipts are managed.
    pub fn event_id(&self) -> (id: String)
        ensures
            id@ == self.parent(),
    {
        self.event_id.clone()
    }

    /// The content of a receipt for the managed model.
    pub fn construct_read_event(&self) -> (content: ReadReceiptEventContent)
        ensures
            content.on.event_id@ == self.parent(),
    {
        ReadReceiptEventContent { on: BelongsTo { event_id: self.event_id.clone() } }
    }

    /// Counts a receipt of `user_id`.
    ///
    /// A user who is already counted changes nothing, and `None` is returned.
    /// Otherwise the user is added to the readers, the count goes up by one
    /// (it stops at `u32::MAX`), the aggregate is written to `store`, and the
    /// key it was written under is returned. With the backend down the write
    /// fails with `StoreBackend`, and the store is as it was.
    pub fn add_receipt(&mut self, store: &mut Store, user_id: &String) -> (key: Result<
        Option<String>,
        Error,
    >)
        ensures
            final(self).parent() == old(self).parent(),
            final(self).counted() == old(self).counted().record(
                user_id@,
                user_id@ == old(store)@.user_id,
            ),
            old(self).counted().has_counted(user_id@) ==> key == Ok::<Option<String>, Error>(None)
                && final(store)@ == old(store)@,
            !old(self).counted().has_counted(user_id@) && old(store)@.available ==> {
                &&& key matches Ok(Some(k))
                &&& k@ == stats_key(old(self).parent())
                &&& final(store)@ == old(store)@.set_raw(
                    stats_key(old(self).parent()),
                    RawValueView::ReadReceipts(final(self).counted()),
                )
            },
            !old(self).counted().has_counted(user_id@) && !old(store)@.available ==> {
                &&& key == Err::<Option<String>, Error>(Error::StoreBackend)
                &&& final(store)@ == old(store)@
            },
    {
        if key_listed(&self.stats.users_viewed, user_id) {
            // no update to perform
            return Ok(None);
        }
        if *store.user_id() == *user_id {
            self.stats.user_has_read = true;
        }
        if self.stats.total_views < u32::MAX {
            self.stats.total_views = self.stats.total_views + 1;
        }
        let ghost before = self.stats.users_viewed@;
        self.stats.users_viewed.push(user_id.clone());
        proof {
            lemma_strings_push(before, *user_id);
            assert(self.stats.users_viewed@ =~= before.push(*user_id));
        }
        match self.save(store) {
            Ok(key) => Ok(Some(key)),
            Err(e) => Err(e),
        }
    }

    /// A copy of the aggregate.
    pub fn stats(&self) -> (stats: ReadReceiptStats)
        ensures
            stats@ == self.counted(),
    {
        self.stats.clone()
    }

    /// The key under which the aggregate is stored, which is also the key
    /// whose observers learn of a change.
    pub fn update_key(&self) -> (key: String)
        ensures
            key@ == stats_key(self.parent()),
    {
        Self::stats_field_for(self.event_id.as_str())
    }

    fn save(&self, store: &mut Store) -> (key: Result<String, Error>)
        ensures
            old(store)@.available ==> (key matches Ok(k) && k@ == stats_key(self.parent())),
            old(store)@.available ==> final(store)@ == old(store)@.set_raw(
                stats_key(self.parent()),
                RawValueView::ReadReceipts(self.counted()),
            ),
            !old(store)@.available ==> key == Err::<String, Error>(Error::StoreBackend),
            !old(store)@.available ==> final(store)@ == old(store)@,
    {
        let update_key = self.update_key();
        match store.set_raw(&update_key, &RawValue::ReadReceipts(self.stats.clone())) {
            Ok(()) => Ok(update_key),
            Err(e) => Err(e),
        }
    }
}

impl ReadReceipt {
    /// Applies the receipt to `store`: it is saved and counted in the
    /// aggregate of the model it is about, and the keys whose observers are to
    /// be woken are returned. On failure the store is as it was.
    pub fn apply(&self, store: &mut Store) -> (keys: Result<Vec<String>, Error>)
        ensures
            match self@.apply(old(store)@) {
                Ok(applied) => {
                    &&& keys matches Ok(k)
                    &&& strings_view(k@) == applied.keys
                    &&& final(store)@ == applied.store
                },
                Err(e) => keys == Err::<Vec<String>, Error>(e) && final(store)@ == old(store)@,
            },
    {
        let model = match store.get(&self.inner.on.event_id) {
            Ok(model) => model,
            Err(e) => {
                return Err(e);
            },
        };
        if !has_capability(&model.capabilities(), Capability::ReadTracking) {
            // the model does not take read receipts: ignored
            let none: Vec<String> = Vec::new();
            assert(strings_view(none@) =~= Seq::<Seq<char>>::empty());
            return Ok(none);
        }
        let mut manager = ReadReceiptsManager::from_store_and_event_id(store, model.event_id());
        let mut updates = self.indizes(store.user_id());
        match store.save(AnyActerModel::ReadReceipt(self.clone())) {
            Ok(_) => {},
            Err(e) => {
                return Err(e);
            },
        }
        proof {
            lemma_save_frame(old(store)@, AnyActerModelView::ReadReceipt(self@));
        }
        match manager.add_receipt(store, &self.meta.sender) {
            Ok(Some(manager_update)) => {
                let ghost before = updates@;
                updates.push(manager_update);
                proof {
                    lemma_strings_push(before, manager_update);
                }
            },
            Ok(None) => {},
            Err(e) => {
                return Err(e);
            },
        }
        Ok(dedup_keys(&updates))
    }

    /// The receipt that the event `event_id` carries: `sender` has read what
    /// `content` names, in the room `room_id`, at `origin_server_ts`.
    pub fn from_event(
        content: ReadReceiptEventContent,
        room_id: String,
        event_id: String,
        sender: String,
        origin_server_ts: u64,
    ) -> (receipt: ReadReceipt)
        ensures
            receipt@ == (ReadReceiptView {
                on: content.on.event_id@,
                meta: EventMetaView {
                    event_id: event_id@,
                    sender: sender@,
                    origin_server_ts,
                    room_id: room_id@,
                },
            }),
    {
        ReadReceipt {
            inner: content,
            meta: EventMeta { room_id, event_id, sender, origin_server_ts },
        }
    }

    /// The key of the index that the receipts for the model `parent` are
    /// filed under: `"{parent}::read_receipts"`.
    pub fn index_for(parent: &str) -> (key: String)
        ensures
            key@ == derived_key(parent@, read_receipts_tag()),
    {
        derive_key(parent, "read_receipts")
    }
}

impl ActerModel for ReadReceipt {
    open spec fn model_view(&self) -> AnyActerModelView {
        AnyActerModelView::ReadReceipt(self@)
    }

    fn event_id(&self) -> (id: &String) {
        &self.meta.event_id
    }

    fn room_id(&self) -> (id: &String) {
        &self.meta.room_id
    }

    fn capabilities(&self) -> (capabilities: Vec<Capability>) {
        Vec::new()
    }

    fn indizes(&self, user_id: &String) -> (keys: Vec<String>) {
        let mut keys: Vec<String> = Vec::new();
        keys.push(ReadReceipt::index_for(self.inner.on.event_id.as_str()));
        assert(strings_view(keys@) =~= seq![derived_key(self@.on, read_receipts_tag())]);
        keys
    }

    fn belongs_to(&self) -> (parents: Option<Vec<String>>) {
        // The aggregate has a key of its own: the parent is not notified.
        None
    }

    fn transition(&mut self, model: &AnyActerModel) -> (changed: Result<bool, Error>) {
        Ok(false)
    }
}

impl ExecutableModel for ReadReceipt {
    fn execute(self, store: &mut Store) -> (keys: Result<Vec<String>, Error>) {
        self.apply(store)
    }

    fn redact(&self, store: &mut Store, redaction_model: RedactedActerModel) -> (keys: Result<
        Vec<String>,
        Error,
    >) {
        // a receipt cannot be redacted
        let none: Vec<String> = Vec::new();
        assert(strings_view(none@) =~= Seq::<Seq<char>>::empty());
        Ok(none)
    }
}

} // verus!
