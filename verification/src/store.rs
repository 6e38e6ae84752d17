//! The store: the records of the models and aggregates, by key.
//!
//! The store keeps one record per key, either a model or an aggregate, and a
//! list of filings that says which models are filed under which index. A
//! model is stored under its identifier. Writing under a key replaces what was
//! there. The store holds its records in memory; whoever embeds it decides
//! what is made durable, and when, and tells the store when the backend that
//! makes it durable is down: as long as it is, nothing is written and no list
//! is read, and whoever tries is told `StoreBackend`. Only
//! [`Store::set_available`] changes that, and it needs the store for itself:
//! within one call that writes, the backend is up throughout or down
//! throughout, which is why a call that writes twice writes both or neither.

use crate::error::Error;
use crate::keys::{lemma_strings_push, strings_view};
use crate::models::{ActerModel, AnyActerModel, AnyActerModelView};
use crate::attachments::AttachmentsStats;
use crate::comments::CommentsStats;
use crate::read_receipts::{ReadReceiptStats, ReadReceiptStatsView};
use vstd::prelude::*;

verus! {

/// An aggregate: a small record derived from the models that belong to one
/// parent, stored under a key of its own.
#[derive(Debug, PartialEq, Eq)]
pub enum RawValue {
    /// Who has read the parent.
    ReadReceipts(ReadReceiptStats),
    /// How many comments the parent has.
    Comments(CommentsStats),
    /// How many attachments the parent has.
    Attachments(AttachmentsStats),
}

/// The contents of a [`RawValue`].
pub enum RawValueView {
    ReadReceipts(ReadReceiptStatsView),
    Comments(CommentsStats),
    Attachments(AttachmentsStats),
}

impl View for RawValue {
    type V = RawValueView;

    open spec fn view(&self) -> RawValueView {
        match self {
            RawValue::ReadReceipts(stats) => RawValueView::ReadReceipts(stats@),
            RawValue::Comments(stats) => RawValueView::Comments(*stats),
            RawValue::Attachments(stats) => RawValueView::Attachments(*stats),
        }
    }
}

impl Clone for RawValue {
    fn clone(&self) -> (copy: Self)
        ensures
            copy@ == self@,
    {
        match self {
            RawValue::ReadReceipts(stats) => RawValue::ReadReceipts(stats.clone()),
            RawValue::Comments(stats) => RawValue::Comments(*stats),
            RawValue::Attachments(stats) => RawValue::Attachments(*stats),
        }
    }
}

impl RawValueView {
    /// The aggregate as read receipts; `Serialization` where it is of
    /// another kind.
    pub open spec fn read_receipts(self) -> Result<ReadReceiptStatsView, Error> {
        match self {
            RawValueView::ReadReceipts(stats) => Ok(stats),
            _ => Err(Error::Serialization),
        }
    }

    /// The aggregate as comments; `Serialization` where it is of another
    /// kind.
    pub open spec fn comments(self) -> Result<CommentsStats, Error> {
        match self {
            RawValueView::Comments(stats) => Ok(stats),
            _ => Err(Error::Serialization),
        }
    }
}

impl RawValueView {
    /// The aggregate as attachments; `Serialization` where it is of another
    /// kind.
    pub open spec fn attachments(self) -> Result<AttachmentsStats, Error> {
        match self {
            RawValueView::Attachments(stats) => Ok(stats),
            _ => Err(Error::Serialization),
        }
    }
}

impl RawValue {
    /// The aggregate as attachments; `Serialization` where it is of another
    /// kind.
    pub fn into_attachments(self) -> (stats: Result<AttachmentsStats, Error>)
        ensures
            stats == self@.attachments(),
    {
        match self {
            RawValue::Attachments(stats) => Ok(stats),
            _ => Err(Error::Serialization),
        }
    }

    /// The aggregate as read receipts; `Serialization` where it is of
    /// another kind.
    pub fn into_read_receipts(self) -> (stats: Result<ReadReceiptStats, Error>)
        ensures
            match self@.read_receipts() {
                Ok(expected) => stats matches Ok(s) && s@ == expected,
                Err(e) => stats == Err::<ReadReceiptStats, Error>(e),
            },
    {
        match self {
            RawValue::ReadReceipts(stats) => Ok(stats),
            _ => Err(Error::Serialization),
        }
    }

    /// The aggregate as comments; `Serialization` where it is of another
    /// kind.
    pub fn into_comments(self) -> (stats: Result<CommentsStats, Error>)
        ensures
            stats == self@.comments(),
    {
        match self {
            RawValue::Comments(stats) => Ok(stats),
            _ => Err(Error::Serialization),
        }
    }
}

/// What is stored under one key.
#[derive(Debug, PartialEq, Eq)]
pub enum Record {
    /// A model, stored under its identifier.
    Model(AnyActerModel),
    /// An aggregate, stored under a derived key.
    Raw(RawValue),
}

/// The contents of a [`Record`].
pub enum RecordView {
    Model(AnyActerModelView),
    Raw(RawValueView),
}

impl View for Record {
    type V = RecordView;

    open spec fn view(&self) -> RecordView {
        match self {
            Record::Model(m) => RecordView::Model(m@),
            Record::Raw(value) => RecordView::Raw(value@),
        }
    }
}

/// One filing: the model `id` is listed under `index`.
pub struct FilingView {
    pub index: Seq<char>,
    pub id: Seq<char>,
}

/// The contents of a [`Store`].
#[verifier::ext_equal]
pub struct StoreView {
    /// The user whose account the store belongs to.
    pub user_id: Seq<char>,
    /// The record stored under each key.
    pub records: Map<Seq<char>, RecordView>,
    /// The filings, oldest first.
    pub filings: Seq<FilingView>,
    /// Whether the backend beneath the store is up.
    pub available: bool,
}

/// The models that `filings` list under `index`, in the order of the filings.
/// A filing whose identifier holds no model contributes nothing.
pub open spec fn list_models(
    filings: Seq<FilingView>,
    records: Map<Seq<char>, RecordView>,
    index: Seq<char>,
) -> Seq<AnyActerModelView>
    decreases filings.len(),
{
    if filings.len() == 0 {
        Seq::empty()
    } else {
        let front = list_models(filings.drop_last(), records, index);
        let filing = filings.last();
        if filing.index == index && records.dom().contains(filing.id) {
            match records[filing.id] {
                RecordView::Model(m) => front.push(m),
                RecordView::Raw(_) => front,
            }
        } else {
            front
        }
    }
}

impl StoreView {
    /// A store of `user_id` that holds nothing.
    pub open spec fn empty(user_id: Seq<char>) -> StoreView {
        StoreView { user_id, records: Map::empty(), filings: Seq::empty(), available: true }
    }

    /// Every model is stored under its own identifier.
    pub open spec fn keyed(self) -> bool {
        forall|key: Seq<char>| #[trigger]
            self.records.dom().contains(key) ==> match self.records[key] {
                RecordView::Model(m) => m.event_id() == key,
                RecordView::Raw(_) => true,
            }
    }

    /// The store with the backend beneath it up or down.
    pub open spec fn with_backend(self, available: bool) -> StoreView {
        StoreView {
            user_id: self.user_id,
            records: self.records,
            filings: self.filings,
            available,
        }
    }

    /// The model stored under `key`; `NotFound` where the key holds no record
    /// or holds an aggregate.
    pub open spec fn get(self, key: Seq<char>) -> Result<AnyActerModelView, Error> {
        if self.records.dom().contains(key) {
            match self.records[key] {
                RecordView::Model(m) => Ok(m),
                RecordView::Raw(_) => Err(Error::NotFound),
            }
        } else {
            Err(Error::NotFound)
        }
    }

    /// The aggregate stored under `key`; `NotFound` where the key holds no
    /// record, `Serialization` where it holds a model.
    pub open spec fn get_raw(self, key: Seq<char>) -> Result<RawValueView, Error> {
        if self.records.dom().contains(key) {
            match self.records[key] {
                RecordView::Raw(value) => Ok(value),
                RecordView::Model(_) => Err(Error::Serialization),
            }
        } else {
            Err(Error::NotFound)
        }
    }

    /// The store after `value` was written under `key`.
    pub open spec fn set_raw(self, key: Seq<char>, value: RawValueView) -> StoreView {
        StoreView {
            user_id: self.user_id,
            records: self.records.insert(key, RecordView::Raw(value)),
            filings: self.filings,
            available: self.available,
        }
    }

    /// Whether the model `id` is listed under `index`.
    pub open spec fn is_filed(self, index: Seq<char>, id: Seq<char>) -> bool {
        self.filings.contains(FilingView { index, id })
    }

    /// The store after the model `id` was listed under `index`. A model is
    /// listed under an index once.
    pub open spec fn file(self, index: Seq<char>, id: Seq<char>) -> StoreView {
        if self.is_filed(index, id) {
            self
        } else {
            StoreView {
                user_id: self.user_id,
                records: self.records,
                filings: self.filings.push(FilingView { index, id }),
                available: self.available,
            }
        }
    }

    /// The store after the model `id` was listed under each of `indizes`.
    pub open spec fn file_all(self, indizes: Seq<Seq<char>>, id: Seq<char>) -> StoreView
        decreases indizes.len(),
    {
        if indizes.len() == 0 {
            self
        } else {
            self.file_all(indizes.drop_last(), id).file(indizes.last(), id)
        }
    }

    /// The store after `model` was saved: it is the record under its
    /// identifier and is listed under each of its indices.
    pub open spec fn save(self, model: AnyActerModelView) -> StoreView {
        StoreView {
            user_id: self.user_id,
            records: self.records.insert(model.event_id(), RecordView::Model(model)),
            filings: self.filings,
            available: self.available,
        }.file_all(model.indizes(self.user_id), model.event_id())
    }

    /// The keys that saving `model` touches: its identifier, then its indices.
    pub open spec fn save_keys(self, model: AnyActerModelView) -> Seq<Seq<char>> {
        seq![model.event_id()] + model.indizes(self.user_id)
    }

    /// The models listed under `index`, oldest filing first.
    pub open spec fn get_list(self, index: Seq<char>) -> Seq<AnyActerModelView> {
        list_models(self.filings, self.records, index)
    }
}

/// Filing changes neither the records nor the user, and keeps what was
/// filed before.
pub proof fn lemma_file_all_frame(store: StoreView, indizes: Seq<Seq<char>>, id: Seq<char>)
    ensures
        store.file_all(indizes, id).user_id == store.user_id,
        store.file_all(indizes, id).records == store.records,
        store.file_all(indizes, id).available == store.available,
        store.filings.is_prefix_of(store.file_all(indizes, id).filings),
    decreases indizes.len(),
{
    if indizes.len() > 0 {
        lemma_file_all_frame(store, indizes.drop_last(), id);
    }
}

/// Saving a model changes the one record under its identifier, and neither
/// any other record nor the user.
pub proof fn lemma_save_frame(store: StoreView, model: AnyActerModelView)
    ensures
        store.save(model).user_id == store.user_id,
        store.save(model).available == store.available,
        store.save(model).records == store.records.insert(
            model.event_id(),
            RecordView::Model(model),
        ),
        store.filings.is_prefix_of(store.save(model).filings),
{
    let written = StoreView {
        user_id: store.user_id,
        records: store.records.insert(model.event_id(), RecordView::Model(model)),
        filings: store.filings,
        available: store.available,
    };
    lemma_file_all_frame(written, model.indizes(store.user_id), model.event_id());
}

/// Saving a model keeps every model under its own identifier.
pub proof fn lemma_save_keeps_keyed(store: StoreView, model: AnyActerModelView)
    requires
        store.keyed(),
    ensures
        store.save(model).keyed(),
{
    lemma_save_frame(store, model);
    assert forall|key: Seq<char>| #[trigger]
        store.save(model).records.dom().contains(key) implies match store.save(
        model,
    ).records[key] {
        RecordView::Model(m) => m.event_id() == key,
        RecordView::Raw(_) => true,
    } by {
        if key != model.event_id() {
            assert(store.records.dom().contains(key));
        }
    }
}

/// Writing an aggregate keeps every model under its own identifier.
pub proof fn lemma_set_raw_keeps_keyed(store: StoreView, key: Seq<char>, value: RawValueView)
    requires
        store.keyed(),
    ensures
        store.set_raw(key, value).keyed(),
{
    assert forall|other: Seq<char>| #[trigger]
        store.set_raw(key, value).records.dom().contains(other) implies match store.set_raw(
        key,
        value,
    ).records[other] {
        RecordView::Model(m) => m.event_id() == other,
        RecordView::Raw(_) => true,
    } by {
        if other != key {
            assert(store.records.dom().contains(other));
        }
    }
}

/// In a store that keeps every model under its own identifier, the model
/// found under a key has that key for its identifier.
pub proof fn lemma_found_is_keyed(store: StoreView, key: Seq<char>)
    requires
        store.keyed(),
    ensures
        store.get(key) matches Ok(model) ==> model.event_id() == key,
{
    if store.records.dom().contains(key) {
    }
}

/// A model that was saved is what the store holds under its identifier.
pub proof fn lemma_save_then_get(store: StoreView, model: AnyActerModelView)
    ensures
        store.save(model).get(model.event_id()) == Ok::<AnyActerModelView, Error>(model),
        forall|key: Seq<char>|
            key != model.event_id() ==> store.save(model).get(key) == store.get(key),
        forall|key: Seq<char>|
            key != model.event_id() ==> store.save(model).get_raw(key) == store.get_raw(key),
{
    lemma_save_frame(store, model);
}

/// An aggregate that was written is what the store holds under its key, and
/// no other record changed.
pub proof fn lemma_set_raw_then_get(store: StoreView, key: Seq<char>, value: RawValueView)
    ensures
        store.set_raw(key, value).get_raw(key) == Ok::<RawValueView, Error>(value),
        forall|other: Seq<char>|
            other != key ==> store.set_raw(key, value).get_raw(other) == store.get_raw(other),
        forall|other: Seq<char>|
            other != key ==> store.set_raw(key, value).get(other) == store.get(other),
{
}

/// The contents of a list of models.
pub open spec fn models_view(models: Seq<AnyActerModel>) -> Seq<AnyActerModelView> {
    models.map_values(|m: AnyActerModel| m@)
}

struct Entry {
    key: String,
    record: Record,
}

struct Filing {
    index: String,
    id: String,
}

impl View for Filing {
    type V = FilingView;

    closed spec fn view(&self) -> FilingView {
        FilingView { index: self.index@, id: self.id@ }
    }
}

/// The entry holds an aggregate, or a model whose identifier is its key.
spec fn entry_keyed(entry: Entry) -> bool {
    match entry.record {
        Record::Model(m) => m@.event_id() == entry.key@,
        Record::Raw(_) => true,
    }
}

spec fn entries_keyed(entries: Seq<Entry>) -> bool {
    forall|i: int| 0 <= i < entries.len() ==> entry_keyed(#[trigger] entries[i])
}

proof fn lemma_records_keyed(entries: Seq<Entry>)
    requires
        entries_keyed(entries),
    ensures
        forall|key: Seq<char>| #[trigger]
            records_of(entries).dom().contains(key) ==> match records_of(entries)[key] {
                RecordView::Model(m) => m.event_id() == key,
                RecordView::Raw(_) => true,
            },
{
    assert forall|key: Seq<char>| #[trigger]
        records_of(entries).dom().contains(key) implies match records_of(entries)[key] {
        RecordView::Model(m) => m.event_id() == key,
        RecordView::Raw(_) => true,
    } by {
        let keys = entry_keys(entries);
        let n = choose|n: int| 0 <= n < keys.len() && keys[n] == key;
        lemma_first_exists(keys, key, n);
        let i = first_index(keys, key);
        assert(entry_keyed(entries[i]));
        assert(keys[i] == entries[i].key@);
    }
}

spec fn entry_keys(entries: Seq<Entry>) -> Seq<Seq<char>> {
    entries.map_values(|e: Entry| e.key@)
}

spec fn filings_view(filings: Seq<Filing>) -> Seq<FilingView> {
    filings.map_values(|f: Filing| f@)
}

/// `i` is the first place at which `key` stands in `keys`.
spec fn first_at(keys: Seq<Seq<char>>, key: Seq<char>, i: int) -> bool {
    &&& 0 <= i < keys.len()
    &&& keys[i] == key
    &&& forall|j: int| 0 <= j < i ==> keys[j] != key
}

spec fn first_index(keys: Seq<Seq<char>>, key: Seq<char>) -> int {
    choose|i: int| first_at(keys, key, i)
}

/// The records that a list of entries stands for: of the entries with one
/// key the first counts.
spec fn records_of(entries: Seq<Entry>) -> Map<Seq<char>, RecordView> {
    Map::new(
        |k: Seq<char>| entry_keys(entries).contains(k),
        |k: Seq<char>| entries[first_index(entry_keys(entries), k)].record@,
    )
}

proof fn lemma_first_exists(keys: Seq<Seq<char>>, key: Seq<char>, n: int)
    requires
        0 <= n < keys.len(),
        keys[n] == key,
    ensures
        first_at(keys, key, first_index(keys, key)),
    decreases n,
{
    if forall|j: int| 0 <= j < n ==> keys[j] != key {
        assert(first_at(keys, key, n));
    } else {
        let j = choose|j: int| 0 <= j < n && keys[j] == key;
        lemma_first_exists(keys, key, j);
    }
}

proof fn lemma_first_is_chosen(keys: Seq<Seq<char>>, key: Seq<char>, i: int)
    requires
        first_at(keys, key, i),
    ensures
        first_index(keys, key) == i,
{
    let c = first_index(keys, key);
    assert(first_at(keys, key, c));
    if c < i {
        assert(keys[c] != key);
    } else if i < c {
        assert(keys[i] != key);
    }
}

proof fn lemma_records_at(entries: Seq<Entry>, key: Seq<char>, i: int)
    requires
        first_at(entry_keys(entries), key, i),
    ensures
        records_of(entries).dom().contains(key),
        records_of(entries)[key] == entries[i].record@,
{
    lemma_first_is_chosen(entry_keys(entries), key, i);
    assert(entry_keys(entries)[i] == key);
    assert(entry_keys(entries).contains(key));
}

proof fn lemma_records_replace(entries: Seq<Entry>, i: int, e: Entry)
    requires
        first_at(entry_keys(entries), e.key@, i),
    ensures
        records_of(entries.update(i, e)) == records_of(entries).insert(e.key@, e.record@),
{
    let before = entry_keys(entries);
    let after = entry_keys(entries.update(i, e));
    assert(after =~= before);
    assert forall|k: Seq<char>| before.contains(k) implies #[trigger] records_of(
        entries.update(i, e),
    )[k] == records_of(entries).insert(e.key@, e.record@)[k] by {
        let n = choose|n: int| 0 <= n < before.len() && before[n] == k;
        lemma_first_exists(before, k, n);
        let c = first_index(before, k);
        if k == e.key@ {
            lemma_first_is_chosen(before, k, i);
        } else {
            assert(c != i);
        }
    }
    assert(before[i] == e.key@);
    assert(before.contains(e.key@));
    assert(records_of(entries.update(i, e)) =~= records_of(entries).insert(e.key@, e.record@));
}

proof fn lemma_records_push(entries: Seq<Entry>, e: Entry)
    requires
        !entry_keys(entries).contains(e.key@),
    ensures
        records_of(entries.push(e)) == records_of(entries).insert(e.key@, e.record@),
{
    let before = entry_keys(entries);
    let after = entry_keys(entries.push(e));
    assert(after =~= before.push(e.key@));
    let last = entries.len() as int;
    assert(after[last] == e.key@);
    assert forall|k: Seq<char>| after.contains(k) <==> (before.contains(k) || k == e.key@) by {
        if after.contains(k) {
            let n = choose|n: int| 0 <= n < after.len() && after[n] == k;
            if n < last {
                assert(before[n] == k);
            }
        }
        if before.contains(k) {
            let n = choose|n: int| 0 <= n < before.len() && before[n] == k;
            assert(after[n] == k);
        }
    }
    assert forall|k: Seq<char>| after.contains(k) implies #[trigger] records_of(entries.push(e))[k]
        == records_of(entries).insert(e.key@, e.record@)[k] by {
        if k == e.key@ {
            assert forall|j: int| 0 <= j < last implies after[j] != k by {
                assert(before[j] == after[j]);
                if before[j] == k {
                    assert(before.contains(k));
                }
            }
            assert(first_at(after, k, last));
            lemma_first_is_chosen(after, k, last);
        } else {
            let n = choose|n: int| 0 <= n < before.len() && before[n] == k;
            lemma_first_exists(before, k, n);
            let c = first_index(before, k);
            assert forall|j: int| 0 <= j < c implies after[j] != k by {
                assert(before[j] == after[j]);
            }
            assert(after[c] == before[c]);
            assert(first_at(after, k, c));
            lemma_first_is_chosen(after, k, c);
        }
    }
    assert(records_of(entries.push(e)) =~= records_of(entries).insert(e.key@, e.record@));
}

proof fn lemma_filings_push(filings: Seq<Filing>, f: Filing)
    ensures
        filings_view(filings.push(f)) == filings_view(filings).push(f@),
{
    assert(filings_view(filings.push(f)) =~= filings_view(filings).push(f@));
}

/// The store of the models and aggregates of one user.
pub struct Store {
    user_id: String,
    entries: Vec<Entry>,
    filings: Vec<Filing>,
    available: bool,
}

impl View for Store {
    type V = StoreView;

    closed spec fn view(&self) -> StoreView {
        StoreView {
            user_id: self.user_id@,
            records: records_of(self.entries@),
            filings: filings_view(self.filings@),
            available: self.available,
        }
    }
}

impl Store {
    /// Every entry holds an aggregate, or a model whose identifier is its
    /// key.
    #[verifier::type_invariant]
    spec fn keyed_by_identifier(self) -> bool {
        entries_keyed(self.entries@)
    }

    /// A store of `user_id` that holds nothing, over a backend that is up.
    pub fn new(user_id: String) -> (store: Store)
        ensures
            store@ == StoreView::empty(user_id@),
            store@.keyed(),
    {
        let store = Store { user_id, entries: Vec::new(), filings: Vec::new(), available: true };
        assert(store@.records =~= Map::<Seq<char>, RecordView>::empty());
        assert(store@.filings =~= Seq::<FilingView>::empty());
        store
    }

    /// The user whose account the store belongs to.
    pub fn user_id(&self) -> (user_id: &String)
        ensures
            user_id@ == self@.user_id,
    {
        &self.user_id
    }

    /// Whether the backend beneath the store is up.
    pub fn is_available(&self) -> (available: bool)
        ensures
            available == self@.available,
    {
        self.available
    }

    /// Tells the store whether the backend beneath it is up. Nothing else
    /// changes.
    pub fn set_available(&mut self, available: bool)
        ensures
            final(self)@ == old(self)@.with_backend(available),
    {
        proof {
            use_type_invariant(&*self);
        }
        self.available = available;
    }

    /// Does nothing but say what holds of every store: every model is stored
    /// under its own identifier.
    pub fn check_keyed(&self)
        ensures
            self@.keyed(),
    {
        proof {
            use_type_invariant(self);
            lemma_records_keyed(self.entries@);
        }
    }

    fn position(&self, key: &String) -> (found: Option<usize>)
        ensures
            match found {
                Some(i) => first_at(entry_keys(self.entries@), key@, i as int),
                None => !entry_keys(self.entries@).contains(key@),
            },
    {
        let mut i: usize = 0;
        while i < self.entries.len()
            invariant
                i <= self.entries.len(),
                forall|j: int| 0 <= j < i ==> entry_keys(self.entries@)[j] != key@,
            decreases self.entries.len() - i,
        {
            if self.entries[i].key == *key {
                return Some(i);
            }
            i += 1;
        }
        None
    }

    fn put(&mut self, key: String, record: Record)
        requires
            entry_keyed(Entry { key, record }),
        ensures
            final(self)@ == (StoreView {
                user_id: old(self)@.user_id,
                records: old(self)@.records.insert(key@, record@),
                filings: old(self)@.filings,
                available: old(self)@.available,
            }),
    {
        proof {
            use_type_invariant(&*self);
        }
        let found = self.position(&key);
        let entry = Entry { key, record };
        let mut entries: Vec<Entry> = Vec::new();
        std::mem::swap(&mut self.entries, &mut entries);
        match found {
            Some(i) => {
                proof {
                    lemma_records_replace(entries@, i as int, entry);
                }
                entries.set(i, entry);
            },
            None => {
                proof {
                    lemma_records_push(entries@, entry);
                }
                entries.push(entry);
            },
        }
        std::mem::swap(&mut self.entries, &mut entries);
    }

    /// Reads the model stored under `key`. What is found has `key` for its
    /// identifier.
    pub fn get(&self, key: &String) -> (model: Result<AnyActerModel, Error>)
        ensures
            match self@.get(key@) {
                Ok(stored) => model matches Ok(m) && m@ == stored && m@.event_id() == key@,
                Err(e) => model == Err::<AnyActerModel, Error>(e),
            },
            self@.keyed(),
    {
        proof {
            use_type_invariant(self);
            lemma_records_keyed(self.entries@);
        }
        match self.position(key) {
            Some(i) => {
                proof {
                    lemma_records_at(self.entries@, key@, i as int);
                }
                match &self.entries[i].record {
                    Record::Model(m) => Ok(m.clone()),
                    Record::Raw(_) => Err(Error::NotFound),
                }
            },
            None => Err(Error::NotFound),
        }
    }

    /// Reads the aggregate stored under `key`.
    pub fn get_raw(&self, key: &String) -> (value: Result<RawValue, Error>)
        ensures
            match self@.get_raw(key@) {
                Ok(stored) => value matches Ok(v) && v@ == stored,
                Err(e) => value == Err::<RawValue, Error>(e),
            },
    {
        match self.position(key) {
            Some(i) => {
                proof {
                    lemma_records_at(self.entries@, key@, i as int);
                }
                match &self.entries[i].record {
                    Record::Raw(value) => Ok(value.clone()),
                    Record::Model(_) => Err(Error::Serialization),
                }
            },
            None => Err(Error::NotFound),
        }
    }

    /// Writes the aggregate `value` under `key`, replacing whatever record
    /// the key held. As long as the backend is down nothing is written.
    pub fn set_raw(&mut self, key: &String, value: &RawValue) -> (done: Result<(), Error>)
        ensures
            old(self)@.available ==> done is Ok,
            old(self)@.available ==> final(self)@ == old(self)@.set_raw(key@, value@),
            !old(self)@.available ==> done == Err::<(), Error>(Error::StoreBackend),
            !old(self)@.available ==> final(self)@ == old(self)@,
            final(self)@.keyed(),
    {
        if !self.available {
            self.check_keyed();
            return Err(Error::StoreBackend);
        }
        self.put(key.clone(), Record::Raw(value.clone()));
        self.check_keyed();
        Ok(())
    }

    fn filed(&self, index: &String, id: &String) -> (found: bool)
        ensures
            found == self@.is_filed(index@, id@),
    {
        let mut i: usize = 0;
        while i < self.filings.len()
            invariant
                i <= self.filings.len(),
                forall|j: int|
                    0 <= j < i ==> filings_view(self.filings@)[j] != (FilingView {
                        index: index@,
                        id: id@,
                    }),
            decreases self.filings.len() - i,
        {
            if self.filings[i].index == *index && self.filings[i].id == *id {
                assert(filings_view(self.filings@)[i as int] == (FilingView {
                    index: index@,
                    id: id@,
                }));
                return true;
            }
            i += 1;
        }
        false
    }

    fn file(&mut self, index: &String, id: &String)
        ensures
            final(self)@ == old(self)@.file(index@, id@),
    {
        proof {
            use_type_invariant(&*self);
        }
        if !self.filed(index, id) {
            let filing = Filing { index: index.clone(), id: id.clone() };
            let mut filings: Vec<Filing> = Vec::new();
            std::mem::swap(&mut self.filings, &mut filings);
            proof {
                lemma_filings_push(filings@, filing);
            }
            filings.push(filing);
            std::mem::swap(&mut self.filings, &mut filings);
        }
    }

    /// Saves `model` under its identifier, replacing whatever record the key
    /// held, lists it under each of its indices, and returns the keys that
    /// were touched: the identifier, then the indices. As long as the backend
    /// is down nothing is saved.
    pub fn save(&mut self, model: AnyActerModel) -> (keys: Result<Vec<String>, Error>)
        ensures
            old(self)@.available ==> (keys matches Ok(k) && strings_view(k@)
                == old(self)@.save_keys(model@)),
            old(self)@.available ==> final(self)@ == old(self)@.save(model@),
            !old(self)@.available ==> keys == Err::<Vec<String>, Error>(Error::StoreBackend),
            !old(self)@.available ==> final(self)@ == old(self)@,
            final(self)@.keyed(),
    {
        if !self.available {
            self.check_keyed();
            return Err(Error::StoreBackend);
        }
        let id = model.event_id().clone();
        let indizes = model.indizes(&self.user_id);
        let ghost view = model@;
        let ghost wanted = strings_view(indizes@);
        let mut keys: Vec<String> = Vec::new();
        keys.push(id.clone());
        assert(strings_view(keys@) =~= seq![id@]);
        self.put(id.clone(), Record::Model(model));
        let ghost stored = self@;
        let mut i: usize = 0;
        assert(wanted.take(0) =~= Seq::<Seq<char>>::empty());
        while i < indizes.len()
            invariant
                i <= indizes.len(),
                wanted == strings_view(indizes@),
                self@ == stored.file_all(wanted.take(i as int), id@),
                strings_view(keys@) == seq![id@] + wanted.take(i as int),
            decreases indizes.len() - i,
        {
            let ghost before = keys@;
            assert(wanted.take(i + 1).drop_last() =~= wanted.take(i as int));
            assert(wanted.take(i + 1).last() == indizes@[i as int]@);
            self.file(&indizes[i], &id);
            keys.push(indizes[i].clone());
            proof {
                lemma_strings_push(before, indizes@[i as int]);
                assert(keys@ =~= before.push(indizes@[i as int]));
                assert(strings_view(keys@) =~= seq![id@] + wanted.take(i + 1));
            }
            i += 1;
        }
        assert(wanted.take(indizes.len() as int) =~= wanted);
        self.check_keyed();
        Ok(keys)
    }

    /// Reads the models listed under `index`, oldest filing first. A filing
    /// whose identifier no longer holds a model is passed over. As long as
    /// the backend is down no list is read.
    pub fn get_list(&self, index: &String) -> (models: Result<Vec<AnyActerModel>, Error>)
        ensures
            self@.available ==> (models matches Ok(list) && models_view(list@)
                == self@.get_list(index@)),
            !self@.available ==> models == Err::<Vec<AnyActerModel>, Error>(Error::StoreBackend),
    {
        if !self.available {
            return Err(Error::StoreBackend);
        }
        let mut list: Vec<AnyActerModel> = Vec::new();
        let ghost filings = filings_view(self.filings@);
        let mut i: usize = 0;
        assert(filings.take(0) =~= Seq::<FilingView>::empty());
        assert(models_view(list@) =~= Seq::<AnyActerModelView>::empty());
        while i < self.filings.len()
            invariant
                i <= self.filings.len(),
                filings == filings_view(self.filings@),
                models_view(list@) == list_models(filings.take(i as int), self@.records, index@),
            decreases self.filings.len() - i,
        {
            assert(filings.take(i + 1).drop_last() =~= filings.take(i as int));
            assert(filings.take(i + 1).last() == self.filings@[i as int]@);
            if self.filings[i].index == *index {
                match self.get(&self.filings[i].id) {
                    Ok(model) => {
                        let ghost before = list@;
                        list.push(model);
                        assert(models_view(list@) =~= models_view(before).push(model@));
                    },
                    Err(_) => {},
                }
            }
            i += 1;
        }
        assert(filings.take(self.filings.len() as int) =~= filings);
        Ok(list)
    }
}

} // verus!
