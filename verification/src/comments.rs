//! Comments: what a user says about a model, and the aggregate that counts
//! the comments of a model.

use crate::content::{BelongsTo, TextMessageContent, TextMessageContentView};
use crate::error::Error;
use crate::keys::{
    clone_option, dedup, dedup_keys, derive_key, derived_key, lemma_strings_push, option_view,
    strings_view,
};
use crate::models::{
    default_model_redact, has_capability, ActerModel, AnyActerModel, AnyActerModelView, Applied,
    written, Capability, EventMeta, EventMetaView, ExecutableModel, RedactedActerModel,
};
use crate::store::{lemma_save_frame, models_view, RawValue, RawValueView, Store, StoreView};
use vstd::prelude::*;

verus! {

/// The tag of the index that lists the comments on one model.
pub open spec fn comments_tag() -> Seq<char> {
    "comments"@
}

/// The tag of the key under which the aggregate of the comments on one model
/// is stored.
pub open spec fn comments_stats_tag() -> Seq<char> {
    "comments_stats"@
}

/// The key under which the aggregate of the comments on the model `parent`
/// is stored: `"{parent}::comments_stats"`.
pub open spec fn comments_stats_key(parent: Seq<char>) -> Seq<char> {
    derived_key(parent, comments_stats_tag())
}

/// The aggregate of the comments on one model.
#[derive(Clone, Copy, Debug, PartialEq, Eq, Structural)]
pub struct CommentsStats {
    /// Whether the model has any comment.
    pub has_comments: bool,
    /// How many comments the model has.
    pub total_comments_count: u32,
}

impl CommentsStats {
    /// The aggregate of a model without comments.
    pub open spec fn empty() -> CommentsStats {
        CommentsStats { has_comments: false, total_comments_count: 0 }
    }

    /// The aggregate after one more comment. The count stops at `u32::MAX`.
    pub open spec fn added(self) -> CommentsStats {
        CommentsStats {
            has_comments: true,
            total_comments_count: if self.total_comments_count < u32::MAX {
                (self.total_comments_count + 1) as u32
            } else {
                self.total_comments_count
            },
        }
    }

    /// Whether the model has any comment.
    pub fn has_comments(&self) -> (has_comments: &bool)
        ensures
            *has_comments == self.has_comments,
    {
        &self.has_comments
    }

    /// How many comments the model has.
    pub fn total_comments_count(&self) -> (count: &u32)
        ensures
            *count == self.total_comments_count,
    {
        &self.total_comments_count
    }
}

impl Default for CommentsStats {
    fn default() -> (stats: Self)
        ensures
            stats == CommentsStats::empty(),
    {
        CommentsStats { has_comments: false, total_comments_count: 0 }
    }
}

/// The aggregate that `store` holds under `key`, or the empty one where it
/// holds none that can be read as comments.
pub open spec fn loaded_comments(store: StoreView, key: Seq<char>) -> CommentsStats {
    match store.get_raw(key) {
        Ok(RawValueView::Comments(stats)) => stats,
        _ => CommentsStats::empty(),
    }
}

/// What a comment says.
#[derive(Debug, PartialEq, Eq)]
pub struct CommentEventContent {
    /// The text of the comment.
    pub content: TextMessageContent,
    /// The model the comment is on.
    pub on: BelongsTo,
    /// The comment that this one replies to.
    pub reply_to: Option<String>,
}

/// A comment: what it says and the event it was decoded from.
#[derive(Debug, PartialEq, Eq)]
pub struct Comment {
    pub inner: CommentEventContent,
    pub meta: EventMeta,
}

/// The contents of a [`Comment`].
pub struct CommentView {
    pub content: TextMessageContentView,
    /// The identifier of the model the comment is on.
    pub on: Seq<char>,
    pub reply_to: Option<Seq<char>>,
    pub meta: EventMetaView,
}

impl View for Comment {
    type V = CommentView;

    open spec fn view(&self) -> CommentView {
        CommentView {
            content: self.inner.content@,
            on: self.inner.on.event_id@,
            reply_to: option_view(self.inner.reply_to),
            meta: self.meta@,
        }
    }
}

impl Clone for Comment {
    fn clone(&self) -> (copy: Self)
        ensures
            copy@ == self@,
    {
        Comment {
            inner: CommentEventContent {
                content: self.inner.content.clone(),
                on: self.inner.on.clone(),
                reply_to: clone_option(&self.inner.reply_to),
            },
            meta: self.meta.clone(),
        }
    }
}

impl CommentView {
    /// Applying the comment to `store`.
    ///
    /// The model it is on must be stored; otherwise the comment fails as the
    /// lookup does. A model that takes no comments has the comment ignored.
    /// Otherwise the comment is saved and counted in the aggregate of the
    /// model it is on, and the keys are the indices of the comment and the
    /// key of the aggregate, each once; with the backend down that fails
    /// with `StoreBackend`. The identifier of the comment is not among the
    /// keys.
    pub open spec fn apply(self, store: StoreView) -> Result<Applied, Error> {
        match store.get(self.on) {
            Err(e) => Err(e),
            Ok(parent) => {
                if !parent.capabilities().contains(Capability::Commentable) {
                    Ok(Applied { store, keys: Seq::empty() })
                } else {
                    let key = comments_stats_key(self.on);
                    let stats = loaded_comments(store, key);
                    let comment = AnyActerModelView::Comment(self);
                    written(
                        store,
                        Applied {
                            store: store.save(comment).set_raw(
                                key,
                                RawValueView::Comments(stats.added()),
                            ),
                            keys: dedup(comment.indizes(store.user_id).push(key)),
                        },
                    )
                }
            },
        }
    }
}

/// The manager of the comments on one model: it loads the aggregate, counts
/// a comment and writes the aggregate back under its own key.
#[derive(Debug)]
pub struct CommentsManager {
    stats: CommentsStats,
    event_id: String,
}

impl CommentsManager {
    /// The identifier of the model whose comments are managed.
    pub closed spec fn parent(&self) -> Seq<char> {
        self.event_id@
    }

    /// The aggregate that the manager holds.
    pub closed spec fn counted(&self) -> CommentsStats {
        self.stats
    }

    fn stats_field_for(parent: &str) -> (key: String)
        ensures
            key@ == comments_stats_key(parent@),
    {
        derive_key(parent, "comments_stats")
    }

    /// Loads the aggregate of the model `event_id` from `store`. Where the
    /// store holds none that can be read, the manager starts from the empty
    /// aggregate.
    pub fn from_store_and_event_id(store: &Store, event_id: &String) -> (manager: CommentsManager)
        ensures
            manager.parent() == event_id@,
            manager.counted() == loaded_comments(store@, comments_stats_key(event_id@)),
    {
        let key = Self::stats_field_for(event_id.as_str());
        let stats = match store.get_raw(&key) {
            Ok(RawValue::Comments(stats)) => stats,
            _ => CommentsStats::default(),
        };
        CommentsManager { stats, event_id: event_id.clone() }
    }

    /// The identifier of the model whose comments are managed.
    pub fn event_id(&self) -> (id: String)
        ensures
            id@ == self.parent(),
    {
        self.event_id.clone()
    }

    /// A copy of the aggregate.
    pub fn stats(&self) -> (stats: CommentsStats)
        ensures
            stats == self.counted(),
    {
        self.stats
    }

    /// The key under which the aggregate is stored, which is also the key
    /// whose observers learn of a change.
    pub fn update_key(&self) -> (key: String)
        ensures
            key@ == comments_stats_key(self.parent()),
    {
        Self::stats_field_for(self.event_id.as_str())
    }

    /// Counts one more comment, and says that the aggregate changed.
    pub fn add_comment(&mut self, comment: &Comment) -> (changed: Result<bool, Error>)
        ensures
            changed == Ok::<bool, Error>(true),
            final(self).parent() == old(self).parent(),
            final(self).counted() == old(self).counted().added(),
    {
        self.stats.has_comments = true;
        if self.stats.total_comments_count < u32::MAX {
            self.stats.total_comments_count = self.stats.total_comments_count + 1;
        }
        Ok(true)
    }

    /// Writes the aggregate to `store` and returns the key it was written
    /// under. With the backend down it fails with `StoreBackend`, and the
    /// store is as it was.
    pub fn save(&self, store: &mut Store) -> (key: Result<String, Error>)
        ensures
            old(store)@.available ==> (key matches Ok(k) && k@ == comments_stats_key(
                self.parent(),
            )),
            old(store)@.available ==> final(store)@ == old(store)@.set_raw(
                comments_stats_key(self.parent()),
                RawValueView::Comments(self.counted()),
            ),
            !old(store)@.available ==> key == Err::<String, Error>(Error::StoreBackend),
            !old(store)@.available ==> final(store)@ == old(store)@,
    {
        let update_key = self.update_key();
        match store.set_raw(&update_key, &RawValue::Comments(self.stats)) {
            Ok(()) => Ok(update_key),
            Err(e) => Err(e),
        }
    }

    /// The comments on the model that `store` holds, oldest first. With
    /// the backend down it fails with `StoreBackend`.
    pub fn comments(&self, store: &Store) -> (comments: Result<Vec<Comment>, Error>)
        ensures
            store@.available ==> (comments matches Ok(list) && comments_view(list@)
                == comments_among(store@.get_list(derived_key(self.parent(), comments_tag())))),
            !store@.available ==> comments == Err::<Vec<Comment>, Error>(Error::StoreBackend),
    {
        let index = Comment::index_for(self.event_id.as_str());
        let models = match store.get_list(&index) {
            Ok(models) => models,
            Err(e) => {
                return Err(e);
            },
        };
        Ok(comments_of(&models))
    }
}

/// The contents of a list of comments.
pub open spec fn comments_view(comments: Seq<Comment>) -> Seq<CommentView> {
    comments.map_values(|c: Comment| c@)
}

/// The comments among `models`, in their order.
pub open spec fn comments_among(models: Seq<AnyActerModelView>) -> Seq<CommentView>
    decreases models.len(),
{
    if models.len() == 0 {
        Seq::empty()
    } else {
        let front = comments_among(models.drop_last());
        match models.last() {
            AnyActerModelView::Comment(comment) => front.push(comment),
            _ => front,
        }
    }
}

/// The comments among `models`, in their order.
pub fn comments_of(models: &Vec<AnyActerModel>) -> (comments: Vec<Comment>)
    ensures
        comments_view(comments@) == comments_among(models_view(models@)),
{
    let ghost listed = models_view(models@);
    let mut comments: Vec<Comment> = Vec::new();
    let mut i: usize = 0;
    assert(listed.take(0) =~= Seq::<AnyActerModelView>::empty());
    assert(comments_view(comments@) =~= Seq::<CommentView>::empty());
    while i < models.len()
        invariant
            i <= models.len(),
            listed == models_view(models@),
            comments_view(comments@) == comments_among(listed.take(i as int)),
        decreases models.len() - i,
    {
        assert(listed.take(i + 1).drop_last() =~= listed.take(i as int));
        assert(listed.take(i + 1).last() == models@[i as int]@);
        match &models[i] {
            AnyActerModel::Comment(comment) => {
                let ghost before = comments@;
                let copy = comment.clone();
                comments.push(copy);
                assert(comments_view(comments@) =~= comments_view(before).push(copy@));
            },
            _ => {},
        }
        i += 1;
    }
    assert(listed.take(models.len() as int) =~= listed);
    comments
}

impl Comment {
    /// The key of the index that the comments on the model `parent` are
    /// filed under: `"{parent}::comments"`.
    pub fn index_for(parent: &str) -> (key: String)
        ensures
            key@ == derived_key(parent@, comments_tag()),
    {
        derive_key(parent, "comments")
    }

    /// Applies the comment to `store`: it is saved and counted in the
    /// aggregate of the model it is on, and the keys whose observers are to
    /// be woken are returned. On failure the store is as it was.
    pub fn apply(&self, store: &mut Store) -> (keys: Result<Vec<String>, Error>)
        ensures
            match self@.apply(old(store)@) {
                Ok(applied) => {
                    &&& keys matches Ok(k)
                    &&& strings_view(k@) == applied.keys
                    &&& final(store)@ == applied.store
                },
                Err(e) => keys == Err::<Vec<String>, Error>(e) && final(store)@ == old(store)@,
            },
    {
        let model = match store.get(&self.inner.on.event_id) {
            Ok(model) => model,
            Err(e) => {
                return Err(e);
            },
        };
        if !has_capability(&model.capabilities(), Capability::Commentable) {
            // the model does not take comments: ignored
            let none: Vec<String> = Vec::new();
            assert(strings_view(none@) =~= Seq::<Seq<char>>::empty());
            return Ok(none);
        }
        let mut manager = CommentsManager::from_store_and_event_id(store, model.event_id());
        let mut updates = self.indizes(store.user_id());
        proof {
            lemma_save_frame(store@, AnyActerModelView::Comment(self@));
        }
        match store.save(AnyActerModel::Comment(self.clone())) {
            Ok(_) => {},
            Err(e) => {
                return Err(e);
            },
        }
        let changed = match manager.add_comment(self) {
            Ok(changed) => changed,
            Err(e) => {
                return Err(e);
            },
        };
        if changed {
            match manager.save(store) {
                Ok(manager_update) => {
                    let ghost before = updates@;
                    updates.push(manager_update);
                    proof {
                        lemma_strings_push(before, manager_update);
                    }
                },
                Err(e) => {
                    return Err(e);
                },
            }
        }
        Ok(dedup_keys(&updates))
    }
}

impl ActerModel for Comment {
    open spec fn model_view(&self) -> AnyActerModelView {
        AnyActerModelView::Comment(self@)
    }

    fn event_id(&self) -> (id: &String) {
        &self.meta.event_id
    }

    fn room_id(&self) -> (id: &String) {
        &self.meta.room_id
    }

    fn capabilities(&self) -> (capabilities: Vec<Capability>) {
        Vec::new()
    }

    fn indizes(&self, user_id: &String) -> (keys: Vec<String>) {
        let mut keys: Vec<String> = Vec::new();
        keys.push(Comment::index_for(self.inner.on.event_id.as_str()));
        assert(strings_view(keys@) =~= seq![derived_key(self@.on, comments_tag())]);
        keys
    }

    fn belongs_to(&self) -> (parents: Option<Vec<String>>) {
        // The aggregate has a key of its own: the parent is not notified.
        None
    }

    fn transition(&mut self, model: &AnyActerModel) -> (changed: Result<bool, Error>) {
        Ok(false)
    }
}

impl ExecutableModel for Comment {
    fn execute(self, store: &mut Store) -> (keys: Result<Vec<String>, Error>) {
        self.apply(store)
    }

    fn redact(&self, store: &mut Store, redaction_model: RedactedActerModel) -> (keys: Result<
        Vec<String>,
        Error,
    >) {
        default_model_redact(store, redaction_model)
    }
}

} // verus!
