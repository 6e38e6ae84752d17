//! A state store paired with a media cache.

use vstd::prelude::*;

verus! {

/// A state store together with the media cache that answers every request
/// for media in its place.
#[derive(Debug)]
pub struct MediaStoreWrapper<T, M> where T: core::fmt::Debug, M: core::fmt::Debug {
    inner: T,
    media: M,
}

impl<T, M> MediaStoreWrapper<T, M> where T: core::fmt::Debug, M: core::fmt::Debug {
    /// The state store that is wrapped.
    pub closed spec fn wrapped(&self) -> T {
        self.inner
    }

    /// The media cache.
    pub closed spec fn cache(&self) -> M {
        self.media
    }

    /// Pairs the state store `inner` with the media cache `media`.
    pub fn new(inner: T, media: M) -> (wrapper: MediaStoreWrapper<T, M>)
        ensures
            wrapper.wrapped() == inner,
            wrapper.cache() == media,
    {
        MediaStoreWrapper { inner, media }
    }

    /// The state store that is wrapped.
    pub fn inner(&self) -> (inner: &T)
        ensures
            *inner == self.wrapped(),
    {
        &self.inner
    }

    /// The media cache.
    pub fn media(&self) -> (media: &M)
        ensures
            *media == self.cache(),
    {
        &self.media
    }
}

} // verus!
