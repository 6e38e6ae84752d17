//! The builder of the test model.

use crate::keys::{clone_keys, strings_view};
use crate::models::{EventMeta, EventMetaView, TestModel, TestModelView};
use vstd::prelude::*;

verus! {

/// Why a builder could not build.
#[derive(Clone, Copy, Debug, PartialEq, Eq)]
pub enum TestModelBuilderError {
    /// The named field has no default and was never set.
    UninitializedField(&'static str),
}

/// Collects the fields of a [`TestModel`]. Only the identifier has to be
/// set; every other field has a default.
#[derive(Debug, Default)]
pub struct TestModelBuilder {
    pub event_id: Option<String>,
    pub room_id: Option<String>,
    pub indizes: Option<Vec<String>>,
    pub belongs_to: Option<Vec<String>>,
    pub transition: Option<bool>,
}

impl TestModelBuilder {
    /// The room that a model belongs to where none was set.
    pub open spec fn default_room() -> Seq<char> {
        "!5678ijhgasdf093:Asdfa"@
    }

    /// The model that the builder would build, given that its identifier is
    /// set.
    pub open spec fn built(self) -> TestModelView {
        TestModelView {
            event_id: self.event_id->0@,
            room_id: match self.room_id {
                Some(room) => room@,
                None => Self::default_room(),
            },
            indizes: match self.indizes {
                Some(keys) => strings_view(keys@),
                None => Seq::empty(),
            },
            belongs_to: match self.belongs_to {
                Some(keys) => strings_view(keys@),
                None => Seq::empty(),
            },
            transition: match self.transition {
                Some(flag) => flag,
                None => false,
            },
        }
    }

    /// Sets the identifier.
    pub fn event_id(&mut self, value: String) -> (builder: &mut Self)
        ensures
            builder.event_id == Some(value),
            builder.room_id == old(self).room_id,
            builder.indizes == old(self).indizes,
            builder.belongs_to == old(self).belongs_to,
            builder.transition == old(self).transition,
            *final(self) == *final(builder),
    {
        self.event_id = Some(value);
        self
    }

    /// Sets the room.
    pub fn room_id(&mut self, value: String) -> (builder: &mut Self)
        ensures
            builder.event_id == old(self).event_id,
            builder.room_id == Some(value),
            builder.indizes == old(self).indizes,
            builder.belongs_to == old(self).belongs_to,
            builder.transition == old(self).transition,
            *final(self) == *final(builder),
    {
        self.room_id = Some(value);
        self
    }

    /// Sets the extra notification keys.
    pub fn indizes(&mut self, value: Vec<String>) -> (builder: &mut Self)
        ensures
            builder.event_id == old(self).event_id,
            builder.room_id == old(self).room_id,
            builder.indizes == Some(value),
            builder.belongs_to == old(self).belongs_to,
            builder.transition == old(self).transition,
            *final(self) == *final(builder),
    {
        self.indizes = Some(value);
        self
    }

    /// Sets the parents.
    pub fn belongs_to(&mut self, value: Vec<String>) -> (builder: &mut Self)
        ensures
            builder.event_id == old(self).event_id,
            builder.room_id == old(self).room_id,
            builder.indizes == old(self).indizes,
            builder.belongs_to == Some(value),
            builder.transition == old(self).transition,
            *final(self) == *final(builder),
    {
        self.belongs_to = Some(value);
        self
    }

    /// Sets the transition flag.
    pub fn transition(&mut self, value: bool) -> (builder: &mut Self)
        ensures
            builder.event_id == old(self).event_id,
            builder.room_id == old(self).room_id,
            builder.indizes == old(self).indizes,
            builder.belongs_to == old(self).belongs_to,
            builder.transition == Some(value),
            *final(self) == *final(builder),
    {
        self.transition = Some(value);
        self
    }

    /// Sets the identifier to that of the simple test model, `$asdefttg`.
    pub fn simple(&mut self) -> (builder: &mut Self)
        ensures
            builder.event_id matches Some(id) && id@ == "$asdefttg"@,
            builder.room_id == old(self).room_id,
            builder.indizes == old(self).indizes,
            builder.belongs_to == old(self).belongs_to,
            builder.transition == old(self).transition,
            *final(self) == *final(builder),
    {
        self.event_id("$asdefttg".to_owned())
    }

    /// The meta data of a made-up event.
    pub fn fake_meta() -> (meta: EventMeta)
        ensures
            meta@ == (EventMetaView {
                event_id: "$ASDas29ak"@,
                sender: "@test:example.org"@,
                origin_server_ts: 123567890,
                room_id: Self::default_room(),
            }),
    {
        EventMeta {
            event_id: "$ASDas29ak".to_owned(),
            sender: "@test:example.org".to_owned(),
            origin_server_ts: 123567890,
            room_id: "!5678ijhgasdf093:Asdfa".to_owned(),
        }
    }

    /// Builds the model. The builder can be used again afterwards. Building
    /// fails exactly when no identifier was set.
    pub fn build(&self) -> (model: Result<TestModel, TestModelBuilderError>)
        ensures
            self.event_id is None ==> model == Err::<TestModel, TestModelBuilderError>(
                TestModelBuilderError::UninitializedField("event_id"),
            ),
            self.event_id is Some ==> (model matches Ok(m) && m@ == self.built()),
    {
        let event_id = match &self.event_id {
            Some(id) => id.clone(),
            None => {
                return Err(TestModelBuilderError::UninitializedField("event_id"));
            },
        };
        let room_id = match &self.room_id {
            Some(room) => room.clone(),
            None => "!5678ijhgasdf093:Asdfa".to_owned(),
        };
        let indizes = match &self.indizes {
            Some(keys) => clone_keys(keys),
            None => {
                let keys: Vec<String> = Vec::new();
                assert(strings_view(keys@) =~= Seq::<Seq<char>>::empty());
                keys
            },
        };
        let belongs_to = match &self.belongs_to {
            Some(keys) => clone_keys(keys),
            None => {
                let keys: Vec<String> = Vec::new();
                assert(strings_view(keys@) =~= Seq::<Seq<char>>::empty());
                keys
            },
        };
        let transition = match self.transition {
            Some(flag) => flag,
            None => false,
        };
        Ok(TestModel { event_id, room_id, indizes, belongs_to, transition })
    }
}

} // verus!
