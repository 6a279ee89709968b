//! The events that the resource store sends to its subscribers.
use vstd::prelude::*;

use crate::api::resource::{ResourceLink, Uuid};
use crate::api::update::Update;

verus! {

/// One event: a resource was added, changed or deleted.
#[derive(Debug, Clone)]
pub enum EventBlock {
    /// The resource behind the link was added. Whoever writes the event out
    /// reads the record from the store.
    Add(ResourceLink),
    /// The resource with this identifier changed in this way.
    Update(Uuid, Update),
    /// The resource behind the link was deleted.
    Delete(ResourceLink),
}

impl EventBlock {
    pub fn add(link: ResourceLink) -> (e: Self)
        ensures
            e == EventBlock::Add(link),
    {
        EventBlock::Add(link)
    }

    pub fn update(id: &Uuid, data: Update) -> (e: Self)
        ensures
            e == EventBlock::Update(*id, data),
    {
        EventBlock::Update(*id, data)
    }

    pub fn delete(link: &ResourceLink) -> (e: Self)
        ensures
            e == EventBlock::Delete(*link),
    {
        EventBlock::Delete(*link)
    }
}

} // verus!
