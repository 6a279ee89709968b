//! Rooms.
use vstd::prelude::*;

use crate::api::resource::ResourceLink;

verus! {

/// The name of a room and the kind of room it is.
#[derive(Debug, Clone, PartialEq, Eq)]
pub struct RoomMetadata {
    pub name: String,
    pub archetype: String,
}

/// A room: the devices in it and the services that act on all of them.
#[derive(Debug, Clone, PartialEq, Eq)]
pub struct Room {
    pub children: Vec<ResourceLink>,
    pub metadata: RoomMetadata,
    pub services: Vec<ResourceLink>,
}

} // verus!
