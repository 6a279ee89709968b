//! What changed on a resource, as the event stream tells it.
use vstd::prelude::*;

use crate::api::light::{GroupedLightUpdate, LightUpdate};
use crate::api::scene::SceneUpdate;

verus! {

/// What changed on a resource of one of the kinds that report changes.
#[derive(Debug, Clone)]
pub enum Update {
    Light(LightUpdate),
    GroupedLight(GroupedLightUpdate),
    Scene(SceneUpdate),
}

} // verus!
