//! Scenes, and the law by which two scene descriptions are told apart and
//! brought together again.
use vstd::prelude::*;

use crate::api::light::{ColorTemperatureUpdate, ColorUpdate, DimmingUpdate, On};
use crate::api::resource::ResourceLink;
use crate::api::types::Real;

verus! {

/// Whether a scene is playing, and how.
#[derive(Copy, Debug, Clone, PartialEq, Eq, Structural)]
pub enum SceneActive {
    Inactive,
    Static,
    DynamicPalette,
}

/// The state of a scene, and when it was last recalled, in milliseconds
/// since the epoch.
#[derive(Copy, Debug, Clone, PartialEq, Eq, Structural)]
pub struct SceneStatus {
    pub active: SceneActive,
    pub last_recall: Option<i64>,
}

/// How a scene is to be recalled.
#[derive(Copy, Debug, Clone, PartialEq, Eq, Structural)]
pub enum SceneStatusUpdate {
    Active,
    Static,
    DynamicPalette,
}

/// What a scene does to one light.
#[derive(Debug, Clone)]
pub struct SceneAction {
    pub color: Option<ColorUpdate>,
    pub color_temperature: Option<ColorTemperatureUpdate>,
    pub dimming: Option<DimmingUpdate>,
    pub on: Option<On>,
    pub gradient: Option<serde_json::Value>,
    pub effects: serde_json::Value,
}

/// An action and the light it is for.
#[derive(Debug, Clone)]
pub struct SceneActionElement {
    pub action: SceneAction,
    pub target: ResourceLink,
}

/// How a scene is called and shown.
#[derive(Debug, Clone, PartialEq, Eq)]
pub struct SceneMetadata {
    pub appdata: Option<String>,
    pub image: Option<ResourceLink>,
    pub name: String,
}

/// What a `SceneMetadata` holds.
pub struct SceneMetadataView {
    pub appdata: Option<Seq<char>>,
    pub image: Option<ResourceLink>,
    pub name: Seq<char>,
}

/// What an optional string holds.
pub open spec fn opt_str_view(s: Option<String>) -> Option<Seq<char>> {
    match s {
        Some(v) => Some(v@),
        None => None,
    }
}

impl View for SceneMetadata {
    type V = SceneMetadataView;

    open spec fn view(&self) -> SceneMetadataView {
        SceneMetadataView {
            appdata: opt_str_view(self.appdata),
            image: self.image,
            name: self.name@,
        }
    }
}

/// A change to the description of a scene: the fields that are present
/// take the place of the old ones.
#[derive(Debug, Clone, PartialEq, Eq)]
pub struct SceneMetadataUpdate {
    pub appdata: Option<String>,
    pub image: Option<ResourceLink>,
    pub name: Option<String>,
}

/// What a `SceneMetadataUpdate` holds.
pub struct SceneMetadataUpdateView {
    pub appdata: Option<Seq<char>>,
    pub image: Option<ResourceLink>,
    pub name: Option<Seq<char>>,
}

impl View for SceneMetadataUpdate {
    type V = SceneMetadataUpdateView;

    open spec fn view(&self) -> SceneMetadataUpdateView {
        SceneMetadataUpdateView {
            appdata: opt_str_view(self.appdata),
            image: self.image,
            name: opt_str_view(self.name),
        }
    }
}

impl SceneMetadataUpdateView {
    /// The change that changes nothing.
    pub open spec fn empty() -> SceneMetadataUpdateView {
        SceneMetadataUpdateView { appdata: None, image: None, name: None }
    }
}

impl Default for SceneMetadataUpdate {
    fn default() -> (u: Self)
        ensures
            u@ == SceneMetadataUpdateView::empty(),
    {
        SceneMetadataUpdate { appdata: None, image: None, name: None }
    }
}

impl SceneMetadataView {
    /// The change that leads from `self` to `rhs`: each field of `rhs`
    /// that differs from the one in `self`, and nothing for the others.
    pub open spec fn diff(self, rhs: SceneMetadataView) -> SceneMetadataUpdateView {
        SceneMetadataUpdateView {
            appdata: if self.appdata != rhs.appdata {
                rhs.appdata
            } else {
                None
            },
            image: if self.image != rhs.image {
                rhs.image
            } else {
                None
            },
            name: if self.name != rhs.name {
                Some(rhs.name)
            } else {
                None
            },
        }
    }

    /// The description after the change `upd`: each field that `upd` holds
    /// takes the place of the old one.
    pub open spec fn apply(self, upd: SceneMetadataUpdateView) -> SceneMetadataView {
        SceneMetadataView {
            appdata: match upd.appdata {
                Some(v) => Some(v),
                None => self.appdata,
            },
            image: match upd.image {
                Some(v) => Some(v),
                None => self.image,
            },
            name: match upd.name {
                Some(v) => v,
                None => self.name,
            },
        }
    }

    /// A change can set an optional field and cannot clear one: `rhs` can
    /// be reached from `self` where it clears none.
    pub open spec fn reaches(self, rhs: SceneMetadataView) -> bool {
        &&& rhs.appdata is None ==> self.appdata is None
        &&& rhs.image is None ==> self.image is None
    }

    /// The change that leads from one description to another does lead
    /// there, where the second clears no optional field of the first.
    pub proof fn lemma_diff_apply(self, rhs: SceneMetadataView)
        requires
            self.reaches(rhs),
        ensures
            self.apply(self.diff(rhs)) == rhs,
    {
    }

    /// The change from a description to itself changes nothing.
    pub proof fn lemma_diff_self(self)
        ensures
            self.diff(self) == SceneMetadataUpdateView::empty(),
            self.apply(self.diff(self)) == self,
    {
    }

    /// A change that changes nothing leaves every description as it is.
    pub proof fn lemma_apply_empty(self)
        ensures
            self.apply(SceneMetadataUpdateView::empty()) == self,
    {
    }
}

/// Whether two optional strings hold the same.
fn opt_string_eq(a: &Option<String>, b: &Option<String>) -> (same: bool)
    ensures
        same == (opt_str_view(*a) == opt_str_view(*b)),
{
    match (a, b) {
        (Some(x), Some(y)) => *x == *y,
        (None, None) => true,
        _ => false,
    }
}

/// A copy of an optional string.
fn opt_string_clone(a: &Option<String>) -> (c: Option<String>)
    ensures
        opt_str_view(c) == opt_str_view(*a),
{
    match a {
        Some(x) => Some(x.clone()),
        None => None,
    }
}

impl SceneMetadata {
    /// The change that leads from `self` to `rhs`.
    pub fn sub(&self, rhs: &SceneMetadata) -> (upd: SceneMetadataUpdate)
        ensures
            upd@ == self@.diff(rhs@),
    {
        let mut upd = SceneMetadataUpdate { appdata: None, image: None, name: None };
        if !opt_string_eq(&self.appdata, &rhs.appdata) {
            upd.appdata = opt_string_clone(&rhs.appdata);
        }
        if !link_opt_eq(&self.image, &rhs.image) {
            upd.image = rhs.image;
        }
        if !(self.name == rhs.name) {
            upd.name = Some(rhs.name.clone());
        }
        upd
    }

    /// Applies the change `upd`.
    pub fn add_assign(&mut self, upd: SceneMetadataUpdate)
        ensures
            final(self)@ == old(self)@.apply(upd@),
    {
        if let Some(appdata) = upd.appdata {
            self.appdata = Some(appdata);
        }
        if let Some(image) = upd.image {
            self.image = Some(image);
        }
        if let Some(name) = upd.name {
            self.name = name;
        }
    }
}

/// Whether two optional links are the same.
fn link_opt_eq(a: &Option<ResourceLink>, b: &Option<ResourceLink>) -> (same: bool)
    ensures
        same == (*a == *b),
{
    match (a, b) {
        (Some(x), Some(y)) => x == y,
        (None, None) => true,
        _ => false,
    }
}

/// How a scene is to be recalled, for how long, and how bright.
#[derive(Debug, Clone, Copy, PartialEq, Eq, Structural)]
pub struct SceneRecall {
    pub action: Option<SceneStatusUpdate>,
    pub duration: Option<u32>,
    pub dimming: Option<DimmingUpdate>,
}

impl SceneRecall {
    /// The recall that asks for nothing.
    pub open spec fn empty() -> SceneRecall {
        SceneRecall { action: None, duration: None, dimming: None }
    }
}

impl Default for SceneRecall {
    fn default() -> (r: Self)
        ensures
            r == SceneRecall::empty(),
    {
        SceneRecall { action: None, duration: None, dimming: None }
    }
}

/// A scene: what it does to each light of a room.
#[derive(Debug, Clone)]
pub struct Scene {
    pub actions: Vec<SceneActionElement>,
    pub auto_dynamic: bool,
    pub group: ResourceLink,
    pub metadata: SceneMetadata,
    pub palette: serde_json::Value,
    pub speed: Real,
    pub status: Option<SceneStatus>,
    pub recall: SceneRecall,
}

/// What changed on a scene: every field is optional.
#[derive(Debug, Clone)]
pub struct SceneUpdate {
    pub actions: Option<Vec<SceneActionElement>>,
    pub recall: Option<SceneRecall>,
    pub metadata: Option<SceneMetadataUpdate>,
    pub palette: Option<serde_json::Value>,
    pub speed: Option<Real>,
    pub auto_dynamic: Option<bool>,
}

/// The recall action that tells of the state `status`: a scene that plays
/// a dynamic palette is recalled as such, one that is static is recalled
/// as active, and one that is inactive, or has no state, is not recalled.
pub open spec fn recall_action(status: Option<SceneStatus>) -> Option<SceneStatusUpdate> {
    match status {
        Some(s) => match s.active {
            SceneActive::DynamicPalette => Some(SceneStatusUpdate::DynamicPalette),
            SceneActive::Static => Some(SceneStatusUpdate::Active),
            SceneActive::Inactive => None,
        },
        None => None,
    }
}

impl SceneUpdate {
    /// The update that changes nothing.
    pub open spec fn empty() -> SceneUpdate {
        SceneUpdate {
            actions: None,
            recall: None,
            metadata: None,
            palette: None,
            speed: None,
            auto_dynamic: None,
        }
    }

    /// The update that changes nothing.
    pub fn new() -> (u: Self)
        ensures
            u == Self::empty(),
    {
        SceneUpdate {
            actions: None,
            recall: None,
            metadata: None,
            palette: None,
            speed: None,
            auto_dynamic: None,
        }
    }

    /// Sets the actions.
    pub fn with_actions(self, actions: Option<Vec<SceneActionElement>>) -> (u: Self)
        ensures
            u == (SceneUpdate { actions, ..self }),
    {
        SceneUpdate { actions, ..self }
    }

    /// Sets the recall to the action that tells of the state `action`, with
    /// no duration and no brightness.
    pub fn with_recall_action(self, action: Option<SceneStatus>) -> (u: Self)
        ensures
            u == (SceneUpdate {
                recall: Some(
                    SceneRecall { action: recall_action(action), duration: None, dimming: None },
                ),
                ..self
            }),
    {
        let act = match action {
            Some(s) => match s.active {
                SceneActive::DynamicPalette => Some(SceneStatusUpdate::DynamicPalette),
                SceneActive::Static => Some(SceneStatusUpdate::Active),
                SceneActive::Inactive => None,
            },
            None => None,
        };
        SceneUpdate {
            recall: Some(SceneRecall { action: act, duration: None, dimming: None }),
            ..self
        }
    }
}

} // verus!
