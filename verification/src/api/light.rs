//! Lights and grouped lights, and the updates that are derived from them.
use vstd::prelude::*;

use crate::api::resource::ResourceLink;
use crate::api::types::{DeviceColorMode, Real, XY};

verus! {

/// Whether a light is on.
#[derive(Debug, Clone, Copy, PartialEq, Eq, Structural)]
pub struct On {
    pub on: bool,
}

impl On {
    pub fn new(on: bool) -> (o: On)
        ensures
            o.on == on,
    {
        On { on }
    }
}

/// The brightness of a light, in percent, and the lowest it can be set to.
#[derive(Debug, Clone, Copy, PartialEq, Eq, Structural)]
pub struct Dimming {
    pub brightness: Real,
    pub min_dim_level: Option<Real>,
}

/// A new brightness, in percent.
#[derive(Debug, Clone, Copy, PartialEq, Eq, Structural)]
pub struct DimmingUpdate {
    pub brightness: Real,
}

/// The colour of a light.
#[derive(Debug, Clone, Copy, PartialEq, Eq, Structural)]
pub struct LightColor {
    pub xy: XY,
}

/// New colour coordinates.
#[derive(Debug, Clone, Copy, PartialEq, Eq, Structural)]
pub struct ColorUpdate {
    pub xy: XY,
}

/// The colour temperature of a light, in mirek, where it has one.
#[derive(Debug, Clone, Copy, PartialEq, Eq, Structural)]
pub struct ColorTemperature {
    pub mirek: Option<u32>,
}

/// A new colour temperature, in mirek.
#[derive(Debug, Clone, Copy, PartialEq, Eq, Structural)]
pub struct ColorTemperatureUpdate {
    pub mirek: u32,
}

/// The name of a light and the kind of fixture it is.
#[derive(Debug, Clone, PartialEq, Eq)]
pub struct LightMetadata {
    pub name: String,
    pub archetype: String,
}

/// A light.
#[derive(Debug, Clone, PartialEq, Eq)]
pub struct Light {
    pub owner: ResourceLink,
    pub metadata: LightMetadata,
    pub on: On,
    pub dimming: Dimming,
    pub color_mode: Option<DeviceColorMode>,
    pub color: LightColor,
    pub color_temperature: ColorTemperature,
}

/// What changed on a light: every field is optional.
#[derive(Debug, Clone, Copy, PartialEq, Eq, Structural)]
pub struct LightUpdate {
    pub on: Option<On>,
    pub dimming: Option<DimmingUpdate>,
    pub color: Option<ColorUpdate>,
    pub color_temperature: Option<ColorTemperatureUpdate>,
}

impl LightUpdate {
    /// The update that changes nothing.
    pub open spec fn empty() -> LightUpdate {
        LightUpdate { on: None, dimming: None, color: None, color_temperature: None }
    }

    /// The update that changes nothing.
    pub fn new() -> (u: Self)
        ensures
            u == Self::empty(),
    {
        LightUpdate { on: None, dimming: None, color: None, color_temperature: None }
    }

    /// Sets whether the light is on.
    pub fn with_on(self, on: bool) -> (u: Self)
        ensures
            u == (LightUpdate { on: Some(On { on }), ..self }),
    {
        LightUpdate { on: Some(On { on }), ..self }
    }

    /// Sets the brightness.
    pub fn with_brightness(self, brightness: Real) -> (u: Self)
        ensures
            u == (LightUpdate { dimming: Some(DimmingUpdate { brightness }), ..self }),
    {
        LightUpdate { dimming: Some(DimmingUpdate { brightness }), ..self }
    }

    /// Sets the colour temperature, where there is one to set.
    pub fn with_color_temperature(self, mirek: Option<u32>) -> (u: Self)
        ensures
            u == (LightUpdate {
                color_temperature: match mirek {
                    Some(m) => Some(ColorTemperatureUpdate { mirek: m }),
                    None => self.color_temperature,
                },
                ..self
            }),
    {
        match mirek {
            Some(m) => LightUpdate {
                color_temperature: Some(ColorTemperatureUpdate { mirek: m }),
                ..self
            },
            None => self,
        }
    }

    /// Sets the colour coordinates.
    pub fn with_color_xy(self, xy: XY) -> (u: Self)
        ensures
            u == (LightUpdate { color: Some(ColorUpdate { xy }), ..self }),
    {
        LightUpdate { color: Some(ColorUpdate { xy }), ..self }
    }
}

/// The lights of a group, taken as one.
#[derive(Debug, Clone, Copy, PartialEq, Eq, Structural)]
pub struct GroupedLight {
    pub owner: ResourceLink,
    pub on: On,
    pub dimming: DimmingUpdate,
}

/// What changed on a grouped light: every field is optional.
#[derive(Debug, Clone, Copy, PartialEq, Eq, Structural)]
pub struct GroupedLightUpdate {
    pub on: Option<On>,
    pub dimming: Option<DimmingUpdate>,
}

impl GroupedLightUpdate {
    /// The update that changes nothing.
    pub open spec fn empty() -> GroupedLightUpdate {
        GroupedLightUpdate { on: None, dimming: None }
    }

    /// The update that changes nothing.
    pub fn new() -> (u: Self)
        ensures
            u == Self::empty(),
    {
        GroupedLightUpdate { on: None, dimming: None }
    }

    /// Sets whether the lights are on.
    pub fn with_on(self, on: bool) -> (u: Self)
        ensures
            u == (GroupedLightUpdate { on: Some(On { on }), ..self }),
    {
        GroupedLightUpdate { on: Some(On { on }), ..self }
    }

    /// Sets the brightness.
    pub fn with_brightness(self, brightness: Real) -> (u: Self)
        ensures
            u == (GroupedLightUpdate { dimming: Some(DimmingUpdate { brightness }), ..self }),
    {
        GroupedLightUpdate { dimming: Some(DimmingUpdate { brightness }), ..self }
    }
}

/// What is asked of a device: every field is optional.
#[derive(Debug, Clone, Copy, PartialEq, Eq, Structural)]
pub struct DeviceUpdate {
    pub state: Option<bool>,
    pub brightness: Option<Real>,
    pub color_temp: Option<u32>,
    pub color_xy: Option<XY>,
}

impl Default for DeviceUpdate {
    fn default() -> (u: Self)
        ensures
            u == DeviceUpdate::empty(),
    {
        DeviceUpdate { state: None, brightness: None, color_temp: None, color_xy: None }
    }
}

impl DeviceUpdate {
    /// The update that asks nothing.
    pub open spec fn empty() -> DeviceUpdate {
        DeviceUpdate { state: None, brightness: None, color_temp: None, color_xy: None }
    }

    /// Sets whether the device is to be on.
    pub fn with_state(self, state: Option<bool>) -> (u: Self)
        ensures
            u == (DeviceUpdate { state, ..self }),
    {
        DeviceUpdate { state, ..self }
    }

    /// Sets the brightness, on the scale of the device.
    pub fn with_brightness(self, brightness: Option<Real>) -> (u: Self)
        ensures
            u == (DeviceUpdate { brightness, ..self }),
    {
        DeviceUpdate { brightness, ..self }
    }

    /// Sets the colour temperature, in mirek.
    pub fn with_color_temp(self, mirek: Option<u32>) -> (u: Self)
        ensures
            u == (DeviceUpdate { color_temp: mirek, ..self }),
    {
        DeviceUpdate { color_temp: mirek, ..self }
    }

    /// Sets the colour coordinates.
    pub fn with_color_xy(self, xy: Option<XY>) -> (u: Self)
        ensures
            u == (DeviceUpdate { color_xy: xy, ..self }),
    {
        DeviceUpdate { color_xy: xy, ..self }
    }
}

/// What the update `upd` of a light asks of the device behind it: whether
/// it is on, its colour temperature and its colour coordinates as the
/// update has them, and the brightness `brightness`, which is that of the
/// update on the scale of the device.
pub open spec fn device_update_of(upd: LightUpdate, brightness: Option<Real>) -> DeviceUpdate {
    DeviceUpdate {
        state: match upd.on {
            Some(on) => Some(on.on),
            None => None,
        },
        brightness,
        color_temp: match upd.color_temperature {
            Some(ct) => Some(ct.mirek),
            None => None,
        },
        color_xy: match upd.color {
            Some(col) => Some(col.xy),
            None => None,
        },
    }
}

impl LightUpdate {
    /// What the update asks of the device behind the light. The brightness
    /// of the update is in percent and that of the device is not, so the
    /// caller hands in the brightness on the scale of the device.
    pub fn to_device_update(&self, brightness: Option<Real>) -> (u: DeviceUpdate)
        ensures
            u == device_update_of(*self, brightness),
    {
        let state = match self.on {
            Some(on) => Some(on.on),
            None => None,
        };
        let color_temp = match self.color_temperature {
            Some(ct) => Some(ct.mirek),
            None => None,
        };
        let color_xy = match self.color {
            Some(col) => Some(col.xy),
            None => None,
        };
        DeviceUpdate { state: None, brightness: None, color_temp: None, color_xy: None }.with_state(
            state,
        ).with_brightness(brightness).with_color_temp(color_temp).with_color_xy(color_xy)
    }
}


} // verus!
