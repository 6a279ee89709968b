//! Error types of the library.
use vstd::prelude::*;

use crate::api::resource::{RType, ResourceLink, Uuid};

verus! {

/// Failures of the resource store and of the Zigbee update codec.
#[derive(Debug, Clone, Copy, PartialEq, Eq, Structural)]
pub enum ApiError {
    /// No resource is stored under this identifier (or not one of the
    /// requested type).
    NotFound(Uuid),
    /// No auxiliary data is stored for this link.
    AuxNotFound(ResourceLink),
    /// A resource of the first type was asked for, one of the second type
    /// was found.
    WrongType(RType, RType),
    /// Resources of this type have no update event.
    UpdateUnsupported(RType),
    /// Every index available to resources of this type is taken.
    Full(RType),
    /// A Zigbee update holds a field value that has no meaning.
    HueZigbeeDecodeError,
    /// A Zigbee update sets these reserved flag bits.
    HueZigbeeUnknownFlags(u16),
    /// The input ended before the message did.
    IoError,
    /// A value does not fit the format it is written in.
    SerializationError,
}

/// Failures of the Zigbee cluster message parsers.
#[derive(Debug, Clone, Copy, PartialEq, Eq, Structural)]
pub enum ZclError {
    /// The bytes are not a message of the expected shape.
    InvalidValue,
}

/// Failures of the entertainment stream engine.
#[derive(Debug, Clone, Copy, PartialEq, Eq, Structural)]
pub enum HueError {
    /// A count does not fit the field that carries it.
    TryFromIntError,
}

pub type ApiResult<T> = Result<T, ApiError>;

pub type HueResult<T> = Result<T, HueError>;

pub type ZclResult<T> = Result<T, ZclError>;

} // verus!
