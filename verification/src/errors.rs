//! The ways turning an on-disk vertex attribute into mesh data fails.

use vstd::prelude::*;
use crate::attributes::AttributeDataFormat;
use crate::enums::AttributeType;

verus! {

/// An error that occurs when accessing buffer data.
#[derive(Clone, Copy, Debug, PartialEq, Eq, Structural)]
pub enum AccessFailed {
    MalformedData,
    UnsupportedFormat,
}

/// Why a vertex attribute could not be converted: the named attribute
/// arrived in the wrong format, its buffer could not be accessed (with
/// the accessor's index), or its name is unknown.
#[derive(Debug)]
pub enum ConvertAttributeError {
    WrongFormat(String, AttributeDataFormat, AttributeType, AttributeDataFormat),
    AccessFailed(AccessFailed, usize),
    UnknownName(String),
}

} // verus!
