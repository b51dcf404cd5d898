//! The device-resolution decision.
//!
//! Enumerating hosts and devices is the platform's business; what the
//! pipeline decides is only which entry of the enumeration to capture from.
//! That decision is total and fails fast: an operation that cannot get a
//! device cannot proceed.

use vstd::prelude::*;

verus! {

/// Why no input device could be resolved.
#[derive(Clone, Copy, PartialEq, Eq, Structural, Debug)]
pub enum DeviceError {
    IndexOutOfRange,
    NoDefaultDevice,
}

/// Which device of the enumeration to open.
#[derive(Clone, Copy, PartialEq, Eq, Structural, Debug)]
pub enum DeviceSelection {
    Default,
    Index(usize),
}

/// Resolves a requested device index against an enumeration of `available`
/// input devices. An explicit index must lie inside the enumeration; with no
/// index requested, the host's default input device is selected and must
/// exist.
pub fn resolve_selection(requested: Option<usize>, available: usize, has_default: bool) -> (r:
    Result<DeviceSelection, DeviceError>)
    ensures
        (match requested {
            Some(i) => {
                &&& i < available ==> r == Ok::<DeviceSelection, DeviceError>(
                    DeviceSelection::Index(i),
                )
                &&& i >= available ==> r == Err::<DeviceSelection, DeviceError>(
                    DeviceError::IndexOutOfRange,
                )
            },
            None => {
                &&& has_default ==> r == Ok::<DeviceSelection, DeviceError>(
                    DeviceSelection::Default,
                )
                &&& !has_default ==> r == Err::<DeviceSelection, DeviceError>(
                    DeviceError::NoDefaultDevice,
                )
            },
        }),
{
    match requested {
        Some(i) => {
            if i < available {
                Ok(DeviceSelection::Index(i))
            } else {
                Err(DeviceError::IndexOutOfRange)
            }
        },
        None => {
            if has_default {
                Ok(DeviceSelection::Default)
            } else {
                Err(DeviceError::NoDefaultDevice)
            }
        },
    }
}

} // verus!
