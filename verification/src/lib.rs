//! The core of a GPS logger manager: which models exist and what they can do,
//! which host ports may lead to one, which command downloads or erases its
//! track log, and how user actions and finished work move the application on.
//!
//! Nothing here touches the host. Callers enumerate devices, run commands and
//! draw windows, and hand this library plain values.

use vstd::prelude::*;

pub mod devices;
pub mod drivers;
pub mod gpsbabel;
pub mod mgapplication;
pub mod worker;

verus! {

/// `std::path::PathBuf`. The library looks into no path of this type: where
/// the user wants a download saved is handed on as it came.
#[verifier::external_type_specification]
#[verifier::external_body]
pub struct ExPathBuf(std::path::PathBuf);

/// Track-log formats a download can be asked to produce.
#[derive(Clone, Copy, Debug, PartialEq, Eq, Structural)]
pub enum Format {
    /// No format; never accepted.
    NoFormat,
    Gpx,
    Kml,
}

} // verus!
