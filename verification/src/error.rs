use vstd::prelude::*;

verus! {

/// Every failure the engine can surface. Causes that come from the system
/// (io, udev, the bus) are carried as plain text so callers can report them.
#[derive(Debug, Clone, PartialEq, Eq)]
pub enum GfxError {
    DgpuNotFound,
    /// A path could not be opened or read: path, cause
    Path(String, String),
    /// A path could not be written: path, cause
    Write(String, String),
    /// Device enumeration failed: message, cause
    Udev(String, String),
    ParseMode,
    NotSupported(String),
    SystemdUnitAction(String),
    SystemdUnitWaitTimeout(String),
    Zbus(String),
    ModuleLoad(String),
    ModuleUnload(String),
}

} // verus!
