//! Capabilities of the running native library and its runtime options.

use crate::error::{check_status, unit_or_error, Error};
use vstd::prelude::*;

verus! {

/// A capability that the running native library may have.
#[derive(Debug, Clone, Copy, PartialEq, Eq, Structural)]
pub enum Capability {
    /// The capability query itself is available.
    HasCapability,
    /// Hotplug notification is available.
    HasHotplug,
    /// The library can access HID devices without user intervention.
    HasHidAccess,
    /// The library can detach the kernel driver of an interface.
    SupportsDetachKernelDriver,
}

impl Capability {
    /// The native flag of the capability.
    pub open spec fn flag_of(self) -> u32 {
        match self {
            Capability::HasCapability => 0x0000,
            Capability::HasHotplug => 0x0001,
            Capability::HasHidAccess => 0x0100,
            Capability::SupportsDetachKernelDriver => 0x0101,
        }
    }

    /// Gets the native flag to ask for.
    pub fn flag(&self) -> (f: u32)
        ensures
            f == self.flag_of(),
    {
        match self {
            Capability::HasCapability => 0x0000,
            Capability::HasHotplug => 0x0001,
            Capability::HasHidAccess => 0x0100,
            Capability::SupportsDetachKernelDriver => 0x0101,
        }
    }

    /// Reads the answer of the native capability query: the library has
    /// the capability exactly when the answer is not zero.
    pub fn is_supported(answer: i32) -> (r: bool)
        ensures
            r <==> answer != 0,
    {
        answer != 0
    }
}

/// A runtime option of the native library.
#[derive(Debug, Clone, Copy, PartialEq, Eq, Structural)]
pub enum UsbOption {
    /// Use the UsbDk backend if available. It exists on Windows only.
    UseUsbdk,
    /// Do not scan for devices when a context is made. It is set before
    /// any context exists, and exists on Unix only.
    NoDeviceDiscovery,
}

impl UsbOption {
    /// The native code of the option.
    pub open spec fn code_of(self) -> u32 {
        match self {
            UsbOption::UseUsbdk => 0x01,
            UsbOption::NoDeviceDiscovery => 0x02,
        }
    }

    /// Use the UsbDk backend if available.
    pub fn use_usbdk() -> (o: UsbOption)
        ensures
            o == UsbOption::UseUsbdk,
    {
        UsbOption::UseUsbdk
    }

    /// Gets the native code of the option.
    pub fn code(&self) -> (c: u32)
        ensures
            c == self.code_of(),
    {
        match self {
            UsbOption::UseUsbdk => 0x01,
            UsbOption::NoDeviceDiscovery => 0x02,
        }
    }

    /// Whether the option must be set on the default instance, before any
    /// context exists, rather than on a context.
    pub fn before_init(&self) -> (r: bool)
        ensures
            r <==> *self == UsbOption::NoDeviceDiscovery,
    {
        match self {
            UsbOption::UseUsbdk => false,
            UsbOption::NoDeviceDiscovery => true,
        }
    }

    /// Whether the option has a meaning on the platform: `UseUsbdk` on
    /// Windows only, `NoDeviceDiscovery` elsewhere only.
    pub fn available(&self, windows: bool) -> (r: bool)
        ensures
            r <==> (*self == UsbOption::UseUsbdk <==> windows),
    {
        match self {
            UsbOption::UseUsbdk => windows,
            UsbOption::NoDeviceDiscovery => !windows,
        }
    }

    /// Reads the status that setting the option returned.
    pub fn apply(&self, status: i32) -> (r: Result<(), Error>)
        ensures
            r == unit_or_error(status as int),
    {
        check_status(status)
    }
}

/// Reads the status that disabling device discovery returned.
pub fn disable_device_discovery(status: i32) -> (r: Result<(), Error>)
    ensures
        r == unit_or_error(status as int),
{
    UsbOption::NoDeviceDiscovery.apply(status)
}

} // verus!
