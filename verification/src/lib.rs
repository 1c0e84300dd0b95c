//! A typed, verified core for talking to a native USB host library.
//!
//! The crate holds everything that can be decided from plain values: the
//! error taxonomy and the mapping of native status codes onto it, the decoded
//! views of USB descriptors, port paths and their textual form, and the
//! bookkeeping of contexts, device snapshots and hotplug registrations.
//! The native calls themselves are made by the embedding program, which
//! hands their results to the functions here.

pub mod capability;
pub mod config_descriptor;
pub mod context;
pub mod decimal;
pub mod device;
pub mod device_descriptor;
pub mod device_list;
pub mod endpoint_descriptor;
pub mod error;
pub mod fields;
pub mod hotplug;
pub mod interface_descriptor;
pub mod port;
pub mod shared;
pub mod version;

pub use crate::capability::{disable_device_discovery, Capability, UsbOption};
pub use crate::config_descriptor::{ConfigDescriptor, Interfaces};
pub use crate::context::{Context, EventWait, LogLevel, Timeout, Timeval};
pub use crate::device::{Device, DeviceHandle};
pub use crate::device_descriptor::DeviceDescriptor;
pub use crate::device_list::{DeviceList, DeviceListIterator, Devices};
pub use crate::endpoint_descriptor::EndpointDescriptor;
pub use crate::error::{check_status, usb_result, Error};
pub use crate::fields::{
    request_type, Direction, IsoSyncType, IsoUsageType, Recipient, RequestType, Speed, SyncType,
    TransferType, UsageType, Version,
};
pub use crate::hotplug::{
    HotplugBuilder, HotplugEvent, HotplugRequest, Registration, RegistrationState,
    RegistrationView,
};
pub use crate::interface_descriptor::{
    EndpointDescriptors, Interface, InterfaceDescriptor, InterfaceDescriptors,
};
pub use crate::port::Port;
pub use crate::shared::Shared;
pub use crate::version::LibraryVersion;
