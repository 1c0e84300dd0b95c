use libusb1_sys::constants as native;
use yusb::capability::{Capability, UsbOption};
use yusb::context::LogLevel;
use yusb::endpoint_descriptor as endpoint;
use yusb::error::{self, Error};
use yusb::fields::{Direction, Recipient, RequestType, Speed};
use yusb::hotplug;

#[test]
fn status_codes_are_the_native_ones() {
    assert_eq!(error::SUCCESS, native::LIBUSB_SUCCESS);
    assert_eq!(error::ERROR_IO, native::LIBUSB_ERROR_IO);
    assert_eq!(error::ERROR_INVALID_PARAM, native::LIBUSB_ERROR_INVALID_PARAM);
    assert_eq!(error::ERROR_ACCESS, native::LIBUSB_ERROR_ACCESS);
    assert_eq!(error::ERROR_NO_DEVICE, native::LIBUSB_ERROR_NO_DEVICE);
    assert_eq!(error::ERROR_NOT_FOUND, native::LIBUSB_ERROR_NOT_FOUND);
    assert_eq!(error::ERROR_BUSY, native::LIBUSB_ERROR_BUSY);
    assert_eq!(error::ERROR_TIMEOUT, native::LIBUSB_ERROR_TIMEOUT);
    assert_eq!(error::ERROR_OVERFLOW, native::LIBUSB_ERROR_OVERFLOW);
    assert_eq!(error::ERROR_PIPE, native::LIBUSB_ERROR_PIPE);
    assert_eq!(error::ERROR_INTERRUPTED, native::LIBUSB_ERROR_INTERRUPTED);
    assert_eq!(error::ERROR_NO_MEM, native::LIBUSB_ERROR_NO_MEM);
    assert_eq!(error::ERROR_NOT_SUPPORTED, native::LIBUSB_ERROR_NOT_SUPPORTED);
}

#[test]
fn native_status_codes_map_to_their_kinds() {
    assert_eq!(Error::from(native::LIBUSB_ERROR_IO), Error::Io);
    assert_eq!(Error::from(native::LIBUSB_ERROR_INVALID_PARAM), Error::InvalidParam);
    assert_eq!(Error::from(native::LIBUSB_ERROR_ACCESS), Error::Access);
    assert_eq!(Error::from(native::LIBUSB_ERROR_NO_DEVICE), Error::NoDevice);
    assert_eq!(Error::from(native::LIBUSB_ERROR_NOT_FOUND), Error::NotFound);
    assert_eq!(Error::from(native::LIBUSB_ERROR_BUSY), Error::Busy);
    assert_eq!(Error::from(native::LIBUSB_ERROR_TIMEOUT), Error::Timeout);
    assert_eq!(Error::from(native::LIBUSB_ERROR_OVERFLOW), Error::Overflow);
    assert_eq!(Error::from(native::LIBUSB_ERROR_PIPE), Error::Pipe);
    assert_eq!(Error::from(native::LIBUSB_ERROR_INTERRUPTED), Error::Interrupted);
    assert_eq!(Error::from(native::LIBUSB_ERROR_NO_MEM), Error::NoMem);
    assert_eq!(Error::from(native::LIBUSB_ERROR_NOT_SUPPORTED), Error::NotSupported);
    assert_eq!(Error::from(native::LIBUSB_ERROR_OTHER), Error::Other);
}

#[test]
fn speeds_have_the_native_codes() {
    assert_eq!(Speed::Unknown.code(), native::LIBUSB_SPEED_UNKNOWN);
    assert_eq!(Speed::Low.code(), native::LIBUSB_SPEED_LOW);
    assert_eq!(Speed::Full.code(), native::LIBUSB_SPEED_FULL);
    assert_eq!(Speed::High.code(), native::LIBUSB_SPEED_HIGH);
    assert_eq!(Speed::Super.code(), native::LIBUSB_SPEED_SUPER);
    assert_eq!(Speed::SuperPlus.code(), native::LIBUSB_SPEED_SUPER_PLUS);
}

#[test]
fn request_bits_are_the_native_ones() {
    assert_eq!(Direction::In.code(), native::LIBUSB_ENDPOINT_IN);
    assert_eq!(Direction::Out.code(), native::LIBUSB_ENDPOINT_OUT);
    assert_eq!(RequestType::Standard.code(), native::LIBUSB_REQUEST_TYPE_STANDARD);
    assert_eq!(RequestType::Class.code(), native::LIBUSB_REQUEST_TYPE_CLASS);
    assert_eq!(RequestType::Vendor.code(), native::LIBUSB_REQUEST_TYPE_VENDOR);
    assert_eq!(RequestType::Reserved.code(), native::LIBUSB_REQUEST_TYPE_RESERVED);
    assert_eq!(Recipient::Device.code(), native::LIBUSB_RECIPIENT_DEVICE);
    assert_eq!(Recipient::Interface.code(), native::LIBUSB_RECIPIENT_INTERFACE);
    assert_eq!(Recipient::Endpoint.code(), native::LIBUSB_RECIPIENT_ENDPOINT);
    assert_eq!(Recipient::Other.code(), native::LIBUSB_RECIPIENT_OTHER);
}

#[test]
fn endpoint_masks_are_the_native_ones() {
    assert_eq!(endpoint::ENDPOINT_DIR_MASK, native::LIBUSB_ENDPOINT_DIR_MASK);
    assert_eq!(endpoint::TRANSFER_TYPE_MASK, native::LIBUSB_TRANSFER_TYPE_MASK);
    assert_eq!(endpoint::ISO_SYNC_TYPE_MASK, native::LIBUSB_ISO_SYNC_TYPE_MASK);
    assert_eq!(endpoint::ISO_USAGE_TYPE_MASK, native::LIBUSB_ISO_USAGE_TYPE_MASK);
}

#[test]
fn log_levels_capabilities_and_options_are_the_native_ones() {
    assert_eq!(LogLevel::Off.as_c_int(), native::LIBUSB_LOG_LEVEL_NONE);
    assert_eq!(LogLevel::Error.as_c_int(), native::LIBUSB_LOG_LEVEL_ERROR);
    assert_eq!(LogLevel::Warning.as_c_int(), native::LIBUSB_LOG_LEVEL_WARNING);
    assert_eq!(LogLevel::Info.as_c_int(), native::LIBUSB_LOG_LEVEL_INFO);
    assert_eq!(LogLevel::Debug.as_c_int(), native::LIBUSB_LOG_LEVEL_DEBUG);
    assert_eq!(Capability::HasCapability.flag(), native::LIBUSB_CAP_HAS_CAPABILITY);
    assert_eq!(Capability::HasHotplug.flag(), native::LIBUSB_CAP_HAS_HOTPLUG);
    assert_eq!(Capability::HasHidAccess.flag(), native::LIBUSB_CAP_HAS_HID_ACCESS);
    assert_eq!(
        Capability::SupportsDetachKernelDriver.flag(),
        native::LIBUSB_CAP_SUPPORTS_DETACH_KERNEL_DRIVER
    );
    assert_eq!(UsbOption::UseUsbdk.code(), native::LIBUSB_OPTION_USE_USBDK);
    assert_eq!(UsbOption::NoDeviceDiscovery.code(), native::LIBUSB_OPTION_NO_DEVICE_DISCOVERY);
}

#[test]
fn hotplug_constants_are_the_native_ones() {
    assert_eq!(hotplug::MATCH_ANY, native::LIBUSB_HOTPLUG_MATCH_ANY);
    assert_eq!(hotplug::FLAG_ENUMERATE, native::LIBUSB_HOTPLUG_ENUMERATE);
    assert_eq!(hotplug::EVENT_DEVICE_ARRIVED, native::LIBUSB_HOTPLUG_EVENT_DEVICE_ARRIVED);
    assert_eq!(hotplug::EVENT_DEVICE_LEFT, native::LIBUSB_HOTPLUG_EVENT_DEVICE_LEFT);
}
