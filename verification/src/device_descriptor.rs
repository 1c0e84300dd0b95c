//! The device descriptor and its decoded fields.

use crate::fields::Version;
use vstd::prelude::*;

verus! {

/// What a string-descriptor index field decodes to: zero means that the
/// device has no such string, any other value is the index itself.
pub open spec fn string_index_of(raw: u8) -> Option<u8> {
    if raw == 0 {
        None
    } else {
        Some(raw)
    }
}

/// Decodes a string-descriptor index field.
pub fn string_index(raw: u8) -> (r: Option<u8>)
    ensures
        r == string_index_of(raw),
{
    match raw {
        0 => None,
        n => Some(n),
    }
}

/// Describes a device: the fields of the standard device descriptor, as the
/// device reports them.
#[derive(Debug, Clone, Copy, PartialEq, Eq, Structural)]
pub struct DeviceDescriptor {
    /// Size of the descriptor in bytes.
    pub b_length: u8,
    /// Descriptor type.
    pub b_descriptor_type: u8,
    /// USB release that the device complies with, binary-coded decimal.
    pub bcd_usb: u16,
    /// Class code.
    pub b_device_class: u8,
    /// Subclass code.
    pub b_device_sub_class: u8,
    /// Protocol code.
    pub b_device_protocol: u8,
    /// Maximum packet size of endpoint 0.
    pub b_max_packet_size0: u8,
    /// Vendor ID.
    pub id_vendor: u16,
    /// Product ID.
    pub id_product: u16,
    /// Device release number, binary-coded decimal.
    pub bcd_device: u16,
    /// Index of the manufacturer string.
    pub i_manufacturer: u8,
    /// Index of the product string.
    pub i_product: u8,
    /// Index of the serial number string.
    pub i_serial_number: u8,
    /// Number of configurations.
    pub b_num_configurations: u8,
}

impl Default for DeviceDescriptor {
    /// A descriptor with every field zero.
    fn default() -> (d: DeviceDescriptor)
        ensures
            d == (DeviceDescriptor {
                b_length: 0,
                b_descriptor_type: 0,
                bcd_usb: 0,
                b_device_class: 0,
                b_device_sub_class: 0,
                b_device_protocol: 0,
                b_max_packet_size0: 0,
                id_vendor: 0,
                id_product: 0,
                bcd_device: 0,
                i_manufacturer: 0,
                i_product: 0,
                i_serial_number: 0,
                b_num_configurations: 0,
            }),
    {
        DeviceDescriptor {
            b_length: 0,
            b_descriptor_type: 0,
            bcd_usb: 0,
            b_device_class: 0,
            b_device_sub_class: 0,
            b_device_protocol: 0,
            b_max_packet_size0: 0,
            id_vendor: 0,
            id_product: 0,
            bcd_device: 0,
            i_manufacturer: 0,
            i_product: 0,
            i_serial_number: 0,
            b_num_configurations: 0,
        }
    }
}

impl DeviceDescriptor {
    /// Returns the device's maximum supported USB version.
    pub fn usb_version(&self) -> (v: Version)
        ensures
            v == Version::of_bcd(self.bcd_usb),
    {
        Version::from_bcd(self.bcd_usb)
    }

    /// Returns the manufacturer's version of the device.
    pub fn device_version(&self) -> (v: Version)
        ensures
            v == Version::of_bcd(self.bcd_device),
    {
        Version::from_bcd(self.bcd_device)
    }

    /// Returns the index of the string descriptor that contains the manufacturer name.
    pub fn manufacturer_string_index(&self) -> (r: Option<u8>)
        ensures
            r == string_index_of(self.i_manufacturer),
    {
        string_index(self.i_manufacturer)
    }

    /// Returns the index of the string descriptor that contains the product name.
    pub fn product_string_index(&self) -> (r: Option<u8>)
        ensures
            r == string_index_of(self.i_product),
    {
        string_index(self.i_product)
    }

    /// Returns the index of the string descriptor that contains the device's serial number.
    pub fn serial_number_string_index(&self) -> (r: Option<u8>)
        ensures
            r == string_index_of(self.i_serial_number),
    {
        string_index(self.i_serial_number)
    }

    /// Returns the device's class code.
    pub fn class_code(&self) -> (r: u8)
        ensures
            r == self.b_device_class,
    {
        self.b_device_class
    }

    /// Returns the device's sub class code.
    pub fn sub_class_code(&self) -> (r: u8)
        ensures
            r == self.b_device_sub_class,
    {
        self.b_device_sub_class
    }

    /// Returns the device's protocol code.
    pub fn protocol_code(&self) -> (r: u8)
        ensures
            r == self.b_device_protocol,
    {
        self.b_device_protocol
    }

    /// Returns the device's vendor ID.
    pub fn vendor_id(&self) -> (r: u16)
        ensures
            r == self.id_vendor,
    {
        self.id_vendor
    }

    /// Returns the device's product ID.
    pub fn product_id(&self) -> (r: u16)
        ensures
            r == self.id_product,
    {
        self.id_product
    }

    /// Returns the maximum packet size of the device's first endpoint.
    pub fn max_packet_size(&self) -> (r: u8)
        ensures
            r == self.b_max_packet_size0,
    {
        self.b_max_packet_size0
    }

    /// Returns the number of config descriptors available for the device.
    pub fn num_configurations(&self) -> (r: u8)
        ensures
            r == self.b_num_configurations,
    {
        self.b_num_configurations
    }
}

} // verus!
