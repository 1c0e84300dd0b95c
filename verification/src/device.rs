//! Devices and open device handles, by identity, and what the calls made on
//! a device give back.

use crate::context::Context;
use crate::error::{error_of_code, usb_result, Error};
use crate::fields::{speed_of_code, Speed};
use crate::port::{Port, PortView};
use vstd::prelude::*;

verus! {

/// The depth of the deepest port path: USB 3.0 allows no more, so a
/// device hangs below at most 7 ports.
pub const MAX_PORT_DEPTH: usize = 7;

/// A reference to a USB device: the native record, by address, and the
/// context that produced it. Two devices are equal when they name the same
/// record of the same context.
#[derive(Debug, Clone, Copy, PartialEq, Eq, Structural)]
pub struct Device {
    /// The context that produced the device.
    pub context: Context,
    /// The address of the native record.
    pub device: usize,
}

/// An open session on a device: the native handle, by address, and the
/// context that it was opened in.
#[derive(Debug, PartialEq, Eq, Structural)]
pub struct DeviceHandle {
    context: Context,
    handle: usize,
}

impl View for DeviceHandle {
    type V = (Context, usize);

    closed spec fn view(&self) -> (Context, usize) {
        (self.context, self.handle)
    }
}

impl DeviceHandle {
    /// Makes a handle from the address of an open native session.
    pub fn from_libusb(context: Context, handle: usize) -> (h: DeviceHandle)
        ensures
            h@ == (context, handle),
    {
        DeviceHandle { context, handle }
    }

    /// Gets the address of the native session.
    pub fn as_raw(&self) -> (raw: usize)
        ensures
            raw == self@.1,
    {
        self.handle
    }

    /// Gets the context that the session was opened in.
    pub fn context(&self) -> (c: &Context)
        ensures
            *c == self@.0,
    {
        &self.context
    }
}

/// The port path that the native query gave: the first `n` entries of the
/// buffer, or the error that a negative `n` stands for.
pub open spec fn port_path(n: int, buf: Seq<u8>) -> Result<Seq<u8>, Error> {
    if n < 0 {
        Err(error_of_code(n))
    } else {
        Ok(buf.take(n))
    }
}

impl Device {
    /// Makes a device from the address of a native record.
    pub fn from_libusb(context: Context, device: usize) -> (d: Device)
        ensures
            d == (Device { context, device }),
    {
        Device { context, device }
    }

    /// Gets the address of the native record.
    pub fn as_raw(&self) -> (raw: usize)
        ensures
            raw == self.device,
    {
        self.device
    }

    /// Get the context associated with this device
    pub fn context(&self) -> (c: &Context)
        ensures
            *c == self.context,
    {
        &self.context
    }

    /// Reads the native speed code of the device.
    pub fn speed(&self, code: i32) -> (s: Speed)
        ensures
            s == speed_of_code(code as int),
    {
        Speed::from(code)
    }

    /// Reads what opening the device returned: the error of a status that
    /// is not zero; `NoDevice` where the status is zero and there is no
    /// handle, which means that the device has gone since it was listed;
    /// else the handle, in the context of the device.
    pub fn open(&self, status: i32, handle: usize) -> (r: Result<DeviceHandle, Error>)
        ensures
            status != 0 ==> r == Err::<DeviceHandle, Error>(error_of_code(status as int)),
            status == 0 && handle == 0 ==> r == Err::<DeviceHandle, Error>(Error::NoDevice),
            status == 0 && handle != 0 ==> r is Ok && r->Ok_0@ == (self.context, handle),
    {
        if status != 0 {
            Err(Error::from(status))
        } else if handle == 0 {
            Err(Error::NoDevice)
        } else {
            Ok(DeviceHandle::from_libusb(self.context, handle))
        }
    }

    /// Reads what the query for the parent returned: the parent, in the
    /// context of the device, or `None` where the device has no parent or
    /// none is known.
    pub fn get_parent(&self, parent: usize) -> (r: Option<Device>)
        ensures
            parent == 0 ==> r is None,
            parent != 0 ==> r == Some(Device { context: self.context, device: parent }),
    {
        if parent == 0 {
            None
        } else {
            Some(Device::from_libusb(self.context, parent))
        }
    }

    /// Reads what the query for the port numbers returned: `n` is its
    /// result, `buf` the buffer that it filled. The path never has more
    /// than 7 entries.
    pub fn port_numbers(&self, n: i32, buf: &[u8; 7]) -> (r: Result<Vec<u8>, Error>)
        requires
            n <= MAX_PORT_DEPTH,
        ensures
            match port_path(n as int, buf@) {
                Err(e) => r == Err::<Vec<u8>, Error>(e),
                Ok(path) => r is Ok && r->Ok_0@ == path,
            },
            r is Ok ==> r->Ok_0@.len() <= MAX_PORT_DEPTH,
    {
        let count: usize = match usb_result(n) {
            Ok(c) => c,
            Err(e) => {
                return Err(e);
            },
        };
        let mut ports: Vec<u8> = Vec::new();
        let mut i: usize = 0;
        while i < count
            invariant
                i <= count <= 7,
                ports@ == buf@.take(i as int),
            decreases count - i,
        {
            ports.push(buf[i]);
            i = i + 1;
        }
        Ok(ports)
    }

    /// Gets the full unique port to which the device is attached, from the
    /// bus number and from what the query for the port numbers returned.
    pub fn port(&self, bus: u8, n: i32, buf: &[u8; 7]) -> (r: Result<Port, Error>)
        requires
            n <= MAX_PORT_DEPTH,
        ensures
            match port_path(n as int, buf@) {
                Err(e) => r == Err::<Port, Error>(e),
                Ok(path) => r is Ok && r->Ok_0@ == (PortView { bus, ports: path }),
            },
    {
        match self.port_numbers(n, buf) {
            Ok(ports) => Ok(Port::new(bus, ports)),
            Err(e) => Err(e),
        }
    }
}

} // verus!
