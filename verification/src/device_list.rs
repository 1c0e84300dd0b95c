//! A snapshot of the devices that were present when it was taken.

use crate::context::Context;
use crate::device::Device;
use crate::error::{error_of_code, Error};
use vstd::prelude::*;

verus! {

/// What a device list holds.
pub struct DeviceListView {
    /// The context that the list was taken from.
    pub ctx: Context,
    /// The native records of the devices, by address, in native order.
    pub devs: Seq<usize>,
}

/// A list of detected USB devices.
#[derive(Debug, PartialEq, Eq)]
pub struct DeviceList {
    ctx: Context,
    devs: Vec<usize>,
}

impl View for DeviceList {
    type V = DeviceListView;

    closed spec fn view(&self) -> DeviceListView {
        DeviceListView { ctx: self.ctx, devs: self.devs@ }
    }
}

/// The device at a place of a list.
pub open spec fn device_at(list: DeviceListView, idx: int) -> Device {
    Device { context: list.ctx, device: list.devs[idx] }
}

/// The devices of a list, in order.
pub open spec fn devices_of(list: DeviceListView) -> Seq<Device> {
    Seq::new(list.devs.len(), |i: int| device_at(list, i))
}

/// What a native enumeration yields: the error of a negative length;
/// `NotFound` where the length is not negative and there is no list; else
/// the number of records in the list.
pub open spec fn enumeration_outcome(len: int, list_is_null: bool) -> Result<usize, Error> {
    if len < 0 {
        Err(error_of_code(len))
    } else if list_is_null {
        Err(Error::NotFound)
    } else {
        Ok(len as usize)
    }
}

impl DeviceList {
    /// Reads what the native enumeration returned, and tells how many
    /// records there are to take from the list.
    pub fn enumerated(len: isize, list_is_null: bool) -> (r: Result<usize, Error>)
        ensures
            r == enumeration_outcome(len as int, list_is_null),
    {
        if len < -12 {
            Err(Error::Other)
        } else if len < 0 {
            Err(Error::from(len as i32))
        } else if list_is_null {
            Err(Error::NotFound)
        } else {
            Ok(len as usize)
        }
    }

    /// Makes the list of a context from the records that its enumeration gave.
    pub fn new_with_context(ctx: Context, records: Vec<usize>) -> (list: DeviceList)
        ensures
            list@ == (DeviceListView { ctx, devs: records@ }),
    {
        DeviceList { ctx, devs: records }
    }

    /// Makes the list of the global context from the records that its
    /// enumeration gave.
    pub fn new(records: Vec<usize>) -> (list: DeviceList)
        ensures
            list@.ctx@ == 0,
            list@.devs == records@,
    {
        DeviceList::new_with_context(Context::global(), records)
    }

    /// Gets the context used to create this device list.
    pub fn context(&self) -> (c: Context)
        ensures
            c == self@.ctx,
    {
        self.ctx
    }

    /// Returns the number of devices in the list.
    pub fn len(&self) -> (n: usize)
        ensures
            n == self@.devs.len(),
    {
        self.devs.len()
    }

    /// Returns true if the list is empty, else returns false.
    pub fn is_empty(&self) -> (r: bool)
        ensures
            r <==> self@.devs.len() == 0,
    {
        self.devs.len() == 0
    }

    /// Gets the device at the specified index in the list, or `None` where
    /// the index is out of range.
    pub fn get(&self, idx: usize) -> (r: Option<Device>)
        ensures
            idx < self@.devs.len() ==> r == Some(device_at(self@, idx as int)),
            idx >= self@.devs.len() ==> r is None,
    {
        if idx >= self.devs.len() {
            return None;
        }
        Some(Device::from_libusb(self.ctx, self.devs[idx]))
    }

    /// Returns a cursor over the devices in the list, placed before the first.
    pub fn iter(&self) -> (it: Devices<'_>)
        ensures
            it.list() == self@,
            it.position() == 0,
    {
        Devices { list: self, idx: 0 }
    }

    /// Converts the device list into a vector of devices: one for each
    /// record, in order.
    pub fn into_vec(self) -> (v: Vec<Device>)
        ensures
            v@ == devices_of(self@),
            v@.len() == self@.devs.len(),
    {
        let mut v: Vec<Device> = Vec::new();
        let mut it = self.iter();
        loop
            invariant
                it.list() == self@,
                0 <= it.position() <= self@.devs.len(),
                v@ == devices_of(self@).take(it.position()),
            decreases self@.devs.len() - it.position(),
        {
            match it.next() {
                Some(d) => {
                    v.push(d);
                },
                None => {
                    return v;
                },
            }
        }
    }

    /// Turns the list into a cursor that owns it, placed before the first device.
    pub fn into_iter(self) -> (it: DeviceListIterator)
        ensures
            it.list() == self@,
            it.position() == 0,
    {
        DeviceListIterator { list: self, idx: 0 }
    }
}

/// Cursor over detected USB devices. It moves forward only; to start
/// again, ask the list for a new one.
pub struct Devices<'a> {
    list: &'a DeviceList,
    idx: usize,
}

impl<'a> Devices<'a> {
    #[verifier::type_invariant]
    spec fn well_formed(self) -> bool {
        self.idx <= self.list@.devs.len()
    }

    /// The list that the cursor runs over.
    pub closed spec fn list(self) -> DeviceListView {
        self.list@
    }

    /// How many devices the cursor has yielded.
    pub closed spec fn position(self) -> int {
        self.idx as int
    }

    /// Yields the next device, or `None` once each has been yielded once.
    pub fn next(&mut self) -> (r: Option<Device>)
        ensures
            final(self).list() == old(self).list(),
            0 <= old(self).position() <= old(self).list().devs.len(),
            old(self).position() < old(self).list().devs.len() ==> r == Some(
                device_at(old(self).list(), old(self).position()),
            ) && final(self).position() == old(self).position() + 1,
            old(self).position() >= old(self).list().devs.len() ==> r is None
                && final(self).position() == old(self).position(),
    {
        proof {
            use_type_invariant(&*self);
        }
        if self.idx < self.list.len() {
            let dev = self.list.get(self.idx);
            self.idx = self.idx + 1;
            dev
        } else {
            None
        }
    }

    /// The number of devices still to come, as a lower and an upper bound.
    pub fn size_hint(&self) -> (r: (usize, Option<usize>))
        ensures
            r.0 == self.list().devs.len() - self.position(),
            r.1 == Some(r.0),
    {
        proof {
            use_type_invariant(self);
        }
        let remaining: usize = self.list.len() - self.idx;
        (remaining, Some(remaining))
    }
}

/// Cursor over detected USB devices that owns the list.
pub struct DeviceListIterator {
    list: DeviceList,
    idx: usize,
}

impl DeviceListIterator {
    #[verifier::type_invariant]
    spec fn well_formed(self) -> bool {
        self.idx <= self.list@.devs.len()
    }

    /// The list that the cursor runs over.
    pub closed spec fn list(self) -> DeviceListView {
        self.list@
    }

    /// How many devices the cursor has yielded.
    pub closed spec fn position(self) -> int {
        self.idx as int
    }

    /// Yields the next device, or `None` once each has been yielded once.
    pub fn next(&mut self) -> (r: Option<Device>)
        ensures
            final(self).list() == old(self).list(),
            0 <= old(self).position() <= old(self).list().devs.len(),
            old(self).position() < old(self).list().devs.len() ==> r == Some(
                device_at(old(self).list(), old(self).position()),
            ) && final(self).position() == old(self).position() + 1,
            old(self).position() >= old(self).list().devs.len() ==> r is None
                && final(self).position() == old(self).position(),
    {
        proof {
            use_type_invariant(&*self);
        }
        if self.idx < self.list.len() {
            let dev = self.list.get(self.idx);
            self.idx = self.idx + 1;
            dev
        } else {
            None
        }
    }

    /// The number of devices still to come, as a lower and an upper bound.
    pub fn size_hint(&self) -> (r: (usize, Option<usize>))
        ensures
            r.0 == self.list().devs.len() - self.position(),
            r.1 == Some(r.0),
    {
        proof {
            use_type_invariant(self);
        }
        let remaining: usize = self.list.len() - self.idx;
        (remaining, Some(remaining))
    }
}

} // verus!
