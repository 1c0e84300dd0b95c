//! Interfaces, their alternate settings and the endpoints of each setting.

use crate::device_descriptor::{string_index, string_index_of};
use crate::endpoint_descriptor::EndpointDescriptor;
use vstd::prelude::*;

verus! {

/// The most endpoints that a setting can count, and the most interfaces
/// that a configuration can: those counts are one byte wide.
pub const MAX_ENTRIES: usize = 255;

/// What an alternate setting holds.
pub struct InterfaceDescriptorView {
    /// Size of the descriptor in bytes.
    pub b_length: u8,
    /// Descriptor type.
    pub b_descriptor_type: u8,
    /// Number of the interface.
    pub b_interface_number: u8,
    /// Number of the alternate setting.
    pub b_alternate_setting: u8,
    /// Class code.
    pub b_interface_class: u8,
    /// Subclass code.
    pub b_interface_sub_class: u8,
    /// Protocol code.
    pub b_interface_protocol: u8,
    /// Index of the string that describes the interface.
    pub i_interface: u8,
    /// The endpoints of the setting, in descriptor order.
    pub endpoints: Seq<EndpointDescriptor>,
    /// Uninterpreted descriptor bytes.
    pub extra: Seq<u8>,
}

/// Describes an alternate setting for an interface. It never holds more
/// than 255 endpoints.
#[derive(Debug, PartialEq, Eq)]
pub struct InterfaceDescriptor {
    b_length: u8,
    b_descriptor_type: u8,
    b_interface_number: u8,
    b_alternate_setting: u8,
    b_interface_class: u8,
    b_interface_sub_class: u8,
    b_interface_protocol: u8,
    i_interface: u8,
    endpoints: Vec<EndpointDescriptor>,
    extra: Vec<u8>,
}

impl View for InterfaceDescriptor {
    type V = InterfaceDescriptorView;

    closed spec fn view(&self) -> InterfaceDescriptorView {
        InterfaceDescriptorView {
            b_length: self.b_length,
            b_descriptor_type: self.b_descriptor_type,
            b_interface_number: self.b_interface_number,
            b_alternate_setting: self.b_alternate_setting,
            b_interface_class: self.b_interface_class,
            b_interface_sub_class: self.b_interface_sub_class,
            b_interface_protocol: self.b_interface_protocol,
            i_interface: self.i_interface,
            endpoints: self.endpoints@,
            extra: self.extra@,
        }
    }
}

impl InterfaceDescriptor {
    #[verifier::type_invariant]
    spec fn well_formed(self) -> bool {
        self.endpoints@.len() <= MAX_ENTRIES
    }

    /// Makes an alternate setting from the fields of its descriptor and its
    /// endpoints. The number of endpoints is the length of `endpoints`.
    pub fn new(
        b_length: u8,
        b_descriptor_type: u8,
        b_interface_number: u8,
        b_alternate_setting: u8,
        b_interface_class: u8,
        b_interface_sub_class: u8,
        b_interface_protocol: u8,
        i_interface: u8,
        endpoints: Vec<EndpointDescriptor>,
        extra: Vec<u8>,
    ) -> (d: InterfaceDescriptor)
        requires
            endpoints@.len() <= MAX_ENTRIES,
        ensures
            d@ == (InterfaceDescriptorView {
                b_length,
                b_descriptor_type,
                b_interface_number,
                b_alternate_setting,
                b_interface_class,
                b_interface_sub_class,
                b_interface_protocol,
                i_interface,
                endpoints: endpoints@,
                extra: extra@,
            }),
    {
        InterfaceDescriptor {
            b_length,
            b_descriptor_type,
            b_interface_number,
            b_alternate_setting,
            b_interface_class,
            b_interface_sub_class,
            b_interface_protocol,
            i_interface,
            endpoints,
            extra,
        }
    }

    /// Returns the interface's number.
    pub fn interface_number(&self) -> (r: u8)
        ensures
            r == self@.b_interface_number,
    {
        self.b_interface_number
    }

    /// Returns the alternate setting number.
    pub fn setting_number(&self) -> (r: u8)
        ensures
            r == self@.b_alternate_setting,
    {
        self.b_alternate_setting
    }

    /// Returns the interface's class code.
    pub fn class_code(&self) -> (r: u8)
        ensures
            r == self@.b_interface_class,
    {
        self.b_interface_class
    }

    /// Returns the interface's sub class code.
    pub fn sub_class_code(&self) -> (r: u8)
        ensures
            r == self@.b_interface_sub_class,
    {
        self.b_interface_sub_class
    }

    /// Returns the interface's protocol code.
    pub fn protocol_code(&self) -> (r: u8)
        ensures
            r == self@.b_interface_protocol,
    {
        self.b_interface_protocol
    }

    /// Returns the index of the string descriptor that describes the interface.
    pub fn description_string_index(&self) -> (r: Option<u8>)
        ensures
            r == string_index_of(self@.i_interface),
    {
        string_index(self.i_interface)
    }

    /// Returns the number of endpoints belonging to this interface.
    pub fn num_endpoints(&self) -> (r: u8)
        ensures
            r == self@.endpoints.len(),
    {
        proof {
            use_type_invariant(self);
        }
        self.endpoints.len() as u8
    }

    /// Returns a cursor over the interface's endpoint descriptors, placed
    /// before the first.
    pub fn endpoint_descriptors(&self) -> (it: EndpointDescriptors<'_>)
        ensures
            it.items() == self@.endpoints,
            it.position() == 0,
    {
        EndpointDescriptors { items: &self.endpoints, idx: 0 }
    }

    /// Returns the unknown 'extra' bytes that the parser does not
    /// understand: an empty slice where there are none.
    pub fn extra(&self) -> (r: &[u8])
        ensures
            r@ == self@.extra,
    {
        self.extra.as_slice()
    }
}

/// Cursor over an interface's endpoint descriptors. It moves forward only;
/// to start again, ask the descriptor for a new one.
pub struct EndpointDescriptors<'a> {
    items: &'a Vec<EndpointDescriptor>,
    idx: usize,
}

impl<'a> EndpointDescriptors<'a> {
    #[verifier::type_invariant]
    spec fn well_formed(self) -> bool {
        self.idx <= self.items@.len()
    }

    /// The descriptors that the cursor runs over.
    pub closed spec fn items(self) -> Seq<EndpointDescriptor> {
        self.items@
    }

    /// How many descriptors the cursor has yielded.
    pub closed spec fn position(self) -> int {
        self.idx as int
    }

    /// Yields the next descriptor, or `None` once all have been yielded.
    pub fn next(&mut self) -> (r: Option<&'a EndpointDescriptor>)
        ensures
            final(self).items() == old(self).items(),
            old(self).position() < old(self).items().len() ==> r == Some(
                &old(self).items()[old(self).position()],
            ) && final(self).position() == old(self).position() + 1,
            old(self).position() >= old(self).items().len() ==> r is None && final(self).position()
                == old(self).position(),
    {
        proof {
            use_type_invariant(&*self);
        }
        let items: &'a Vec<EndpointDescriptor> = self.items;
        if self.idx < items.len() {
            let r = &items[self.idx];
            self.idx = self.idx + 1;
            Some(r)
        } else {
            None
        }
    }

    /// The number of descriptors still to come, as a lower and an upper bound.
    pub fn size_hint(&self) -> (r: (usize, Option<usize>))
        ensures
            r.0 == self.items().len() - self.position(),
            r.1 == Some(r.0),
    {
        proof {
            use_type_invariant(self);
        }
        let remaining: usize = self.items.len() - self.idx;
        (remaining, Some(remaining))
    }
}

/// A device interface.
///
/// An interface can have several descriptors, each describing an alternate
/// setting of the interface. It has at least one.
#[derive(Debug, PartialEq, Eq)]
pub struct Interface {
    descriptors: Vec<InterfaceDescriptor>,
}

impl View for Interface {
    type V = Seq<InterfaceDescriptor>;

    closed spec fn view(&self) -> Seq<InterfaceDescriptor> {
        self.descriptors@
    }
}

impl Interface {
    #[verifier::type_invariant]
    spec fn well_formed(self) -> bool {
        0 < self.descriptors@.len()
    }

    /// Makes an interface from its alternate settings, in descriptor order,
    /// however many there are. An interface has at least one setting:
    /// without one there is no interface, and the result is `None`.
    pub fn new(descriptors: Vec<InterfaceDescriptor>) -> (r: Option<Interface>)
        ensures
            descriptors@.len() > 0 ==> r is Some && r->0@ == descriptors@,
            descriptors@.len() == 0 ==> r is None,
    {
        if descriptors.len() == 0 {
            None
        } else {
            Some(Interface { descriptors })
        }
    }

    /// Returns the interface's number: that of its first alternate setting.
    pub fn number(&self) -> (r: u8)
        ensures
            0 < self@.len(),
            r == self@[0]@.b_interface_number,
    {
        proof {
            use_type_invariant(self);
        }
        self.descriptors[0].interface_number()
    }

    /// Returns a cursor over the interface's alternate settings, placed
    /// before the first.
    pub fn descriptors(&self) -> (it: InterfaceDescriptors<'_>)
        ensures
            it.items() == self@,
            it.position() == 0,
    {
        InterfaceDescriptors { items: &self.descriptors, idx: 0 }
    }
}

/// Cursor over an interface's alternate settings. It moves forward only;
/// to start again, ask the interface for a new one.
pub struct InterfaceDescriptors<'a> {
    items: &'a Vec<InterfaceDescriptor>,
    idx: usize,
}

impl<'a> InterfaceDescriptors<'a> {
    #[verifier::type_invariant]
    spec fn well_formed(self) -> bool {
        self.idx <= self.items@.len()
    }

    /// The settings that the cursor runs over.
    pub closed spec fn items(self) -> Seq<InterfaceDescriptor> {
        self.items@
    }

    /// How many settings the cursor has yielded.
    pub closed spec fn position(self) -> int {
        self.idx as int
    }

    /// Yields the next setting, or `None` once all have been yielded.
    pub fn next(&mut self) -> (r: Option<&'a InterfaceDescriptor>)
        ensures
            final(self).items() == old(self).items(),
            old(self).position() < old(self).items().len() ==> r == Some(
                &old(self).items()[old(self).position()],
            ) && final(self).position() == old(self).position() + 1,
            old(self).position() >= old(self).items().len() ==> r is None && final(self).position()
                == old(self).position(),
    {
        proof {
            use_type_invariant(&*self);
        }
        let items: &'a Vec<InterfaceDescriptor> = self.items;
        if self.idx < items.len() {
            let r = &items[self.idx];
            self.idx = self.idx + 1;
            Some(r)
        } else {
            None
        }
    }

    /// The number of settings still to come, as a lower and an upper bound.
    pub fn size_hint(&self) -> (r: (usize, Option<usize>))
        ensures
            r.0 == self.items().len() - self.position(),
            r.1 == Some(r.0),
    {
        proof {
            use_type_invariant(self);
        }
        let remaining: usize = self.items.len() - self.idx;
        (remaining, Some(remaining))
    }
}

} // verus!
