//! Configuration descriptors: power attributes and the interfaces of a
//! configuration.

use crate::device_descriptor::{string_index, string_index_of};
use crate::interface_descriptor::{Interface, MAX_ENTRIES};
use vstd::prelude::*;

verus! {

/// The attribute bit that marks a self-powered configuration.
pub const ATTR_SELF_POWERED: u8 = 0x40;

/// The attribute bit that marks remote wakeup capability.
pub const ATTR_REMOTE_WAKEUP: u8 = 0x20;

/// Whether an attributes byte marks the configuration as self-powered.
pub open spec fn self_powered_of(attributes: u8) -> bool {
    attributes & 0x40 != 0
}

/// Whether an attributes byte marks remote wakeup capability.
pub open spec fn remote_wakeup_of(attributes: u8) -> bool {
    attributes & 0x20 != 0
}

/// The number of entries that a signed length of a native record stands
/// for: a length that is not positive means that there are none. So are the
/// uninterpreted bytes after a descriptor counted, and the alternate
/// settings of an interface.
pub fn native_len(length: i32) -> (n: usize)
    ensures
        length > 0 ==> n == length,
        length <= 0 ==> n == 0,
{
    if length > 0 {
        length as usize
    } else {
        0
    }
}

/// What a configuration descriptor holds.
pub struct ConfigDescriptorView {
    /// Size of the descriptor in bytes.
    pub b_length: u8,
    /// Descriptor type.
    pub b_descriptor_type: u8,
    /// Total length of the data returned for the configuration.
    pub w_total_length: u16,
    /// Number of the configuration.
    pub b_configuration_value: u8,
    /// Index of the string that describes the configuration.
    pub i_configuration: u8,
    /// Power attributes.
    pub bm_attributes: u8,
    /// Maximum power consumption, in units of 2 mA.
    pub b_max_power: u8,
    /// The interfaces of the configuration, in descriptor order.
    pub interfaces: Seq<Interface>,
    /// Uninterpreted descriptor bytes.
    pub extra: Seq<u8>,
}

/// Describes a configuration. It owns its interfaces, their settings and
/// their endpoints: every view of them borrows from it and cannot outlive it.
/// It never holds more than 255 interfaces.
#[derive(Debug, PartialEq, Eq)]
pub struct ConfigDescriptor {
    b_length: u8,
    b_descriptor_type: u8,
    w_total_length: u16,
    b_configuration_value: u8,
    i_configuration: u8,
    bm_attributes: u8,
    b_max_power: u8,
    interfaces: Vec<Interface>,
    extra: Vec<u8>,
}

impl View for ConfigDescriptor {
    type V = ConfigDescriptorView;

    closed spec fn view(&self) -> ConfigDescriptorView {
        ConfigDescriptorView {
            b_length: self.b_length,
            b_descriptor_type: self.b_descriptor_type,
            w_total_length: self.w_total_length,
            b_configuration_value: self.b_configuration_value,
            i_configuration: self.i_configuration,
            bm_attributes: self.bm_attributes,
            b_max_power: self.b_max_power,
            interfaces: self.interfaces@,
            extra: self.extra@,
        }
    }
}

impl ConfigDescriptor {
    #[verifier::type_invariant]
    spec fn well_formed(self) -> bool {
        self.interfaces@.len() <= MAX_ENTRIES
    }

    /// Makes a configuration from the fields of its descriptor and its
    /// interfaces. The number of interfaces is the length of `interfaces`.
    pub fn new(
        b_length: u8,
        b_descriptor_type: u8,
        w_total_length: u16,
        b_configuration_value: u8,
        i_configuration: u8,
        bm_attributes: u8,
        b_max_power: u8,
        interfaces: Vec<Interface>,
        extra: Vec<u8>,
    ) -> (d: ConfigDescriptor)
        requires
            interfaces@.len() <= MAX_ENTRIES,
        ensures
            d@ == (ConfigDescriptorView {
                b_length,
                b_descriptor_type,
                w_total_length,
                b_configuration_value,
                i_configuration,
                bm_attributes,
                b_max_power,
                interfaces: interfaces@,
                extra: extra@,
            }),
    {
        ConfigDescriptor {
            b_length,
            b_descriptor_type,
            w_total_length,
            b_configuration_value,
            i_configuration,
            bm_attributes,
            b_max_power,
            interfaces,
            extra,
        }
    }

    /// Returns the configuration number.
    pub fn number(&self) -> (r: u8)
        ensures
            r == self@.b_configuration_value,
    {
        self.b_configuration_value
    }

    /// Returns the device's maximum power consumption (in milliamps) in
    /// this configuration: twice the descriptor's value, which counts
    /// steps of 2 mA.
    pub fn max_power(&self) -> (r: u16)
        ensures
            r == 2 * self@.b_max_power,
    {
        let raw: u16 = self.b_max_power as u16;
        raw * 2
    }

    /// Indicates if the device is self-powered in this configuration.
    pub fn self_powered(&self) -> (r: bool)
        ensures
            r == self_powered_of(self@.bm_attributes),
            r <==> (self@.bm_attributes / 64) % 2 == 1,
    {
        let a: u8 = self.bm_attributes;
        assert((a & 0x40 != 0) <==> (a / 64) % 2 == 1) by (bit_vector);
        a & ATTR_SELF_POWERED != 0
    }

    /// Indicates if the device has remote wakeup capability in this configuration.
    pub fn remote_wakeup(&self) -> (r: bool)
        ensures
            r == remote_wakeup_of(self@.bm_attributes),
            r <==> (self@.bm_attributes / 32) % 2 == 1,
    {
        let a: u8 = self.bm_attributes;
        assert((a & 0x20 != 0) <==> (a / 32) % 2 == 1) by (bit_vector);
        a & ATTR_REMOTE_WAKEUP != 0
    }

    /// Returns the index of the string descriptor that describes the configuration.
    pub fn description_string_index(&self) -> (r: Option<u8>)
        ensures
            r == string_index_of(self@.i_configuration),
    {
        string_index(self.i_configuration)
    }

    /// Returns the number of interfaces for this configuration.
    pub fn num_interfaces(&self) -> (r: u8)
        ensures
            r == self@.interfaces.len(),
    {
        proof {
            use_type_invariant(self);
        }
        self.interfaces.len() as u8
    }

    /// Returns a cursor over the configuration's interfaces, placed before
    /// the first.
    pub fn interfaces(&self) -> (it: Interfaces<'_>)
        ensures
            it.items() == self@.interfaces,
            it.position() == 0,
    {
        Interfaces { items: &self.interfaces, idx: 0 }
    }

    /// Returns the unknown 'extra' bytes that the parser does not
    /// understand: an empty slice where there are none.
    pub fn extra(&self) -> (r: &[u8])
        ensures
            r@ == self@.extra,
    {
        self.extra.as_slice()
    }
}

/// Cursor over a configuration's interfaces. It moves forward only; to
/// start again, ask the configuration for a new one.
pub struct Interfaces<'a> {
    items: &'a Vec<Interface>,
    idx: usize,
}

impl<'a> Interfaces<'a> {
    #[verifier::type_invariant]
    spec fn well_formed(self) -> bool {
        self.idx <= self.items@.len()
    }

    /// The interfaces that the cursor runs over.
    pub closed spec fn items(self) -> Seq<Interface> {
        self.items@
    }

    /// How many interfaces the cursor has yielded.
    pub closed spec fn position(self) -> int {
        self.idx as int
    }

    /// Yields the next interface, or `None` once all have been yielded.
    pub fn next(&mut self) -> (r: Option<&'a Interface>)
        ensures
            final(self).items() == old(self).items(),
            old(self).position() < old(self).items().len() ==> r == Some(
                &old(self).items()[old(self).position()],
            ) && final(self).position() == old(self).position() + 1,
            old(self).position() >= old(self).items().len() ==> r is None && final(self).position()
                == old(self).position(),
    {
        proof {
            use_type_invariant(&*self);
        }
        let items: &'a Vec<Interface> = self.items;
        if self.idx < items.len() {
            let r = &items[self.idx];
            self.idx = self.idx + 1;
            Some(r)
        } else {
            None
        }
    }

    /// The number of interfaces still to come, as a lower and an upper bound.
    pub fn size_hint(&self) -> (r: (usize, Option<usize>))
        ensures
            r.0 == self.items().len() - self.position(),
            r.1 == Some(r.0),
    {
        proof {
            use_type_invariant(self);
        }
        let remaining: usize = self.items.len() - self.idx;
        (remaining, Some(remaining))
    }
}

/// The self-powered bit and the remote-wakeup bit are independent: changing
/// one of them in an attributes byte leaves the reading of the other as it
/// was, and changes the reading of the bit itself.
pub proof fn lemma_power_bits_independent(attributes: u8)
    ensures
        self_powered_of(attributes ^ ATTR_REMOTE_WAKEUP) == self_powered_of(attributes),
        remote_wakeup_of(attributes ^ ATTR_SELF_POWERED) == remote_wakeup_of(attributes),
        self_powered_of(attributes ^ ATTR_SELF_POWERED) == !self_powered_of(attributes),
        remote_wakeup_of(attributes ^ ATTR_REMOTE_WAKEUP) == !remote_wakeup_of(attributes),
        self_powered_of(attributes | ATTR_SELF_POWERED),
        remote_wakeup_of(attributes | ATTR_REMOTE_WAKEUP),
{
    let a = attributes;
    assert(((a ^ 0x20) & 0x40 != 0) == (a & 0x40 != 0)) by (bit_vector);
    assert(((a ^ 0x40) & 0x20 != 0) == (a & 0x20 != 0)) by (bit_vector);
    assert(((a ^ 0x40) & 0x40 != 0) == !(a & 0x40 != 0)) by (bit_vector);
    assert(((a ^ 0x20) & 0x20 != 0) == !(a & 0x20 != 0)) by (bit_vector);
    assert((a | 0x40) & 0x40 != 0) by (bit_vector);
    assert((a | 0x20) & 0x20 != 0) by (bit_vector);
}

} // verus!
