//! Endpoint descriptors and the decoding of their address and attributes.

use crate::fields::{Direction, SyncType, TransferType, UsageType};
use vstd::prelude::*;

verus! {

/// Mask of the endpoint number in an endpoint address: the low three bits.
pub const ENDPOINT_NUMBER_MASK: u8 = 0x07;

/// Mask of the direction in an endpoint address: the high bit.
pub const ENDPOINT_DIR_MASK: u8 = 0x80;

/// The bits of an endpoint address that carry no meaning.
pub const ENDPOINT_RESERVED_MASK: u8 = 0x78;

/// Mask of the transfer type in the attributes of an endpoint.
pub const TRANSFER_TYPE_MASK: u8 = 0x03;

/// Mask of the synchronization mode in the attributes of an endpoint.
pub const ISO_SYNC_TYPE_MASK: u8 = 0x0C;

/// Mask of the usage type in the attributes of an endpoint.
pub const ISO_USAGE_TYPE_MASK: u8 = 0x30;

/// The endpoint number that an address carries.
pub open spec fn number_of_address(address: u8) -> u8 {
    address & 0x07
}

/// The direction that an address carries: `In` where the high bit is set.
pub open spec fn direction_of_address(address: u8) -> Direction {
    Direction::of_bits(address & 0x80)
}

/// The transfer type that an attributes byte carries, in bits 0 and 1.
pub open spec fn transfer_type_of(attributes: u8) -> TransferType {
    TransferType::of_bits(attributes & 0x03)
}

/// The synchronization mode that an attributes byte carries, in bits 2 and 3.
pub open spec fn sync_type_of(attributes: u8) -> SyncType {
    SyncType::of_bits((attributes & 0x0C) >> 2)
}

/// The usage type that an attributes byte carries, in bits 4 and 5.
pub open spec fn usage_type_of(attributes: u8) -> UsageType {
    UsageType::of_bits((attributes & 0x30) >> 4)
}

/// Describes an endpoint: the fields of the standard endpoint descriptor,
/// followed by the bytes that the parser did not interpret.
#[derive(Debug, Clone, PartialEq, Eq)]
pub struct EndpointDescriptor {
    /// Size of the descriptor in bytes.
    pub b_length: u8,
    /// Descriptor type.
    pub b_descriptor_type: u8,
    /// Address of the endpoint: number and direction.
    pub b_endpoint_address: u8,
    /// Attributes: transfer type, synchronization mode and usage type.
    pub bm_attributes: u8,
    /// Maximum packet size.
    pub w_max_packet_size: u16,
    /// Polling interval.
    pub b_interval: u8,
    /// Audio devices only: rate of synchronization feedback.
    pub b_refresh: u8,
    /// Audio devices only: address of the synch endpoint.
    pub b_synch_address: u8,
    /// Uninterpreted descriptor bytes.
    pub extra: Vec<u8>,
}

impl Default for EndpointDescriptor {
    /// A descriptor with every field zero and no extra bytes.
    fn default() -> (d: EndpointDescriptor)
        ensures
            d.b_length == 0,
            d.b_descriptor_type == 0,
            d.b_endpoint_address == 0,
            d.bm_attributes == 0,
            d.w_max_packet_size == 0,
            d.b_interval == 0,
            d.b_refresh == 0,
            d.b_synch_address == 0,
            d.extra@ == Seq::<u8>::empty(),
    {
        EndpointDescriptor {
            b_length: 0,
            b_descriptor_type: 0,
            b_endpoint_address: 0,
            bm_attributes: 0,
            w_max_packet_size: 0,
            b_interval: 0,
            b_refresh: 0,
            b_synch_address: 0,
            extra: Vec::new(),
        }
    }
}

impl EndpointDescriptor {
    /// Returns the endpoint's address.
    pub fn address(&self) -> (r: u8)
        ensures
            r == self.b_endpoint_address,
    {
        self.b_endpoint_address
    }

    /// Returns the endpoint number: the low three bits of the address.
    pub fn number(&self) -> (r: u8)
        ensures
            r == number_of_address(self.b_endpoint_address),
            r == self.b_endpoint_address % 8,
    {
        let a: u8 = self.b_endpoint_address;
        assert(a & 0x07 == a % 8) by (bit_vector);
        a & ENDPOINT_NUMBER_MASK
    }

    /// Returns the endpoint's direction.
    pub fn direction(&self) -> (r: Direction)
        ensures
            r == direction_of_address(self.b_endpoint_address),
            r == Direction::In <==> self.b_endpoint_address >= 0x80,
    {
        let a: u8 = self.b_endpoint_address;
        assert((a & 0x80 == 0) <==> a < 0x80) by (bit_vector);
        match a & ENDPOINT_DIR_MASK {
            0 => Direction::Out,
            _ => Direction::In,
        }
    }

    /// Returns the endpoint's transfer type.
    pub fn transfer_type(&self) -> (r: TransferType)
        ensures
            r == transfer_type_of(self.bm_attributes),
            r == TransferType::of_bits(self.bm_attributes % 4),
    {
        let a: u8 = self.bm_attributes;
        assert(a & 0x03 == a % 4) by (bit_vector);
        match a & TRANSFER_TYPE_MASK {
            0 => TransferType::Control,
            1 => TransferType::Isochronous,
            2 => TransferType::Bulk,
            _ => TransferType::Interrupt,
        }
    }

    /// Returns the endpoint's synchronisation mode.
    ///
    /// The return value of this method is only valid for isochronous endpoints.
    pub fn sync_type(&self) -> (r: SyncType)
        ensures
            r == sync_type_of(self.bm_attributes),
            r == SyncType::of_bits((self.bm_attributes / 4) % 4),
    {
        let a: u8 = self.bm_attributes;
        assert((a & 0x0C) >> 2 == (a / 4) % 4) by (bit_vector);
        match (a & ISO_SYNC_TYPE_MASK) >> 2 {
            0 => SyncType::NoSync,
            1 => SyncType::Asynchronous,
            2 => SyncType::Adaptive,
            _ => SyncType::Synchronous,
        }
    }

    /// Returns the endpoint's usage type.
    ///
    /// The return value of this method is only valid for isochronous endpoints.
    pub fn usage_type(&self) -> (r: UsageType)
        ensures
            r == usage_type_of(self.bm_attributes),
            r == UsageType::of_bits((self.bm_attributes / 16) % 4),
    {
        let a: u8 = self.bm_attributes;
        assert((a & 0x30) >> 4 == (a / 16) % 4) by (bit_vector);
        match (a & ISO_USAGE_TYPE_MASK) >> 4 {
            0 => UsageType::Data,
            1 => UsageType::Feedback,
            2 => UsageType::FeedbackData,
            _ => UsageType::Reserved,
        }
    }

    /// Returns the endpoint's maximum packet size.
    pub fn max_packet_size(&self) -> (r: u16)
        ensures
            r == self.w_max_packet_size,
    {
        self.w_max_packet_size
    }

    /// Returns the endpoint's polling interval.
    pub fn interval(&self) -> (r: u8)
        ensures
            r == self.b_interval,
    {
        self.b_interval
    }

    /// Returns the unknown 'extra' bytes that the parser does not
    /// understand: an empty slice where there are none.
    pub fn extra(&self) -> (r: &[u8])
        ensures
            r@ == self.extra@,
    {
        self.extra.as_slice()
    }

    /// For audio devices only: return the rate at which synchronization feedback is provided.
    pub fn refresh(&self) -> (r: u8)
        ensures
            r == self.b_refresh,
    {
        self.b_refresh
    }

    /// For audio devices only: return the address if the synch endpoint.
    pub fn synch_address(&self) -> (r: u8)
        ensures
            r == self.b_synch_address,
    {
        self.b_synch_address
    }
}

/// The reserved bits of an endpoint address never affect what it decodes
/// to: two addresses that differ in reserved bits only carry the same
/// endpoint number and the same direction.
pub proof fn lemma_reserved_bits_ignored(a: u8, b: u8)
    requires
        a & !ENDPOINT_RESERVED_MASK == b & !ENDPOINT_RESERVED_MASK,
    ensures
        number_of_address(a) == number_of_address(b),
        direction_of_address(a) == direction_of_address(b),
{
    assert((a & !0x78u8 == b & !0x78u8) ==> (a & 0x07 == b & 0x07) && (a & 0x80 == b & 0x80))
        by (bit_vector);
}

/// An address decodes to a number below 8, and the number and the direction
/// bit together with the reserved bits make up the address again.
pub proof fn lemma_address_parts(a: u8)
    ensures
        number_of_address(a) < 8,
        a == number_of_address(a) | (a & ENDPOINT_RESERVED_MASK) | (a & ENDPOINT_DIR_MASK),
{
    assert((a & 0x07) < 8 && a == (a & 0x07) | (a & 0x78) | (a & 0x80)) by (bit_vector);
}

} // verus!
