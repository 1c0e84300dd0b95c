//! Field values of USB descriptors and requests: speeds, directions,
//! transfer types, request types, recipients and BCD versions.

use crate::decimal::{chars_of, decimal, push_decimal};
use crate::port::DOT;
use core::cmp::Ordering;
use vstd::prelude::*;
use vstd::string::StringExecFns;
use vstd::std_specs::convert::FromSpecImpl;

verus! {

/// Device speeds, ordered by increasing speed.
#[derive(Debug, PartialEq, Eq, Ord, Clone, Copy, Hash, Structural)]
#[non_exhaustive]
pub enum Speed {
    /// The operating system doesn't know the device speed.
    Unknown,
    /// The device is operating at low speed (1.5 Mbps).
    Low,
    /// The device is operating at full speed (12 Mbps).
    Full,
    /// The device is operating at high speed (480 Mbps).
    High,
    /// The device is operating at super speed (5 Gbps).
    Super,
    /// The device is operating at super speed (10 Gbps).
    SuperPlus,
}

/// The speed that a native speed code stands for; a code without a speed of
/// its own is `Unknown`.
pub open spec fn speed_of_code(n: int) -> Speed {
    if n == 1 {
        Speed::Low
    } else if n == 2 {
        Speed::Full
    } else if n == 3 {
        Speed::High
    } else if n == 4 {
        Speed::Super
    } else if n == 5 {
        Speed::SuperPlus
    } else {
        Speed::Unknown
    }
}

/// How two integers compare.
pub open spec fn int_ordering(a: int, b: int) -> Ordering {
    if a < b {
        Ordering::Less
    } else if a == b {
        Ordering::Equal
    } else {
        Ordering::Greater
    }
}

impl Speed {
    /// The native code of the speed, which is also its place in the order.
    pub open spec fn rank(self) -> int {
        match self {
            Speed::Unknown => 0,
            Speed::Low => 1,
            Speed::Full => 2,
            Speed::High => 3,
            Speed::Super => 4,
            Speed::SuperPlus => 5,
        }
    }

    /// The speed in kilobits per second.
    pub open spec fn kbps(self) -> int {
        match self {
            Speed::Unknown => 0,
            Speed::Low => 1_500,
            Speed::Full => 12_000,
            Speed::High => 480_000,
            Speed::Super => 5_000_000,
            Speed::SuperPlus => 10_000_000,
        }
    }

    /// How this speed compares with another: as their ranks do. This is
    /// what `<`, `<=`, `>` and `>=` compute on speeds.
    pub open spec fn compare(self, other: Speed) -> Ordering {
        int_ordering(self.rank(), other.rank())
    }

    /// The text of the speed: its rate in megabits per second, or `Unknown`.
    pub open spec fn text(self) -> Seq<char> {
        match self {
            Speed::Unknown => "Unknown"@,
            Speed::Low => "1.5 Mbps"@,
            Speed::Full => "12 Mbps"@,
            Speed::High => "480 Mbps"@,
            Speed::Super => "5000 Mbps"@,
            Speed::SuperPlus => "10000 Mbps"@,
        }
    }

    /// Describes the speed in megabits per second.
    pub fn to_string(&self) -> (s: String)
        ensures
            s@ == self.text(),
    {
        let text: &'static str = match self {
            Speed::Unknown => "Unknown",
            Speed::Low => "1.5 Mbps",
            Speed::Full => "12 Mbps",
            Speed::High => "480 Mbps",
            Speed::Super => "5000 Mbps",
            Speed::SuperPlus => "10000 Mbps",
        };
        String::from_str(text)
    }

    /// Gets the native code of the speed.
    pub fn code(&self) -> (n: i32)
        ensures
            n == self.rank(),
    {
        match self {
            Speed::Unknown => 0,
            Speed::Low => 1,
            Speed::Full => 2,
            Speed::High => 3,
            Speed::Super => 4,
            Speed::SuperPlus => 5,
        }
    }

    /// Gets the speed in whole kilobits per second. An unknown speed is
    /// reported as 0.
    pub fn as_kbps(&self) -> (k: u32)
        ensures
            k == self.kbps(),
    {
        match self {
            Speed::Unknown => 0,
            Speed::Low => 1_500,
            Speed::Full => 12_000,
            Speed::High => 480_000,
            Speed::Super => 5_000_000,
            Speed::SuperPlus => 10_000_000,
        }
    }
}

impl From<i32> for Speed {
    fn from(n: i32) -> (s: Speed) {
        match n {
            1 => Speed::Low,
            2 => Speed::Full,
            3 => Speed::High,
            4 => Speed::Super,
            5 => Speed::SuperPlus,
            _ => Speed::Unknown,
        }
    }
}

impl FromSpecImpl<i32> for Speed {
    open spec fn obeys_from_spec() -> bool {
        true
    }

    open spec fn from_spec(n: i32) -> Speed {
        speed_of_code(n as int)
    }
}

impl PartialOrd for Speed {
    fn partial_cmp(&self, other: &Speed) -> (r: Option<Ordering>) {
        let a: i32 = self.code();
        let b: i32 = other.code();
        if a < b {
            Some(Ordering::Less)
        } else if a == b {
            Some(Ordering::Equal)
        } else {
            Some(Ordering::Greater)
        }
    }
}

impl vstd::std_specs::cmp::PartialOrdSpecImpl for Speed {
    open spec fn obeys_partial_cmp_spec() -> bool {
        true
    }

    open spec fn partial_cmp_spec(&self, other: &Speed) -> Option<Ordering> {
        Some(self.compare(*other))
    }
}

/// The order of speeds is total and strict: of two speeds exactly one of
/// "slower", "equal" and "faster" holds, equal ranks mean equal speeds, and
/// the order is transitive.
pub proof fn lemma_speed_order_total(a: Speed, b: Speed, c: Speed)
    ensures
        a.rank() == b.rank() <==> a == b,
        a.compare(b) == Ordering::Less <==> a.rank() < b.rank(),
        a.compare(b) == Ordering::Equal <==> a == b,
        a.compare(b) == Ordering::Greater <==> b.compare(a) == Ordering::Less,
        a.compare(b) == Ordering::Less && b.compare(c) == Ordering::Less ==> a.compare(c)
            == Ordering::Less,
        !(a.compare(a) == Ordering::Less),
{
}

/// The speeds stand in the order Unknown, Low, Full, High, Super,
/// SuperPlus, each strictly below the next, and a faster speed has the
/// larger rate.
pub proof fn lemma_speed_chain(a: Speed, b: Speed)
    ensures
        Speed::Unknown.rank() < Speed::Low.rank() < Speed::Full.rank() < Speed::High.rank()
            < Speed::Super.rank() < Speed::SuperPlus.rank(),
        a.rank() < b.rank() <==> a.kbps() < b.kbps(),
        speed_of_code(a.rank()) == a,
{
}

/// Transfer and endpoint directions.
#[derive(Debug, PartialEq, Eq, Clone, Copy, Hash, Structural)]
pub enum Direction {
    /// Direction for read (device to host) transfers.
    In,
    /// Direction for write (host to device) transfers.
    Out,
}

impl Direction {
    /// The bit pattern of the direction in an address or request type.
    pub open spec fn bits(self) -> u8 {
        match self {
            Direction::In => 0x80,
            Direction::Out => 0x00,
        }
    }

    /// The direction that a bit pattern stands for: zero is `Out`, all else `In`.
    pub open spec fn of_bits(dir: u8) -> Direction {
        if dir == 0 {
            Direction::Out
        } else {
            Direction::In
        }
    }

    /// Gets the bit pattern of the direction.
    pub fn code(&self) -> (b: u8)
        ensures
            b == self.bits(),
    {
        match self {
            Direction::In => 0x80,
            Direction::Out => 0x00,
        }
    }
}

impl From<u8> for Direction {
    fn from(dir: u8) -> (d: Direction) {
        match dir {
            0 => Direction::Out,
            _ => Direction::In,
        }
    }
}

impl FromSpecImpl<u8> for Direction {
    open spec fn obeys_from_spec() -> bool {
        true
    }

    open spec fn from_spec(dir: u8) -> Direction {
        Direction::of_bits(dir)
    }
}

/// An endpoint's transfer type.
#[derive(Debug, PartialEq, Eq, Clone, Copy, Hash, Structural)]
pub enum TransferType {
    /// Control endpoint.
    Control,
    /// Isochronous endpoint.
    Isochronous,
    /// Bulk endpoint.
    Bulk,
    /// Interrupt endpoint.
    Interrupt,
}

impl TransferType {
    /// The transfer type that a code stands for; any code above 2 is `Interrupt`.
    pub open spec fn of_bits(typ: u8) -> TransferType {
        if typ == 0 {
            TransferType::Control
        } else if typ == 1 {
            TransferType::Isochronous
        } else if typ == 2 {
            TransferType::Bulk
        } else {
            TransferType::Interrupt
        }
    }
}

impl From<u8> for TransferType {
    fn from(typ: u8) -> (t: TransferType) {
        match typ {
            0 => TransferType::Control,
            1 => TransferType::Isochronous,
            2 => TransferType::Bulk,
            _ => TransferType::Interrupt,
        }
    }
}

impl FromSpecImpl<u8> for TransferType {
    open spec fn obeys_from_spec() -> bool {
        true
    }

    open spec fn from_spec(typ: u8) -> TransferType {
        TransferType::of_bits(typ)
    }
}

/// Isochronous synchronization mode.
#[derive(Debug, PartialEq, Eq, Clone, Copy, Hash, Structural)]
pub enum IsoSyncType {
    /// No synchronisation.
    NoSync,
    /// Asynchronous.
    Asynchronous,
    /// Adaptive.
    Adaptive,
    /// Synchronous.
    Synchronous,
}

/// The synchronization mode of an isochronous endpoint.
pub type SyncType = IsoSyncType;

impl IsoSyncType {
    /// The mode that a code stands for; any code above 2 is `Synchronous`.
    pub open spec fn of_bits(typ: u8) -> IsoSyncType {
        if typ == 0 {
            IsoSyncType::NoSync
        } else if typ == 1 {
            IsoSyncType::Asynchronous
        } else if typ == 2 {
            IsoSyncType::Adaptive
        } else {
            IsoSyncType::Synchronous
        }
    }
}

impl From<u8> for IsoSyncType {
    fn from(typ: u8) -> (t: IsoSyncType) {
        match typ {
            0 => IsoSyncType::NoSync,
            1 => IsoSyncType::Asynchronous,
            2 => IsoSyncType::Adaptive,
            _ => IsoSyncType::Synchronous,
        }
    }
}

impl FromSpecImpl<u8> for IsoSyncType {
    open spec fn obeys_from_spec() -> bool {
        true
    }

    open spec fn from_spec(typ: u8) -> IsoSyncType {
        IsoSyncType::of_bits(typ)
    }
}

/// Usage type for isochronous endpoints.
#[derive(Debug, PartialEq, Eq, Clone, Copy, Hash, Structural)]
pub enum IsoUsageType {
    /// Data endpoint.
    Data,
    /// Feedback endpoint.
    Feedback,
    /// Explicit feedback data endpoint.
    FeedbackData,
    /// Reserved.
    Reserved,
}

/// The usage type of an isochronous endpoint.
pub type UsageType = IsoUsageType;

impl IsoUsageType {
    /// The usage type that a code stands for; any code above 2 is `Reserved`.
    pub open spec fn of_bits(typ: u8) -> IsoUsageType {
        if typ == 0 {
            IsoUsageType::Data
        } else if typ == 1 {
            IsoUsageType::Feedback
        } else if typ == 2 {
            IsoUsageType::FeedbackData
        } else {
            IsoUsageType::Reserved
        }
    }
}

impl From<u8> for IsoUsageType {
    fn from(typ: u8) -> (t: IsoUsageType) {
        match typ {
            0 => IsoUsageType::Data,
            1 => IsoUsageType::Feedback,
            2 => IsoUsageType::FeedbackData,
            _ => IsoUsageType::Reserved,
        }
    }
}

impl FromSpecImpl<u8> for IsoUsageType {
    open spec fn obeys_from_spec() -> bool {
        true
    }

    open spec fn from_spec(typ: u8) -> IsoUsageType {
        IsoUsageType::of_bits(typ)
    }
}

/// Types of control transfers.
#[derive(Debug, PartialEq, Eq, Clone, Copy, Hash, Structural)]
pub enum RequestType {
    /// Requests that are defined by the USB standard.
    Standard,
    /// Requests that are defined by a device class, e.g., HID.
    Class,
    /// Vendor-specific requests.
    Vendor,
    /// Reserved for future use.
    Reserved,
}

impl RequestType {
    /// The bit pattern of the request type: its number in bits 5 and 6.
    pub open spec fn bits(self) -> u8 {
        match self {
            RequestType::Standard => 0x00,
            RequestType::Class => 0x20,
            RequestType::Vendor => 0x40,
            RequestType::Reserved => 0x60,
        }
    }

    /// Gets the bit pattern of the request type.
    pub fn code(&self) -> (b: u8)
        ensures
            b == self.bits(),
    {
        match self {
            RequestType::Standard => 0x00,
            RequestType::Class => 0x20,
            RequestType::Vendor => 0x40,
            RequestType::Reserved => 0x60,
        }
    }
}

/// Recipients of control transfers.
#[derive(Debug, PartialEq, Eq, Clone, Copy, Hash, Structural)]
pub enum Recipient {
    /// The recipient is a device.
    Device,
    /// The recipient is an interface.
    Interface,
    /// The recipient is an endpoint.
    Endpoint,
    /// Other.
    Other,
}

impl Recipient {
    /// The bit pattern of the recipient: its number in the low bits.
    pub open spec fn bits(self) -> u8 {
        match self {
            Recipient::Device => 0x00,
            Recipient::Interface => 0x01,
            Recipient::Endpoint => 0x02,
            Recipient::Other => 0x03,
        }
    }

    /// Gets the bit pattern of the recipient.
    pub fn code(&self) -> (b: u8)
        ensures
            b == self.bits(),
    {
        match self {
            Recipient::Device => 0x00,
            Recipient::Interface => 0x01,
            Recipient::Endpoint => 0x02,
            Recipient::Other => 0x03,
        }
    }
}

/// Builds a value for the `bmRequestType` field of a control transfer setup
/// packet: the three bit patterns combined. They occupy disjoint bits, so
/// each can be read back by masking, and the value is also their sum.
pub fn request_type(direction: Direction, kind: RequestType, recipient: Recipient) -> (b: u8)
    ensures
        b == direction.bits() | kind.bits() | recipient.bits(),
        b == direction.bits() + kind.bits() + recipient.bits(),
        b & 0x80 == direction.bits(),
        b & 0x60 == kind.bits(),
        b & 0x1F == recipient.bits(),
{
    let d: u8 = direction.code();
    let t: u8 = kind.code();
    let r: u8 = recipient.code();
    let b: u8 = d | t | r;
    assert((d == 0x80 || d == 0) && (t == 0 || t == 0x20 || t == 0x40 || t == 0x60) && r <= 3 ==> {
        &&& (d | t | r) == d + t + r
        &&& (d | t | r) & 0x80 == d
        &&& (d | t | r) & 0x60 == t
        &&& (d | t | r) & 0x1F == r
    }) by (bit_vector);
    b
}

/// A three-part version consisting of major, minor, and sub minor components.
///
/// Versions are ordered by their major, then their minor, then their sub
/// minor component.
#[derive(Debug, PartialEq, Eq, Clone, Copy, Hash, Ord, Structural)]
pub struct Version(pub u8, pub u8, pub u8);

/// The four binary-coded digits of a 16-bit field, lowest first.
pub open spec fn bcd_digit(raw: u16, place: int) -> int {
    if place == 0 {
        raw as int % 16
    } else if place == 1 {
        (raw as int / 16) % 16
    } else if place == 2 {
        (raw as int / 256) % 16
    } else {
        raw as int / 4096
    }
}

/// A 16-bit field is valid binary-coded decimal when each of its four
/// digits is at most 9.
pub open spec fn is_bcd(raw: u16) -> bool {
    forall|place: int| 0 <= place < 4 ==> #[trigger] bcd_digit(raw, place) <= 9
}

impl Version {
    /// The version that a BCD field `0xJJMN` decodes to: sub minor `N`,
    /// minor `M`, and major the low digit of `JJ` plus ten times the high one.
    pub open spec fn of_bcd(raw: u16) -> Version {
        Version(
            (bcd_digit(raw, 2) + 10 * bcd_digit(raw, 3)) as u8,
            bcd_digit(raw, 1) as u8,
            bcd_digit(raw, 0) as u8,
        )
    }

    /// The component at a place: major at 0, minor at 1, sub minor at 2.
    pub open spec fn part(self, place: int) -> int {
        if place == 0 {
            self.0 as int
        } else if place == 1 {
            self.1 as int
        } else {
            self.2 as int
        }
    }

    /// The three components as one number that orders as the versions do.
    pub open spec fn key(self) -> int {
        self.0 as int * 65536 + self.1 as int * 256 + self.2 as int
    }

    /// How this version compares with another: by the first component in
    /// which they differ. This is what `<`, `<=`, `>` and `>=` compute on
    /// versions.
    pub open spec fn compare(self, other: Version) -> Ordering {
        if self.0 != other.0 {
            int_ordering(self.part(0), other.part(0))
        } else if self.1 != other.1 {
            int_ordering(self.part(1), other.part(1))
        } else {
            int_ordering(self.part(2), other.part(2))
        }
    }

    /// The BCD field that encodes the version.
    pub open spec fn bcd(self) -> int {
        (self.0 as int / 10) * 4096 + (self.0 as int % 10) * 256 + (self.1 as int) * 16
            + self.2 as int
    }

    /// Extracts a version from a binary coded decimal (BCD) field.
    pub fn from_bcd(raw: u16) -> (v: Version)
        ensures
            v == Version::of_bcd(raw),
            v.2 == raw as int % 16,
            v.1 == (raw as int / 16) % 16,
            v.0 == (raw as int / 256) % 16 + 10 * (raw as int / 4096),
    {
        assert(raw & 0x000F == raw % 16) by (bit_vector);
        assert((raw >> 4) & 0x000F == (raw / 16) % 16) by (bit_vector);
        assert((raw >> 8) & 0x000F == (raw / 256) % 16) by (bit_vector);
        assert((raw >> 12) & 0x000F == raw / 4096) by (bit_vector);
        let sub: u8 = (raw & 0x000F) as u8;
        let minor: u8 = ((raw >> 4) & 0x000F) as u8;
        let major: u8 = (((raw >> 8) & 0x000F) + (10 * ((raw >> 12) & 0x000F))) as u8;
        Version(major, minor, sub)
    }

    /// The text of the version: its three components in decimal, with
    /// dots between them.
    pub open spec fn text(self) -> Seq<u8> {
        decimal(self.0) + seq![DOT] + decimal(self.1) + seq![DOT] + decimal(self.2)
    }

    /// Describes the version in the form `major.minor.sub_minor`.
    pub fn to_string(&self) -> (s: String)
        ensures
            s@ == chars_of(self.text()),
    {
        let mut out: String = String::new();
        push_decimal(&mut out, self.0);
        out.append(".");
        push_decimal(&mut out, self.1);
        out.append(".");
        push_decimal(&mut out, self.2);
        proof {
            reveal_strlit(".");
            assert(out@ =~= chars_of(self.text()));
        }
        out
    }

    /// Returns the major version.
    pub fn major(&self) -> (m: u8)
        ensures
            m == self.0,
    {
        self.0
    }

    /// Returns the minor version.
    pub fn minor(&self) -> (m: u8)
        ensures
            m == self.1,
    {
        self.1
    }

    /// Returns the sub minor version.
    pub fn sub_minor(&self) -> (m: u8)
        ensures
            m == self.2,
    {
        self.2
    }
}

impl PartialOrd for Version {
    fn partial_cmp(&self, other: &Version) -> (r: Option<Ordering>) {
        let (a, b): (u8, u8) = if self.0 != other.0 {
            (self.0, other.0)
        } else if self.1 != other.1 {
            (self.1, other.1)
        } else {
            (self.2, other.2)
        };
        if a < b {
            Some(Ordering::Less)
        } else if a == b {
            Some(Ordering::Equal)
        } else {
            Some(Ordering::Greater)
        }
    }
}

impl vstd::std_specs::cmp::PartialOrdSpecImpl for Version {
    open spec fn obeys_partial_cmp_spec() -> bool {
        true
    }

    open spec fn partial_cmp_spec(&self, other: &Version) -> Option<Ordering> {
        Some(self.compare(*other))
    }
}

/// The order of versions is total: two versions compare as their keys do,
/// and they are equal exactly when they compare as equal.
pub proof fn lemma_version_order(a: Version, b: Version)
    ensures
        a.compare(b) == int_ordering(a.key(), b.key()),
        a.compare(b) == Ordering::Equal <==> a == b,
        a.compare(b) == Ordering::Greater <==> b.compare(a) == Ordering::Less,
{
}

/// Decoding a valid BCD field and encoding the version again gives the
/// field back, and the decoded parts are the decimal numbers that the
/// digits spell.
pub proof fn lemma_from_bcd_round_trip(raw: u16)
    requires
        is_bcd(raw),
    ensures
        Version::of_bcd(raw).bcd() == raw,
        Version::of_bcd(raw).0 <= 99,
        Version::of_bcd(raw).1 <= 9,
        Version::of_bcd(raw).2 <= 9,
{
    let d0 = bcd_digit(raw, 0);
    let d1 = bcd_digit(raw, 1);
    let d2 = bcd_digit(raw, 2);
    let d3 = bcd_digit(raw, 3);
    assert(d0 <= 9 && d1 <= 9 && d2 <= 9 && d3 <= 9);
    assert(raw == (raw / 4096) * 4096 + ((raw / 256) % 16) * 256 + ((raw / 16) % 16) * 16 + raw
        % 16) by (bit_vector);
    let major = d2 + 10 * d3;
    assert(major / 10 == d3 && major % 10 == d2);
}

} // verus!
