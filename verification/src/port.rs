//! The port path of a device and its textual form `bus[-port[.port...]]`.

use crate::decimal::{
    all_digits, chars_of, decimal, is_digit, lemma_decimal_parses, parse_decimal, parse_u8,
    push_decimal,
};
use crate::error::Error;
use crate::fields::int_ordering;
use core::cmp::Ordering;
use vstd::prelude::*;
use vstd::string::StringExecFns;
use vstd::string::StringSliceAdditionalSpecFns;
use vstd::utf8::{encode_utf8, is_ascii_chars_encode_utf8};

verus! {

/// The byte `-`, which parts the bus from the hub ports.
pub const DASH: u8 = 0x2D;

/// The byte `.`, which parts one hub port from the next.
pub const DOT: u8 = 0x2E;

/// The place of the first `b` in `s`, or the length of `s` where there is none.
pub open spec fn first_index(s: Seq<u8>, b: u8) -> int
    decreases s.len(),
{
    if s.len() == 0 {
        0
    } else if s[0] == b {
        0
    } else {
        1 + first_index(s.skip(1), b)
    }
}

/// The numbers that a dot-separated list spells, or `None` where one of its
/// fields spells no number. The empty text is one empty field.
pub open spec fn parse_list(field: Seq<u8>) -> Option<Seq<u8>>
    decreases field.len(),
{
    let k = first_index(field, DOT);
    match parse_u8(field.take(k)) {
        None => None,
        Some(p) => if 0 <= k < field.len() {
            match parse_list(field.skip(k + 1)) {
                None => None,
                Some(rest) => Some(seq![p] + rest),
            }
        } else {
            Some(seq![p])
        },
    }
}

/// The bus and the hub ports that a text spells. The bus is what stands
/// before the first dash; the ports are the dot-separated list between the
/// first dash and the second, or the end; what follows a second dash is not
/// read. Without a dash there are no ports.
pub open spec fn parse_port(s: Seq<u8>) -> Option<(u8, Seq<u8>)> {
    let i = first_index(s, DASH);
    match parse_u8(s.take(i)) {
        None => None,
        Some(bus) => if 0 <= i < s.len() {
            let rest = s.skip(i + 1);
            match parse_list(rest.take(first_index(rest, DASH))) {
                None => None,
                Some(ports) => Some((bus, ports)),
            }
        } else {
            Some((bus, Seq::<u8>::empty()))
        },
    }
}

/// One or more port numbers in decimal, with a dot between each two.
pub open spec fn dotted(ports: Seq<u8>) -> Seq<u8>
    decreases ports.len(),
{
    if ports.len() == 0 {
        Seq::<u8>::empty()
    } else if ports.len() == 1 {
        decimal(ports[0])
    } else {
        dotted(ports.drop_last()) + seq![DOT] + decimal(ports.last())
    }
}

/// The text of a port: the bus in decimal, then, where there are hub ports,
/// a dash and the ports with dots between them.
pub open spec fn port_text(bus: u8, ports: Seq<u8>) -> Seq<u8> {
    if ports.len() == 0 {
        decimal(bus)
    } else {
        decimal(bus) + seq![DASH] + dotted(ports)
    }
}

/// `first_index` is the one place before which no `b` stands and at which,
/// unless it is the end, a `b` stands.
pub proof fn lemma_first_index(s: Seq<u8>, b: u8, i: int)
    requires
        0 <= i <= s.len(),
        forall|k: int| 0 <= k < i ==> s[k] != b,
        i < s.len() ==> s[i] == b,
    ensures
        first_index(s, b) == i,
    decreases s.len(),
{
    if s.len() > 0 && s[0] != b {
        let t = s.skip(1);
        assert forall|k: int| 0 <= k < i - 1 implies t[k] != b by {
        }
        lemma_first_index(t, b, i - 1);
    }
}

/// Whether every byte is a decimal digit or a dot.
spec fn digits_and_dots(s: Seq<u8>) -> bool {
    forall|i: int| 0 <= i < s.len() ==> is_digit(#[trigger] s[i]) || s[i] == DOT
}

/// A dotted list of numbers starts with its first number; where more
/// follow, a dot and their dotted list come next.
proof fn lemma_dotted_front(ports: Seq<u8>)
    requires
        ports.len() >= 2,
    ensures
        dotted(ports) == decimal(ports[0]) + seq![DOT] + dotted(ports.skip(1)),
    decreases ports.len(),
{
    let init = ports.drop_last();
    let tail = ports.skip(1);
    if ports.len() == 2 {
        assert(dotted(init) == decimal(ports[0]));
    } else {
        lemma_dotted_front(init);
        assert(init.skip(1) =~= tail.drop_last());
    }
}

/// A dotted list of numbers holds digits and dots only.
proof fn lemma_dotted_bytes(ports: Seq<u8>)
    ensures
        digits_and_dots(dotted(ports)),
    decreases ports.len(),
{
    if ports.len() == 1 {
        lemma_decimal_parses(ports[0]);
    } else if ports.len() > 1 {
        lemma_dotted_bytes(ports.drop_last());
        lemma_decimal_parses(ports.last());
        assert(digits_and_dots(dotted(ports)));
    }
}

/// Reading a dotted list of numbers gives the numbers back.
proof fn lemma_dotted_parses(ports: Seq<u8>)
    requires
        ports.len() >= 1,
    ensures
        parse_list(dotted(ports)) == Some(ports),
    decreases ports.len(),
{
    let head = decimal(ports[0]);
    let field = dotted(ports);
    lemma_decimal_parses(ports[0]);
    if ports.len() == 1 {
        lemma_first_index(field, DOT, field.len() as int);
        assert(field.take(field.len() as int) =~= field);
    } else {
        let tail = ports.skip(1);
        lemma_dotted_front(ports);
        lemma_dotted_parses(tail);
        let k = head.len() as int;
        assert(forall|i: int| 0 <= i < k ==> field[i] != DOT);
        lemma_first_index(field, DOT, k);
        assert(field.take(k) =~= head);
        assert(field.skip(k + 1) =~= dotted(tail));
    }
}

/// Writing a port as text and reading the text gives the port back: for
/// every bus and every path of hub ports, long or empty.
pub proof fn lemma_port_round_trip(bus: u8, ports: Seq<u8>)
    ensures
        parse_port(port_text(bus, ports)) == Some((bus, ports)),
{
    let head = decimal(bus);
    let s = port_text(bus, ports);
    let i = head.len() as int;
    lemma_decimal_parses(bus);
    assert(forall|k: int| 0 <= k < i ==> s[k] != DASH);
    if ports.len() == 0 {
        lemma_first_index(s, DASH, i);
        assert(s.take(i) =~= head);
    } else {
        let list = dotted(ports);
        lemma_first_index(s, DASH, i);
        assert(s.take(i) =~= head);
        let rest = s.skip(i + 1);
        assert(rest =~= list);
        lemma_dotted_bytes(ports);
        lemma_first_index(rest, DASH, rest.len() as int);
        assert(rest.take(rest.len() as int) =~= rest);
        lemma_dotted_parses(ports);
    }
}

/// The text of a port is ASCII: its characters, encoded as UTF-8, are the
/// bytes of the text. So the string that is written for a port reads back
/// as that port.
pub proof fn lemma_port_text_is_ascii(bus: u8, ports: Seq<u8>)
    ensures
        encode_utf8(chars_of(port_text(bus, ports))) == port_text(bus, ports),
        parse_port(encode_utf8(chars_of(port_text(bus, ports)))) == Some((bus, ports)),
{
    let text = port_text(bus, ports);
    let chars = chars_of(text);
    lemma_decimal_parses(bus);
    lemma_dotted_bytes(ports);
    assert(forall|i: int| 0 <= i < text.len() ==> #[trigger] text[i] < 128);
    assert(forall|i: int| 0 <= i < chars.len() ==> '\0' <= #[trigger] chars[i] <= '\u{7f}');
    is_ascii_chars_encode_utf8(chars);
    assert(encode_utf8(chars) =~= text);
    lemma_port_round_trip(bus, ports);
}

/// The unique port for a USB device.
///
/// This is the combination of the bus number and all the hub ports through
/// which a device is connected.
///
/// Ports are ordered by bus, then by path: the first hub port in which two
/// paths differ decides, and a path comes before each path that extends it.
#[derive(Debug, Clone, Eq, Ord)]
pub struct Port {
    bus: u8,
    ports: Vec<u8>,
}

/// What a port holds.
pub struct PortView {
    /// The USB bus.
    pub bus: u8,
    /// The hub ports through which the device is connected, from the root.
    pub ports: Seq<u8>,
}

impl View for Port {
    type V = PortView;

    closed spec fn view(&self) -> PortView {
        PortView { bus: self.bus, ports: self.ports@ }
    }
}

/// The bytes of `a` from place `i` on.
pub open spec fn bytes_from(a: Seq<u8>, i: usize) -> Seq<u8> {
    a.skip(i as int)
}

/// The byte at a place, as a number.
pub open spec fn byte_at(a: Seq<u8>, i: int) -> int {
    a[i] as int
}

/// How two paths compare: by the first place in which they differ; a path
/// that ends first comes first.
pub open spec fn path_ordering(a: Seq<u8>, b: Seq<u8>) -> Ordering
    decreases a.len(),
{
    if a.len() == 0 && b.len() == 0 {
        Ordering::Equal
    } else if a.len() == 0 {
        Ordering::Less
    } else if b.len() == 0 {
        Ordering::Greater
    } else if a[0] != b[0] {
        int_ordering(byte_at(a, 0), byte_at(b, 0))
    } else {
        path_ordering(a.skip(1), b.skip(1))
    }
}

/// The bus of a port, followed by its hub ports.
pub open spec fn full_path(p: PortView) -> Seq<u8> {
    seq![p.bus] + p.ports
}

/// How two ports compare: by bus, then by path.
pub open spec fn port_ordering(a: PortView, b: PortView) -> Ordering {
    path_ordering(full_path(a), full_path(b))
}

/// What remains of a sequence after one more of its bytes.
proof fn lemma_bytes_from_step(a: Seq<u8>, i: usize)
    requires
        i < a.len() <= usize::MAX,
    ensures
        bytes_from(a, i).len() == a.len() - i,
        bytes_from(a, i)[0] == a[i as int],
        bytes_from(a, i).skip(1) == bytes_from(a, (i + 1) as usize),
{
}

/// Two paths compare as equal exactly when they are the same path, and one
/// comes after the other exactly when the other comes before it.
pub proof fn lemma_path_order(a: Seq<u8>, b: Seq<u8>)
    ensures
        path_ordering(a, b) == Ordering::Equal <==> a == b,
        path_ordering(a, b) == Ordering::Greater <==> path_ordering(b, a) == Ordering::Less,
    decreases a.len(),
{
    if a.len() > 0 && b.len() > 0 {
        lemma_path_order(a.skip(1), b.skip(1));
        if a[0] == b[0] && a.skip(1) == b.skip(1) {
            assert(a =~= seq![a[0]] + a.skip(1));
            assert(b =~= seq![b[0]] + b.skip(1));
        }
    } else if a.len() == 0 && b.len() == 0 {
        assert(a =~= b);
    }
}

/// The order of ports is total: two ports compare as equal exactly when
/// they are the same port, and one comes after the other exactly when the
/// other comes before it.
pub proof fn lemma_port_order(a: PortView, b: PortView)
    ensures
        port_ordering(a, b) == Ordering::Equal <==> a == b,
        port_ordering(a, b) == Ordering::Greater <==> port_ordering(b, a) == Ordering::Less,
{
    let fa = full_path(a);
    let fb = full_path(b);
    lemma_path_order(fa, fb);
    assert(fa.skip(1) =~= a.ports && fb.skip(1) =~= b.ports);
}

/// Compares two paths.
fn path_compare(a: &Vec<u8>, b: &Vec<u8>) -> (r: Ordering)
    ensures
        r == path_ordering(a@, b@),
{
    let mut i: usize = 0;
    let a_len: usize = a.len();
    let b_len: usize = b.len();
    proof {
        if a_len > 0 {
            lemma_bytes_from_step(a@, 0);
        }
        if b_len > 0 {
            lemma_bytes_from_step(b@, 0);
        }
        assert(bytes_from(a@, 0) =~= a@ && bytes_from(b@, 0) =~= b@);
    }
    loop
        invariant
            i <= a@.len() == a_len,
            i <= b@.len() == b_len,
            path_ordering(a@, b@) == path_ordering(bytes_from(a@, i), bytes_from(b@, i)),
        decreases a@.len() - i,
    {
        proof {
            if i < a@.len() {
                lemma_bytes_from_step(a@, i);
            }
            if i < b@.len() {
                lemma_bytes_from_step(b@, i);
            }
        }
        if i == a_len && i == b_len {
            return Ordering::Equal;
        } else if i == a_len {
            return Ordering::Less;
        } else if i == b_len {
            return Ordering::Greater;
        } else if a[i] < b[i] {
            return Ordering::Less;
        } else if a[i] > b[i] {
            return Ordering::Greater;
        }
        i = i + 1;
    }
}

impl PartialEq for Port {
    fn eq(&self, other: &Port) -> (r: bool) {
        proof {
            lemma_path_order(self.ports@, other.ports@);
        }
        self.bus == other.bus && matches!(path_compare(&self.ports, &other.ports), Ordering::Equal)
    }
}

impl vstd::std_specs::cmp::PartialEqSpecImpl for Port {
    open spec fn obeys_eq_spec() -> bool {
        true
    }

    open spec fn eq_spec(&self, other: &Port) -> bool {
        self@ == other@
    }
}

impl PartialOrd for Port {
    fn partial_cmp(&self, other: &Port) -> (r: Option<Ordering>) {
        proof {
            let fa = full_path(self@);
            let fb = full_path(other@);
            assert(fa.skip(1) =~= self@.ports && fb.skip(1) =~= other@.ports);
        }
        if self.bus < other.bus {
            Some(Ordering::Less)
        } else if self.bus > other.bus {
            Some(Ordering::Greater)
        } else {
            Some(path_compare(&self.ports, &other.ports))
        }
    }
}

impl vstd::std_specs::cmp::PartialOrdSpecImpl for Port {
    open spec fn obeys_partial_cmp_spec() -> bool {
        true
    }

    open spec fn partial_cmp_spec(&self, other: &Port) -> Option<Ordering> {
        Some(port_ordering(self@, other@))
    }
}

/// Finds the first `b` in `s`.
fn find_byte(s: &[u8], b: u8) -> (i: usize)
    ensures
        i == first_index(s@, b),
        i <= s@.len(),
{
    let mut i: usize = 0;
    while i < s.len() && s[i] != b
        invariant
            i <= s@.len(),
            forall|k: int| 0 <= k < i ==> s@[k] != b,
        decreases s@.len() - i,
    {
        i = i + 1;
    }
    proof {
        lemma_first_index(s@, b, i as int);
    }
    i
}

/// Copies the bytes of `s` from `from` up to `to`.
fn sub_bytes(s: &[u8], from: usize, to: usize) -> (r: Vec<u8>)
    requires
        from <= to <= s@.len(),
    ensures
        r@ == s@.subrange(from as int, to as int),
{
    let mut r: Vec<u8> = Vec::new();
    let mut i: usize = from;
    while i < to
        invariant
            from <= i <= to <= s@.len(),
            r@ == s@.subrange(from as int, i as int),
        decreases to - i,
    {
        r.push(s[i]);
        i = i + 1;
    }
    r
}

/// Reads a dot-separated list of numbers.
fn parse_ports(field: &[u8]) -> (r: Option<Vec<u8>>)
    ensures
        match parse_list(field@) {
            None => r is None,
            Some(ports) => r is Some && r->0@ == ports,
        },
{
    let mut ports: Vec<u8> = Vec::new();
    let mut rest: Vec<u8> = sub_bytes(field, 0, field.len());
    assert(rest@ =~= field@);
    loop
        invariant
            rest@.len() <= field@.len(),
            match parse_list(rest@) {
                None => parse_list(field@) is None,
                Some(tail) => parse_list(field@) == Some(ports@ + tail),
            },
        decreases rest@.len(),
    {
        let k: usize = find_byte(rest.as_slice(), DOT);
        let item: Vec<u8> = sub_bytes(rest.as_slice(), 0, k);
        match parse_decimal(item.as_slice()) {
            None => {
                return None;
            },
            Some(p) => {
                if k < rest.len() {
                    let next: Vec<u8> = sub_bytes(rest.as_slice(), k + 1, rest.len());
                    ports.push(p);
                    rest = next;
                } else {
                    ports.push(p);
                    return Some(ports);
                }
            },
        }
    }
}

impl Port {
    /// Create a USB port structure from its components.
    pub fn new(bus: u8, ports: Vec<u8>) -> (p: Port)
        ensures
            p@ == (PortView { bus, ports: ports@ }),
    {
        Port { bus, ports }
    }

    /// Gets the bus that the port is on
    pub fn bus(&self) -> (b: u8)
        ensures
            b == self@.bus,
    {
        self.bus
    }

    /// Gets the ordered list of hub port numbers for the port.
    pub fn port_numbers(&self) -> (p: &[u8])
        ensures
            p@ == self@.ports,
    {
        self.ports.as_slice()
    }

    /// Describes the unique port to which the device is attached, in the form
    /// `<bus>[-<port>[.<port>[.<port>[...]]]]`, like `4-1.2`.
    pub fn to_string(&self) -> (s: String)
        ensures
            s@ == chars_of(port_text(self@.bus, self@.ports)),
            parse_port(encode_utf8(s@)) == Some((self@.bus, self@.ports)),
    {
        proof {
            lemma_port_text_is_ascii(self@.bus, self@.ports);
        }
        let mut out: String = String::new();
        push_decimal(&mut out, self.bus);
        let ghost head = decimal(self.bus);
        if self.ports.len() > 0 {
            out.append("-");
            push_decimal(&mut out, self.ports[0]);
            proof {
                reveal_strlit("-");
            }
            let mut i: usize = 1;
            while i < self.ports.len()
                invariant
                    1 <= i <= self.ports@.len(),
                    out@ == chars_of(head + seq![DASH] + dotted(self.ports@.take(i as int))),
                decreases self.ports@.len() - i,
            {
                out.append(".");
                push_decimal(&mut out, self.ports[i]);
                proof {
                    reveal_strlit(".");
                    assert(self.ports@.take(i + 1).drop_last() =~= self.ports@.take(i as int));
                }
                i = i + 1;
            }
            assert(self.ports@.take(i as int) =~= self.ports@);
        }
        out
    }

    /// Reads a port from its text, given as bytes.
    pub fn parse(s: &[u8]) -> (r: Result<Port, Error>)
        ensures
            match parse_port(s@) {
                None => r == Err::<Port, Error>(Error::NotFound),
                Some((bus, ports)) => r is Ok && r->Ok_0@ == (PortView { bus, ports }),
            },
    {
        let i: usize = find_byte(s, DASH);
        let bus_text: Vec<u8> = sub_bytes(s, 0, i);
        let bus: u8 = match parse_decimal(bus_text.as_slice()) {
            None => {
                return Err(Error::NotFound);
            },
            Some(b) => b,
        };
        if i < s.len() {
            let rest: Vec<u8> = sub_bytes(s, i + 1, s.len());
            let j: usize = find_byte(rest.as_slice(), DASH);
            let field: Vec<u8> = sub_bytes(rest.as_slice(), 0, j);
            match parse_ports(field.as_slice()) {
                None => Err(Error::NotFound),
                Some(ports) => Ok(Port { bus, ports }),
            }
        } else {
            Ok(Port { bus, ports: Vec::new() })
        }
    }

    /// Reads a port from a string of the form `<bus>[-<port>[.<port>...]]`.
    /// Text that does not have this form gives `NotFound`.
    pub fn from_str(s: &str) -> (r: Result<Port, Error>)
        ensures
            match parse_port(s.spec_bytes()) {
                None => r == Err::<Port, Error>(Error::NotFound),
                Some((bus, ports)) => r is Ok && r->Ok_0@ == (PortView { bus, ports }),
            },
    {
        Port::parse(s.as_bytes())
    }
}

} // verus!
