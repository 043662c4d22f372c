//! Discovery: which of the serial ports that the system lists may be a mesh
//! radio. The answer is advice; only a connect confirms it.

use crate::device::info::{DeviceInfo, DeviceType};
use crate::text::owned;
use vstd::prelude::*;
use vstd::string::StrSliceExecFns;
use vstd::string::StringExecFns;

verus! {

/// What the system tells of the USB device behind a port.
#[derive(Clone, Debug, PartialEq, Eq)]
pub struct UsbPort {
    pub vid: u16,
    pub pid: u16,
    pub product: Option<String>,
    pub manufacturer: Option<String>,
}

/// One serial port as the system lists it.
#[derive(Clone, Debug, PartialEq, Eq)]
pub struct PortDescription {
    pub port_name: String,
    /// The USB device behind the port, where the port is one.
    pub usb: Option<UsbPort>,
}

/// The lower-case form of a text, as `str::to_lowercase` gives it.
pub uninterp spec fn lowercase_text(s: Seq<char>) -> Seq<char>;

/// Calls `str::to_lowercase`. Trusted: the result is the lower-case form
/// of exactly the text handed in.
#[verifier::external_body]
fn lowercase(s: &str) -> (lower: String)
    ensures
        lower@ == lowercase_text(s@),
{
    s.to_lowercase()
}

/// Whether `needle` stands in `hay` at position `i`.
pub open spec fn occurs_at(hay: Seq<char>, needle: Seq<char>, i: int) -> bool {
    0 <= i && i + needle.len() <= hay.len() && hay.subrange(i, i + needle.len()) == needle
}

/// Whether `needle` stands somewhere in `hay`.
pub open spec fn contains_text(hay: Seq<char>, needle: Seq<char>) -> bool {
    exists|i: int| occurs_at(hay, needle, i)
}

/// The characters of a text.
fn chars_of(s: &str) -> (chars: Vec<char>)
    ensures
        chars@ == s@,
{
    let n = s.unicode_len();
    let mut chars: Vec<char> = Vec::new();
    let mut i: usize = 0;
    while i < n
        invariant
            i <= n,
            n == s@.len(),
            chars@ == s@.take(i as int),
        decreases n - i,
    {
        chars.push(s.get_char(i));
        i = i + 1;
    }
    chars
}

/// Whether `needle` stands in `hay` at position `at`.
fn matches_at(hay: &Vec<char>, needle: &Vec<char>, at: usize) -> (found: bool)
    requires
        at + needle@.len() <= hay@.len(),
    ensures
        found == occurs_at(hay@, needle@, at as int),
{
    let m = needle.len();
    let n = hay.len();
    let mut j: usize = 0;
    while j < m
        invariant
            j <= m,
            m == needle@.len(),
            n == hay@.len(),
            at + m <= hay@.len(),
            forall|k: int| 0 <= k < j ==> hay@[at + k] == needle@[k],
        decreases m - j,
    {
        if hay[at + j] != needle[j] {
            return false;
        }
        j = j + 1;
    }
    assert(hay@.subrange(at as int, at + m) =~= needle@);
    true
}

/// Whether `needle` stands somewhere in `hay`. The time taken grows with
/// the square of the length of `hay`; the texts looked at are names of
/// ports and products.
pub fn text_contains(hay: &str, needle: &str) -> (found: bool)
    ensures
        found == contains_text(hay@, needle@),
{
    let hay_chars = chars_of(hay);
    let needle_chars = chars_of(needle);
    let n = hay_chars.len();
    let m = needle_chars.len();
    if m > n {
        return false;
    }
    let last = n - m;
    let mut i: usize = 0;
    loop
        invariant
            i <= last,
            last == n - m,
            m <= n,
            n == hay_chars@.len(),
            m == needle_chars@.len(),
            hay_chars@ == hay@,
            needle_chars@ == needle@,
            forall|k: int| 0 <= k < i ==> !occurs_at(hay@, needle@, k),
        decreases last - i,
    {
        if matches_at(&hay_chars, &needle_chars, i) {
            return true;
        }
        if i == last {
            return false;
        }
        i = i + 1;
    }
}

/// The character of a hexadecimal digit, in lower case.
pub open spec fn hex_digit_char(d: int) -> char {
    if d == 0 {
        '0'
    } else if d == 1 {
        '1'
    } else if d == 2 {
        '2'
    } else if d == 3 {
        '3'
    } else if d == 4 {
        '4'
    } else if d == 5 {
        '5'
    } else if d == 6 {
        '6'
    } else if d == 7 {
        '7'
    } else if d == 8 {
        '8'
    } else if d == 9 {
        '9'
    } else if d == 10 {
        'a'
    } else if d == 11 {
        'b'
    } else if d == 12 {
        'c'
    } else if d == 13 {
        'd'
    } else if d == 14 {
        'e'
    } else {
        'f'
    }
}

/// A 16-bit number as four hexadecimal digits in lower case.
pub open spec fn hex4_text(v: u16) -> Seq<char> {
    seq![
        hex_digit_char(v as int / 4096),
        hex_digit_char((v as int / 256) % 16),
        hex_digit_char((v as int / 16) % 16),
        hex_digit_char(v as int % 16),
    ]
}

/// The one-character text of a hexadecimal digit.
fn hex_digit_text(d: u16) -> (s: &'static str)
    requires
        d < 16,
    ensures
        s@ == seq![hex_digit_char(d as int)],
{
    proof {
        reveal_strlit("0");
        reveal_strlit("1");
        reveal_strlit("2");
        reveal_strlit("3");
        reveal_strlit("4");
        reveal_strlit("5");
        reveal_strlit("6");
        reveal_strlit("7");
        reveal_strlit("8");
        reveal_strlit("9");
        reveal_strlit("a");
        reveal_strlit("b");
        reveal_strlit("c");
        reveal_strlit("d");
        reveal_strlit("e");
        reveal_strlit("f");
    }
    let s = if d == 0 {
        "0"
    } else if d == 1 {
        "1"
    } else if d == 2 {
        "2"
    } else if d == 3 {
        "3"
    } else if d == 4 {
        "4"
    } else if d == 5 {
        "5"
    } else if d == 6 {
        "6"
    } else if d == 7 {
        "7"
    } else if d == 8 {
        "8"
    } else if d == 9 {
        "9"
    } else if d == 10 {
        "a"
    } else if d == 11 {
        "b"
    } else if d == 12 {
        "c"
    } else if d == 13 {
        "d"
    } else if d == 14 {
        "e"
    } else {
        "f"
    };
    s
}

/// A 16-bit number as four hexadecimal digits in lower case.
pub fn hex4(v: u16) -> (s: String)
    ensures
        s@ == hex4_text(v),
{
    let mut s = String::new();
    s.append(hex_digit_text(v / 4096));
    s.append(hex_digit_text((v / 256) % 16));
    s.append(hex_digit_text((v / 16) % 16));
    s.append(hex_digit_text(v % 16));
    s
}

/// The USB vendor and product ids of the serial bridges and boards that
/// mesh radios are commonly built on.
pub open spec fn is_known_id(vid: u16, pid: u16) -> bool {
    ||| (vid == 0x10c4 && pid == 0xea60)
    ||| (vid == 0x1a86 && pid == 0x7523)
    ||| (vid == 0x0403 && pid == 0x6001)
    ||| (vid == 0x0403 && pid == 0x6010)
    ||| (vid == 0x0403 && pid == 0x6011)
    ||| (vid == 0x0403 && pid == 0x6014)
    ||| (vid == 0x0403 && pid == 0x6015)
    ||| (vid == 0x239a && pid == 0x80f2)
    ||| (vid == 0x239a && pid == 0x8014)
    ||| (vid == 0x303a && pid == 0x1001)
    ||| (vid == 0x303a && pid == 0x0002)
    ||| (vid == 0x1a86 && pid == 0x55d4)
}

/// Whether a USB vendor and product id are those of a known bridge or board.
pub fn is_known_device(vid: u16, pid: u16) -> (known: bool)
    ensures
        known == is_known_id(vid, pid),
{
    (vid == 0x10c4 && pid == 0xea60) || (vid == 0x1a86 && pid == 0x7523) || (vid == 0x0403 && (pid
        == 0x6001 || pid == 0x6010 || pid == 0x6011 || pid == 0x6014 || pid == 0x6015)) || (vid
        == 0x239a && (pid == 0x80f2 || pid == 0x8014)) || (vid == 0x303a && (pid == 0x1001 || pid
        == 0x0002)) || (vid == 0x1a86 && pid == 0x55d4)
}

/// Whether a product name, in lower case, names a mesh radio.
pub open spec fn names_a_radio(lower: Seq<char>) -> bool {
    ||| contains_text(lower, "meshtastic"@)
    ||| contains_text(lower, "lora"@)
    ||| contains_text(lower, "heltec"@)
    ||| contains_text(lower, "ttgo"@)
}

/// Whether a port name looks like that of a USB serial adapter.
pub open spec fn names_a_serial_adapter(name: Seq<char>) -> bool {
    ||| contains_text(name, "usbserial"@)
    ||| contains_text(name, "ttyUSB"@)
    ||| contains_text(name, "ttyACM"@)
    ||| contains_text(name, "cu.usbserial"@)
    ||| contains_text(name, "cu.wchusbserial"@)
}

/// Whether a port may be a mesh radio. A USB port may be one where its ids
/// are known, where its product name names a radio, or where the port name
/// holds `usbserial`; any other port where its name looks like that of a
/// USB serial adapter.
pub open spec fn may_be_radio(port: PortDescription) -> bool {
    match port.usb {
        Some(usb) => {
            ||| is_known_id(usb.vid, usb.pid)
            ||| (usb.product matches Some(product) && names_a_radio(lowercase_text(product@)))
            ||| contains_text(port.port_name@, "usbserial"@)
        },
        None => names_a_serial_adapter(port.port_name@),
    }
}

/// Whether a port may be a mesh radio.
pub fn is_likely_meshtastic(port: &PortDescription) -> (likely: bool)
    ensures
        likely == may_be_radio(*port),
{
    let name = port.port_name.as_str();
    match &port.usb {
        Some(usb) => {
            let known = is_known_device(usb.vid, usb.pid);
            let named = match &usb.product {
                Some(product) => {
                    let lower = lowercase(product.as_str());
                    text_contains(lower.as_str(), "meshtastic") || text_contains(
                        lower.as_str(),
                        "lora",
                    ) || text_contains(lower.as_str(), "heltec") || text_contains(
                        lower.as_str(),
                        "ttgo",
                    )
                },
                None => false,
            };
            let generic = text_contains(name, "usbserial");
            known || named || generic
        },
        None => {
            text_contains(name, "usbserial") || text_contains(name, "ttyUSB") || text_contains(
                name,
                "ttyACM",
            ) || text_contains(name, "cu.usbserial") || text_contains(name, "cu.wchusbserial")
        },
    }
}

/// Whether a device entry is the one that a port gets. The port name serves
/// as id and path. A USB port gives the product name as name, or the port
/// name where it has none; the manufacturer, or `Unknown`; and its ids as
/// four hexadecimal digits each. Any other port is named by its port name.
pub open spec fn describes(info: DeviceInfo, port: PortDescription) -> bool {
    &&& info.id@ == port.port_name@
    &&& info.path@ == port.port_name@
    &&& info.device_type == DeviceType::Serial
    &&& info.is_available
    &&& match port.usb {
        Some(usb) => {
            &&& info.name@ == match usb.product {
                Some(product) => product@,
                None => port.port_name@,
            }
            &&& info.manufacturer matches Some(m) && m@ == match usb.manufacturer {
                Some(manufacturer) => manufacturer@,
                None => "Unknown"@,
            }
            &&& info.vendor_id matches Some(v) && v@ == hex4_text(usb.vid)
            &&& info.product_id matches Some(p) && p@ == hex4_text(usb.pid)
        },
        None => {
            &&& info.name@ == port.port_name@
            &&& info.manufacturer is None
            &&& info.vendor_id is None
            &&& info.product_id is None
        },
    }
}

/// The device entry of a port.
pub fn describe_port(port: &PortDescription) -> (info: DeviceInfo)
    ensures
        describes(info, *port),
{
    match &port.usb {
        Some(usb) => {
            let name = match &usb.product {
                Some(product) => product.clone(),
                None => port.port_name.clone(),
            };
            let manufacturer = match &usb.manufacturer {
                Some(manufacturer) => manufacturer.clone(),
                None => owned("Unknown"),
            };
            DeviceInfo::new(
                port.port_name.clone(),
                name,
                port.port_name.clone(),
                DeviceType::Serial,
            ).with_manufacturer(manufacturer).with_vendor_id(hex4(usb.vid)).with_product_id(
                hex4(usb.pid),
            )
        },
        None => DeviceInfo::new(
            port.port_name.clone(),
            port.port_name.clone(),
            port.port_name.clone(),
            DeviceType::Serial,
        ),
    }
}

/// The ports that may be mesh radios, in the order listed.
pub open spec fn likely_ports(ports: Seq<PortDescription>) -> Seq<PortDescription>
    decreases ports.len(),
{
    if ports.len() == 0 {
        Seq::empty()
    } else if may_be_radio(ports.last()) {
        likely_ports(ports.drop_last()).push(ports.last())
    } else {
        likely_ports(ports.drop_last())
    }
}

/// The device entries of the listed ports that may be mesh radios, in the
/// order listed.
pub fn likely_devices(ports: &Vec<PortDescription>) -> (devices: Vec<DeviceInfo>)
    ensures
        devices@.len() == likely_ports(ports@).len(),
        forall|i: int| 0 <= i < devices@.len() ==> describes(devices@[i], likely_ports(ports@)[i]),
{
    let mut devices: Vec<DeviceInfo> = Vec::new();
    let mut i: usize = 0;
    while i < ports.len()
        invariant
            i <= ports.len(),
            devices@.len() == likely_ports(ports@.take(i as int)).len(),
            forall|k: int|
                0 <= k < devices@.len() ==> describes(
                    devices@[k],
                    likely_ports(ports@.take(i as int))[k],
                ),
        decreases ports.len() - i,
    {
        proof {
            let next = ports@.take(i + 1);
            assert(next.drop_last() =~= ports@.take(i as int));
        }
        if is_likely_meshtastic(&ports[i]) {
            devices.push(describe_port(&ports[i]));
        }
        i = i + 1;
    }
    assert(ports@.take(ports.len() as int) =~= ports@);
    devices
}

} // verus!
