//! Plain data exchanged between the interface and the Bluetooth worker:
//! device and adapter snapshots, commands and events. No live service handle
//! ever appears in these types.
use vstd::prelude::*;
use vstd::arithmetic::div_mod::lemma_fundamental_div_mod_converse;
use crate::text::push_char;
use vstd::string::StringExecFns;

verus! {

/// A 48-bit Bluetooth device address, most significant byte first.
#[derive(Clone, Copy, Debug, PartialEq, Eq, Structural, Hash)]
pub struct Address {
    value: u64,
}

/// The weight of byte `g` (0 = most significant) of a 48-bit address.
pub open spec fn byte_weight(g: int) -> int {
    if g == 0 {
        0x100_0000_0000
    } else if g == 1 {
        0x1_0000_0000
    } else if g == 2 {
        0x100_0000
    } else if g == 3 {
        0x1_0000
    } else if g == 4 {
        0x100
    } else {
        1
    }
}

/// Byte `g` of the address value `v`.
pub open spec fn address_byte(v: int, g: int) -> int {
    (v / byte_weight(g)) % 256
}

/// An upper-case hexadecimal digit.
pub open spec fn hex_digit(d: int) -> char {
    if d < 10 {
        ((d + 48) as u8) as char
    } else {
        ((d + 55) as u8) as char
    }
}

/// Two upper-case hexadecimal digits for a byte.
pub open spec fn hex_pair(b: int) -> Seq<char> {
    seq![hex_digit(b / 16), hex_digit(b % 16)]
}

/// `XX:XX:XX:XX:XX:XX`, the usual text of an address.
pub open spec fn address_text(v: int) -> Seq<char> {
    hex_pair(address_byte(v, 0)) + seq![':'] + hex_pair(address_byte(v, 1)) + seq![':'] + hex_pair(
        address_byte(v, 2),
    ) + seq![':'] + hex_pair(address_byte(v, 3)) + seq![':'] + hex_pair(address_byte(v, 4))
        + seq![':'] + hex_pair(address_byte(v, 5))
}

fn hex_char(d: u8) -> (c: char)
    requires
        d < 16,
    ensures
        c == hex_digit(d as int),
{
    if d < 10 {
        (d + 48) as char
    } else {
        (d + 55) as char
    }
}

fn push_hex_byte(s: &mut String, b: u8)
    ensures
        final(s)@ == old(s)@ + hex_pair(b as int),
{
    push_char(s, hex_char(b / 16));
    push_char(s, hex_char(b % 16));
    assert(final(s)@ =~= old(s)@ + hex_pair(b as int));
}

proof fn lemma_byte(v: int, hi: int, b: int, lo: int, w: int)
    requires
        w > 0,
        0 <= b < 256,
        0 <= lo < w,
        hi >= 0,
        v == hi * (w * 256) + b * w + lo,
    ensures
        (v / w) % 256 == b,
{
    assert(v == (hi * 256 + b) * w + lo) by (nonlinear_arith)
        requires
            v == hi * (w * 256) + b * w + lo,
    ;
    lemma_fundamental_div_mod_converse(v, w, hi * 256 + b, lo);
    lemma_fundamental_div_mod_converse(hi * 256 + b, 256, hi, b);
}

/// Two addresses are equal exactly when their numbers are.
pub proof fn lemma_value_eq(a: Address, b: Address)
    ensures
        (a.value() == b.value()) == (a == b),
{
}

impl Address {
    /// The address as a number below 2^48.
    pub closed spec fn value(self) -> int {
        self.value as int
    }

    pub closed spec fn wf(self) -> bool {
        self.value < 0x1_0000_0000_0000
    }

    /// Builds an address from its six bytes, most significant first.
    pub fn new(bytes: [u8; 6]) -> (r: Address)
        ensures
            r.wf(),
            forall|g: int| 0 <= g < 6 ==> address_byte(r.value(), g) == bytes@[g] as int,
    {
        let v: u64 = bytes[0] as u64 * 0x100_0000_0000 + bytes[1] as u64 * 0x1_0000_0000
            + bytes[2] as u64 * 0x100_0000 + bytes[3] as u64 * 0x1_0000 + bytes[4] as u64 * 0x100
            + bytes[5] as u64;
        let r = Address { value: v };
        proof {
            let b0 = bytes@[0] as int;
            let b1 = bytes@[1] as int;
            let b2 = bytes@[2] as int;
            let b3 = bytes@[3] as int;
            let b4 = bytes@[4] as int;
            let b5 = bytes@[5] as int;
            lemma_byte(v as int, 0, b0, b1 * 0x1_0000_0000 + b2 * 0x100_0000 + b3 * 0x1_0000 + b4 * 0x100 + b5, 0x100_0000_0000);
            lemma_byte(v as int, b0, b1, b2 * 0x100_0000 + b3 * 0x1_0000 + b4 * 0x100 + b5, 0x1_0000_0000);
            lemma_byte(v as int, b0 * 0x100 + b1, b2, b3 * 0x1_0000 + b4 * 0x100 + b5, 0x100_0000);
            lemma_byte(v as int, b0 * 0x1_0000 + b1 * 0x100 + b2, b3, b4 * 0x100 + b5, 0x1_0000);
            lemma_byte(v as int, b0 * 0x100_0000 + b1 * 0x1_0000 + b2 * 0x100 + b3, b4, b5, 0x100);
            lemma_byte(v as int, b0 * 0x1_0000_0000 + b1 * 0x100_0000 + b2 * 0x1_0000 + b3 * 0x100 + b4, b5, 0, 1);
        }
        r
    }

    /// The six bytes, most significant first.
    pub fn bytes(&self) -> (r: [u8; 6])
        ensures
            forall|g: int| 0 <= g < 6 ==> r@[g] as int == address_byte(self.value(), g),
    {
        let v = self.value;
        [
            ((v / 0x100_0000_0000) % 256) as u8,
            ((v / 0x1_0000_0000) % 256) as u8,
            ((v / 0x100_0000) % 256) as u8,
            ((v / 0x1_0000) % 256) as u8,
            ((v / 0x100) % 256) as u8,
            (v % 256) as u8,
        ]
    }

    /// The address as a number, for ordering.
    pub fn as_u64(&self) -> (r: u64)
        ensures
            r == self.value(),
    {
        self.value
    }

    /// `XX:XX:XX:XX:XX:XX` with upper-case digits.
    pub fn to_string(&self) -> (r: String)
        ensures
            r@ == address_text(self.value()),
    {
        let v = self.value;
        let mut s = String::new();
        push_hex_byte(&mut s, ((v / 0x100_0000_0000) % 256) as u8);
        push_char(&mut s, ':');
        push_hex_byte(&mut s, ((v / 0x1_0000_0000) % 256) as u8);
        push_char(&mut s, ':');
        push_hex_byte(&mut s, ((v / 0x100_0000) % 256) as u8);
        push_char(&mut s, ':');
        push_hex_byte(&mut s, ((v / 0x1_0000) % 256) as u8);
        push_char(&mut s, ':');
        push_hex_byte(&mut s, ((v / 0x100) % 256) as u8);
        push_char(&mut s, ':');
        push_hex_byte(&mut s, (v % 256) as u8);
        assert(s@ =~= address_text(v as int));
        s
    }
}

/// Plain snapshot of the host adapter.
#[derive(Debug)]
pub struct AdapterInfo {
    pub name: String,
    pub address: Option<Address>,
    pub powered: bool,
    pub discovering: bool,
    pub discoverable: bool,
}

impl AdapterInfo {
    /// The snapshot shown before the worker has reported anything.
    pub fn unknown() -> (r: AdapterInfo)
        ensures
            r.name@.len() == 0,
            r.address is None,
            !r.powered,
            !r.discovering,
            !r.discoverable,
    {
        AdapterInfo {
            name: String::new(),
            address: None,
            powered: false,
            discovering: false,
            discoverable: false,
        }
    }
}

/// Plain snapshot of a remote device, read once from the service.
#[derive(Debug)]
pub struct DeviceInfo {
    pub address: Address,
    pub name: Option<String>,
    pub alias: String,
    pub icon: Option<String>,
    pub rssi: Option<i16>,
    pub tx_power: Option<i16>,
    pub battery: Option<u8>,
    pub paired: bool,
    pub trusted: bool,
    pub connected: bool,
    pub class: Option<u32>,
}

/// Sort tier: 0 connected, 1 paired or trusted, 2 the rest.
pub open spec fn tier(d: DeviceInfo) -> int {
    if d.connected {
        0
    } else if d.paired || d.trusted {
        1
    } else {
        2
    }
}

/// Signal strength used for ordering; a missing reading counts as the weakest.
pub open spec fn rssi_rank(d: DeviceInfo) -> int {
    match d.rssi {
        Some(r) => if r == i16::MIN { i16::MIN + 1 } else { r as int },
        None => i16::MIN + 1,
    }
}

/// The name shown for a device: its name if known, else its alias.
pub open spec fn display_name_of(d: DeviceInfo) -> Seq<char> {
    match d.name {
        Some(n) => n@,
        None => d.alias@,
    }
}

pub fn clone_opt_string(o: &Option<String>) -> (r: Option<String>)
    ensures
        r == *o,
{
    match o {
        Some(s) => Some(s.clone()),
        None => None,
    }
}

impl DeviceInfo {
    /// The best name available for the device.
    pub fn display_name(&self) -> (r: &str)
        ensures
            r@ == display_name_of(*self),
    {
        match &self.name {
            Some(n) => n.as_str(),
            None => self.alias.as_str(),
        }
    }

    /// Ordering key: tier first, then signal strength, strongest first.
    pub fn sort_key(&self) -> (r: (u8, i16))
        ensures
            r.0 as int == tier(*self),
            r.1 as int == -rssi_rank(*self),
    {
        let tier: u8 = if self.connected {
            0
        } else if self.paired || self.trusted {
            1
        } else {
            2
        };
        let rssi: i16 = match self.rssi {
            Some(r) => if r == i16::MIN { i16::MIN + 1 } else { r },
            None => i16::MIN + 1,
        };
        (tier, -rssi)
    }

    /// A field-by-field copy.
    pub fn duplicate(&self) -> (r: DeviceInfo)
        ensures
            r == *self,
    {
        DeviceInfo {
            address: self.address,
            name: clone_opt_string(&self.name),
            alias: self.alias.clone(),
            icon: clone_opt_string(&self.icon),
            rssi: self.rssi,
            tx_power: self.tx_power,
            battery: self.battery,
            paired: self.paired,
            trusted: self.trusted,
            connected: self.connected,
            class: self.class,
        }
    }

    /// `name [address]`, as shown in logs.
    pub fn describe(&self) -> (r: String)
        ensures
            r@ == display_name_of(*self) + seq![' ', '['] + address_text(self.address.value())
                + seq![']'],
    {
        let mut s = String::from_str(self.display_name());
        push_char(&mut s, ' ');
        push_char(&mut s, '[');
        let a = self.address.to_string();
        s.append(a.as_str());
        push_char(&mut s, ']');
        assert(s@ =~= display_name_of(*self) + seq![' ', '['] + address_text(self.address.value())
            + seq![']']);
        s
    }
}

/// Commands from the interface to the worker; sent without waiting for a reply.
#[derive(Debug)]
pub enum BtCommand {
    EnableAdapter,
    DisableAdapter,
    StartScan,
    StopScan,
    Connect(Address),
    Disconnect(Address),
    Pair(Address),
    Trust(Address),
    RemoveDevice(Address),
    RefreshDevice(Address),
    SetAlias(Address, String),
}

/// Events from the worker to the interface.
#[derive(Debug)]
pub enum BtEvent {
    AdapterState(AdapterInfo),
    DeviceFound(DeviceInfo),
    DeviceUpdated(DeviceInfo),
    DeviceRemoved(Address),
    ConnectionResult { address: Address, success: bool, error: Option<String> },
    PairResult { address: Address, success: bool, error: Option<String> },
    PinRequest { address: Address, pin: String },
    ScanningChanged(bool),
    Error(String),
}

} // verus!
