//! Configuration for creating a TUN or TAP virtual network interface, and
//! construction of the fixed-layout kernel request that asks for one.
//!
//! The request layout follows the Linux TUN/TAP control ABI: a 16-byte
//! zero-padded interface-name field, then a flag word selecting the interface
//! kind. Opening the control device and issuing the privileged control
//! operation are I/O and are left to the caller; this module pins down
//! exactly what bytes that operation is handed.

use vstd::prelude::*;
use vstd::string::StringSliceAdditionalSpecFns;

verus! {

/// Flag word bit asking for a TUN interface (raw IP packets).
pub const IFF_TUN: u16 = 0x0001;

/// Flag word bit asking for a TAP interface (Ethernet frames).
pub const IFF_TAP: u16 = 0x0002;

/// Flag word bit asking that no 4-byte packet-information header be
/// prepended to each packet.
pub const IFF_NO_PI: u16 = 0x1000;

/// Why a build failed: the control device could not be opened, or the
/// control operation itself was refused by the kernel.
#[derive(Debug)]
pub enum TTError {
    OpenTun(std::io::Error),
    Ioctl(String),
}

/// Relies on `std::io::Error` from std: carried opaquely inside
/// `TTError::OpenTun` so the caller sees the OS error verbatim; nothing
/// about its contents is assumed.
#[verifier::external_type_specification]
#[verifier::external_body]
pub struct ExIoError(std::io::Error);

/// The fixed-layout interface request handed to the "set TUN/TAP interface
/// flags" control operation: a 16-byte zero-padded name field followed by
/// the flag word.
pub struct TunRequest {
    pub name: [u8; 16],
    pub flags: u16,
}

/// The flag word a mode selects: TAP asks for the TAP bit alone; TUN asks
/// for the TUN bit together with the no-packet-information bit, so the
/// handle carries bare IP packets.
pub open spec fn flags_for(tap: bool) -> u16 {
    if tap {
        IFF_TAP
    } else {
        IFF_TUN | IFF_NO_PI
    }
}

/// The name field that a requested interface name fills: the name's bytes,
/// truncated to the buffer's capacity, followed by zero padding. No byte of
/// the name ever lands past the capacity.
pub open spec fn request_name_field(name_bytes: Seq<u8>) -> Seq<u8> {
    Seq::new(16, |i: int| if i < name_bytes.len() { name_bytes[i] } else { 0u8 })
}

/// A TUN/TAP interface configuration: the interface name to request, the
/// path of the virtual-network control device, and the interface kind.
/// The kind is fixed when the request is built; an existing handle cannot
/// change it.
pub struct TT<'a> {
    pub name: &'a str,
    pub dev_tun: &'a str,
    pub tap: bool,
}

impl<'a> TT<'a> {
    /// A configuration for interface `name` in the given mode, reached
    /// through the control device at `dev_tun`.
    pub fn new(name: &'a str, dev_tun: &'a str, tap: bool) -> (r: Self)
        ensures
            r.name@ == name@,
            r.dev_tun@ == dev_tun@,
            r.tap == tap,
    {
        TT { name, dev_tun, tap }
    }

    /// Build the control request this configuration asks for: the name's
    /// bytes copied into the 16-byte field left to right, stopping at the
    /// name's length or the field's capacity, whichever is smaller, the rest
    /// of the field zero, and the flag word for the configured mode.
    pub fn build_request(&self) -> (r: TunRequest)
        ensures
            r.name@ == request_name_field(self.name.spec_bytes()),
            r.flags == flags_for(self.tap),
    {
        let bytes: &[u8] = self.name.as_bytes();
        let mut name: [u8; 16] = [0u8; 16];
        let n: usize = if bytes.len() < 16 {
            bytes.len()
        } else {
            16
        };
        let mut i: usize = 0;
        while i < n
            invariant
                i <= n,
                n <= 16,
                n <= bytes@.len(),
                bytes@ == self.name.spec_bytes(),
                bytes@.len() < 16 ==> n == bytes@.len(),
                bytes@.len() >= 16 ==> n == 16,
                name@.len() == 16,
                forall|j: int| 0 <= j < i ==> name@[j] == bytes@[j],
                forall|j: int| i <= j < 16 ==> name@[j] == 0u8,
            decreases n - i,
        {
            name[i] = bytes[i];
            i += 1;
        }
        proof {
            assert(name@ =~= request_name_field(self.name.spec_bytes()));
        }
        TunRequest {
            name,
            flags: if self.tap {
                IFF_TAP
            } else {
                IFF_TUN | IFF_NO_PI
            },
        }
    }
}

impl Default for TT<'static> {
    /// The conventional default: interface "tt0", TUN mode, through the
    /// well-known Linux control node.
    fn default() -> (r: Self)
        ensures
            r.name@ == "tt0"@,
            r.dev_tun@ == "/dev/net/tun"@,
            !r.tap,
    {
        TT { name: "tt0", dev_tun: "/dev/net/tun", tap: false }
    }
}

/// The two modes ask for distinct flag words, and the TUN word also sets the
/// no-packet-information bit, so a TUN handle carries bare IP packets.
pub proof fn lemma_mode_flags_distinct()
    ensures
        flags_for(true) != flags_for(false),
        flags_for(false) & IFF_NO_PI == IFF_NO_PI,
        flags_for(true) == IFF_TAP,
{
    assert((0x0001u16 | 0x1000u16) == 0x1001u16) by (bit_vector);
    assert((0x1001u16 & 0x1000u16) == 0x1000u16) by (bit_vector);
}

} // verus!
