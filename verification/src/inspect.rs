//! Best-effort inspection of raw packet bytes: classify a buffer as IPv4 or
//! unrecognized, and extract the fixed-offset addressing fields if it is.

use vstd::prelude::*;

verus! {

/// What was found in a packet buffer: nothing recognizable, or the three
/// fixed-offset fields of an IPv4 header.
#[derive(Debug, Default)]
pub enum IPI {
    #[default]
    Unrecognized,
    IPV4 {
        ip_source: [u8; 4],
        ip_destination: [u8; 4],
        /// 1=ICMP 2=IGMP 6=TCP 17=UDP
        ip_protocol: u8,
    },
}

/// A buffer is taken for an IPv4 header exactly when it is long enough to
/// hold the 20-byte fixed header and the version nibble (high nibble of
/// byte 0) is 4. Nothing else about the header is validated.
pub open spec fn is_ipv4_header(a: Seq<u8>) -> bool {
    a.len() >= 20 && a[0] >> 4 == 4
}

/// The inspection result that buffer `a` calls for: `IPV4` exactly when the
/// buffer passes the two structural checks, and then with the source address
/// read from bytes 12..16, the destination from bytes 16..20, and the
/// protocol number from byte 9.
pub open spec fn parses_to(a: Seq<u8>, r: IPI) -> bool {
    &&& r is IPV4 <==> is_ipv4_header(a)
    &&& r matches IPI::IPV4 { ip_source, ip_destination, ip_protocol } ==> {
        &&& ip_source@ == a.subrange(12, 16)
        &&& ip_destination@ == a.subrange(16, 20)
        &&& ip_protocol == a[9]
    }
}

impl IPI {
    /// Inspect `a` as a raw IP packet. Total over all byte buffers: too-short
    /// buffers and non-IPv4 version nibbles yield `Unrecognized`, everything else an
    /// `IPV4` with the three fields copied from their fixed offsets.
    pub fn de(a: &[u8]) -> (r: Self)
        ensures
            parses_to(a@, r),
    {
        if a.len() < 20 {
            return Self::Unrecognized;
        }
        if (a[0] >> 4) == 4 {
            let ip_s: [u8; 4] = [a[12], a[13], a[14], a[15]];
            let ip_d: [u8; 4] = [a[16], a[17], a[18], a[19]];
            let ip_p: u8 = a[9];
            proof {
                assert(ip_s@ =~= a@.subrange(12, 16));
                assert(ip_d@ =~= a@.subrange(16, 20));
            }
            return Self::IPV4 {
                ip_source: ip_s,
                ip_destination: ip_d,
                ip_protocol: ip_p,
            };
        }
        Self::Unrecognized
    }
}

/// Inspection is pure: the bytes of the buffer determine the result
/// completely, so any two results drawn from equal byte sequences are equal.
pub proof fn lemma_parse_deterministic(a: Seq<u8>, r1: IPI, r2: IPI)
    requires
        parses_to(a, r1),
        parses_to(a, r2),
    ensures
        r1 == r2,
{
    if is_ipv4_header(a) {
        assert(r1->ip_source =~= r2->ip_source);
        assert(r1->ip_destination =~= r2->ip_destination);
    }
}

} // verus!
