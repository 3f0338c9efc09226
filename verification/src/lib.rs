//! Creation requests for TUN/TAP virtual network interfaces, and a
//! fixed-offset inspector for raw IPv4 packet bytes.

mod iface;
mod inspect;

pub use iface::flags_for;
pub use iface::lemma_mode_flags_distinct;
pub use iface::request_name_field;
pub use iface::TunRequest;
pub use iface::TT;
pub use iface::TTError;
pub use iface::IFF_NO_PI;
pub use iface::IFF_TAP;
pub use iface::IFF_TUN;
pub use inspect::is_ipv4_header;
pub use inspect::lemma_parse_deterministic;
pub use inspect::parses_to;
pub use inspect::IPI;
