//! Server configuration and the pool of media ports it describes.
use vstd::prelude::*;

verus! {

/// The address on which media is announced, by its octets
/// (`std::net::IpAddr` held as plain values).
#[derive(Debug, Clone, Copy, PartialEq, Eq)]
pub enum IpEndpoint {
    V4([u8; 4]),
    V6([u8; 16]),
}

/// The server's settings: the secret that signs client tokens, the
/// inclusive range of UDP ports given to media workers, the HTTP signalling
/// port, and the address announced to clients.
pub struct Config {
    pub app_secret: String,
    pub value_port_min: u16,
    pub value_port_max: u16,
    pub signal_port: u16,
    pub ip_endpoint: IpEndpoint,
}

impl Config {
    pub fn new(
        app_secret: String,
        value_port_min: u16,
        value_port_max: u16,
        signal_port: u16,
        ip_endpoint: IpEndpoint,
    ) -> (r: Self)
        ensures
            r.app_secret@ == app_secret@,
            r.value_port_min == value_port_min,
            r.value_port_max == value_port_max,
            r.signal_port == signal_port,
            r.ip_endpoint == ip_endpoint,
    {
        Config { app_secret, value_port_min, value_port_max, signal_port, ip_endpoint }
    }
}

/// The ports `min, min + 1, ..., max` in ascending order; empty when
/// `min > max`.
pub open spec fn port_range(min: u16, max: u16) -> Seq<u16> {
    Seq::new(
        if min <= max { (max - min + 1) as nat } else { 0 },
        |i: int| (min + i) as u16,
    )
}

/// The media ports of a configuration, `(min..=max).collect::<Vec<u16>>()`:
/// one worker is started for each of them.
pub fn media_port_range(min: u16, max: u16) -> (r: Vec<u16>)
    ensures
        r@ == port_range(min, max),
{
    let mut r: Vec<u16> = Vec::new();
    if min > max {
        assert(r@ =~= port_range(min, max));
        return r;
    }
    let mut p: u32 = min as u32;
    while p <= max as u32
        invariant
            min <= max,
            min <= p <= max as u32 + 1,
            r@ =~= port_range(min, max).take(p - min),
        decreases max as u32 + 1 - p,
    {
        r.push(p as u16);
        p = p + 1;
    }
    assert(port_range(min, max).take(p - min) =~= port_range(min, max));
    r
}

/// The media ports are exactly the configured range: a port is in the pool
/// if and only if it lies between the two bounds, each occurs once, and
/// they come in ascending order.
pub proof fn law_media_ports_are_the_range(min: u16, max: u16, p: u16)
    ensures
        port_range(min, max).contains(p) <==> min <= p <= max,
        forall|i: int, j: int|
            0 <= i < j < port_range(min, max).len() ==> #[trigger] port_range(min, max)[i]
                < #[trigger] port_range(min, max)[j],
{
    if min <= p <= max {
        assert(port_range(min, max)[p - min] == p);
    }
}

} // verus!
