//! Settings of a service process.

use vstd::prelude::*;

verus! {

/// Logging settings.
#[derive(Clone, Debug)]
pub struct LogConfig {}

/// Options for starting a service.
#[derive(Debug)]
pub struct ServiceOptions {}

impl Default for ServiceOptions {
    fn default() -> (r: Self) {
        ServiceOptions {}
    }
}

/// The machine identifier of a host with IPv4 address `octets`: the low ten bits of the address
/// read as a big-endian number.
pub fn machine_id_of_ipv4(octets: [u8; 4]) -> (r: i64)
    ensures
        r == (octets[2] as int % 4) * 256 + octets[3] as int,
        0 <= r < 1024,
{
    let h = octets[0] as u32;
    let g = octets[1] as u32;
    let a = octets[2] as u32;
    let b = octets[3] as u32;
    let ip: u32 = (h << 24u32) | (g << 16u32) | (a << 8u32) | b;
    let id = ip & 0x03FF;
    assert(id == (a % 4) * 256 + b) by (bit_vector)
        requires
            id == ip & 0x03FF,
            ip == (h << 24u32) | (g << 16u32) | (a << 8u32) | b,
            h < 256,
            g < 256,
            a < 256,
            b < 256,
    ;
    id as i64
}

} // verus!
