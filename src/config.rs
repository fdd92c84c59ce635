//! Fixed network and server settings of the device.
use vstd::prelude::*;

verus! {

/// Network name of the access point.
pub const SSID: &'static str = "oven";
/// WPA2-Personal passphrase of the access point.
pub const PASSWORD: &'static str = "time2cook";
/// Gateway address, in dotted form.
pub const GW_IP_ADDR: &'static str = "192.168.2.1";
/// Length of the subnet prefix around the gateway.
pub const PREFIX_LEN: u8 = 24;
/// Sockets the radio-side tasks need in the network stack.
pub const WIFI_TASK_POOL_SIZE: usize = 3;
/// Number of HTTP workers.
pub const WEB_TASK_POOL_SIZE: usize = 2;
/// Port of the HTTP control API.
pub const HTTP_PORT: u16 = 80;

/// The gateway address as four octets.
pub open spec fn gateway_octets() -> Seq<u8> {
    seq![192u8, 168u8, 2u8, 1u8]
}

pub fn gateway_addr() -> (r: [u8; 4])
    ensures
        r@ == gateway_octets(),
{
    let r: [u8; 4] = [192u8, 168u8, 2u8, 1u8];
    assert(r@ =~= gateway_octets());
    r
}

/// The network stack's random seed, made of two 32-bit draws: `hi` in the
/// upper half, `lo` in the lower.
pub fn stack_seed(hi: u32, lo: u32) -> (r: u64)
    ensures
        r == hi as u64 * 0x1_0000_0000 + lo as u64,
{
    assert(hi as u64 * 0x1_0000_0000 + lo as u64 <= u64::MAX) by (nonlinear_arith)
        requires
            hi <= u32::MAX,
            lo <= u32::MAX,
    ;
    hi as u64 * 0x1_0000_0000 + lo as u64
}

/// Sockets the network stack is built with: one per radio-side task and one
/// per HTTP worker.
pub fn stack_socket_count() -> (r: usize)
    ensures
        r == WIFI_TASK_POOL_SIZE + WEB_TASK_POOL_SIZE,
{
    WEB_TASK_POOL_SIZE + WIFI_TASK_POOL_SIZE
}

/// Timeouts and keep-alive policy of each HTTP connection, in milliseconds.
#[derive(Clone, Copy, Debug, PartialEq, Eq, Structural)]
pub struct ServerTimeouts {
    /// Wait for the first request of a connection.
    pub start_read_request_ms: u64,
    /// Wait for the rest of a request once it has begun.
    pub read_request_ms: u64,
    /// Wait for a response to be written.
    pub write_ms: u64,
    /// Wait for a later request on a kept-alive connection.
    pub persistent_start_read_request_ms: u64,
    /// Whether a connection stays open after a response.
    pub keep_alive: bool,
}

impl ServerTimeouts {
    /// The server's settings: 5 s for a first request, 1 s for the rest,
    /// connections kept alive.
    pub fn standard() -> (r: ServerTimeouts)
        ensures
            r == (ServerTimeouts {
                start_read_request_ms: 5000,
                read_request_ms: 1000,
                write_ms: 1000,
                persistent_start_read_request_ms: 1000,
                keep_alive: true,
            }),
    {
        ServerTimeouts {
            start_read_request_ms: 5000,
            read_request_ms: 1000,
            write_ms: 1000,
            persistent_start_read_request_ms: 1000,
            keep_alive: true,
        }
    }
}

} // verus!
