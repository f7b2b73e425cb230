//! Deployment constants: the port and pool size of the HTTP surface, its
//! per-phase timeouts, the output pulse width, the join backoff, and the
//! shape of the serial telemetry frame.

use vstd::prelude::*;

verus! {

/// TCP port the control surface listens on.
pub const HTTP_PORT: u16 = 80;

/// Number of identical connection-handler tasks; at most this many
/// connections are served concurrently.
pub const WEB_TASK_POOL_SIZE: usize = 8;

/// Budget for receiving the first byte of a request, in milliseconds.
pub const START_READ_TIMEOUT_MS: u64 = 60_000;

/// Budget for reading the rest of a request, in milliseconds.
pub const READ_TIMEOUT_MS: u64 = 60_000;

/// Budget for flushing a response, in milliseconds.
pub const WRITE_TIMEOUT_MS: u64 = 1_000;

/// How long the start/stop line is held high by one pulse, in milliseconds.
pub const PULSE_MS: u64 = 50;

/// Wait between failed join attempts, in milliseconds.
pub const JOIN_BACKOFF_MS: u64 = 500;

/// Baud rate of the scoreboard's serial feed.
pub const SERIAL_BAUD: u32 = 38_400;

/// Payload bytes that follow the frame marker: minutes, seconds, shot clock,
/// trailer.
pub const FRAME_LEN: usize = 4;

/// The byte that opens a telemetry frame.
pub const FRAME_MARKER: u8 = 0;

/// Name of the open wireless network the device joins.
pub fn network_name() -> (r: &'static str)
    ensures
        r@ == "Scoreboard"@,
{
    "Scoreboard"
}

/// The device's static address configuration: its own address and prefix
/// length, no gateway.  (It also configures no DNS servers.)
#[derive(Clone, Copy, PartialEq, Eq, Debug)]
pub struct NetConfig {
    pub addr: (u8, u8, u8, u8),
    pub prefix_len: u8,
    pub gateway: Option<(u8, u8, u8, u8)>,
}

/// The configuration the device runs with.
pub fn static_net_config() -> (r: NetConfig)
    ensures
        r == (NetConfig { addr: (192, 168, 0, 10), prefix_len: 16, gateway: None }),
{
    NetConfig { addr: (192, 168, 0, 10), prefix_len: 16, gateway: None }
}

} // verus!
