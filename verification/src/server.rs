//! UDP echo server role: its configuration and the one decision its receive
//! loop makes — which datagrams to echo back verbatim.

use vstd::prelude::*;
use crate::codec::{has_magic, MAGIC0, MAGIC1, MAGIC2, MAGIC3, PACKET_LEN};

verus! {

/// The echo server's configuration: an explicit bind address, or every
/// interface on the given port.
pub struct UdpServer {
    /// Explicit bind address; absent means the wildcard addresses.
    pub bind: Option<String>,
    /// Port to listen on.
    pub port: u16,
}

impl UdpServer {
    /// A server configuration.
    pub fn new(bind: Option<String>, port: u16) -> (r: Self)
        ensures
            r.bind == bind,
            r.port == port,
    {
        UdpServer { bind, port }
    }

    /// The receive loop's decision: echo exactly the datagrams of at least
    /// 20 bytes whose first four bytes are the magic; drop everything else
    /// without response. `len` is how much of `buf` the receive filled.
    pub fn should_echo(buf: &[u8], len: usize) -> (r: bool)
        requires
            len <= buf@.len(),
        ensures
            r == (len >= PACKET_LEN && has_magic(buf@)),
    {
        len >= PACKET_LEN && buf[0] == MAGIC0 && buf[1] == MAGIC1 && buf[2] == MAGIC2 && buf[3]
            == MAGIC3
    }
}

} // verus!
