//! What the acceptor is configured with.

use crate::vsock::{SocketAddr, VMADDR_CID_ANY};
use vstd::prelude::*;

verus! {

/// The port the acceptor listens on where none is configured.
pub const DEFAULT_VSOCK_PORT: u32 = 2000;

/// The size in bits of the RSA key that attested decryption binds.
pub const RSA_BITS: usize = 2048;

/// The acceptor's configuration.
#[derive(Debug)]
pub struct Config {
    /// The port of the HTTP proxy on the host, where the enclave has no
    /// network of its own.
    pub proxy_port: Option<u32>,
    /// The context id of that proxy.
    pub proxy_cid: Option<u32>,
    /// The endpoint of the key-management service, where it is not the
    /// default one.
    pub endpoint: Option<String>,
    /// The port to listen on.
    pub listen_port: Option<u32>,
}

impl Config {
    /// The address the acceptor binds: every local context id, and the
    /// configured port or the default one.
    pub fn listen_addr(&self) -> (addr: SocketAddr)
        ensures
            addr.cid == VMADDR_CID_ANY,
            addr.port == match self.listen_port {
                Some(port) => port,
                None => DEFAULT_VSOCK_PORT,
            },
    {
        let port = match self.listen_port {
            Some(port) => port,
            None => DEFAULT_VSOCK_PORT,
        };
        SocketAddr::new(VMADDR_CID_ANY, port)
    }
}

} // verus!
