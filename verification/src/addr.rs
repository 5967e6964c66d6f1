//! The portable socket address and its mathematical model.

use vstd::prelude::*;

verus! {

/// Address-family tag of the 4-byte-address family (platform ABI value).
pub const AF_INET: u16 = 2;

/// Address-family tag of the 16-byte-address family (platform ABI value).
pub const AF_INET6: u16 = 10;

/// Size in bytes of the platform's fixed address-storage structure.
pub const SOCKADDR_STORAGE_LEN: usize = 128;

/// Size in bytes of the 4-byte-address record inside the storage.
pub const SOCKADDR_IN_LEN: usize = 16;

/// Size in bytes of the 16-byte-address record inside the storage.
pub const SOCKADDR_IN6_LEN: usize = 28;

/// A portable socket address: IP version, address bytes, port, and for the
/// larger family the flow and scope information.  Immutable once constructed.
#[derive(Debug, Clone, Copy, PartialEq, Eq)]
#[allow(inconsistent_fields)]
pub enum SockAddr {
    /// An address of the 4-byte family.
    V4 { ip: [u8; 4], port: u16 },
    /// An address of the 16-byte family.
    V6 { ip: [u8; 16], port: u16, flowinfo: u32, scope_id: u32 },
}

/// The mathematical model of a portable address: the address bytes as a
/// sequence, with the port and the auxiliary fields as plain integers.
pub enum AddrModel {
    V4 { ip: Seq<u8>, port: u16 },
    V6 { ip: Seq<u8>, port: u16, flowinfo: u32, scope_id: u32 },
}

impl AddrModel {
    /// A model is well formed when its address bytes have the exact length
    /// of its family's address record.
    pub open spec fn wf(self) -> bool {
        match self {
            AddrModel::V4 { ip, .. } => ip.len() == 4,
            AddrModel::V6 { ip, .. } => ip.len() == 16,
        }
    }
}

impl View for SockAddr {
    type V = AddrModel;

    open spec fn view(&self) -> AddrModel {
        match *self {
            SockAddr::V4 { ip, port } => AddrModel::V4 { ip: ip@, port },
            SockAddr::V6 { ip, port, flowinfo, scope_id } => AddrModel::V6 {
                ip: ip@,
                port,
                flowinfo,
                scope_id,
            },
        }
    }
}

} // verus!
