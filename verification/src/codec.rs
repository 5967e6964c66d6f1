//! The address codec: byte-layout conversion between the portable address
//! and the platform's fixed-size, family-tagged address storage.
//!
//! The storage layout is the platform ABI of the datagram syscalls on a
//! little-endian target: the family tag in the first two bytes in host
//! order, the port in network order at offset 2, and the family's record
//! fields after them; bytes past the record are zero.

use vstd::prelude::*;

use crate::addr::{
    AddrModel, SockAddr, AF_INET, AF_INET6, SOCKADDR_IN6_LEN, SOCKADDR_IN_LEN,
    SOCKADDR_STORAGE_LEN,
};
use crate::SockError;

verus! {

/// The 16-bit value stored least-significant byte first at index `i`.
pub open spec fn le16_at(s: Seq<u8>, i: int) -> u16 {
    (s[i] as u16) | ((s[i + 1] as u16) << 8)
}

/// The two bytes, least significant first, of a 16-bit value.
pub open spec fn le16_bytes(x: u16) -> Seq<u8> {
    seq![(x & 0xff) as u8, ((x >> 8) & 0xff) as u8]
}

/// The 16-bit value stored most-significant byte first (network order) at `i`.
pub open spec fn be16_at(s: Seq<u8>, i: int) -> u16 {
    ((s[i] as u16) << 8) | (s[i + 1] as u16)
}

/// The two bytes, most significant first (network order), of a 16-bit value.
pub open spec fn be16_bytes(x: u16) -> Seq<u8> {
    seq![((x >> 8) & 0xff) as u8, (x & 0xff) as u8]
}

/// The 32-bit value stored least-significant byte first at index `i`.
pub open spec fn le32_at(s: Seq<u8>, i: int) -> u32 {
    (s[i] as u32) | ((s[i + 1] as u32) << 8) | ((s[i + 2] as u32) << 16) | ((s[i + 3] as u32)
        << 24)
}

/// The four bytes, least significant first, of a 32-bit value.
pub open spec fn le32_bytes(x: u32) -> Seq<u8> {
    seq![
        (x & 0xff) as u8,
        ((x >> 8) & 0xff) as u8,
        ((x >> 16) & 0xff) as u8,
        ((x >> 24) & 0xff) as u8,
    ]
}

/// A run of `n` zero bytes.
pub open spec fn zero_bytes(n: nat) -> Seq<u8> {
    Seq::new(n, |i: int| 0u8)
}

/// The family tag a storage value carries: its first two bytes.
pub open spec fn family_of(s: Seq<u8>) -> u16 {
    le16_at(s, 0)
}

/// The platform's fixed-size, family-tagged address storage, modelled as its
/// raw bytes.  Written by the kernel on receive and read by the codec;
/// written by the codec on send and read by the kernel.
#[derive(Debug, Clone, PartialEq, Eq)]
pub struct SockAddrStorage {
    pub bytes: Vec<u8>,
}

impl View for SockAddrStorage {
    type V = Seq<u8>;

    open spec fn view(&self) -> Seq<u8> {
        self.bytes@
    }
}

impl SockAddrStorage {
    /// Storage is well formed when it has the platform's full storage size.
    pub open spec fn wf(&self) -> bool {
        self@.len() == SOCKADDR_STORAGE_LEN
    }

    /// Fresh, zero-initialized storage, as the receive path must supply so
    /// that stale bytes from a prior call never leak into a decoded address.
    pub fn zeroed() -> (s: Self)
        ensures
            s.wf(),
            s@ =~= zero_bytes(SOCKADDR_STORAGE_LEN as nat),
    {
        SockAddrStorage { bytes: vec![0u8; SOCKADDR_STORAGE_LEN] }
    }
}

/// What decoding a storage value yields: the address the tagged record
/// holds, or the unrecognized family tag as an error.  No address is ever
/// synthesized for an unrecognized tag.
pub open spec fn decode_spec(s: Seq<u8>) -> Result<AddrModel, SockError> {
    let fam = family_of(s);
    if fam == AF_INET {
        Ok(AddrModel::V4 { ip: s.subrange(4, 8), port: be16_at(s, 2) })
    } else if fam == AF_INET6 {
        Ok(
            AddrModel::V6 {
                ip: s.subrange(8, 24),
                port: be16_at(s, 2),
                flowinfo: le32_at(s, 4),
                scope_id: le32_at(s, 24),
            },
        )
    } else {
        Err(SockError::InvalidAddressFamily(fam))
    }
}

/// The storage bytes that encode an address: the family tag, the port in
/// network order, the record's remaining fields, and zeros up to the full
/// storage size.
pub open spec fn encode_spec(a: AddrModel) -> Seq<u8> {
    match a {
        AddrModel::V4 { ip, port } => le16_bytes(AF_INET) + be16_bytes(port) + ip + zero_bytes(
            (SOCKADDR_STORAGE_LEN - 8) as nat,
        ),
        AddrModel::V6 { ip, port, flowinfo, scope_id } => le16_bytes(AF_INET6) + be16_bytes(port)
            + le32_bytes(flowinfo) + ip + le32_bytes(scope_id) + zero_bytes(
            (SOCKADDR_STORAGE_LEN - 28) as nat,
        ),
    }
}

/// The exact byte length of the record of `a`'s family: the length reported
/// beside an encoded storage (not the full storage size).
pub open spec fn encoded_len(a: AddrModel) -> usize {
    match a {
        AddrModel::V4 { .. } => SOCKADDR_IN_LEN,
        AddrModel::V6 { .. } => SOCKADDR_IN6_LEN,
    }
}

/// The model of a decode result.
pub open spec fn addr_result_model(r: Result<SockAddr, SockError>) -> Result<
    AddrModel,
    SockError,
> {
    match r {
        Ok(a) => Ok(a@),
        Err(e) => Err(e),
    }
}

/// The reported byte length covers the record of the family the tag names.
/// Decoding demands this of its caller; the kernel reports at least the
/// record size for any family it wrote.
pub open spec fn len_covers_family(s: Seq<u8>, len: usize) -> bool {
    &&& family_of(s) == AF_INET ==> len >= SOCKADDR_IN_LEN
    &&& family_of(s) == AF_INET6 ==> len >= SOCKADDR_IN6_LEN
}

/// Decode the family-tagged storage into a portable address.
///
/// Inspects the family tag; for a recognized family the record's fields are
/// read from the storage bytes.  Any other tag fails with an
/// invalid-address-family error carrying the unrecognized tag value.
/// Pure transformation: no side effects.
pub fn sockaddr_to_addr(storage: &SockAddrStorage, len: usize) -> (r: Result<SockAddr, SockError>)
    requires
        storage.wf(),
        len_covers_family(storage@, len),
    ensures
        addr_result_model(r) == decode_spec(storage@),
{
    let fam: u16 = (storage.bytes[0] as u16) | ((storage.bytes[1] as u16) << 8);
    if fam == AF_INET {
        let port: u16 = ((storage.bytes[2] as u16) << 8) | (storage.bytes[3] as u16);
        let mut ip: [u8; 4] = [0u8; 4];
        ip[0] = storage.bytes[4];
        ip[1] = storage.bytes[5];
        ip[2] = storage.bytes[6];
        ip[3] = storage.bytes[7];
        proof {
            assert(ip@ =~= storage@.subrange(4, 8));
        }
        Ok(SockAddr::V4 { ip, port })
    } else if fam == AF_INET6 {
        let port: u16 = ((storage.bytes[2] as u16) << 8) | (storage.bytes[3] as u16);
        let flowinfo: u32 = (storage.bytes[4] as u32) | ((storage.bytes[5] as u32) << 8) | (
        (storage.bytes[6] as u32) << 16) | ((storage.bytes[7] as u32) << 24);
        let scope_id: u32 = (storage.bytes[24] as u32) | ((storage.bytes[25] as u32) << 8) | (
        (storage.bytes[26] as u32) << 16) | ((storage.bytes[27] as u32) << 24);
        let mut ip: [u8; 16] = [0u8; 16];
        let mut i: usize = 0;
        while i < 16
            invariant
                i <= 16,
                storage.wf(),
                forall|j: int| 0 <= j < i ==> ip@[j] == storage@[8 + j],
            decreases 16 - i,
        {
            ip[i] = storage.bytes[8 + i];
            i += 1;
        }
        proof {
            assert(ip@ =~= storage@.subrange(8, 24));
        }
        Ok(SockAddr::V6 { ip, port, flowinfo, scope_id })
    } else {
        Err(SockError::InvalidAddressFamily(fam))
    }
}

/// Encode a portable address into family-tagged storage bytes.
///
/// Returns the full-size storage holding the record, together with the
/// exact byte length of the specific family's record.  Every portable
/// address is encodable: there is no error path.
pub fn addr_to_sockaddr(addr: &SockAddr) -> (r: (SockAddrStorage, usize))
    ensures
        r.0.wf(),
        r.0@ == encode_spec(addr@),
        r.1 == encoded_len(addr@),
{
    let mut bytes: Vec<u8> = vec![0u8; SOCKADDR_STORAGE_LEN];
    match addr {
        SockAddr::V4 { ip, port } => {
            bytes[0] = (AF_INET & 0xff) as u8;
            bytes[1] = ((AF_INET >> 8) & 0xff) as u8;
            bytes[2] = ((*port >> 8) & 0xff) as u8;
            bytes[3] = (*port & 0xff) as u8;
            bytes[4] = ip[0];
            bytes[5] = ip[1];
            bytes[6] = ip[2];
            bytes[7] = ip[3];
            proof {
                assert(bytes@ =~= encode_spec(addr@));
            }
            (SockAddrStorage { bytes }, SOCKADDR_IN_LEN)
        }
        SockAddr::V6 { ip, port, flowinfo, scope_id } => {
            bytes[0] = (AF_INET6 & 0xff) as u8;
            bytes[1] = ((AF_INET6 >> 8) & 0xff) as u8;
            bytes[2] = ((*port >> 8) & 0xff) as u8;
            bytes[3] = (*port & 0xff) as u8;
            bytes[4] = (*flowinfo & 0xff) as u8;
            bytes[5] = ((*flowinfo >> 8) & 0xff) as u8;
            bytes[6] = ((*flowinfo >> 16) & 0xff) as u8;
            bytes[7] = ((*flowinfo >> 24) & 0xff) as u8;
            let mut i: usize = 0;
            while i < 16
                invariant
                    i <= 16,
                    bytes@.len() == SOCKADDR_STORAGE_LEN,
                    forall|j: int| 0 <= j < 8 ==> bytes@[j] == encode_spec(addr@)[j],
                    forall|j: int| 0 <= j < i ==> bytes@[8 + j] == ip@[j],
                    forall|j: int| 8 + i <= j < SOCKADDR_STORAGE_LEN ==> bytes@[j] == 0,
                decreases 16 - i,
            {
                bytes[8 + i] = ip[i];
                i += 1;
            }
            bytes[24] = (*scope_id & 0xff) as u8;
            bytes[25] = ((*scope_id >> 8) & 0xff) as u8;
            bytes[26] = ((*scope_id >> 16) & 0xff) as u8;
            bytes[27] = ((*scope_id >> 24) & 0xff) as u8;
            proof {
                assert(bytes@ =~= encode_spec(addr@));
            }
            (SockAddrStorage { bytes }, SOCKADDR_IN6_LEN)
        }
    }
}

proof fn lemma_le16_round(x: u16)
    ensures
        le16_bytes(x).len() == 2,
        le16_at(le16_bytes(x), 0) == x,
{
    assert((x & 0xff) < 256 && ((x >> 8) & 0xff) < 256) by (bit_vector);
    assert((x & 0xff) | (((x >> 8) & 0xff) << 8) == x) by (bit_vector);
}

proof fn lemma_be16_round(x: u16)
    ensures
        be16_bytes(x).len() == 2,
        be16_at(be16_bytes(x), 0) == x,
{
    assert((x & 0xff) < 256 && ((x >> 8) & 0xff) < 256) by (bit_vector);
    assert((((x >> 8) & 0xff) << 8) | (x & 0xff) == x) by (bit_vector);
}

proof fn lemma_le32_round(x: u32)
    ensures
        le32_bytes(x).len() == 4,
        le32_at(le32_bytes(x), 0) == x,
{
    assert((x & 0xff) < 256 && ((x >> 8) & 0xff) < 256 && ((x >> 16) & 0xff) < 256 && ((x >> 24)
        & 0xff) < 256) by (bit_vector);
    assert((x & 0xff) | (((x >> 8) & 0xff) << 8) | (((x >> 16) & 0xff) << 16) | (((x >> 24) & 0xff)
        << 24) == x) by (bit_vector);
}

/// Law: decoding an encoded storage recovers the encoded address exactly.
pub proof fn lemma_decode_of_encode(a: AddrModel)
    requires
        a.wf(),
    ensures
        encode_spec(a).len() == SOCKADDR_STORAGE_LEN,
        decode_spec(encode_spec(a)) == Ok::<AddrModel, SockError>(a),
{
    match a {
        AddrModel::V4 { ip, port } => {
            let s = encode_spec(a);
            lemma_le16_round(AF_INET);
            lemma_be16_round(port);
            assert(s[0] == le16_bytes(AF_INET)[0]);
            assert(s[1] == le16_bytes(AF_INET)[1]);
            assert(family_of(s) == AF_INET);
            assert(s[2] == be16_bytes(port)[0]);
            assert(s[3] == be16_bytes(port)[1]);
            assert(be16_at(s, 2) == port);
            assert(s.subrange(4, 8) =~= ip);
        },
        AddrModel::V6 { ip, port, flowinfo, scope_id } => {
            let s = encode_spec(a);
            lemma_le16_round(AF_INET6);
            lemma_be16_round(port);
            lemma_le32_round(flowinfo);
            lemma_le32_round(scope_id);
            assert(s[0] == le16_bytes(AF_INET6)[0]);
            assert(s[1] == le16_bytes(AF_INET6)[1]);
            assert(family_of(s) == AF_INET6);
            assert(s[2] == be16_bytes(port)[0]);
            assert(s[3] == be16_bytes(port)[1]);
            assert(be16_at(s, 2) == port);
            assert(s[4] == le32_bytes(flowinfo)[0]);
            assert(s[5] == le32_bytes(flowinfo)[1]);
            assert(s[6] == le32_bytes(flowinfo)[2]);
            assert(s[7] == le32_bytes(flowinfo)[3]);
            assert(le32_at(s, 4) == flowinfo);
            assert(s.subrange(8, 24) =~= ip);
            assert(s[24] == le32_bytes(scope_id)[0]);
            assert(s[25] == le32_bytes(scope_id)[1]);
            assert(s[26] == le32_bytes(scope_id)[2]);
            assert(s[27] == le32_bytes(scope_id)[3]);
            assert(le32_at(s, 24) == scope_id);
        },
    }
}

/// Law: decoding a storage value whose family tag is neither of the two
/// supported families fails with the invalid-address-family error carrying
/// that tag; no default or zero address is ever returned for it.
pub proof fn lemma_unknown_family_never_decodes(s: Seq<u8>)
    requires
        family_of(s) != AF_INET,
        family_of(s) != AF_INET6,
    ensures
        decode_spec(s) == Err::<AddrModel, SockError>(
            SockError::InvalidAddressFamily(family_of(s)),
        ),
{
}

/// Law: any storage produced by a prior encode decodes successfully, and
/// re-encoding the decoded address reproduces the storage bytes and the
/// reported record length exactly.
pub proof fn lemma_storage_round_trip(a: AddrModel)
    requires
        a.wf(),
    ensures
        ({
            let s = encode_spec(a);
            match decode_spec(s) {
                Ok(b) => encode_spec(b) == s && encoded_len(b) == encoded_len(a),
                Err(_) => false,
            }
        }),
{
    lemma_decode_of_encode(a);
}

} // verus!
