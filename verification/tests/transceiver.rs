use msgsock::addr::{SockAddr, AF_INET, SOCKADDR_STORAGE_LEN};
use msgsock::codec::{addr_to_sockaddr, SockAddrStorage};
use msgsock::msg::{recv_outcome, send_outcome, MSG_ERRQUEUE, MSG_TRUNC};
use msgsock::{BufferContent, SockError};

fn sender_storage() -> (SockAddrStorage, SockAddr) {
    let a = SockAddr::V4 { ip: [127, 0, 0, 1], port: 12302 };
    let (s, _) = addr_to_sockaddr(&a);
    (s, a)
}

#[test]
fn recv_failure_is_no_message() {
    let (s, _) = sender_storage();
    let r = recv_outcome(-1, 0, &s, SOCKADDR_STORAGE_LEN);
    assert_eq!(r, Err(SockError::NoMessage));
}

#[test]
fn recv_errqueue_is_no_message() {
    let (s, _) = sender_storage();
    let r = recv_outcome(6, MSG_ERRQUEUE, &s, SOCKADDR_STORAGE_LEN);
    assert_eq!(r, Err(SockError::NoMessage));
}

#[test]
fn recv_full_message_reports_count_and_sender() {
    let (s, a) = sender_storage();
    let r = recv_outcome(6, 0, &s, SOCKADDR_STORAGE_LEN);
    assert_eq!(r, Ok((BufferContent::FullMessage(6), a)));
}

#[test]
fn recv_empty_datagram_is_full_message_of_zero() {
    let (s, a) = sender_storage();
    let r = recv_outcome(0, 0, &s, SOCKADDR_STORAGE_LEN);
    assert_eq!(r, Ok((BufferContent::FullMessage(0), a)));
}

#[test]
fn recv_truncation_is_partial_without_a_size() {
    let (s, a) = sender_storage();
    let r = recv_outcome(100, MSG_TRUNC, &s, SOCKADDR_STORAGE_LEN);
    assert_eq!(r, Ok((BufferContent::Partial, a)));
}

#[test]
fn recv_no_message_precedes_truncation() {
    let (s, _) = sender_storage();
    let r = recv_outcome(-1, MSG_TRUNC | MSG_ERRQUEUE, &s, SOCKADDR_STORAGE_LEN);
    assert_eq!(r, Err(SockError::NoMessage));
}

#[test]
fn recv_no_message_precedes_decoding() {
    let mut s = SockAddrStorage::zeroed();
    s.bytes[0] = 99;
    let r = recv_outcome(-1, 0, &s, SOCKADDR_STORAGE_LEN);
    assert_eq!(r, Err(SockError::NoMessage));
}

#[test]
fn recv_invalid_family_propagates() {
    let mut s = SockAddrStorage::zeroed();
    s.bytes[0] = 99;
    let r = recv_outcome(3, 0, &s, SOCKADDR_STORAGE_LEN);
    assert_eq!(r, Err(SockError::InvalidAddressFamily(99)));
}

#[test]
fn recv_invalid_family_even_when_truncated() {
    let mut s = SockAddrStorage::zeroed();
    s.bytes[0] = 99;
    let r = recv_outcome(3, MSG_TRUNC, &s, SOCKADDR_STORAGE_LEN);
    assert_eq!(r, Err(SockError::InvalidAddressFamily(99)));
}

#[test]
fn recv_other_flag_bits_are_ignored() {
    let (s, a) = sender_storage();
    let r = recv_outcome(4, 0x0100, &s, SOCKADDR_STORAGE_LEN);
    assert_eq!(r, Ok((BufferContent::FullMessage(4), a)));
}

#[test]
fn family_constant_matches_storage_tag() {
    let (s, _) = sender_storage();
    assert_eq!(s.bytes[0] as u16, AF_INET);
    assert_eq!(s.bytes[1], 0);
}

#[test]
fn send_negative_result_fails() {
    assert_eq!(send_outcome(-1), Err(SockError::SendFailed));
}

#[test]
fn send_nonnegative_result_is_byte_count() {
    assert_eq!(send_outcome(0), Ok(0));
    assert_eq!(send_outcome(42), Ok(42));
}
