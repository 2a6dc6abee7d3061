//! The host's objects as the adapter receives them: what the host's query
//! operations report, with text as the host's NUL-terminated bytes and
//! buffers borrowed, never copied.
use vstd::prelude::*;

verus! {

/// One captured packet, as the host's decode pipeline reports it.
#[derive(Debug)]
pub struct Packet<'h> {
    pub has_ip: bool,
    pub from_client: bool,
    pub from_server: bool,
    pub from_client_originally: bool,
    pub from_server_originally: bool,
    pub tcp: bool,
    pub udp: bool,
    /// Protocol tag, NUL-terminated.
    pub protocol: &'h [u8],
    /// The host's data buffer.
    pub data: &'h [u8],
    /// The payload length the host reports for `data`.
    pub data_len: u16,
}

/// One bidirectional connection, as the host's flow tracking reports it.
#[derive(Debug)]
pub struct Flow<'h> {
    /// Name of the identified service, NUL-terminated; empty while unknown.
    pub service: &'h [u8],
}

/// A data-bus notification; only its identity is observed.
#[derive(Debug)]
pub struct DataEvent;

} // verus!
