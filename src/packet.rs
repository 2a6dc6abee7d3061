//! Read-only view of a host packet.
use vstd::prelude::*;
use vstd::string::*;

use crate::cstr::{c_text, conv_cstring};
use crate::error::AdapterError;
use crate::snort;

verus! {

/// Which endpoint sent a packet.
#[derive(Debug, Clone, Copy, PartialEq, Eq, Structural)]
pub enum Direction {
    FromClient,
    FromServer,
}

/// A packet's transport protocol. Packets that are not UDP count as TCP.
#[derive(Debug, Clone, Copy, PartialEq, Eq, Structural)]
pub enum Layer4 {
    Tcp(),
    Udp(),
}

/// View of a host packet, borrowed for the callback that received it.
#[derive(Debug)]
pub struct Packet<'a> {
    pkt: &'a snort::Packet<'a>,
}

impl<'a> Packet<'a> {
    /// The host packet this view reads.
    pub closed spec fn host(&self) -> snort::Packet<'a> {
        *self.pkt
    }

    /// The reported payload length fits in the host's buffer.
    pub open spec fn wf(&self) -> bool {
        self.host().data_len <= self.host().data@.len()
    }

    /// Builds a view of `pkt`; a null handle, or a payload length that its
    /// buffer cannot hold, is refused.
    pub fn new(pkt: Option<&'a snort::Packet<'a>>) -> (r: Result<Packet<'a>, AdapterError>)
        ensures
            pkt is None ==> r == Err::<Packet<'a>, AdapterError>(AdapterError::NullHandle),
            pkt matches Some(p) ==> (p.data_len > p.data@.len() <==> r == Err::<Packet<'a>, AdapterError>(AdapterError::LengthMismatch)),
            pkt matches Some(p) ==> (p.data_len <= p.data@.len() <==> r is Ok),
            r matches Ok(v) ==> v.host() == *pkt.unwrap() && v.wf(),
    {
        match pkt {
            None => Err(AdapterError::NullHandle),
            Some(p) => {
                if (p.data_len as usize) > p.data.len() {
                    Err(AdapterError::LengthMismatch)
                } else {
                    Ok(Packet { pkt: p })
                }
            },
        }
    }

    /// The packet carries a network-layer header.
    pub fn has_ip(&self) -> (r: bool)
        ensures
            r == self.host().has_ip,
    {
        self.pkt.has_ip
    }

    /// Which endpoint sent this packet, as observed now.
    pub fn direction(&self) -> (r: Direction)
        ensures
            r == (if self.host().from_client { Direction::FromClient } else { Direction::FromServer }),
    {
        if self.pkt.from_client {
            Direction::FromClient
        } else {
            Direction::FromServer
        }
    }

    /// Transport class: UDP when the host says so, TCP otherwise.
    pub fn l4(&self) -> (r: Layer4)
        ensures
            r == (if self.host().udp { Layer4::Udp() } else { Layer4::Tcp() }),
    {
        if self.is_udp() {
            Layer4::Udp()
        } else {
            Layer4::Tcp()
        }
    }

    /// The packet's payload: the first `data_len` bytes of the host buffer.
    pub fn payload(&self) -> (r: &'a [u8])
        requires
            self.wf(),
        ensures
            r@ == self.host().data@.take(self.host().data_len as int),
            r@.len() == self.host().data_len,
    {
        let len: usize = self.pkt.data_len as usize;
        &self.pkt.data[0..len]
    }

    /// The flow's client originated this packet, before any remapping.
    pub fn is_from_client_originally(&self) -> (r: bool)
        ensures
            r == self.host().from_client_originally,
    {
        self.pkt.from_client_originally
    }

    /// The flow's server originated this packet, before any remapping.
    pub fn is_from_server_originally(&self) -> (r: bool)
        ensures
            r == self.host().from_server_originally,
    {
        self.pkt.from_server_originally
    }

    /// The host reports TCP.
    pub fn is_tcp(&self) -> (r: bool)
        ensures
            r == self.host().tcp,
    {
        self.pkt.tcp
    }

    /// The host reports UDP.
    pub fn is_udp(&self) -> (r: bool)
        ensures
            r == self.host().udp,
    {
        self.pkt.udp
    }

    /// The host's protocol tag; fails when it is not terminated UTF-8 text.
    pub fn get_type(&self) -> (r: Result<&'a str, AdapterError>)
        ensures
            match r {
                Ok(s) => c_text(self.host().protocol@) == Ok::<Seq<u8>, AdapterError>(s.spec_bytes()),
                Err(e) => c_text(self.host().protocol@) == Err::<Seq<u8>, AdapterError>(e),
            },
    {
        conv_cstring(self.pkt.protocol)
    }
}

} // verus!
