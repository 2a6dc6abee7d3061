//! The entry points the host invokes: each builds views over the handles it
//! received, reads them, and yields the line to record.
use vstd::prelude::*;
use vstd::string::*;
use vstd::utf8::*;

use crate::cstr::{c_text, conv_cstring};
use crate::data_event::DataEvent;
use crate::error::AdapterError;
use crate::flow::Flow;
use crate::log_file::{sink_open, sink_rename, sink_write, LogFile, SinkState};
use crate::packet::Packet;
use crate::snort;

verus! {

broadcast use encode_utf8_decode_utf8;

/// Text of a flag in a diagnostic line.
pub open spec fn bool_text(b: bool) -> Seq<char> {
    if b {
        "true"@
    } else {
        "false"@
    }
}

/// The line recorded for a packet: originally-from-client, has-IP, TCP, then the protocol tag.
pub open spec fn packet_line(client_orig: bool, has_ip: bool, tcp: bool, tag: Seq<char>) -> Seq<char> {
    "machinery in place "@ + bool_text(client_orig) + ", "@ + bool_text(has_ip) + ", "@ + bool_text(
        tcp,
    ) + " "@ + tag
}

/// The line a host packet yields, or why it yields none.
pub open spec fn packet_report<'h>(p: snort::Packet<'h>) -> Result<Seq<char>, AdapterError> {
    if p.data_len > p.data@.len() {
        Err(AdapterError::LengthMismatch)
    } else {
        match c_text(p.protocol@) {
            Ok(b) => Ok(packet_line(p.from_client_originally, p.has_ip, p.tcp, decode_utf8(b))),
            Err(e) => Err(e),
        }
    }
}

/// The line recorded for a flow whose service is `service`.
pub open spec fn service_line(service: Seq<char>) -> Seq<char> {
    "service name is "@ + service
}

/// A line for the diagnostic sink, and the destination to open first, if any.
pub struct LogWrite {
    pub open: Option<String>,
    pub line: String,
}

fn bool_str(b: bool) -> (r: &'static str)
    ensures
        r@ == bool_text(b),
{
    if b {
        "true"
    } else {
        "false"
    }
}

/// Inspects one packet: reads its origin, network header, transport and
/// protocol tag, and hands the line to the sink.
pub fn eval_packet<'a>(org_pkt: Option<&'a snort::Packet<'a>>, log: &mut LogFile) -> (r: Result<
    LogWrite,
    AdapterError,
>)
    ensures
        match org_pkt {
            None => r == Err::<LogWrite, AdapterError>(AdapterError::NullHandle) && final(log)@
                == old(log)@,
            Some(p) => match packet_report(*p) {
                Err(e) => r == Err::<LogWrite, AdapterError>(e) && final(log)@ == old(log)@,
                Ok(line) => match sink_write(old(log)@, line) {
                    Err(e) => r == Err::<LogWrite, AdapterError>(e) && final(log)@ == old(log)@,
                    Ok(t) => r matches Ok(w) && w.line@ == line && final(log)@ == t && (sink_open(
                        old(log)@,
                    ) matches Ok((_, q)) && q == w.open.deep_view()),
                },
            },
        },
{
    let pkt = match Packet::new(org_pkt) {
        Ok(v) => v,
        Err(e) => return Err(e),
    };
    let client_orig = pkt.is_from_client_originally();
    let has_ip = pkt.has_ip();
    let of_type = match pkt.get_type() {
        Ok(s) => s,
        Err(e) => return Err(e),
    };
    let tcp = pkt.is_tcp();
    let mut line = String::from_str("machinery in place ");
    line.append(bool_str(client_orig));
    line.append(", ");
    line.append(bool_str(has_ip));
    line.append(", ");
    line.append(bool_str(tcp));
    line.append(" ");
    line.append(of_type);
    assert(line@ == packet_line(client_orig, has_ip, tcp, of_type@));
    match log.write_line(line.as_str()) {
        Ok(open) => Ok(LogWrite { open, line }),
        Err(e) => Err(e),
    }
}

/// Handles a data-bus event: reads the service identified for its flow and
/// yields the line reporting it.
pub fn handle_event<'a>(evt: Option<&'a snort::DataEvent>, org_flow: Option<&'a snort::Flow<'a>>) -> (r:
    Result<String, AdapterError>)
    ensures
        evt is None ==> r == Err::<String, AdapterError>(AdapterError::NullHandle),
        evt is Some && org_flow is None ==> r == Err::<String, AdapterError>(AdapterError::NullHandle),
        evt is Some ==> (org_flow matches Some(f) ==> match c_text(f.service@) {
            Ok(b) => r matches Ok(s) && s@ == service_line(decode_utf8(b)),
            Err(e) => r == Err::<String, AdapterError>(e),
        }),
{
    let _event = match DataEvent::new(evt) {
        Ok(v) => v,
        Err(e) => return Err(e),
    };
    let flow = match Flow::new(org_flow) {
        Ok(v) => v,
        Err(e) => return Err(e),
    };
    let nm = match flow.get_service() {
        Ok(s) => s,
        Err(e) => return Err(e),
    };
    let mut line = String::from_str("service name is ");
    line.append(nm);
    Ok(line)
}

/// Names the sink's destination from the host's NUL-terminated text.
pub fn set_log_file(name: &[u8], log: &mut LogFile) -> (r: Result<(), AdapterError>)
    ensures
        match c_text(name@) {
            Err(e) => r == Err::<(), AdapterError>(e) && final(log)@ == old(log)@,
            Ok(b) => match sink_rename(old(log)@, decode_utf8(b)) {
                Ok(t) => r is Ok && final(log)@ == t,
                Err(e) => r == Err::<(), AdapterError>(e) && final(log)@ == old(log)@,
            },
        },
{
    let log_file_name = match conv_cstring(name) {
        Ok(s) => s,
        Err(e) => return Err(e),
    };
    log.set_file_name(String::from_str(log_file_name))
}

} // verus!
