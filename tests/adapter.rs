use snort_bridge::add;
use snort_bridge::cstr::conv_cstring;
use snort_bridge::data_event::DataEvent;
use snort_bridge::error::AdapterError;
use snort_bridge::experimental::payload_header;
use snort_bridge::flow::Flow;
use snort_bridge::inspector::{eval_packet, handle_event, set_log_file};
use snort_bridge::log_file::LogFile;
use snort_bridge::packet::{Direction, Layer4, Packet};
use snort_bridge::sfip::{IP, MAX_IPV6LEN};
use snort_bridge::snort;

fn host_packet<'h>(protocol: &'h [u8], data: &'h [u8], data_len: u16) -> snort::Packet<'h> {
    snort::Packet {
        has_ip: true,
        from_client: true,
        from_server: false,
        from_client_originally: true,
        from_server_originally: false,
        tcp: true,
        udp: false,
        protocol,
        data,
        data_len,
    }
}

fn render_buffer(text: &str) -> Vec<u8> {
    let mut buf = vec![0u8; MAX_IPV6LEN];
    buf[..text.len()].copy_from_slice(text.as_bytes());
    buf
}

#[test]
fn lib_it_works() {
    let result = add(2, 2);
    assert_eq!(result, 4);
}

#[test]
fn it_works() {
    let result = add(2, 2);
    assert_eq!(result, 4);
}

#[test]
fn payload_is_reported_prefix_of_buffer() {
    let data = [1u8, 2, 3, 4, 5];
    let host = host_packet(b"TCP\0", &data, 3);
    let pkt = Packet::new(Some(&host)).unwrap();
    assert_eq!(pkt.payload(), &[1u8, 2, 3][..]);
    assert_eq!(pkt.payload().len(), 3);
}

#[test]
fn payload_whole_buffer() {
    let data = [9u8, 8, 7];
    let host = host_packet(b"UDP\0", &data, 3);
    let pkt = Packet::new(Some(&host)).unwrap();
    assert_eq!(pkt.payload(), &data[..]);
}

#[test]
fn payload_empty_when_length_zero() {
    let host = host_packet(b"TCP\0", &[], 0);
    let pkt = Packet::new(Some(&host)).unwrap();
    assert!(pkt.payload().is_empty());
    let data = [5u8, 6];
    let host = host_packet(b"TCP\0", &data, 0);
    let pkt = Packet::new(Some(&host)).unwrap();
    assert_eq!(pkt.payload().len(), 0);
}

#[test]
fn packet_length_beyond_buffer_refused() {
    let data = [1u8, 2];
    let host = host_packet(b"TCP\0", &data, 3);
    assert_eq!(Packet::new(Some(&host)).unwrap_err(), AdapterError::LengthMismatch);
}

#[test]
fn packet_null_handle_refused() {
    assert_eq!(Packet::new(None).unwrap_err(), AdapterError::NullHandle);
}

#[test]
fn transport_udp_iff_host_udp() {
    let mut host = host_packet(b"UDP\0", &[], 0);
    host.tcp = false;
    host.udp = true;
    let pkt = Packet::new(Some(&host)).unwrap();
    assert_eq!(pkt.l4(), Layer4::Udp());
    assert!(pkt.is_udp());
    assert!(!pkt.is_tcp());

    let host = host_packet(b"TCP\0", &[], 0);
    let pkt = Packet::new(Some(&host)).unwrap();
    assert_eq!(pkt.l4(), Layer4::Tcp());

    let mut host = host_packet(b"ICMP\0", &[], 0);
    host.tcp = false;
    host.udp = false;
    let pkt = Packet::new(Some(&host)).unwrap();
    assert_eq!(pkt.l4(), Layer4::Tcp());
}

#[test]
fn direction_and_original_direction_can_disagree() {
    let mut host = host_packet(b"TCP\0", &[], 0);
    host.from_client = false;
    host.from_server = true;
    host.from_client_originally = true;
    host.from_server_originally = false;
    let pkt = Packet::new(Some(&host)).unwrap();
    assert_eq!(pkt.direction(), Direction::FromServer);
    assert!(pkt.is_from_client_originally());
    assert!(!pkt.is_from_server_originally());

    let host = host_packet(b"TCP\0", &[], 0);
    let pkt = Packet::new(Some(&host)).unwrap();
    assert_eq!(pkt.direction(), Direction::FromClient);
}

#[test]
fn packet_flags_and_tag() {
    let mut host = host_packet(b"UDP\0junk", &[], 0);
    host.has_ip = false;
    let pkt = Packet::new(Some(&host)).unwrap();
    assert!(!pkt.has_ip());
    assert_eq!(pkt.get_type().unwrap(), "UDP");
}

#[test]
fn packet_tag_invalid_text() {
    let host = host_packet(&[0xff, 0xfe, 0], &[], 0);
    let pkt = Packet::new(Some(&host)).unwrap();
    assert_eq!(pkt.get_type().unwrap_err(), AdapterError::InvalidText);
    let host = host_packet(b"TCP", &[], 0);
    let pkt = Packet::new(Some(&host)).unwrap();
    assert_eq!(pkt.get_type().unwrap_err(), AdapterError::Unterminated);
}

#[test]
fn c_string_conversion() {
    assert_eq!(conv_cstring(b"abc\0def").unwrap(), "abc");
    assert_eq!(conv_cstring(b"\0").unwrap(), "");
    assert_eq!(conv_cstring("h\u{e9}\0".as_bytes()).unwrap(), "h\u{e9}");
    assert_eq!(conv_cstring(b"").unwrap_err(), AdapterError::Unterminated);
    assert_eq!(conv_cstring(b"abc").unwrap_err(), AdapterError::Unterminated);
    assert_eq!(conv_cstring(&[b'a', 0xc3, 0]).unwrap_err(), AdapterError::InvalidText);
}

#[test]
fn address_text_for_host() {
    assert_eq!(IP::c_addr("192.0.2.1").unwrap(), b"192.0.2.1\0".to_vec());
    assert_eq!(IP::c_addr("").unwrap(), vec![0u8]);
    assert_eq!(IP::c_addr("1.2\u{0}3").unwrap_err(), AdapterError::InteriorNul);
}

#[test]
fn address_ipv4_round_trip() {
    let sent = IP::c_addr("192.0.2.1").unwrap();
    let mut buf = vec![0u8; MAX_IPV6LEN];
    buf[..sent.len()].copy_from_slice(&sent);
    let ip = IP::from_rendered(&buf).unwrap();
    assert_eq!(ip.to_str(), "192.0.2.1");
}

#[test]
fn address_ipv6_rendered_within_buffer() {
    let buf = render_buffer("2001:db8::1");
    let ip = IP::from_rendered(&buf).unwrap();
    let text = ip.to_str();
    assert_eq!(text, "2001:db8::1");
    assert!(text.len() < MAX_IPV6LEN);
}

#[test]
fn address_render_unterminated_in_window() {
    let buf = vec![b'1'; MAX_IPV6LEN + 4];
    assert_eq!(IP::from_rendered(&buf).unwrap_err(), AdapterError::Unterminated);
    let mut buf = vec![b'1'; MAX_IPV6LEN + 4];
    buf[MAX_IPV6LEN + 1] = 0;
    assert_eq!(IP::from_rendered(&buf).unwrap_err(), AdapterError::Unterminated);
    let buf = vec![0xffu8, 0];
    assert_eq!(IP::from_rendered(&buf).unwrap_err(), AdapterError::InvalidText);
}

#[test]
fn sink_writes_open_once_in_order() {
    let mut log = LogFile::new();
    assert_eq!(log.set_file_name(String::from("a.log")), Ok(()));
    assert_eq!(log.write_line("x"), Ok(Some(String::from("a.log"))));
    assert_eq!(log.write_line("y"), Ok(None));
    assert_eq!(log.handle(), Ok(None));
}

#[test]
fn sink_rename_before_open_allowed() {
    let mut log = LogFile::default();
    assert_eq!(log.set_file_name(String::from("a.log")), Ok(()));
    assert_eq!(log.set_file_name(String::from("b.log")), Ok(()));
    assert_eq!(log.handle(), Ok(Some(String::from("b.log"))));
}

#[test]
fn sink_rename_after_write_refused() {
    let mut log = LogFile::new();
    assert_eq!(log.set_file_name(String::from("a.log")), Ok(()));
    assert_eq!(log.write_line("x"), Ok(Some(String::from("a.log"))));
    assert_eq!(log.set_file_name(String::from("b.log")), Err(AdapterError::RenameAfterOpen));
    assert_eq!(log.write_line("y"), Ok(None));
}

#[test]
fn sink_write_before_name_refused() {
    let mut log = LogFile::new();
    assert_eq!(log.write_line("x"), Err(AdapterError::NoFileName));
    assert_eq!(log.handle(), Err(AdapterError::NoFileName));
    assert_eq!(log.set_file_name(String::new()), Ok(()));
    assert_eq!(log.write_line("x"), Err(AdapterError::NoFileName));
    assert_eq!(log.set_file_name(String::from("a.log")), Ok(()));
    assert_eq!(log.write_line("x"), Ok(Some(String::from("a.log"))));
}

#[test]
fn eval_packet_records_one_line() {
    let mut log = LogFile::new();
    assert_eq!(set_log_file(b"a.log\0", &mut log), Ok(()));
    let host = host_packet(b"TCP\0", &[], 0);
    let w = eval_packet(Some(&host), &mut log).unwrap();
    assert_eq!(w.line, "machinery in place true, true, true TCP");
    assert_eq!(w.open, Some(String::from("a.log")));
    assert_eq!(w.line.lines().count(), 1);

    let mut host = host_packet(b"UDP\0", &[], 0);
    host.from_client_originally = false;
    host.tcp = false;
    host.udp = true;
    let w = eval_packet(Some(&host), &mut log).unwrap();
    assert_eq!(w.line, "machinery in place false, true, false UDP");
    assert_eq!(w.open, None);
}

#[test]
fn eval_packet_failures() {
    let mut log = LogFile::new();
    let host = host_packet(b"TCP\0", &[], 0);
    assert_eq!(eval_packet(Some(&host), &mut log).err(), Some(AdapterError::NoFileName));
    assert_eq!(eval_packet(None, &mut log).err(), Some(AdapterError::NullHandle));
    log.set_file_name(String::from("a.log")).unwrap();
    let host = host_packet(&[0xff, 0], &[], 0);
    assert_eq!(eval_packet(Some(&host), &mut log).err(), Some(AdapterError::InvalidText));
    assert_eq!(log.handle(), Ok(Some(String::from("a.log"))));
}

#[test]
fn set_log_file_refusals() {
    let mut log = LogFile::new();
    assert_eq!(set_log_file(b"a.log", &mut log), Err(AdapterError::Unterminated));
    assert_eq!(set_log_file(b"a.log\0", &mut log), Ok(()));
    assert_eq!(log.handle(), Ok(Some(String::from("a.log"))));
    assert_eq!(set_log_file(b"b.log\0", &mut log), Err(AdapterError::RenameAfterOpen));
}

#[test]
fn handle_event_reports_service() {
    let event = snort::DataEvent;
    let flow = snort::Flow { service: b"http\0" };
    assert_eq!(handle_event(Some(&event), Some(&flow)).unwrap(), "service name is http");
    let unknown = snort::Flow { service: b"\0" };
    assert_eq!(handle_event(Some(&event), Some(&unknown)).unwrap(), "service name is ");
    assert_eq!(handle_event(None, Some(&flow)).unwrap_err(), AdapterError::NullHandle);
    assert_eq!(handle_event(Some(&event), None).unwrap_err(), AdapterError::NullHandle);
    let bad = snort::Flow { service: &[0xc0, 0] };
    assert_eq!(handle_event(Some(&event), Some(&bad)).unwrap_err(), AdapterError::InvalidText);
}

#[test]
fn flow_and_event_views() {
    let flow = snort::Flow { service: b"dns\0" };
    let view = Flow::new(Some(&flow)).unwrap();
    assert_eq!(view.get_service().unwrap(), "dns");
    assert_eq!(Flow::new(None).unwrap_err(), AdapterError::NullHandle);
    let event = snort::DataEvent;
    assert!(DataEvent::new(Some(&event)).is_ok());
    assert_eq!(DataEvent::new(None).unwrap_err(), AdapterError::NullHandle);
}

#[test]
fn payload_header_bytes() {
    assert_eq!(payload_header(&[4, 17, 99]), (4, 17));
    assert_eq!(payload_header(&[0, 255]), (0, 255));
}
