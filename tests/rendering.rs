use sniffnet::info_address_port_pair::InfoAddressPortPair;
use sniffnet::protocols::{AppProtocol, TrafficType, TransProtocol};

fn record(
    packets: u128,
    trans: TransProtocol,
    app: AppProtocol,
    very_long_address: bool,
) -> InfoAddressPortPair {
    InfoAddressPortPair {
        transmitted_bytes: 1500,
        transmitted_packets: packets,
        initial_timestamp: "10:00:00".to_string(),
        final_timestamp: "10:00:05".to_string(),
        trans_protocol: trans,
        app_protocol: app,
        very_long_address,
        traffic_type: TrafficType::Outgoing,
    }
}

#[test]
fn report_line_of_unclassified_tcp_pair() {
    let r = record(3, TransProtocol::TCP, AppProtocol::Other, false);
    let expected = format!(
        "   TCP   |  Other  |         3  |    1.5 KB  | 10:00:00 | 10:00:05 |{}",
        " ".repeat(40)
    );
    assert_eq!(r.to_report_line("1.5 KB"), expected);
}

#[test]
fn gui_line_of_unclassified_tcp_pair() {
    let r = record(3, TransProtocol::TCP, AppProtocol::Other, false);
    assert_eq!(r.print_gui("1.5 KB"), "   TCP     Other           3      1.5 KB  ");
    let full = r.to_report_line("1.5 KB");
    assert_eq!(r.print_gui("1.5 KB"), full[0..46].replace('|', ""));
}

#[test]
fn very_long_address_row_ends_with_separator() {
    let r = record(3, TransProtocol::UDP, AppProtocol::DNS, true);
    let line = r.to_report_line("1.5 KB");
    assert_eq!(
        line,
        "   UDP   |   DNS   |         3  |    1.5 KB  | 10:00:00 | 10:00:05 |"
    );
    assert!(line.ends_with('|'));
}

#[test]
fn short_address_row_ends_with_forty_spaces() {
    let r = record(3, TransProtocol::UDP, AppProtocol::DNS, false);
    let line = r.to_report_line("1.5 KB");
    let n = line.len();
    assert_eq!(&line[n - 40..], " ".repeat(40));
    assert_eq!(&line[n - 41..n - 40], "|");
}

#[test]
fn report_line_is_at_least_gui_width() {
    let r = InfoAddressPortPair {
        transmitted_bytes: 0,
        transmitted_packets: 0,
        initial_timestamp: String::new(),
        final_timestamp: String::new(),
        trans_protocol: TransProtocol::Other,
        app_protocol: AppProtocol::FTP,
        very_long_address: true,
        traffic_type: TrafficType::Incoming,
    };
    let line = r.to_report_line("");
    assert_eq!(line, "   Other   |   FTP   |         0  |            |  |  |");
    assert!(line.chars().count() >= 46);
    assert_eq!(r.print_gui(""), "   Other      FTP            0             ");
}

#[test]
fn known_app_protocol_shows_its_label_centered() {
    let https = record(1, TransProtocol::TCP, AppProtocol::HTTPS, true);
    assert!(https.to_report_line("1 B").starts_with("   TCP   |  HTTPS  |"));
    let tacacs = record(1, TransProtocol::TCP, AppProtocol::TACACS, true);
    assert!(tacacs.to_report_line("1 B").starts_with("   TCP   | TACACS  |"));
    let netbios = record(1, TransProtocol::UDP, AppProtocol::NetBIOS, true);
    assert!(netbios.to_report_line("1 B").starts_with("   UDP   | NetBIOS |"));
    let other = record(1, TransProtocol::UDP, AppProtocol::Other, true);
    assert!(other.to_report_line("1 B").starts_with("   UDP   |  Other  |"));
}

#[test]
fn rendering_twice_gives_the_same_rows() {
    let r = record(42, TransProtocol::TCP, AppProtocol::SSH, false);
    assert_eq!(r.to_report_line("12.3 MB"), r.to_report_line("12.3 MB"));
    assert_eq!(r.print_gui("12.3 MB"), r.print_gui("12.3 MB"));
}

#[test]
fn largest_packet_count_keeps_every_digit() {
    let r = record(u128::MAX, TransProtocol::TCP, AppProtocol::HTTP, true);
    let line = r.to_report_line("1.5 KB");
    assert_eq!(
        line,
        "   TCP   |  HTTP   |340282366920938463463374607431768211455  |    1.5 KB  | 10:00:00 | 10:00:05 |"
    );
    assert_eq!(r.print_gui("1.5 KB"), "   TCP     HTTP   34028236692093846346337460");
}

#[test]
fn wide_byte_string_is_not_cut() {
    let r = record(7, TransProtocol::TCP, AppProtocol::SMTP, true);
    let line = r.to_report_line("123456789012 B");
    assert_eq!(
        line,
        "   TCP   |  SMTP   |         7  |123456789012 B  | 10:00:00 | 10:00:05 |"
    );
}

#[test]
fn packet_count_is_right_aligned() {
    let r = record(1234567890, TransProtocol::TCP, AppProtocol::IMAPS, true);
    assert!(r
        .to_report_line("9 B")
        .starts_with("   TCP   |  IMAPS  |1234567890  |       9 B  |"));
}

#[test]
fn labels_have_their_text() {
    assert_eq!(TransProtocol::TCP.label(), "TCP");
    assert_eq!(TransProtocol::UDP.label(), "UDP");
    assert_eq!(TransProtocol::Other.label(), "Other");
    assert_eq!(AppProtocol::POP3S.label(), "POP3S");
    assert_eq!(AppProtocol::Other.label(), "Other");
}
