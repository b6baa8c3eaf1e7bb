use arcade_client::endpoint::IpRepr;
use arcade_client::endpoint::ServerEndpoint;
use arcade_client::endpoint::SetupError;
use arcade_client::endpoint::parse_server_endpoint;

fn v6(groups: [u16; 8], port: u16) -> ServerEndpoint {
    ServerEndpoint {
        ip: IpRepr::V6 {
            g0: groups[0],
            g1: groups[1],
            g2: groups[2],
            g3: groups[3],
            g4: groups[4],
            g5: groups[5],
            g6: groups[6],
            g7: groups[7],
        },
        port,
    }
}

fn v4(a: u8, b: u8, c: u8, d: u8, port: u16) -> ServerEndpoint {
    ServerEndpoint { ip: IpRepr::V4 { a, b, c, d }, port }
}

#[test]
fn parses_loopback_v6() {
    let ep = parse_server_endpoint("[::1]:5000").unwrap();
    assert_eq!(ep, v6([0, 0, 0, 0, 0, 0, 0, 1], 5000));
}

#[test]
fn parses_full_v6() {
    let ep = parse_server_endpoint("[2001:db8:0:0:8:800:200c:417a]:443").unwrap();
    assert_eq!(ep, v6([0x2001, 0xdb8, 0, 0, 8, 0x800, 0x200c, 0x417a], 443));
}

#[test]
fn parses_compressed_v6_in_the_middle() {
    let ep = parse_server_endpoint("[2001:db8::8:800:200c:417a]:443").unwrap();
    assert_eq!(ep, v6([0x2001, 0xdb8, 0, 0, 8, 0x800, 0x200c, 0x417a], 443));
}

#[test]
fn parses_unspecified_v6() {
    let ep = parse_server_endpoint("[::]:1").unwrap();
    assert_eq!(ep, v6([0, 0, 0, 0, 0, 0, 0, 0], 1));
}

#[test]
fn parses_trailing_compression() {
    let ep = parse_server_endpoint("[1:2:3:4:5:6:7::]:9").unwrap();
    assert_eq!(ep, v6([1, 2, 3, 4, 5, 6, 7, 0], 9));
}

#[test]
fn parses_uppercase_hex_groups() {
    let ep = parse_server_endpoint("[FE80::1]:80").unwrap();
    assert_eq!(ep, v6([0xfe80, 0, 0, 0, 0, 0, 0, 1], 80));
}

#[test]
fn parses_embedded_v4_tail() {
    let ep = parse_server_endpoint("[::ffff:192.0.2.1]:80").unwrap();
    assert_eq!(ep, v6([0, 0, 0, 0, 0, 0xffff, 0xc000, 0x0201], 80));
    let ep = parse_server_endpoint("[::1.2.3.4]:80").unwrap();
    assert_eq!(ep, v6([0, 0, 0, 0, 0, 0, 0x0102, 0x0304], 80));
    let ep = parse_server_endpoint("[1:2:3:4:5:6:7.8.9.10]:443").unwrap();
    assert_eq!(ep, v6([1, 2, 3, 4, 5, 6, 0x0708, 0x090a], 443));
}

#[test]
fn parses_v4() {
    let ep = parse_server_endpoint("1.2.3.4:80").unwrap();
    assert_eq!(ep, v4(1, 2, 3, 4, 80));
}

#[test]
fn parses_v4_extremes() {
    let ep = parse_server_endpoint("255.255.255.255:65535").unwrap();
    assert_eq!(ep, v4(255, 255, 255, 255, 65535));
    let ep = parse_server_endpoint("0.0.0.0:1").unwrap();
    assert_eq!(ep, v4(0, 0, 0, 0, 1));
}

#[test]
fn rejects_malformed_addresses() {
    let bad = [
        "",
        "nonsense",
        "1.2.3.4",
        "[::1]",
        "[::1]:",
        "[::1]x80",
        "1.2.3:80",
        "1.2.3.4.5:80",
        "1.2.3.4:80:81",
        "256.0.0.1:80",
        "01.2.3.4:80",
        "1.2.3.4:65536",
        "1.2.3.4:0x50",
        "[::1]:05000",
        "[:::]:80",
        "[1::2::3]:80",
        "[1:2:3:4:5:6:7:8:9]:80",
        "[1:2:3:4:5:6:7]:80",
        "[12345::1]:80",
        "[g::1]:80",
        "::1:80",
        "[1.2.3.4]:80",
        "[1.2.3.4::]:80",
        "[::ffff:1.2.3]:80",
        "[::1.2.3.4.5]:80",
        "[1:2:3:4:5:6:7:1.2.3.4]:80",
        "[::1.2.3.4:5]:80",
    ];
    for text in bad {
        assert_eq!(
            parse_server_endpoint(text),
            Err(SetupError::InvalidAddress),
            "accepted {:?}",
            text
        );
    }
}
