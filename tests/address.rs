use gossipers::address::{
    dial_address, dial_address_text, listen_address, listen_address_text, parse_address,
    push_decimal, AddressError,
};

fn decimal_of(n: u32) -> String {
    let mut s = String::new();
    push_decimal(&mut s, n);
    s
}

#[test]
fn decimal_single_digits() {
    assert_eq!(decimal_of(0), "0");
    assert_eq!(decimal_of(7), "7");
}

#[test]
fn decimal_several_digits() {
    assert_eq!(decimal_of(10), "10");
    assert_eq!(decimal_of(8080), "8080");
    assert_eq!(decimal_of(65535), "65535");
    assert_eq!(decimal_of(u32::MAX), "4294967295");
}

#[test]
fn decimal_appends_to_existing_text() {
    let mut s = String::from("port ");
    push_decimal(&mut s, 8081);
    assert_eq!(s, "port 8081");
}

#[test]
fn listen_text_on_default_port() {
    assert_eq!(listen_address_text(8080), "/ip4/127.0.0.1/tcp/8080");
}

#[test]
fn listen_text_on_extreme_ports() {
    assert_eq!(listen_address_text(0), "/ip4/127.0.0.1/tcp/0");
    assert_eq!(listen_address_text(65535), "/ip4/127.0.0.1/tcp/65535");
}

#[test]
fn dial_text_of_socket_address() {
    assert_eq!(dial_address_text([192, 168, 0, 17], 8081), "/ip4/192.168.0.17/tcp/8081");
    assert_eq!(dial_address_text([0, 0, 0, 0], 1), "/ip4/0.0.0.0/tcp/1");
    assert_eq!(dial_address_text([255, 255, 255, 255], 65535), "/ip4/255.255.255.255/tcp/65535");
}

#[test]
fn listen_address_parses() {
    let a = listen_address(8080).expect("loopback address parses");
    assert_eq!(a.to_string(), "/ip4/127.0.0.1/tcp/8080");
}

#[test]
fn dial_address_parses() {
    let a = dial_address([10, 0, 0, 2], 8080).expect("dial address parses");
    assert_eq!(a.to_string(), "/ip4/10.0.0.2/tcp/8080");
}

#[test]
fn malformed_address_is_refused() {
    assert!(matches!(parse_address("/ip4/127.0.0.1/tcp?8080"), Err(AddressError::Unparsable)));
    assert!(matches!(parse_address("not an address"), Err(AddressError::Unparsable)));
    assert!(matches!(parse_address("/ip4/300.0.0.1/tcp/1"), Err(AddressError::Unparsable)));
}

#[test]
fn well_formed_address_is_accepted() {
    let a = parse_address("/ip4/127.0.0.1/tcp/8081").expect("parses");
    assert_eq!(a.to_string(), "/ip4/127.0.0.1/tcp/8081");
}
