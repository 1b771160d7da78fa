use roads_proxy::target::{MalformedTarget, TunnelTarget};

fn parsed(text: &str) -> TunnelTarget {
    match TunnelTarget::parse(text) {
        Ok(target) => target,
        Err(e) => panic!("{:?} was refused: {:?}", text, e),
    }
}

fn refused(text: &str) -> MalformedTarget {
    match TunnelTarget::parse(text) {
        Ok(target) => panic!("{:?} was accepted: {:?}", text, target),
        Err(e) => e,
    }
}

#[test]
fn name_and_port_are_read() {
    let target = parsed("example.com:443");
    assert_eq!(target.host(), "example.com");
    assert_eq!(target.port(), 443);
    assert_eq!(target.authority(), "example.com:443");
}

#[test]
fn address_and_port_are_read() {
    let target = parsed("127.0.0.1:8080");
    assert_eq!(target.host(), "127.0.0.1");
    assert_eq!(target.port(), 8080);
}

#[test]
fn bracketed_literal_keeps_its_brackets() {
    let target = parsed("[::1]:8443");
    assert_eq!(target.host(), "[::1]");
    assert_eq!(target.port(), 8443);
    assert_eq!(target.authority(), "[::1]:8443");
    let mapped = parsed("[::ffff:10.0.0.1]:80");
    assert_eq!(mapped.host(), "[::ffff:10.0.0.1]");
    assert_eq!(mapped.port(), 80);
}

#[test]
fn port_bounds() {
    assert_eq!(parsed("h:0").port(), 0);
    assert_eq!(parsed("h:1").port(), 1);
    assert_eq!(parsed("h:65535").port(), 65535);
    assert_eq!(refused("h:65536"), MalformedTarget::InvalidPort);
    assert_eq!(refused("h:99999"), MalformedTarget::InvalidPort);
    assert_eq!(refused("h:4294967296"), MalformedTarget::InvalidPort);
    assert_eq!(refused("h:18446744073709551616"), MalformedTarget::InvalidPort);
}

#[test]
fn leading_zeros_do_not_change_the_port() {
    let target = parsed("example.com:00080");
    assert_eq!(target.port(), 80);
    assert_eq!(target.host(), "example.com");
    assert_eq!(target.authority(), "example.com:00080");
    assert_eq!(parsed("h:0000000000065535").port(), 65535);
}

#[test]
fn missing_port_is_refused() {
    assert_eq!(refused("example.com"), MalformedTarget::MissingPort);
    assert_eq!(refused("example.com:"), MalformedTarget::MissingPort);
    assert_eq!(refused(""), MalformedTarget::MissingPort);
    assert_eq!(refused(":"), MalformedTarget::MissingPort);
}

#[test]
fn non_numeric_port_is_refused() {
    assert_eq!(refused("example.com:abc"), MalformedTarget::InvalidPort);
    assert_eq!(refused("example.com:80a"), MalformedTarget::InvalidPort);
    assert_eq!(refused("example.com:+80"), MalformedTarget::InvalidPort);
    assert_eq!(refused("example.com:-1"), MalformedTarget::InvalidPort);
    assert_eq!(refused("example.com: 80"), MalformedTarget::InvalidPort);
    assert_eq!(refused("example.com:8 0"), MalformedTarget::InvalidPort);
    assert_eq!(refused("[::1]"), MalformedTarget::InvalidPort);
    assert_eq!(refused("a:80:"), MalformedTarget::MissingPort);
    assert_eq!(refused("a:80:x"), MalformedTarget::InvalidPort);
}

#[test]
fn empty_host_is_refused() {
    assert_eq!(refused(":443"), MalformedTarget::EmptyHost);
    assert_eq!(refused(":0"), MalformedTarget::EmptyHost);
}

#[test]
fn any_host_that_is_not_empty_is_taken() {
    for (text, host, port) in [
        ("[fe80::1%3]:80", "[fe80::1%3]", 80),
        ("[fe80::1%25eth0]:8080", "[fe80::1%25eth0]", 8080),
        ("user@example.com:80", "user@example.com", 80),
        ("a b:80", "a b", 80),
        ("example.com/path:80", "example.com/path", 80),
        ("a:b:80", "a:b", 80),
        ("::1:80", "::1", 80),
        ("::1", ":", 1),
        ("[::1:80", "[::1", 80),
        ("]:80", "]", 80),
        ("my_host-1.example~!$&'()*+,;=%41:1", "my_host-1.example~!$&'()*+,;=%41", 1),
    ] {
        let target = parsed(text);
        assert_eq!(target.host(), host, "{:?}", text);
        assert_eq!(target.port(), port, "{:?}", text);
        assert_eq!(target.authority(), text);
    }
}

#[test]
fn a_host_may_hold_characters_outside_ascii() {
    let target = parsed("m\u{fc}nchen.de:80");
    assert_eq!(target.host(), "m\u{fc}nchen.de");
    assert_eq!(target.port(), 80);
    assert_eq!(target.authority(), "m\u{fc}nchen.de:80");
    let wide = parsed("\u{65e5}\u{672c}\u{8a9e}.\u{1f600}:65535");
    assert_eq!(wide.host(), "\u{65e5}\u{672c}\u{8a9e}.\u{1f600}");
    assert_eq!(wide.port(), 65535);
}

#[test]
fn digits_outside_ascii_are_no_port() {
    assert_eq!(refused("example.com:\u{664}\u{664}\u{663}"), MalformedTarget::InvalidPort);
    assert_eq!(refused("example.com:8\u{e9}"), MalformedTarget::InvalidPort);
    assert_eq!(refused("\u{e9}"), MalformedTarget::MissingPort);
    assert_eq!(refused("\u{e9}:"), MalformedTarget::MissingPort);
    assert_eq!(refused(":\u{e9}"), MalformedTarget::InvalidPort);
}

#[test]
fn the_port_fault_is_named_before_the_host_fault() {
    assert_eq!(refused(":x"), MalformedTarget::InvalidPort);
    assert_eq!(refused(":65536"), MalformedTarget::InvalidPort);
    assert_eq!(refused(":80"), MalformedTarget::EmptyHost);
}

#[test]
fn a_clone_is_the_same_target() {
    let target = parsed("example.com:443");
    let copy = target.clone();
    assert_eq!(copy, target);
    assert_eq!(copy.host(), "example.com");
    assert_eq!(copy.port(), 443);
    assert_eq!(copy.authority(), "example.com:443");
}

#[test]
fn every_port_is_read_back() {
    let mut port: u32 = 0;
    while port <= 65535 {
        let text = format!("host:{}", port);
        let target = parsed(&text);
        assert_eq!(u32::from(target.port()), port);
        assert_eq!(target.host(), "host");
        port += 257;
    }
}
