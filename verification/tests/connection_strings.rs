use fedimint_server::{format_peer_params, parse_peer_params, ConfigError, PeerServerParams};

fn sample() -> PeerServerParams {
    PeerServerParams {
        cert: vec![0x00, 0x01, 0xab, 0xcd, 0xef, 0x7f, 0x80, 0xff],
        p2p_url: "ws://guardian.example:8173/".to_string(),
        api_url: "ws://guardian.example:8174/".to_string(),
        name: "guardian".to_string(),
    }
}

#[test]
fn parse_reads_the_four_fields() {
    let peer = parse_peer_params(
        "ws://guardian.example:8173/@ws://guardian.example:8174/@guardian@0001abcdef7f80ff"
            .to_string(),
    )
    .unwrap();
    assert_eq!(peer.p2p_url, "ws://guardian.example:8173/");
    assert_eq!(peer.api_url, "ws://guardian.example:8174/");
    assert_eq!(peer.name, "guardian");
    assert_eq!(peer.cert, vec![0x00, 0x01, 0xab, 0xcd, 0xef, 0x7f, 0x80, 0xff]);
}

#[test]
fn format_writes_lowercase_hex_between_separators() {
    assert_eq!(
        format_peer_params(&sample()),
        "ws://guardian.example:8173/@ws://guardian.example:8174/@guardian@0001abcdef7f80ff"
    );
}

#[test]
fn parse_gives_back_what_format_wrote() {
    let peer = sample();
    let parsed = parse_peer_params(format_peer_params(&peer)).unwrap();
    assert_eq!(parsed.cert, peer.cert);
    assert_eq!(parsed.p2p_url, peer.p2p_url);
    assert_eq!(parsed.api_url, peer.api_url);
    assert_eq!(parsed.name, peer.name);
}

#[test]
fn format_after_parse_lowercases_the_certificate() {
    let text = "ws://a.example:1/@ws://a.example:2/@a@0A1B2C3D4E5F";
    let parsed = parse_peer_params(text.to_string()).unwrap();
    assert_eq!(parsed.cert, vec![0x0a, 0x1b, 0x2c, 0x3d, 0x4e, 0x5f]);
    assert_eq!(format_peer_params(&parsed), "ws://a.example:1/@ws://a.example:2/@a@0a1b2c3d4e5f");
}

#[test]
fn parse_writes_urls_the_way_the_parser_does() {
    let parsed =
        parse_peer_params("WS://Guardian.Example:8173@ws://guardian.example:8174@g@00".to_string())
            .unwrap();
    assert_eq!(parsed.p2p_url, "ws://guardian.example:8173/");
    assert_eq!(parsed.api_url, "ws://guardian.example:8174/");
}

#[test]
fn parse_accepts_an_empty_certificate_and_an_empty_name() {
    let parsed = parse_peer_params("ws://a.example:1/@ws://a.example:2/@@".to_string()).unwrap();
    assert_eq!(parsed.name, "");
    assert_eq!(parsed.cert, Vec::<u8>::new());
}

#[test]
fn three_fields_are_rejected() {
    let r = parse_peer_params("ws://a.example:1/@ws://a.example:2/@00".to_string());
    assert_eq!(r.unwrap_err(), ConfigError::MalformedConnectionString);
}

#[test]
fn five_fields_are_rejected() {
    let r = parse_peer_params("ws://a.example:1/@ws://a.example:2/@a@00@11".to_string());
    assert_eq!(r.unwrap_err(), ConfigError::MalformedConnectionString);
}

#[test]
fn a_name_with_a_separator_makes_a_fifth_field() {
    let mut peer = sample();
    peer.name = "gu@rdian".to_string();
    let r = parse_peer_params(format_peer_params(&peer));
    assert_eq!(r.unwrap_err(), ConfigError::MalformedConnectionString);
}

#[test]
fn an_empty_string_is_rejected() {
    assert_eq!(
        parse_peer_params(String::new()).unwrap_err(),
        ConfigError::MalformedConnectionString
    );
}

#[test]
fn hex_of_odd_length_is_rejected() {
    let r = parse_peer_params("ws://a.example:1/@ws://a.example:2/@a@abc".to_string());
    assert_eq!(r.unwrap_err(), ConfigError::MalformedConnectionString);
}

#[test]
fn hex_with_other_characters_is_rejected() {
    let r = parse_peer_params("ws://a.example:1/@ws://a.example:2/@a@zz".to_string());
    assert_eq!(r.unwrap_err(), ConfigError::MalformedConnectionString);
    let r = parse_peer_params("ws://a.example:1/@ws://a.example:2/@a@é".to_string());
    assert_eq!(r.unwrap_err(), ConfigError::MalformedConnectionString);
}

#[test]
fn a_field_that_is_no_url_is_rejected() {
    let r = parse_peer_params("not a url@ws://a.example:2/@a@00".to_string());
    assert_eq!(r.unwrap_err(), ConfigError::MalformedConnectionString);
    let r = parse_peer_params("ws://a.example:1/@@a@00".to_string());
    assert_eq!(r.unwrap_err(), ConfigError::MalformedConnectionString);
}

#[test]
fn a_name_outside_ascii_is_kept() {
    let parsed = parse_peer_params("ws://a.example:1/@ws://a.example:2/@zoë@00".to_string()).unwrap();
    assert_eq!(parsed.name, "zoë");
}

#[test]
fn the_same_guardian_has_the_same_certificate() {
    let a = sample();
    let mut b = sample();
    b.name = "another".to_string();
    b.p2p_url = "ws://elsewhere.example:1/".to_string();
    assert!(a.is_same_guardian(&b));
    b.cert[0] = 0x01;
    assert!(!a.is_same_guardian(&b));
}
