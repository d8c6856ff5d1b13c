use miden_watch::endpoint::{default_db_path, dirs_default, parse_endpoint, EndpointError};
use miden_watch::text::{
    fmt_hash, hex_padded, parse_u32, parse_usize, shorten_str, str_eq, u32_to_dec, u64_to_dec,
    usize_to_dec,
};
use miden_watch::types::StartFrom;

#[test]
fn decimal_rendering() {
    assert_eq!(u64_to_dec(0), "0");
    assert_eq!(u64_to_dec(7), "7");
    assert_eq!(u64_to_dec(1234567890123), "1234567890123");
    assert_eq!(u64_to_dec(u64::MAX), u64::MAX.to_string());
    assert_eq!(u32_to_dec(4294967295), "4294967295");
    assert_eq!(usize_to_dec(42), "42");
}

#[test]
fn decimal_parsing_matches_std() {
    for s in ["0", "42", "+7", "007", "4294967295", "4294967296", "", "+", "-1", "1a", " 1", "99999999999"] {
        assert_eq!(parse_u32(s), s.parse::<u32>().ok(), "input {s:?}");
        assert_eq!(parse_usize(s), s.parse::<usize>().ok(), "input {s:?}");
    }
    assert_eq!(parse_usize("18446744073709551616"), None);
}

#[test]
fn decimal_roundtrip() {
    for n in [0u32, 1, 9, 10, 99, 100, 65535, u32::MAX] {
        assert_eq!(parse_u32(&u32_to_dec(n)), Some(n));
    }
}

#[test]
fn hexadecimal_padding() {
    assert_eq!(hex_padded(255, 8), "000000ff");
    assert_eq!(hex_padded(0xdeadbeef, 8), "deadbeef");
    assert_eq!(hex_padded(0, 0), "");
}

#[test]
fn hash_display_and_shortening() {
    let h = "0x0123456789abcdef0123456789abcdef";
    assert_eq!(fmt_hash(h, false), "0x012345...89abcdef");
    assert_eq!(fmt_hash(h, true), h);
    assert_eq!(fmt_hash("0xshort", false), "0xshort");
    assert_eq!(shorten_str(h, 12), "0x0123456789...");
    assert_eq!(shorten_str("0xabc", 12), "0xabc");
}

#[test]
fn string_equality() {
    assert!(str_eq("tip", "tip"));
    assert!(!str_eq("tip", "tips"));
    assert!(!str_eq("tip", "top"));
}

#[test]
fn start_from_arguments() {
    assert_eq!(StartFrom::parse("tip"), Ok(StartFrom::Tip));
    assert_eq!(StartFrom::parse("LATEST"), Ok(StartFrom::Tip));
    assert_eq!(StartFrom::parse("Genesis"), Ok(StartFrom::Genesis));
    assert_eq!(StartFrom::parse("500"), Ok(StartFrom::Block(500)));
    assert_eq!(StartFrom::parse("+5"), Ok(StartFrom::Block(5)));
    assert_eq!(
        StartFrom::parse("Nope"),
        Err("expected 'tip', 'genesis', or a block number, got 'nope'".to_string())
    );
    assert_eq!(
        StartFrom::parse("4294967296"),
        Err("expected 'tip', 'genesis', or a block number, got '4294967296'".to_string())
    );
    assert_eq!("genesis".parse::<StartFrom>(), Ok(StartFrom::Genesis));
}

#[test]
fn endpoints_from_urls() {
    let e = parse_endpoint("http://localhost:57291").unwrap();
    assert_eq!((e.protocol.as_str(), e.host.as_str(), e.port), ("http", "localhost", Some(57291)));
    let e = parse_endpoint("https://rpc.testnet.miden.io").unwrap();
    assert_eq!((e.protocol.as_str(), e.host.as_str(), e.port), ("https", "rpc.testnet.miden.io", None));
    let e = parse_endpoint("HTTPS://Example.com:443/").unwrap();
    assert_eq!((e.protocol.as_str(), e.host.as_str(), e.port), ("https", "example.com", None));
    assert!(matches!(parse_endpoint("not a url"), Err(EndpointError::InvalidUrl(_))));
    assert!(matches!(parse_endpoint("unix:/run/foo.socket"), Err(EndpointError::MissingHost)));
    assert_eq!(EndpointError::missing_host_message(), "URL must have a host");
}

#[test]
fn default_paths() {
    assert_eq!(dirs_default(Some("/home/u")), "/home/u/.miden-watch");
    assert_eq!(dirs_default(Some("/home/u/")), "/home/u/.miden-watch");
    assert_eq!(dirs_default(Some("")), ".miden-watch");
    assert_eq!(dirs_default(None), ".miden-watch");
    assert_eq!(default_db_path(Some("/root")), "/root/.miden-watch/data.db");
    let mut p = std::path::PathBuf::from("/home/u");
    p.push(".miden-watch");
    p.push("data.db");
    assert_eq!(default_db_path(Some("/home/u")), p.to_string_lossy());
}
