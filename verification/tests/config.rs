use chat_ffi::config::{assemble, create_chat_config, finish, read_network, ApplicationConfig};
use chat_ffi::error::{ErrorCodes, InterfaceError};
use multiaddr::Multiaddr;
use std::str::FromStr;

const CODES: ErrorCodes = ErrorCodes { null_error: 11, invalid_argument: 22, tokio_error: 33 };
const NOT_TEXT: &[u8] = &[0x61, 0xff, 0x62];
const ADDRESS: &[u8] = b"/ip4/127.0.0.1/tcp/18188";

fn parse(name: &str) -> Result<u8, String> {
    match name {
        "stagenet" => Ok(1),
        "localnet" => Ok(2),
        other => Err(format!("unknown network {}", other)),
    }
}

fn create(
    network: Option<&[u8]>,
    address: Option<&[u8]>,
    datastore: Option<&[u8]>,
    log: Option<&[u8]>,
) -> (Option<ApplicationConfig<u8>>, i32) {
    let mut error: i32 = 77;
    let config = create_chat_config(network, address, datastore, log, parse, &mut error, &CODES);
    (config, error)
}

#[test]
fn complete_arguments_make_a_config() {
    let (config, error) = create(Some(b"localnet"), Some(ADDRESS), Some(b"/data"), Some(b"/data/log.txt"));
    let config = config.unwrap();
    let address = Multiaddr::from_str("/ip4/127.0.0.1/tcp/18188").unwrap().to_vec();
    assert_eq!(error, 0);
    assert_eq!(config.network, 2);
    assert_eq!(config.listener_address, address);
    assert_eq!(config.listener_address, vec![4, 127, 0, 0, 1, 6, 0x47, 0x0c]);
    assert_eq!(config.public_addresses, vec![address]);
    assert_eq!(config.log_path, Some("/data/log.txt".to_string()));
    assert_eq!(config.base_path, "/data".to_string());
}

#[test]
fn missing_network_is_an_invalid_argument() {
    assert_eq!(create(None, Some(ADDRESS), Some(b"d"), Some(b"l")), (None, 22));
    assert_eq!(
        read_network(None, parse),
        Err(InterfaceError::InvalidArgument("network is missing".to_string()))
    );
}

#[test]
fn unreadable_network_is_an_invalid_argument() {
    assert_eq!(create(Some(NOT_TEXT), Some(ADDRESS), Some(b"d"), Some(b"l")), (None, 22));
    let message = std::str::from_utf8(NOT_TEXT).unwrap_err().to_string();
    assert_eq!(read_network(Some(NOT_TEXT), parse), Err(InterfaceError::InvalidArgument(message)));
}

#[test]
fn unknown_network_is_an_invalid_argument() {
    assert_eq!(create(Some(b"nonet"), Some(ADDRESS), Some(b"d"), Some(b"l")), (None, 22));
    assert_eq!(
        read_network(Some(b"nonet"), parse),
        Err(InterfaceError::InvalidArgument("unknown network nonet".to_string()))
    );
}

#[test]
fn known_network_is_read() {
    assert_eq!(read_network(Some(b"stagenet"), parse), Ok(1));
}

#[test]
fn missing_texts_are_null_errors() {
    let net: Option<&[u8]> = Some(b"localnet");
    assert_eq!(create(net, Some(ADDRESS), None, Some(b"l")), (None, 11));
    assert_eq!(create(net, None, Some(b"d"), Some(b"l")), (None, 11));
    assert_eq!(create(net, Some(ADDRESS), Some(b"d"), None), (None, 11));
}

#[test]
fn unreadable_texts_are_invalid_arguments() {
    let net: Option<&[u8]> = Some(b"localnet");
    assert_eq!(create(net, Some(ADDRESS), Some(NOT_TEXT), Some(b"l")), (None, 22));
    assert_eq!(create(net, Some(NOT_TEXT), Some(b"d"), Some(b"l")), (None, 22));
    assert_eq!(create(net, Some(ADDRESS), Some(b"d"), Some(NOT_TEXT)), (None, 22));
}

#[test]
fn errors_name_the_argument() {
    assert_eq!(
        assemble(Ok(1u8), Some(ADDRESS), None, Some(b"l")),
        Err(InterfaceError::NullError("datastore_path".to_string()))
    );
    assert_eq!(
        assemble(Ok(1u8), Some(NOT_TEXT), Some(b"d"), Some(b"l")),
        Err(InterfaceError::InvalidArgument("public_address".to_string()))
    );
    assert_eq!(
        assemble(Ok(1u8), Some(ADDRESS), Some(b"d"), None),
        Err(InterfaceError::NullError("log_path".to_string()))
    );
}

#[test]
fn unusable_address_is_an_invalid_argument() {
    let text = "127.0.0.1:18188";
    let message = Multiaddr::from_str(text).unwrap_err().to_string();
    assert_eq!(message, "invalid multiaddr");
    assert_eq!(
        assemble(Ok(1u8), Some(text.as_bytes()), Some(b"d"), Some(b"l")),
        Err(InterfaceError::InvalidArgument(message))
    );
    assert_eq!(create(Some(b"localnet"), Some(text.as_bytes()), Some(b"d"), Some(b"l")), (None, 22));
}

#[test]
fn first_error_in_order_decides() {
    // network, datastore path, public address, log path
    let net: Option<&[u8]> = Some(b"localnet");
    assert_eq!(create(Some(b"nonet"), None, None, None), (None, 22));
    assert_eq!(create(net, Some(NOT_TEXT), None, None), (None, 11));
    assert_eq!(create(net, Some(NOT_TEXT), Some(b"d"), None), (None, 22));
    let err: Result<u8, InterfaceError> = Err(InterfaceError::InvalidArgument("n".to_string()));
    assert_eq!(assemble(err, None, None, None), Err(InterfaceError::InvalidArgument("n".to_string())));
    assert_eq!(
        assemble(Ok(1u8), Some(b"nowhere"), Some(b"d"), None),
        Err(InterfaceError::InvalidArgument("invalid multiaddr".to_string()))
    );
}

#[test]
fn texts_beyond_ascii_are_kept() {
    let (config, error) =
        create(Some(b"localnet"), Some(ADDRESS), Some("/d\u{e4}ta".as_bytes()), Some("/l\u{1f4dd}.log".as_bytes()));
    let config = config.unwrap();
    assert_eq!(error, 0);
    assert_eq!(config.base_path, "/d\u{e4}ta");
    assert_eq!(config.log_path, Some("/l\u{1f4dd}.log".to_string()));
}

#[test]
fn parsed_address_completes_a_config() {
    let config = finish(1u8, "/data".to_string(), Ok(vec![4, 127, 0, 0, 1]), Some(b"log.txt")).unwrap();
    assert_eq!(config.network, 1);
    assert_eq!(config.listener_address, vec![4, 127, 0, 0, 1]);
    assert_eq!(config.public_addresses, vec![vec![4, 127, 0, 0, 1]]);
    assert_eq!(config.log_path, Some("log.txt".to_string()));
    assert_eq!(config.base_path, "/data".to_string());
}

#[test]
fn refused_address_comes_before_a_missing_log_path() {
    let refused = finish(1u8, "/data".to_string(), Err("bad address".to_string()), None);
    assert_eq!(refused, Err(InterfaceError::InvalidArgument("bad address".to_string())));
    let missing = finish(1u8, "/data".to_string(), Ok(vec![4]), None);
    assert_eq!(missing, Err(InterfaceError::NullError("log_path".to_string())));
    let unreadable = finish(1u8, "/data".to_string(), Ok(vec![4]), Some(NOT_TEXT));
    assert_eq!(unreadable, Err(InterfaceError::InvalidArgument("log_path".to_string())));
}

#[test]
fn prior_slot_has_no_bearing_on_a_config() {
    for network in [Some(&b"localnet"[..]), Some(&b"moon"[..]), None] {
        let mut one: i32 = 5;
        let mut other: i32 = -5;
        let log: Option<&[u8]> = Some(b"log.txt");
        let data: Option<&[u8]> = Some(b"/data");
        let first = create_chat_config(network, Some(ADDRESS), data, log, parse, &mut one, &CODES);
        let second = create_chat_config(network, Some(ADDRESS), data, log, parse, &mut other, &CODES);
        assert_eq!(first, second);
        assert_eq!(one, other);
        assert_eq!(first.is_some(), one == 0);
    }
}
