use chat_ffi::address::create_tari_address;
use chat_ffi::error::ErrorCodes;
use chat_ffi::text::accept;
use chat_ffi::error::InterfaceError;

const CODES: ErrorCodes = ErrorCodes { null_error: 11, invalid_argument: 22, tokio_error: 33 };

fn parse(hex: &str) -> Result<u64, String> {
    u64::from_str_radix(hex, 16).map_err(|e| e.to_string())
}

#[test]
fn readable_address_is_created() {
    let mut error: i32 = 5;
    assert_eq!(create_tari_address(b"1f", parse, &mut error, &CODES), Some(31));
    assert_eq!(error, 0);
}

#[test]
fn refused_address_is_an_invalid_argument() {
    let mut error: i32 = 0;
    assert_eq!(create_tari_address(b"zz", parse, &mut error, &CODES), None);
    assert_eq!(error, 22);
}

#[test]
fn address_that_is_no_text_is_a_null_error() {
    let mut error: i32 = 0;
    assert_eq!(create_tari_address(&[0xc3, 0x28], parse, &mut error, &CODES), None);
    assert_eq!(error, 11);
}

#[test]
fn refusal_keeps_its_message() {
    let refused: Result<u8, String> = Err("bad checksum".to_string());
    assert_eq!(accept(refused), Err(InterfaceError::InvalidArgument("bad checksum".to_string())));
    let fine: Result<u8, String> = Ok(9);
    assert_eq!(accept(fine), Ok(9));
}

#[test]
fn written_address_is_read_back() {
    for address in [0u64, 31, 0xfeed_beef] {
        let mut error: i32 = 8;
        let text = format!("{:x}", address);
        assert_eq!(create_tari_address(text.as_bytes(), parse, &mut error, &CODES), Some(address));
        assert_eq!(error, 0);
    }
}
