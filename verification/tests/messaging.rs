use chat_ffi::error::ErrorCodes;
use chat_ffi::messaging::{
    add_contact, check_online_status, get_messages, online_status_code, send_message, ChatMessages,
    MessageQuery, SendRequest,
};

const CODES: ErrorCodes = ErrorCodes { null_error: 11, invalid_argument: 22, tokio_error: 33 };
const NOT_TEXT: &[u8] = &[0xff];

#[test]
fn message_is_sent_as_written() {
    let mut error: i32 = 3;
    let text = "gr\u{fc}\u{df} dich \u{1f44b}";
    let request = send_message(Some(&1u8), Some(&"bob"), text.as_bytes(), &mut error, &CODES);
    assert_eq!(request, Some(SendRequest { client: &1u8, receiver: &"bob", message: text.to_string() }));
    assert_eq!(error, 0);
}

#[test]
fn empty_message_is_sent() {
    let mut error: i32 = 0;
    let request = send_message(Some(&1u8), Some(&2u8), b"", &mut error, &CODES).unwrap();
    assert_eq!(request.message, "");
    assert_eq!(error, 0);
}

#[test]
fn sending_without_a_handle_is_a_null_error() {
    let mut error: i32 = 0;
    assert_eq!(send_message::<u8, u8>(None, Some(&2), b"hi", &mut error, &CODES), None);
    assert_eq!(error, 11);
    error = 0;
    assert_eq!(send_message::<u8, u8>(Some(&1), None, b"hi", &mut error, &CODES), None);
    assert_eq!(error, 11);
}

#[test]
fn message_that_is_no_text_outweighs_a_missing_handle() {
    let mut error: i32 = 0;
    assert_eq!(send_message(Some(&1u8), Some(&2u8), NOT_TEXT, &mut error, &CODES), None);
    assert_eq!(error, 22);
    error = 0;
    assert_eq!(send_message::<u8, u8>(None, None, NOT_TEXT, &mut error, &CODES), None);
    assert_eq!(error, 22);
}

#[test]
fn contact_is_added_through_the_given_handles() {
    let mut error: i32 = 8;
    assert_eq!(add_contact(Some(&'c'), Some(&'a'), &mut error, &CODES), Some((&'c', &'a')));
    assert_eq!(error, 0);
    assert_eq!(add_contact::<char, char>(None, Some(&'a'), &mut error, &CODES), None);
    assert_eq!(error, 11);
    error = 0;
    assert_eq!(add_contact::<char, char>(Some(&'c'), None, &mut error, &CODES), None);
    assert_eq!(error, 11);
}

#[test]
fn status_is_asked_through_the_given_handles() {
    let mut error: i32 = 8;
    assert_eq!(check_online_status(Some(&1u8), Some(&2u8), &mut error, &CODES), Some((&1, &2)));
    assert_eq!(error, 0);
    assert_eq!(check_online_status::<u8, u8>(None, None, &mut error, &CODES), None);
    assert_eq!(error, 11);
}

#[test]
fn status_code_is_the_number_of_the_status() {
    assert_eq!(online_status_code(0), 0);
    assert_eq!(online_status_code(2), 2);
    assert_eq!(online_status_code(255), 255);
}

fn query(limit: i32, page: i32) -> (u64, u64) {
    let mut error: i32 = 1;
    let q = get_messages(Some(&1u8), Some(&2u8), limit, page, &mut error, &CODES).unwrap();
    assert_eq!(error, 0);
    assert_eq!((q.client, q.address), (&1, &2));
    (q.limit, q.page)
}

#[test]
fn negative_numbers_ask_for_the_defaults() {
    assert_eq!(query(-1, -1), (35, 0));
    assert_eq!(query(i32::MIN, i32::MIN), (35, 0));
}

#[test]
fn limit_and_page_are_taken_as_asked() {
    assert_eq!(query(0, 0), (0, 0));
    assert_eq!(query(10, 3), (10, 3));
    assert_eq!(query(2500, i32::MAX), (2500, 2147483647));
}

#[test]
fn limit_is_bounded() {
    assert_eq!(query(2501, 0), (2500, 0));
    assert_eq!(query(i32::MAX, 0), (2500, 0));
}

#[test]
fn fetching_without_a_handle_is_a_null_error() {
    let mut error: i32 = 0;
    let none: Option<MessageQuery<u8, u8>> = None;
    assert_eq!(get_messages(None, Some(&2), 1, 1, &mut error, &CODES), none);
    assert_eq!(error, 11);
    error = 0;
    assert_eq!(get_messages(Some(&1), None, 1, 1, &mut error, &CODES), none);
    assert_eq!(error, 11);
}

#[test]
fn messages_are_gathered_in_order() {
    assert_eq!(ChatMessages::gather(vec!["b", "a", "c"]), ChatMessages(vec!["b", "a", "c"]));
    let none: Vec<u8> = Vec::new();
    assert_eq!(ChatMessages::gather(none).0.len(), 0);
}
