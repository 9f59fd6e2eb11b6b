//! What each call gives back and leaves in the error slot, in terms of what it is given.
//!
//! Every law here speaks of a call with given arguments, its result, and the error slot before and
//! after it. A text stands for itself, and its bytes are its UTF-8 encoding. Bytes that encode no
//! text are covered by laws of their own.

use crate::address::{create_tari_address, multiaddr_of};
use crate::archive::{archive_pattern, last_dot, lemma_last_dot_unique, pattern_for};
use crate::config::{assemble, create_chat_config, finish, read_network, ApplicationConfig};
use crate::error::{report, ErrorCodes, InterfaceError};
use crate::log_backend::{
    behind_slashes, config_appenders, config_loggers, config_root_appenders, config_root_level,
    ends_at, line_appender, size_rolling_policy, Level,
};
use crate::logging::{init_logging, logging_config, may_be_compressed, LogFile};
use crate::messaging::{
    add_contact, check_online_status, get_messages, online_status_code, send_message, ChatMessages,
    MessageQuery, SendRequest,
};
use crate::startup::{
    create_chat_client, resume, StartupAction, StartupConfig, StartupEvent, StartupState,
};
use crate::text::{accept, utf8_refusal};
use log4rs::append::rolling_file::RollingFileAppender;
use log4rs::config::Config;
use vstd::prelude::*;
use vstd::utf8::{encode_utf8, encode_utf8_decode_utf8, encode_utf8_valid_utf8, valid_utf8};

verus! {

/// Each kind of error has the code that the table gives to it, whatever its payload.
pub proof fn law_code_goes_by_kind(codes: &ErrorCodes, error: &InterfaceError, code: i32)
    requires
        call_ensures(ErrorCodes::code_of, (codes, error), code),
    ensures
        error is NullError ==> code == codes.null_error,
        error is InvalidArgument ==> code == codes.invalid_argument,
        error is TokioError ==> code == codes.tokio_error,
{
}

/// A success hands on its value and clears the slot. A failure hands on nothing and leaves its code.
pub proof fn law_report_tells_the_outcome<T>(
    outcome: Result<T, InterfaceError>,
    slot: &mut i32,
    codes: &ErrorCodes,
    value: Option<T>,
)
    requires
        call_ensures(report::<T>, (outcome, slot, codes), value),
    ensures
        outcome matches Ok(v) ==> value == Some(v) && *final(slot) == 0,
        outcome is Err ==> value is None,
        outcome matches Err(InterfaceError::NullError(_)) ==> *final(slot) == codes.null_error,
        outcome matches Err(InterfaceError::InvalidArgument(_)) ==> *final(slot) == codes.invalid_argument,
        outcome matches Err(InterfaceError::TokioError(_)) ==> *final(slot) == codes.tokio_error,
{
}

/// What a parser read is taken over as it is, and its refusal with its message.
pub proof fn law_parser_is_believed<A>(parsed: Result<A, String>, outcome: Result<A, InterfaceError>)
    requires
        call_ensures(accept::<A>, (parsed,), outcome),
    ensures
        parsed matches Ok(value) ==> outcome == Ok::<A, InterfaceError>(value),
        parsed matches Err(e) ==> (outcome matches Err(InterfaceError::InvalidArgument(why)) && why@ == e@),
{
}

/// An address is what the parser reads from the whole text and nothing else: its value and a cleared
/// slot, or its refusal.
pub proof fn law_address_is_what_the_parser_reads<A, F: Fn(&str) -> Result<A, String>>(
    text: Seq<char>,
    receiver: &[u8],
    parse: F,
    slot: &mut i32,
    codes: &ErrorCodes,
    address: Option<A>,
)
    requires
        receiver@ == encode_utf8(text),
        call_ensures(create_tari_address::<A, F>, (receiver, parse, slot, codes), address),
    ensures
        exists|s: &str, parsed: Result<A, String>|
            s@ == text && #[trigger] call_ensures(parse, (s,), parsed) && match parsed {
                Ok(value) => address == Some(value) && *final(slot) == 0,
                Err(_) => address is None && *final(slot) == codes.invalid_argument,
            },
{
    encode_utf8_valid_utf8(text);
    encode_utf8_decode_utf8(text);
}

/// A text that the parser always refuses makes no address, and counts as an invalid argument.
pub proof fn law_refused_address_is_no_address<A, F: Fn(&str) -> Result<A, String>>(
    text: Seq<char>,
    receiver: &[u8],
    parse: F,
    slot: &mut i32,
    codes: &ErrorCodes,
    address: Option<A>,
)
    requires
        forall|s: &str, parsed: Result<A, String>|
            s@ == text && #[trigger] call_ensures(parse, (s,), parsed) ==> parsed is Err,
        receiver@ == encode_utf8(text),
        call_ensures(create_tari_address::<A, F>, (receiver, parse, slot, codes), address),
    ensures
        address is None,
        *final(slot) == codes.invalid_argument,
{
    law_address_is_what_the_parser_reads(text, receiver, parse, slot, codes, address);
}

/// A text that the parser always reads as one address makes that address.
pub proof fn law_read_address_is_handed_out<A, F: Fn(&str) -> Result<A, String>>(
    text: Seq<char>,
    written: A,
    receiver: &[u8],
    parse: F,
    slot: &mut i32,
    codes: &ErrorCodes,
    address: Option<A>,
)
    requires
        forall|s: &str, parsed: Result<A, String>|
            s@ == text && #[trigger] call_ensures(parse, (s,), parsed) ==> parsed == Ok::<A, String>(written),
        receiver@ == encode_utf8(text),
        call_ensures(create_tari_address::<A, F>, (receiver, parse, slot, codes), address),
    ensures
        address == Some(written),
        *final(slot) == 0,
{
    law_address_is_what_the_parser_reads(text, receiver, parse, slot, codes, address);
}

/// Bytes that are no text make no address, whatever the parser, and count as a missing argument.
pub proof fn law_unreadable_address_is_no_address<A, F: Fn(&str) -> Result<A, String>>(
    receiver: &[u8],
    parse: F,
    slot: &mut i32,
    codes: &ErrorCodes,
    address: Option<A>,
)
    requires
        !valid_utf8(receiver@),
        call_ensures(create_tari_address::<A, F>, (receiver, parse, slot, codes), address),
    ensures
        address is None,
        *final(slot) == codes.null_error,
{
}

/// The network is what the parser reads from the whole text. A missing argument, one that is no text
/// and one that the parser refuses are invalid arguments, each with its message.
pub proof fn law_network_is_what_the_parser_reads<N, F: Fn(&str) -> Result<N, String>>(
    text: Seq<char>,
    network_str: Option<&[u8]>,
    parse: F,
    network: Result<N, InterfaceError>,
)
    requires
        call_ensures(read_network::<N, F>, (network_str, parse), network),
    ensures
        network_str is None ==> (network matches Err(InterfaceError::InvalidArgument(why)) && why@
            == "network is missing"@),
        network_str matches Some(bytes) && !valid_utf8(bytes@) ==> (network matches Err(
            InterfaceError::InvalidArgument(why),
        ) && why@ == utf8_refusal(network_str->0@)),
        network_str matches Some(bytes) && bytes@ == encode_utf8(text) ==> exists|
            s: &str,
            parsed: Result<N, String>,
        |
            s@ == text && #[trigger] call_ensures(parse, (s,), parsed) && match parsed {
                Ok(value) => network == Ok::<N, InterfaceError>(value),
                Err(e) => network matches Err(InterfaceError::InvalidArgument(why)) && why@ == e@,
            },
{
    encode_utf8_valid_utf8(text);
    encode_utf8_decode_utf8(text);
}

/// A parsed address and a readable log path complete a configuration. It holds each argument as it
/// was given, and the address both to listen on and as the only one to be known under.
pub proof fn law_finished_config_holds_its_arguments<N>(
    network: N,
    base_path: String,
    address: Vec<u8>,
    log_text: Seq<char>,
    log_path: &[u8],
    config: Result<ApplicationConfig<N>, InterfaceError>,
)
    requires
        log_path@ == encode_utf8(log_text),
        call_ensures(finish::<N>, (network, base_path, Ok(address), Some(log_path)), config),
    ensures
        config is Ok,
        config->Ok_0.network == network,
        config->Ok_0.base_path@ == base_path@,
        config->Ok_0.listener_address@ == address@,
        config->Ok_0.public_addresses@.len() == 1,
        config->Ok_0.public_addresses@[0]@ == address@,
        config->Ok_0.log_path matches Some(path) && path@ == log_text,
{
    encode_utf8_valid_utf8(log_text);
    encode_utf8_decode_utf8(log_text);
    lemma_one_address(config->Ok_0, address@);
}

/// A refused address is told with its message, whatever the log path. Only then is the log path
/// looked at: it is missing, or it is no text.
pub proof fn law_unfinished_config_is_an_error<N>(
    network: N,
    base_path: String,
    address: Result<Vec<u8>, String>,
    log_path: Option<&[u8]>,
    config: Result<ApplicationConfig<N>, InterfaceError>,
)
    requires
        call_ensures(finish::<N>, (network, base_path, address, log_path), config),
    ensures
        address matches Err(e) ==> (config matches Err(InterfaceError::InvalidArgument(why)) && why@ == e@),
        address is Ok && log_path is None ==> (config matches Err(InterfaceError::NullError(what)) && what@
            == "log_path"@),
        address is Ok && log_path is Some && !valid_utf8(log_path->0@) ==> (config matches Err(
            InterfaceError::InvalidArgument(what),
        ) && what@ == "log_path"@),
{
}

/// The one public address of a configuration, from what the configuration stands for.
proof fn lemma_one_address<N>(config: ApplicationConfig<N>, address: Seq<u8>)
    requires
        config@.public_addresses == seq![address],
    ensures
        config.public_addresses@.len() == 1,
        config.public_addresses@[0]@ == address,
{
    assert(config@.public_addresses.len() == 1);
    assert(config@.public_addresses[0] == address);
}

/// Readable arguments and an address that can be parsed make a configuration out of a network that
/// was read. It holds each text as it was written.
pub proof fn law_assembled_config_holds_its_arguments<N>(
    network: N,
    address_text: Seq<char>,
    public_address: &[u8],
    datastore_text: Seq<char>,
    datastore_path: &[u8],
    log_text: Seq<char>,
    log_path: &[u8],
    config: Result<ApplicationConfig<N>, InterfaceError>,
)
    requires
        public_address@ == encode_utf8(address_text),
        datastore_path@ == encode_utf8(datastore_text),
        log_path@ == encode_utf8(log_text),
        multiaddr_of(address_text) is Ok,
        call_ensures(
            assemble::<N>,
            (Ok(network), Some(public_address), Some(datastore_path), Some(log_path)),
            config,
        ),
    ensures
        config is Ok,
        config->Ok_0.network == network,
        config->Ok_0.base_path@ == datastore_text,
        config->Ok_0.listener_address@ == multiaddr_of(address_text)->Ok_0,
        config->Ok_0.public_addresses@.len() == 1,
        config->Ok_0.public_addresses@[0]@ == multiaddr_of(address_text)->Ok_0,
        config->Ok_0.log_path matches Some(path) && path@ == log_text,
{
    encode_utf8_valid_utf8(address_text);
    encode_utf8_decode_utf8(address_text);
    encode_utf8_valid_utf8(datastore_text);
    encode_utf8_decode_utf8(datastore_text);
    encode_utf8_valid_utf8(log_text);
    encode_utf8_decode_utf8(log_text);
    lemma_one_address(config->Ok_0, multiaddr_of(address_text)->Ok_0);
}

/// Of the arguments that stand in the way of a configuration the first is told, in the order network,
/// datastore path, public address, log path. Null is an error of its own.
pub proof fn law_first_bad_argument_is_told<N>(
    network: Result<N, InterfaceError>,
    address_text: Seq<char>,
    public_address: Option<&[u8]>,
    datastore_path: Option<&[u8]>,
    log_path: Option<&[u8]>,
    config: Result<ApplicationConfig<N>, InterfaceError>,
)
    requires
        call_ensures(assemble::<N>, (network, public_address, datastore_path, log_path), config),
    ensures
        network matches Err(InterfaceError::NullError(w)) ==> (config matches Err(
            InterfaceError::NullError(v),
        ) && v@ == w@),
        network matches Err(InterfaceError::InvalidArgument(w)) ==> (config matches Err(
            InterfaceError::InvalidArgument(v),
        ) && v@ == w@),
        network matches Err(InterfaceError::TokioError(w)) ==> (config matches Err(
            InterfaceError::TokioError(v),
        ) && v@ == w@),
        network is Ok && datastore_path is None ==> (config matches Err(InterfaceError::NullError(v)) && v@
            == "datastore_path"@),
        network is Ok && datastore_path is Some && !valid_utf8(datastore_path->0@) ==> (config matches Err(
            InterfaceError::InvalidArgument(v),
        ) && v@ == "datastore_path"@),
        network is Ok && datastore_path is Some && valid_utf8(datastore_path->0@) ==> {
            &&& public_address is None ==> (config matches Err(InterfaceError::NullError(v)) && v@
                == "public_address"@)
            &&& public_address is Some && !valid_utf8(public_address->0@) ==> (config matches Err(
                InterfaceError::InvalidArgument(v),
            ) && v@ == "public_address"@)
            &&& public_address is Some && public_address->0@ == encode_utf8(address_text) ==> {
                &&& multiaddr_of(address_text) matches Err(e) ==> (config matches Err(
                    InterfaceError::InvalidArgument(v),
                ) && v@ == e)
                &&& multiaddr_of(address_text) is Ok && log_path is None ==> (config matches Err(
                    InterfaceError::NullError(v),
                ) && v@ == "log_path"@)
                &&& multiaddr_of(address_text) is Ok && log_path is Some && !valid_utf8(log_path->0@) ==> (
                config matches Err(InterfaceError::InvalidArgument(v)) && v@ == "log_path"@)
            }
        },
{
    encode_utf8_valid_utf8(address_text);
    encode_utf8_decode_utf8(address_text);
}

/// A configuration holds what its arguments say, each text as it was written: the network that the
/// parser reads, the address both to listen on and as the only one to be known under, the log path
/// and the base path.
pub proof fn law_config_holds_its_arguments<N, F: Fn(&str) -> Result<N, String>>(
    network: N,
    network_text: Seq<char>,
    network_str: &[u8],
    address_text: Seq<char>,
    public_address: &[u8],
    datastore_text: Seq<char>,
    datastore_path: &[u8],
    log_text: Seq<char>,
    log_path: &[u8],
    parse: F,
    slot: &mut i32,
    codes: &ErrorCodes,
    config: Option<ApplicationConfig<N>>,
)
    requires
        network_str@ == encode_utf8(network_text),
        public_address@ == encode_utf8(address_text),
        datastore_path@ == encode_utf8(datastore_text),
        log_path@ == encode_utf8(log_text),
        forall|s: &str, parsed: Result<N, String>|
            s@ == network_text && #[trigger] call_ensures(parse, (s,), parsed) ==> parsed == Ok::<N, String>(
                network,
            ),
        multiaddr_of(address_text) is Ok,
        call_ensures(
            create_chat_config::<N, F>,
            (
                Some(network_str),
                Some(public_address),
                Some(datastore_path),
                Some(log_path),
                parse,
                slot,
                codes,
            ),
            config,
        ),
    ensures
        config is Some,
        config->0.network == network,
        config->0.base_path@ == datastore_text,
        config->0.listener_address@ == multiaddr_of(address_text)->Ok_0,
        config->0.public_addresses@.len() == 1,
        config->0.public_addresses@[0]@ == multiaddr_of(address_text)->Ok_0,
        config->0.log_path matches Some(path) && path@ == log_text,
        *final(slot) == 0,
{
    encode_utf8_valid_utf8(network_text);
    encode_utf8_decode_utf8(network_text);
    encode_utf8_valid_utf8(address_text);
    encode_utf8_decode_utf8(address_text);
    encode_utf8_valid_utf8(datastore_text);
    encode_utf8_decode_utf8(datastore_text);
    encode_utf8_valid_utf8(log_text);
    encode_utf8_decode_utf8(log_text);
    lemma_one_address(config->0, multiaddr_of(address_text)->Ok_0);
}

/// No configuration comes of a network that is missing, is no text or is refused by the parser, and
/// the slot then tells an invalid argument, whatever the other arguments.
pub proof fn law_bad_network_makes_no_config<N, F: Fn(&str) -> Result<N, String>>(
    network_text: Seq<char>,
    network_str: Option<&[u8]>,
    public_address: Option<&[u8]>,
    datastore_path: Option<&[u8]>,
    log_path: Option<&[u8]>,
    parse: F,
    slot: &mut i32,
    codes: &ErrorCodes,
    config: Option<ApplicationConfig<N>>,
)
    requires
        call_ensures(
            create_chat_config::<N, F>,
            (network_str, public_address, datastore_path, log_path, parse, slot, codes),
            config,
        ),
        network_str is None || !valid_utf8(network_str->0@) || (network_str->0@ == encode_utf8(network_text)
            && forall|s: &str, parsed: Result<N, String>|
            s@ == network_text && #[trigger] call_ensures(parse, (s,), parsed) ==> parsed is Err),
    ensures
        config is None,
        *final(slot) == codes.invalid_argument,
{
    encode_utf8_valid_utf8(network_text);
    encode_utf8_decode_utf8(network_text);
}

/// With a network that the parser reads, the first other argument that stands in the way of a
/// configuration decides the code, in the order datastore path, public address, log path.
pub proof fn law_first_bad_argument_decides<N, F: Fn(&str) -> Result<N, String>>(
    network_text: Seq<char>,
    network_str: &[u8],
    address_text: Seq<char>,
    public_address: Option<&[u8]>,
    datastore_path: Option<&[u8]>,
    log_path: Option<&[u8]>,
    parse: F,
    slot: &mut i32,
    codes: &ErrorCodes,
    config: Option<ApplicationConfig<N>>,
)
    requires
        network_str@ == encode_utf8(network_text),
        forall|s: &str, parsed: Result<N, String>|
            s@ == network_text && #[trigger] call_ensures(parse, (s,), parsed) ==> parsed is Ok,
        call_ensures(
            create_chat_config::<N, F>,
            (Some(network_str), public_address, datastore_path, log_path, parse, slot, codes),
            config,
        ),
    ensures
        datastore_path is None ==> config is None && *final(slot) == codes.null_error,
        datastore_path is Some && !valid_utf8(datastore_path->0@) ==> config is None && *final(slot)
            == codes.invalid_argument,
        datastore_path is Some && valid_utf8(datastore_path->0@) ==> {
            &&& public_address is None ==> config is None && *final(slot) == codes.null_error
            &&& public_address is Some && !valid_utf8(public_address->0@) ==> config is None && *final(slot)
                == codes.invalid_argument
            &&& public_address is Some && public_address->0@ == encode_utf8(address_text) ==> {
                &&& multiaddr_of(address_text) is Err ==> config is None && *final(slot)
                    == codes.invalid_argument
                &&& multiaddr_of(address_text) is Ok && log_path is None ==> config is None && *final(slot)
                    == codes.null_error
                &&& multiaddr_of(address_text) is Ok && log_path is Some && !valid_utf8(log_path->0@)
                    ==> config is None && *final(slot) == codes.invalid_argument
            }
        },
{
    encode_utf8_valid_utf8(network_text);
    encode_utf8_decode_utf8(network_text);
    encode_utf8_valid_utf8(address_text);
    encode_utf8_decode_utf8(address_text);
}

/// Whatever the parser does, a configuration that is handed out has a network that the parser may
/// read from the text, and the slot is cleared.
pub proof fn law_network_comes_from_the_parser<N, F: Fn(&str) -> Result<N, String>>(
    network_text: Seq<char>,
    network_str: &[u8],
    public_address: Option<&[u8]>,
    datastore_path: Option<&[u8]>,
    log_path: Option<&[u8]>,
    parse: F,
    slot: &mut i32,
    codes: &ErrorCodes,
    config: Option<ApplicationConfig<N>>,
)
    requires
        network_str@ == encode_utf8(network_text),
        call_ensures(
            create_chat_config::<N, F>,
            (Some(network_str), public_address, datastore_path, log_path, parse, slot, codes),
            config,
        ),
        config is Some,
    ensures
        exists|s: &str, parsed: Result<N, String>|
            s@ == network_text && #[trigger] call_ensures(parse, (s,), parsed) && parsed == Ok::<N, String>(
                config->0.network,
            ),
        *final(slot) == 0,
{
    encode_utf8_valid_utf8(network_text);
    encode_utf8_decode_utf8(network_text);
}

/// A contact is added through the client and under the address that were given, and only if both are
/// there.
pub proof fn law_contact_is_added_through_the_handles<C, A>(
    client: Option<&C>,
    receiver: Option<&A>,
    slot: &mut i32,
    codes: &ErrorCodes,
    request: Option<(&C, &A)>,
)
    requires
        call_ensures(add_contact::<C, A>, (client, receiver, slot, codes), request),
    ensures
        client is Some && receiver is Some ==> request == Some((client->0, receiver->0)) && *final(slot) == 0,
        client is None || receiver is None ==> request is None && *final(slot) == codes.null_error,
{
}

/// A status is asked for through the client and of the address that were given, and only if both are
/// there.
pub proof fn law_status_is_asked_through_the_handles<C, A>(
    client: Option<&C>,
    receiver: Option<&A>,
    slot: &mut i32,
    codes: &ErrorCodes,
    request: Option<(&C, &A)>,
)
    requires
        call_ensures(check_online_status::<C, A>, (client, receiver, slot, codes), request),
    ensures
        client is Some && receiver is Some ==> request == Some((client->0, receiver->0)) && *final(slot) == 0,
        client is None || receiver is None ==> request is None && *final(slot) == codes.null_error,
{
}

/// C learns the number of a status as it is.
pub proof fn law_status_number_is_kept(status: u8, code: i32)
    requires
        call_ensures(online_status_code, (status,), code),
    ensures
        code as int == status as int,
{
}

/// A message goes out as it was written, through the client and to the receiver that were given. It
/// does not go out, and is reported, if one of them is missing or if it is no text; the latter is
/// what the slot tells if both are the case.
pub proof fn law_message_goes_out_as_written<C, A>(
    client: Option<&C>,
    receiver: Option<&A>,
    text: Seq<char>,
    message: &[u8],
    slot: &mut i32,
    codes: &ErrorCodes,
    request: Option<SendRequest<C, A>>,
)
    requires
        call_ensures(send_message::<C, A>, (client, receiver, message, slot, codes), request),
    ensures
        message@ == encode_utf8(text) && client is Some && receiver is Some ==> {
            &&& request is Some
            &&& request->0.client == client->0
            &&& request->0.receiver == receiver->0
            &&& request->0.message@ == text
            &&& *final(slot) == 0
        },
        valid_utf8(message@) && (client is None || receiver is None) ==> request is None && *final(slot)
            == codes.null_error,
        !valid_utf8(message@) ==> request is None && *final(slot) == codes.invalid_argument,
{
    encode_utf8_valid_utf8(text);
    encode_utf8_decode_utf8(text);
}

/// Messages are asked for through the client and of the address that were given, as many as the
/// caller wants up to 2500 and from the page that the caller wants. A negative number wants 35
/// messages, or the first page. Nothing is asked for if a handle is missing.
pub proof fn law_messages_are_asked_for_as_wanted<C, A>(
    client: Option<&C>,
    address: Option<&A>,
    limit: i32,
    page: i32,
    slot: &mut i32,
    codes: &ErrorCodes,
    query: Option<MessageQuery<C, A>>,
)
    requires
        call_ensures(get_messages::<C, A>, (client, address, limit, page, slot, codes), query),
    ensures
        client is Some && address is Some ==> {
            &&& query is Some
            &&& query->0.client == client->0
            &&& query->0.address == address->0
            &&& limit < 0 ==> query->0.limit == 35
            &&& 0 <= limit <= 2500 ==> query->0.limit == limit
            &&& limit > 2500 ==> query->0.limit == 2500
            &&& page < 0 ==> query->0.page == 0
            &&& page >= 0 ==> query->0.page == page
            &&& *final(slot) == 0
        },
        client is None || address is None ==> query is None && *final(slot) == codes.null_error,
{
}

/// Whoever asks for more messages is never given a lower limit, and the page has no part in it.
pub proof fn law_wanting_more_gives_no_less<C, A>(
    client: &C,
    address: &A,
    less: i32,
    less_page: i32,
    less_slot: &mut i32,
    less_query: Option<MessageQuery<C, A>>,
    more: i32,
    more_page: i32,
    more_slot: &mut i32,
    more_query: Option<MessageQuery<C, A>>,
    codes: &ErrorCodes,
)
    requires
        0 <= less <= more,
        call_ensures(
            get_messages::<C, A>,
            (Some(client), Some(address), less, less_page, less_slot, codes),
            less_query,
        ),
        call_ensures(
            get_messages::<C, A>,
            (Some(client), Some(address), more, more_page, more_slot, codes),
            more_query,
        ),
    ensures
        less_query is Some && more_query is Some,
        less_query->0.limit <= more_query->0.limit,
{
}

/// All messages that a client gave are handed out, in their order.
pub proof fn law_every_message_is_handed_out<M>(retrieved: Vec<M>, messages: ChatMessages<M>)
    requires
        call_ensures(ChatMessages::<M>::gather, (retrieved,), messages),
    ensures
        messages.0@ == retrieved@,
{
}

/// Without a configuration there is no start, and the slot tells a null error.
pub proof fn law_no_start_without_a_config<'a, I, R, C>(
    identity_file_path: Option<&'a [u8]>,
    slot: &mut i32,
    codes: &ErrorCodes,
    answer: (StartupState<'a, I>, StartupAction<'a, I, R, C>),
)
    requires
        call_ensures(create_chat_client::<I, R, C>, (None, identity_file_path, slot, codes), answer),
    ensures
        answer.0 is Finished,
        answer.1 is GiveUp,
        *final(slot) == codes.null_error,
{
}

/// A configuration that names a log file has logging to that file set up first, with the path to the
/// identity kept for later.
pub proof fn law_log_file_is_set_up_first<'a, I, R, C>(
    config: &StartupConfig<'a>,
    identity_file_path: Option<&'a [u8]>,
    slot: &mut i32,
    codes: &ErrorCodes,
    answer: (StartupState<'a, I>, StartupAction<'a, I, R, C>),
)
    requires
        config.log_path is Some,
        call_ensures(create_chat_client::<I, R, C>, (Some(config), identity_file_path, slot, codes), answer),
    ensures
        answer.0 matches StartupState::Logging { identity_file_path: kept } && kept == identity_file_path,
        answer.1 matches StartupAction::InitLogging(path) && path@ == config.log_path->0@,
        *final(slot) == 0,
{
}

/// The identity is read from the file at the path that was given, as it was written: at once if the
/// configuration names no log file.
pub proof fn law_identity_is_read_from_the_given_path<'a, I, R, C>(
    text: Seq<char>,
    config: &StartupConfig<'a>,
    identity_file_path: &'a [u8],
    slot: &mut i32,
    codes: &ErrorCodes,
    answer: (StartupState<'a, I>, StartupAction<'a, I, R, C>),
)
    requires
        identity_file_path@ == encode_utf8(text),
        config.log_path is None,
        call_ensures(
            create_chat_client::<I, R, C>,
            (Some(config), Some(identity_file_path), slot, codes),
            answer,
        ),
    ensures
        answer.0 is Identity,
        answer.1 matches StartupAction::LoadIdentity(path) && path@ == text,
        *final(slot) == 0,
{
    encode_utf8_valid_utf8(text);
    encode_utf8_decode_utf8(text);
}

/// The identity is read from the file at the path that was given, as it was written: once logging is
/// set up, if the configuration names a log file. Whether the process logged before has no bearing.
pub proof fn law_identity_is_read_after_logging<'a, I, R, C>(
    text: Seq<char>,
    config: &StartupConfig<'a>,
    identity_file_path: &'a [u8],
    installed: bool,
    first_slot: &mut i32,
    codes: &ErrorCodes,
    first: (StartupState<'a, I>, StartupAction<'a, I, R, C>),
    second_slot: &mut i32,
    second: (StartupState<'a, I>, StartupAction<'a, I, R, C>),
)
    requires
        identity_file_path@ == encode_utf8(text),
        config.log_path is Some,
        call_ensures(
            create_chat_client::<I, R, C>,
            (Some(config), Some(identity_file_path), first_slot, codes),
            first,
        ),
        call_ensures(
            resume::<I, R, C>,
            (first.0, StartupEvent::LoggingReady { installed }, second_slot, codes),
            second,
        ),
    ensures
        second.0 is Identity,
        second.1 matches StartupAction::LoadIdentity(path) && path@ == text,
        *final(second_slot) == 0,
{
    encode_utf8_valid_utf8(text);
    encode_utf8_decode_utf8(text);
}

/// A path to the identity that is missing or is no text ends a start before anything is read, at once
/// or after logging was set up.
pub proof fn law_bad_identity_path_ends_a_start<'a, I, R, C>(
    config: &StartupConfig<'a>,
    identity_file_path: Option<&'a [u8]>,
    installed: bool,
    first_slot: &mut i32,
    codes: &ErrorCodes,
    first: (StartupState<'a, I>, StartupAction<'a, I, R, C>),
    second_slot: &mut i32,
    second: (StartupState<'a, I>, StartupAction<'a, I, R, C>),
)
    requires
        identity_file_path is None || !valid_utf8(identity_file_path->0@),
        call_ensures(
            create_chat_client::<I, R, C>,
            (Some(config), identity_file_path, first_slot, codes),
            first,
        ),
        config.log_path is Some ==> call_ensures(
            resume::<I, R, C>,
            (first.0, StartupEvent::LoggingReady { installed }, second_slot, codes),
            second,
        ),
    ensures
        ({
            let code = if identity_file_path is None {
                codes.null_error
            } else {
                codes.invalid_argument
            };
            &&& config.log_path is None ==> first.0 is Finished && first.1 is GiveUp && *final(first_slot)
                == code
            &&& config.log_path is Some ==> second.0 is Finished && second.1 is GiveUp && *final(second_slot)
                == code
        }),
{
}

/// A log file that cannot be used ends a start with an invalid argument.
pub proof fn law_failed_logging_ends_a_start<'a, I, R, C>(
    identity_file_path: Option<&'a [u8]>,
    why: String,
    slot: &mut i32,
    codes: &ErrorCodes,
    answer: (StartupState<'a, I>, StartupAction<'a, I, R, C>),
)
    requires
        call_ensures(
            resume::<I, R, C>,
            (StartupState::Logging { identity_file_path }, StartupEvent::LoggingFailed(why), slot, codes),
            answer,
        ),
    ensures
        answer.0 is Finished,
        answer.1 is GiveUp,
        *final(slot) == codes.invalid_argument,
{
}

/// An identity that was read is kept while the runtime is created. A file that holds none, or cannot
/// be read, ends a start with an invalid argument.
pub proof fn law_identity_is_kept_for_the_client<'a, I, R, C>(
    read: Result<Option<I>, String>,
    slot: &mut i32,
    codes: &ErrorCodes,
    answer: (StartupState<'a, I>, StartupAction<'a, I, R, C>),
)
    requires
        call_ensures(
            resume::<I, R, C>,
            (StartupState::Identity, StartupEvent::IdentityRead(read), slot, codes),
            answer,
        ),
    ensures
        read matches Ok(Some(identity)) ==> {
            &&& answer.0 matches StartupState::Runtime { identity: kept }
            &&& kept == identity
            &&& answer.1 is CreateRuntime
            &&& *final(slot) == 0
        },
        read matches Ok(None) ==> answer.0 is Finished && answer.1 is GiveUp && *final(slot)
            == codes.invalid_argument,
        read is Err ==> answer.0 is Finished && answer.1 is GiveUp && *final(slot) == codes.invalid_argument,
{
}

/// The client is started with the identity that was read, on the runtime that was created. Without a
/// runtime the start ends with a runtime error.
pub proof fn law_client_starts_on_the_runtime<'a, I, R, C>(
    identity: I,
    created: Result<R, String>,
    slot: &mut i32,
    codes: &ErrorCodes,
    answer: (StartupState<'a, I>, StartupAction<'a, I, R, C>),
)
    requires
        call_ensures(
            resume::<I, R, C>,
            (StartupState::Runtime { identity }, StartupEvent::RuntimeCreated(created), slot, codes),
            answer,
        ),
    ensures
        created matches Ok(runtime) ==> {
            &&& answer.0 is Client
            &&& answer.1 matches StartupAction::StartClient { identity: i, runtime: r }
            &&& i == identity
            &&& r == runtime
            &&& *final(slot) == 0
        },
        created is Err ==> answer.0 is Finished && answer.1 is GiveUp && *final(slot) == codes.tokio_error,
{
}

/// The client that came up is the one that is handed out. One that did not ends the start with a null
/// error.
pub proof fn law_started_client_is_handed_out<'a, I, R, C>(
    started: Result<C, String>,
    slot: &mut i32,
    codes: &ErrorCodes,
    answer: (StartupState<'a, I>, StartupAction<'a, I, R, C>),
)
    requires
        call_ensures(
            resume::<I, R, C>,
            (StartupState::Client, StartupEvent::ClientStarted(started), slot, codes),
            answer,
        ),
    ensures
        answer.0 is Finished,
        started matches Ok(client) ==> (answer.1 matches StartupAction::HandOut(c) && c == client)
            && *final(slot) == 0,
        started is Err ==> answer.1 is GiveUp && *final(slot) == codes.null_error,
{
}

/// A start can go on after every event that its state waits for.
pub proof fn law_awaited_events_are_taken<'a, I, R, C>(
    identity_file_path: Option<&'a [u8]>,
    identity: I,
    installed: bool,
    why: String,
    read: Result<Option<I>, String>,
    created: Result<R, String>,
    started: Result<C, String>,
    slot: &mut i32,
    codes: &ErrorCodes,
)
    ensures
        call_requires(
            resume::<I, R, C>,
            (
                StartupState::Logging { identity_file_path },
                StartupEvent::LoggingReady { installed },
                old(slot),
                codes,
            ),
        ),
        call_requires(
            resume::<I, R, C>,
            (
                StartupState::Logging { identity_file_path },
                StartupEvent::LoggingFailed(why),
                old(slot),
                codes,
            ),
        ),
        call_requires(
            resume::<I, R, C>,
            (StartupState::Identity, StartupEvent::IdentityRead(read), old(slot), codes),
        ),
        call_requires(
            resume::<I, R, C>,
            (StartupState::Runtime { identity }, StartupEvent::RuntimeCreated(created), old(slot), codes),
        ),
        call_requires(
            resume::<I, R, C>,
            (StartupState::Client, StartupEvent::ClientStarted(started), old(slot), codes),
        ),
{
}

/// The archive pattern of a path, from what the path is made of.
proof fn lemma_pattern_of(head: Seq<char>, tail: Seq<char>)
    ensures
        !tail.contains('.') ==> archive_pattern(head + "."@ + tail) == head + ".{}."@ + tail,
        !tail.contains('.') ==> archive_pattern(tail) == tail + "{}"@,
{
    reveal_strlit(".");
    if !tail.contains('.') {
        let path = head + "."@ + tail;
        let dot = head.len() as int;
        assert(path[dot] == '.');
        assert forall|i: int| dot < i < path.len() implies path[i] != '.' by {
            assert(path[i] == tail[i - dot - 1]);
            assert(tail.contains(tail[i - dot - 1]));
        }
        assert(last_dot(path, dot));
        lemma_last_dot_unique(path, dot, choose|d: int| last_dot(path, d));
        assert(path.contains('.'));
        assert(path.take(dot) =~= head);
        assert(path.skip(dot + 1) =~= tail);
    }
}

/// The marker of an archive pattern is a part of its own before what follows the last dot of the path,
/// and every other part of the path stays in its place.
pub proof fn law_marker_goes_before_the_last_part(
    head: Seq<char>,
    tail: Seq<char>,
    path: &str,
    pattern: String,
)
    requires
        path@ == head + "."@ + tail,
        !tail.contains('.'),
        call_ensures(pattern_for, (path,), pattern),
    ensures
        pattern@ == head + ".{}."@ + tail,
{
    lemma_pattern_of(head, tail);
}

/// The marker of an archive pattern comes last if the path has no dots.
pub proof fn law_marker_ends_a_path_without_dots(path: &str, pattern: String)
    requires
        !path@.contains('.'),
        call_ensures(pattern_for, (path,), pattern),
    ensures
        pattern@ == path@ + "{}"@,
{
    lemma_pattern_of(Seq::empty(), path@);
}

/// A log file that can be used is the one at the path that was given, as it was written. It is put
/// away above ten mebibytes, in one of two archives with the name of that path and an index before
/// what follows the last dot, or at the end. Lines are added in the client's format, and the slot is
/// cleared.
pub proof fn law_log_file_is_the_given_one(
    text: Seq<char>,
    head: Seq<char>,
    tail: Seq<char>,
    log_path: &[u8],
    slot: &mut i32,
    codes: &ErrorCodes,
    file: Result<LogFile, String>,
)
    requires
        log_path@ == encode_utf8(text),
        !tail.contains('.'),
        call_ensures(init_logging, (log_path, slot, codes), file),
        file is Ok,
    ensures
        file->Ok_0.path@ == text,
        text == head + "."@ + tail ==> file->Ok_0.policy == size_rolling_policy(
            10_485_760,
            head + ".{}."@ + tail,
            2,
        ),
        text == tail ==> file->Ok_0.policy == size_rolling_policy(10_485_760, tail + "{}"@, 2),
        file->Ok_0.builder == line_appender("{d(%Y-%m-%d %H:%M:%S.%f)} [{t}] {l:5} {m}{n}"@, true),
        *final(slot) == 0,
{
    encode_utf8_valid_utf8(text);
    encode_utf8_decode_utf8(text);
    lemma_pattern_of(head, tail);
}

/// A log file can be used unless its path ends in `.gz` with nothing but separators behind it.
pub proof fn law_plain_log_file_can_be_used(
    text: Seq<char>,
    log_path: &[u8],
    slot: &mut i32,
    codes: &ErrorCodes,
    file: Result<LogFile, String>,
)
    requires
        log_path@ == encode_utf8(text),
        forall|stem: Seq<char>, rest: Seq<char>|
            text == #[trigger] (stem + ".gz"@ + rest) ==> exists|i: int|
                0 <= i < rest.len() && #[trigger] rest[i] != '/' && rest[i] != '\\',
        call_ensures(init_logging, (log_path, slot, codes), file),
    ensures
        file is Ok,
        *final(slot) == 0,
{
    encode_utf8_valid_utf8(text);
    encode_utf8_decode_utf8(text);
    reveal_strlit(".gz");
    if may_be_compressed(text) {
        let end = choose|end: int| #[trigger]
            ends_at(text, end, ".gz"@) && forall|i: int|
                end <= i < text.len() ==> text[i] == '/' || text[i] == '\\';
        let stem = text.take(end - 3);
        let rest = text.skip(end);
        assert(text =~= stem + text.subrange(end - 3, end) + rest);
        assert(text == stem + ".gz"@ + rest);
        let i = choose|i: int| 0 <= i < rest.len() && #[trigger] rest[i] != '/' && rest[i] != '\\';
        assert(rest[i] == text[end + i]);
    }
}

/// A log file whose path ends in `.gz`, with or without slashes behind it, cannot be used, unless the
/// path begins with two separators. The slot then tells an invalid argument.
pub proof fn law_compressed_log_file_is_refused(
    stem: Seq<char>,
    slashes: Seq<char>,
    text: Seq<char>,
    log_path: &[u8],
    slot: &mut i32,
    codes: &ErrorCodes,
    file: Result<LogFile, String>,
)
    requires
        text == stem + ".gz"@ + slashes,
        forall|i: int| 0 <= i < slashes.len() ==> slashes[i] == '/',
        text[0] != '/' && text[0] != '\\' || text[1] != '/' && text[1] != '\\',
        log_path@ == encode_utf8(text),
        call_ensures(init_logging, (log_path, slot, codes), file),
    ensures
        file matches Err(why) && why@ == "gzip compression requires the `gzip` feature"@,
        *final(slot) == codes.invalid_argument,
{
    encode_utf8_valid_utf8(text);
    encode_utf8_decode_utf8(text);
    reveal_strlit(".gz");
    let end: int = stem.len() as int + 3;
    assert(text.subrange(end - 3, end) =~= ".gz"@);
    assert(ends_at(text, end, ".gz"@));
    assert forall|i: int| end <= i < text.len() implies text[i] == '/' by {
        assert(text[i] == slashes[i - end]);
    }
    assert(behind_slashes(text, ".gz"@));
}

/// A log path that is no text cannot be used. Whenever a log file cannot be used, the slot tells an
/// invalid argument.
pub proof fn law_unusable_log_file_is_told(
    log_path: &[u8],
    slot: &mut i32,
    codes: &ErrorCodes,
    file: Result<LogFile, String>,
)
    requires
        call_ensures(init_logging, (log_path, slot, codes), file),
    ensures
        !valid_utf8(log_path@) ==> (file matches Err(why) && why@ == utf8_refusal(log_path@)),
        file is Err ==> *final(slot) == codes.invalid_argument,
        file is Ok ==> *final(slot) == 0,
{
}

/// Eleven parts of the program have a logger of their own. Each of these, and the root for all other
/// parts, lets warnings pass to the open log file, and to nothing else.
pub proof fn law_every_part_logs_warnings_to_the_file(log_file: RollingFileAppender, config: Config, i: int)
    requires
        call_ensures(logging_config, (log_file,), config),
        0 <= i < 11,
    ensures
        config_appenders(config) == seq![("logfile"@, log_file)],
        config_root_appenders(config) == seq!["logfile"@],
        config_root_level(config) == Level::Warn,
        config_loggers(config).len() == 11,
        config_loggers(config)[i].level == Level::Warn,
        config_loggers(config)[i].appenders == seq!["logfile"@],
        !config_loggers(config)[i].additive,
        config_loggers(config)[0].name == "comms"@,
        config_loggers(config)[1].name == "comms::noise"@,
        config_loggers(config)[2].name == "tokio_util"@,
        config_loggers(config)[3].name == "tracing"@,
        config_loggers(config)[4].name == "chat_ffi::callback_handler"@,
        config_loggers(config)[5].name == "chat_ffi"@,
        config_loggers(config)[6].name == "contacts"@,
        config_loggers(config)[7].name == "p2p"@,
        config_loggers(config)[8].name == "yamux"@,
        config_loggers(config)[9].name == "dht"@,
        config_loggers(config)[10].name == "mio"@,
{
}

} // verus!
