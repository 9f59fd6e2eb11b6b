//! The configuration of a chat client, put together from C strings.

use crate::address::{multiaddr_of, parse_multiaddr};
use crate::error::{outcome_view, report, ErrorCodes, ErrorView, InterfaceError};
use crate::text::{accept, accepted, parses_to, read_text, text_of};
use vstd::prelude::*;

verus! {

/// What a caller sets of a client's configuration. Everything else keeps its default.
#[derive(Debug, PartialEq, Eq)]
pub struct ApplicationConfig<N> {
    /// The network to run on.
    pub network: N,
    /// The address on which the node listens, in binary form.
    pub listener_address: Vec<u8>,
    /// The addresses under which the node makes itself known, in binary form.
    pub public_addresses: Vec<Vec<u8>>,
    /// Where to log.
    pub log_path: Option<String>,
    /// The directory that relative paths of the configuration start from.
    pub base_path: String,
}

/// The mathematical content of an [`ApplicationConfig`].
#[verifier::ext_equal]
pub struct ConfigView<N> {
    pub network: N,
    pub listener_address: Seq<u8>,
    pub public_addresses: Seq<Seq<u8>>,
    pub log_path: Option<Seq<char>>,
    pub base_path: Seq<char>,
}

impl<N> View for ApplicationConfig<N> {
    type V = ConfigView<N>;

    open spec fn view(&self) -> ConfigView<N> {
        ConfigView {
            network: self.network,
            listener_address: self.listener_address@,
            public_addresses: self.public_addresses@.map_values(|a: Vec<u8>| a@),
            log_path: match self.log_path {
                Some(path) => Some(path@),
                None => None,
            },
            base_path: self.base_path@,
        }
    }
}

/// The content of a configuration, or of the error that stands in its place.
pub open spec fn config_view<N>(outcome: Result<ApplicationConfig<N>, InterfaceError>) -> Result<
    ConfigView<N>,
    ErrorView,
> {
    match outcome {
        Ok(config) => Ok(config@),
        Err(error) => Err(error@),
    }
}

/// A required text argument called `name`: null and unreadable bytes are errors of their own.
pub open spec fn required_text(bytes: Option<Seq<u8>>, name: Seq<char>) -> Result<
    Seq<char>,
    ErrorView,
> {
    match bytes {
        None => Err(ErrorView::NullError(name)),
        Some(bytes) => match text_of(bytes) {
            Ok(text) => Ok(text),
            Err(_) => Err(ErrorView::InvalidArgument(name)),
        },
    }
}

/// The bytes that an argument points at, if it is not null.
pub open spec fn pointee(bytes: Option<&[u8]>) -> Option<Seq<u8>> {
    match bytes {
        Some(bytes) => Some(bytes@),
        None => None,
    }
}

fn read_required(bytes: Option<&[u8]>, name: &str) -> (text: Result<String, InterfaceError>)
    ensures
        match text {
            Ok(text) => required_text(pointee(bytes), name@) == Ok::<Seq<char>, ErrorView>(text@),
            Err(e) => required_text(pointee(bytes), name@) == Err::<Seq<char>, ErrorView>(e@),
        },
{
    match bytes {
        None => Err(InterfaceError::NullError(name.to_owned())),
        Some(bytes) => match read_text(bytes) {
            Ok(text) => Ok(text.to_owned()),
            Err(_) => Err(InterfaceError::InvalidArgument(name.to_owned())),
        },
    }
}

/// `network` is a network that `parse` may read from the argument, or the error that the argument
/// comes to.
pub open spec fn network_read<N, F: Fn(&str) -> Result<N, String>>(
    network_str: Option<Seq<u8>>,
    parse: F,
    network: Result<N, ErrorView>,
) -> bool {
    match network_str {
        None => network == Err::<N, ErrorView>(ErrorView::InvalidArgument("network is missing"@)),
        Some(bytes) => match text_of(bytes) {
            Ok(_) => exists|parsed: Result<N, String>| #[trigger]
                parses_to(parse, bytes, parsed) && network == accepted(parsed),
            Err(e) => network == Err::<N, ErrorView>(ErrorView::InvalidArgument(e)),
        },
    }
}

/// Reads the network to run on from the bytes of a C string. A missing argument counts as an invalid
/// one.
pub fn read_network<N, F: Fn(&str) -> Result<N, String>>(
    network_str: Option<&[u8]>,
    parse: F,
) -> (network: Result<N, InterfaceError>)
    requires
        forall|text: &str| call_requires(parse, (text,)),
    ensures
        network_read(pointee(network_str), parse, outcome_view(network)),
{
    match network_str {
        None => Err(InterfaceError::InvalidArgument("network is missing".to_owned())),
        Some(bytes) => match read_text(bytes) {
            Ok(text) => {
                let parsed = parse(text);
                assert(parses_to(parse, bytes@, parsed));
                accept(parsed)
            },
            Err(e) => Err(InterfaceError::InvalidArgument(e)),
        },
    }
}

/// What the arguments come to once the address has been parsed: the rest of the configuration, or
/// else the error of the address, or else that of the log path.
pub open spec fn finished<N>(
    network: N,
    base_path: Seq<char>,
    address: Result<Seq<u8>, Seq<char>>,
    log_path: Option<Seq<u8>>,
) -> Result<ConfigView<N>, ErrorView> {
    match address {
        Err(e) => Err(ErrorView::InvalidArgument(e)),
        Ok(address) => match required_text(log_path, "log_path"@) {
            Err(e) => Err(e),
            Ok(log_path) => Ok(
                ConfigView {
                    network,
                    listener_address: address,
                    public_addresses: seq![address],
                    log_path: Some(log_path),
                    base_path,
                },
            ),
        },
    }
}

/// The content of what an address parser gave.
pub open spec fn address_view(address: Result<Vec<u8>, String>) -> Result<Seq<u8>, Seq<char>> {
    match address {
        Ok(bytes) => Ok(bytes@),
        Err(e) => Err(e@),
    }
}

/// Puts a configuration together once the address has been parsed.
pub fn finish<N>(
    network: N,
    base_path: String,
    address: Result<Vec<u8>, String>,
    log_path: Option<&[u8]>,
) -> (config: Result<ApplicationConfig<N>, InterfaceError>)
    ensures
        config_view(config) == finished(
            network,
            base_path@,
            address_view(address),
            pointee(log_path),
        ),
{
    let address = match address {
        Ok(address) => address,
        Err(e) => return Err(InterfaceError::InvalidArgument(e)),
    };
    let log_path = read_required(log_path, "log_path")?;
    let config = ApplicationConfig {
        network,
        listener_address: address.clone(),
        public_addresses: vec![address],
        log_path: Some(log_path),
        base_path,
    };
    assert(config@.public_addresses =~= seq![address@]);
    assert(config@.listener_address =~= address@);
    Ok(config)
}

/// The configuration that the arguments come to, or else the first error among them, in the order
/// network, datastore path, public address, log path.
pub open spec fn assembled<N>(
    network: Result<N, ErrorView>,
    public_address: Option<Seq<u8>>,
    datastore_path: Option<Seq<u8>>,
    log_path: Option<Seq<u8>>,
) -> Result<ConfigView<N>, ErrorView> {
    match network {
        Err(e) => Err(e),
        Ok(network) => match required_text(datastore_path, "datastore_path"@) {
            Err(e) => Err(e),
            Ok(base_path) => match required_text(public_address, "public_address"@) {
                Err(e) => Err(e),
                Ok(address_text) => finished(network, base_path, multiaddr_of(address_text), log_path),
            },
        },
    }
}

/// Puts a configuration together once the network has been read.
pub fn assemble<N>(
    network: Result<N, InterfaceError>,
    public_address: Option<&[u8]>,
    datastore_path: Option<&[u8]>,
    log_path: Option<&[u8]>,
) -> (config: Result<ApplicationConfig<N>, InterfaceError>)
    ensures
        config_view(config) == assembled(
            outcome_view(network),
            pointee(public_address),
            pointee(datastore_path),
            pointee(log_path),
        ),
{
    let network = network?;
    let base_path = read_required(datastore_path, "datastore_path")?;
    let address_text = read_required(public_address, "public_address")?;
    let address = parse_multiaddr(address_text.as_str());
    finish(network, base_path, address, log_path)
}

/// The content of a configuration, if there is one.
pub open spec fn made_view<N>(config: Option<ApplicationConfig<N>>) -> Option<ConfigView<N>> {
    match config {
        Some(config) => Some(config@),
        None => None,
    }
}

/// `made` and `slot` are what may come of making a configuration from the arguments.
pub open spec fn config_made<N, F: Fn(&str) -> Result<N, String>>(
    network_str: Option<Seq<u8>>,
    public_address: Option<Seq<u8>>,
    datastore_path: Option<Seq<u8>>,
    log_path: Option<Seq<u8>>,
    parse_network: F,
    codes: ErrorCodes,
    made: Option<ConfigView<N>>,
    slot: i32,
) -> bool {
    exists|network: Result<N, ErrorView>| #[trigger]
        network_read(network_str, parse_network, network) && {
            let outcome = assembled(network, public_address, datastore_path, log_path);
            made == outcome.ok() && slot == codes.slot(outcome)
        }
}

/// Makes the configuration of a chat client from C strings.
///
/// The arguments are looked at in the order network, datastore path, public address, log path, and
/// the first that is missing or unusable decides the error.
pub fn create_chat_config<N, F: Fn(&str) -> Result<N, String>>(
    network_str: Option<&[u8]>,
    public_address: Option<&[u8]>,
    datastore_path: Option<&[u8]>,
    log_path: Option<&[u8]>,
    parse_network: F,
    error_out: &mut i32,
    codes: &ErrorCodes,
) -> (config: Option<ApplicationConfig<N>>)
    requires
        forall|text: &str| call_requires(parse_network, (text,)),
    ensures
        config_made(
            pointee(network_str),
            pointee(public_address),
            pointee(datastore_path),
            pointee(log_path),
            parse_network,
            *codes,
            made_view(config),
            *final(error_out),
        ),
{
    let network = read_network(network_str, parse_network);
    let outcome = assemble(network, public_address, datastore_path, log_path);
    report(outcome, error_out, codes)
}

} // verus!
