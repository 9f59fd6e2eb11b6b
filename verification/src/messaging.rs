//! The calls on a running client: what is asked of it, and what the caller learns.
//!
//! A handle that C passes in may be null. A missing handle is reported, and nothing is asked of the
//! client then.

use crate::error::{outcome_view, report, ErrorCodes, ErrorView, InterfaceError};
use crate::text::{read_text, text_of};
use vstd::prelude::*;

verus! {

/// How many messages are fetched if the caller does not say.
pub const DEFAULT_MESSAGE_LIMIT: u64 = 35;

/// How many messages are fetched at most.
pub const MAX_MESSAGE_LIMIT: u64 = 2500;

/// Which page of messages is fetched if the caller does not say.
pub const DEFAULT_MESSAGE_PAGE: u64 = 0;

/// The two handles that every call on a client needs. If both are missing, the second is the one
/// reported.
pub open spec fn handles<C, A>(client: Option<C>, receiver: Option<A>) -> Result<(C, A), ErrorView> {
    match (client, receiver) {
        (Some(client), Some(receiver)) => Ok((client, receiver)),
        (_, None) => Err(ErrorView::NullError("receiver"@)),
        (None, Some(_)) => Err(ErrorView::NullError("client"@)),
    }
}

fn take_handles<'a, C, A>(client: Option<&'a C>, receiver: Option<&'a A>) -> (pair: Result<
    (&'a C, &'a A),
    InterfaceError,
>)
    ensures
        outcome_view(pair) == handles(client, receiver),
{
    match (client, receiver) {
        (Some(client), Some(receiver)) => Ok((client, receiver)),
        (_, None) => Err(InterfaceError::NullError("receiver".to_owned())),
        (None, Some(_)) => Err(InterfaceError::NullError("client".to_owned())),
    }
}

/// Decides on adding a contact: the client to ask and the address to add, if both are there.
pub fn add_contact<'a, C, A>(
    client: Option<&'a C>,
    receiver: Option<&'a A>,
    error_out: &mut i32,
    codes: &ErrorCodes,
) -> (request: Option<(&'a C, &'a A)>)
    ensures
        request == handles(client, receiver).ok(),
        *final(error_out) == codes.slot(handles(client, receiver)),
{
    report(take_handles(client, receiver), error_out, codes)
}

/// Decides on asking for the status of a contact: the client to ask and the address to ask about, if
/// both are there.
pub fn check_online_status<'a, C, A>(
    client: Option<&'a C>,
    receiver: Option<&'a A>,
    error_out: &mut i32,
    codes: &ErrorCodes,
) -> (request: Option<(&'a C, &'a A)>)
    ensures
        request == handles(client, receiver).ok(),
        *final(error_out) == codes.slot(handles(client, receiver)),
{
    report(take_handles(client, receiver), error_out, codes)
}

/// The number by which C knows a status.
pub fn online_status_code(status: u8) -> (code: i32)
    ensures
        code == status,
{
    status as i32
}

/// A message to send.
#[derive(Debug, PartialEq, Eq)]
pub struct SendRequest<'a, C, A> {
    pub client: &'a C,
    pub receiver: &'a A,
    pub message: String,
}

/// What sending comes to. A message that is no text outweighs a missing handle.
pub open spec fn sending<C, A>(client: Option<C>, receiver: Option<A>, message: Seq<u8>) -> Result<
    (C, A, Seq<char>),
    ErrorView,
> {
    match text_of(message) {
        Err(e) => Err(ErrorView::InvalidArgument(e)),
        Ok(text) => match handles(client, receiver) {
            Err(e) => Err(e),
            Ok((client, receiver)) => Ok((client, receiver, text)),
        },
    }
}

/// Decides on sending a message: who sends what to whom, if the handles are there and the message is
/// text.
pub fn send_message<'a, C, A>(
    client: Option<&'a C>,
    receiver: Option<&'a A>,
    message: &[u8],
    error_out: &mut i32,
    codes: &ErrorCodes,
) -> (request: Option<SendRequest<'a, C, A>>)
    ensures
        *final(error_out) == codes.slot(sending(client, receiver, message@)),
        request is Some <==> sending(client, receiver, message@) is Ok,
        request matches Some(r) ==> sending(client, receiver, message@) == Ok::<_, ErrorView>(
            (r.client, r.receiver, r.message@),
        ),
{
    let pair = report(take_handles(client, receiver), error_out, codes);
    let message = match read_text(message) {
        Ok(text) => text.to_owned(),
        Err(e) => {
            let refusal: Result<(), InterfaceError> = Err(InterfaceError::InvalidArgument(e));
            report(refusal, error_out, codes);
            return None;
        },
    };
    match pair {
        Some((client, receiver)) => Some(SendRequest { client, receiver, message }),
        None => None,
    }
}

/// Messages to fetch.
#[derive(Debug, PartialEq, Eq)]
pub struct MessageQuery<'a, C, A> {
    pub client: &'a C,
    pub address: &'a A,
    pub limit: u64,
    pub page: u64,
}

/// The number of messages that a caller's limit stands for. A negative one stands for the default.
pub open spec fn message_limit(limit: i32) -> u64 {
    if limit < 0 {
        DEFAULT_MESSAGE_LIMIT
    } else if limit > MAX_MESSAGE_LIMIT {
        MAX_MESSAGE_LIMIT
    } else {
        limit as u64
    }
}

/// The page that a caller's number stands for. A negative one stands for the default.
pub open spec fn message_page(page: i32) -> u64 {
    if page < 0 {
        DEFAULT_MESSAGE_PAGE
    } else {
        page as u64
    }
}

/// Decides on fetching messages: which ones to ask for, if the handles are there.
pub fn get_messages<'a, C, A>(
    client: Option<&'a C>,
    address: Option<&'a A>,
    limit: i32,
    page: i32,
    error_out: &mut i32,
    codes: &ErrorCodes,
) -> (query: Option<MessageQuery<'a, C, A>>)
    ensures
        *final(error_out) == codes.slot(handles(client, address)),
        query is Some <==> handles(client, address) is Ok,
        query matches Some(q) ==> {
            &&& handles(client, address) == Ok::<_, ErrorView>((q.client, q.address))
            &&& q.limit == message_limit(limit)
            &&& q.page == message_page(page)
        },
{
    let limit: u64 = if limit < 0 {
        DEFAULT_MESSAGE_LIMIT
    } else if limit as u64 > MAX_MESSAGE_LIMIT {
        MAX_MESSAGE_LIMIT
    } else {
        limit as u64
    };
    let page: u64 = if page < 0 {
        DEFAULT_MESSAGE_PAGE
    } else {
        page as u64
    };
    match report(take_handles(client, address), error_out, codes) {
        Some((client, address)) => Some(MessageQuery { client, address, limit, page }),
        None => None,
    }
}

/// Messages handed out to C.
#[derive(Debug, Clone, PartialEq, Eq)]
pub struct ChatMessages<M>(pub Vec<M>);

impl<M> View for ChatMessages<M> {
    type V = Seq<M>;

    open spec fn view(&self) -> Seq<M> {
        self.0@
    }
}

impl<M> ChatMessages<M> {
    /// Gathers the messages that a client gave, in their order.
    pub fn gather(retrieved: Vec<M>) -> (messages: ChatMessages<M>)
        ensures
            messages@ == retrieved@,
    {
        ChatMessages(retrieved)
    }
}

} // verus!
