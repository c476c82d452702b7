use vstd::prelude::*;
use crate::error::Error;
use crate::opts::{hello_of, ClientHello, ClientOpts, ControlMessage, ServerHello};

verus! {

/// What a side does on the data connection.
#[derive(Clone, Copy, Debug, PartialEq, Eq, Structural)]
pub enum DataRole {
    /// it writes for the time of the measurement
    Sender,
    /// it reads until the other side closes the connection
    Receiver,
}

/// The client's role: it sends, unless the measurement is reversed.
pub open spec fn client_role_of(reversed: bool) -> DataRole {
    if reversed { DataRole::Receiver } else { DataRole::Sender }
}

/// The server's role: it receives, unless the measurement is reversed.
pub open spec fn server_role_of(reversed: bool) -> DataRole {
    if reversed { DataRole::Sender } else { DataRole::Receiver }
}

/// The hello that a server accepts from a control message: only a client's
/// hello is.
pub open spec fn accepted_client_hello(control: ControlMessage) -> Option<ClientHello> {
    match control {
        ControlMessage::ClientHello(hello) => Some(hello),
        _ => None,
    }
}

/// The answer that a client accepts from a control message: only a
/// server's hello is.
pub open spec fn accepted_server_hello(control: ControlMessage) -> Option<ServerHello> {
    match control {
        ControlMessage::ServerHello(hello) => Some(hello),
        _ => None,
    }
}

/// The error for a control message that the protocol does not allow.
pub open spec fn is_unexpected_message(e: Error) -> bool {
    e matches Error::Protocol(m) && m@ == "unexpected control message"@
}

/// The client's role on the data connection.
pub fn client_role(reversed: bool) -> (r: DataRole)
    ensures
        r == client_role_of(reversed),
{
    if reversed { DataRole::Receiver } else { DataRole::Sender }
}

/// The server's role on the data connection, for the client's hello.
pub fn server_role(hello: &ClientHello) -> (r: DataRole)
    ensures
        r == server_role_of(hello.reversed),
{
    if hello.reversed { DataRole::Sender } else { DataRole::Receiver }
}

/// The server's first step on a new control connection: the message must be
/// the client's hello.
pub fn expect_client_hello(control: ControlMessage) -> (r: Result<ClientHello, Error>)
    ensures
        match accepted_client_hello(control) {
            Some(hello) => r matches Ok(h) && h == hello,
            None => r matches Err(e) && is_unexpected_message(e),
        },
{
    match control {
        ControlMessage::ClientHello(hello) => Ok(hello),
        _ => Err(Error::Protocol("unexpected control message")),
    }
}

/// The client's step after its hello: the answer must be the server's
/// hello, which names the port of the data connection.
pub fn expect_server_hello(control: ControlMessage) -> (r: Result<ServerHello, Error>)
    ensures
        match accepted_server_hello(control) {
            Some(hello) => r matches Ok(h) && h == hello,
            None => r matches Err(e) && is_unexpected_message(e),
        },
{
    match control {
        ControlMessage::ServerHello(hello) => Ok(hello),
        _ => Err(Error::Protocol("unexpected control message")),
    }
}

/// The two ends of a measurement never play the same part: the server
/// accepts the hello that the client builds from its options, and then
/// exactly one of them sends while the other receives.
pub proof fn law_roles_are_opposite(opts: &ClientOpts)
    ensures
        accepted_client_hello(ControlMessage::ClientHello(hello_of(opts))) == Some(hello_of(opts)),
        client_role_of(opts.reversed) != server_role_of(hello_of(opts).reversed),
        client_role_of(opts.reversed) == DataRole::Sender
            || server_role_of(hello_of(opts).reversed) == DataRole::Sender,
{
}

/// Each side accepts exactly the hello the other sends: a server's answer
/// is never taken for a client's hello, nor the other way round.
pub proof fn law_hellos_are_told_apart(c: ClientHello, s: ServerHello)
    ensures
        accepted_client_hello(ControlMessage::ClientHello(c)) == Some(c),
        accepted_client_hello(ControlMessage::ServerHello(s)) is None,
        accepted_server_hello(ControlMessage::ServerHello(s)) == Some(s),
        accepted_server_hello(ControlMessage::ClientHello(c)) is None,
{
}

} // verus!
