//! The connection to a probe-rs server.
use vstd::prelude::*;

use crate::ops::{AttachRequest, ClientOp};
use crate::rejection::{error, plain_rejection, Rejection, RejectionView};
use crate::session::ProbeWebSession;
use crate::stlink::{names_interface_failure, open_failure, open_failure_kind, STLINK_VID};

verus! {

/// The status code with which a WebSocket is closed: normal closure.
pub const NORMAL_CLOSURE: u16 = 1000;

/// Endpoint and topic paths that this client knows but the server does not implement.
#[derive(Debug, PartialEq, Eq)]
pub struct Capabilities {
    pub unsupported_endpoints: Vec<String>,
    pub unsupported_topics: Vec<String>,
}

/// A socket to close, and the code to close it with.
#[derive(Debug, PartialEq, Eq)]
pub struct SocketClose<S> {
    pub socket: S,
    pub code: u16,
}

/// What is to be closed for a connection that holds `socket`.
pub open spec fn closing<S>(socket: Option<S>) -> Option<SocketClose<S>> {
    match socket {
        Some(socket) => Some(SocketClose { socket, code: NORMAL_CLOSURE }),
        None => None,
    }
}

/// A connection: over the WebSocket `S` to a native server, or to a worker that runs
/// the server in the browser.
///
/// The socket must be closed explicitly, by [`ProbeWebClient::close`]: dropping the
/// handle alone leaves it open, and with it the server's session and probe.
pub struct ProbeWebClient<S> {
    local: bool,
    caps: Capabilities,
    socket: Option<S>,
}

impl<S> ProbeWebClient<S> {
    /// Whether the server runs in the browser.
    pub closed spec fn local(self) -> bool {
        self.local
    }

    /// What the server reported on connecting.
    pub closed spec fn caps(self) -> Capabilities {
        self.caps
    }

    /// The socket that is still to be closed.
    pub closed spec fn socket(self) -> Option<S> {
        self.socket
    }

    /// An in-browser connection has no socket.
    pub open spec fn well_formed(self) -> bool {
        self.local() ==> self.socket() is None
    }

    /// Closing this client gives out `to_close` and leaves `after`.
    pub open spec fn closes(self, to_close: Option<SocketClose<S>>, after: Self) -> bool {
        &&& to_close == closing(self.socket())
        &&& after.socket() is None
        &&& after.local() == self.local()
        &&& after.caps() == self.caps()
    }

    /// The client of a native server, once its WebSocket was opened; a failure to open
    /// it is handed on.
    pub fn connect_web_socket(opened: Result<(Capabilities, S), Rejection>) -> (client: Result<
        Self,
        Rejection,
    >)
        ensures
            match opened {
                Ok((caps, socket)) => {
                    &&& client is Ok
                    &&& client->Ok_0.well_formed()
                    &&& !client->Ok_0.local()
                    &&& client->Ok_0.caps() == caps
                    &&& client->Ok_0.socket() == Some(socket)
                },
                Err(error) => client == Err::<Self, Rejection>(error),
            },
    {
        match opened {
            Ok((caps, socket)) => Ok(ProbeWebClient { local: false, caps, socket: Some(socket) }),
            Err(error) => Err(error),
        }
    }

    /// The client of a worker that runs the server, once it answered; a failure to
    /// reach it is handed on.
    pub fn connect_worker(opened: Result<Capabilities, Rejection>) -> (client: Result<
        Self,
        Rejection,
    >)
        ensures
            match opened {
                Ok(caps) => {
                    &&& client is Ok
                    &&& client->Ok_0.well_formed()
                    &&& client->Ok_0.local()
                    &&& client->Ok_0.caps() == caps
                    &&& client->Ok_0.socket() is None
                },
                Err(error) => client == Err::<Self, Rejection>(error),
            },
    {
        match opened {
            Ok(caps) => Ok(ProbeWebClient { local: true, caps, socket: None }),
            Err(error) => Err(error),
        }
    }

    /// Close the connection now. The socket to close is given out once; the server then
    /// ends the session and releases the probe.
    pub fn close(&mut self) -> (to_close: Option<SocketClose<S>>)
        ensures
            old(self).closes(to_close, *final(self)),
            final(self).well_formed(),
    {
        match self.socket.take() {
            Some(socket) => Some(SocketClose { socket, code: NORMAL_CLOSURE }),
            None => None,
        }
    }

    /// Endpoint and topic paths that this client knows but the server does not implement.
    pub fn capabilities(&self) -> (caps: &Capabilities)
        ensures
            *caps == self.caps(),
    {
        &self.caps
    }

    /// True for the in-browser transport.
    pub fn is_local(&self) -> (local: bool)
        ensures
            local == self.local(),
    {
        self.local
    }

    pub fn list_probes<W>(&self) -> (op: ClientOp<W>)
        ensures
            op == ClientOp::<W>::ListProbes,
    {
        ClientOp::ListProbes
    }

    pub fn list_chip_families<W>(&self) -> (op: ClientOp<W>)
        ensures
            op == ClientOp::<W>::ListChipFamilies,
    {
        ClientOp::ListChipFamilies
    }

    pub fn chip_info<W>(&self, name: String) -> (op: ClientOp<W>)
        ensures
            op == (ClientOp::<W>::ChipInfo { name }),
    {
        ClientOp::ChipInfo { name }
    }

    /// Register a chip family described in probe-rs target YAML for this connection.
    pub fn load_chip_family<W>(&self, yaml: String) -> (op: ClientOp<W>)
        ensures
            op == (ClientOp::<W>::LoadChipFamily { yaml }),
    {
        ClientOp::LoadChipFamily { yaml }
    }

    /// Scan the debug ports behind a probe without a chip definition.
    pub fn info<W>(&self, request: W) -> (op: ClientOp<W>)
        ensures
            op == (ClientOp::<W>::Info { request }),
    {
        ClientOp::Info { request }
    }

    /// Open a probe and attach to a target: the request to send, and the attach that
    /// waits for its reply.
    pub fn attach<W>(&self, request: AttachRequest<W>) -> (started: (PendingAttach, ClientOp<W>))
        ensures
            started.0.vendor_id() == request.vendor_id,
            started.1 == (ClientOp::<W>::AttachProbe { request: request.body }),
    {
        (
            PendingAttach { vendor_id: request.vendor_id },
            ClientOp::AttachProbe { request: request.body },
        )
    }
}

/// The server's answer to an attach request.
#[derive(Debug, PartialEq, Eq)]
pub enum AttachReply<K> {
    /// Attached; the handle of the new session.
    Success(K),
    ProbeNotFound,
    ProbeInUse,
    /// The probe was found and could not be opened; the server's message.
    FailedToOpenProbe(String),
    /// The probe was opened and the target could not be attached to.
    TargetAttachFailed { message: String, connect_under_reset: bool },
}

/// What a refused attach is answered with; `None` for one that succeeds.
pub open spec fn attach_rejection<K>(vendor_id: u16, reply: AttachReply<K>) -> Option<
    RejectionView,
> {
    match reply {
        AttachReply::Success(_) => None,
        AttachReply::ProbeNotFound => Some(
            plain_rejection("probe-not-found"@, "probe not found"@),
        ),
        AttachReply::ProbeInUse => Some(plain_rejection("probe-in-use"@, "probe is in use"@)),
        AttachReply::FailedToOpenProbe(message) => Some(
            plain_rejection(open_failure(vendor_id, message@), message@),
        ),
        AttachReply::TargetAttachFailed { message, connect_under_reset } => Some(
            RejectionView {
                kind: "attach-failed"@,
                message: message@,
                connect_under_reset: Some(connect_under_reset),
            },
        ),
    }
}

/// An attach whose reply has not come yet.
pub struct PendingAttach {
    vendor_id: u16,
}

impl PendingAttach {
    /// USB vendor id of the probe that was asked for.
    pub closed spec fn vendor_id(self) -> u16 {
        self.vendor_id
    }

    /// The session that `reply` opens, with no RTT client yet; or the rejection, of kind
    /// `probe-not-found`, `probe-in-use`, `open-failed`, `stlink-interface` or
    /// `attach-failed`. A failure of the connection itself keeps its kind.
    pub fn finish<K: Copy, D>(self, reply: Result<AttachReply<K>, Rejection>) -> (session: Result<
        ProbeWebSession<K, D>,
        Rejection,
    >)
        ensures
            match reply {
                Ok(AttachReply::Success(key)) => {
                    &&& session is Ok
                    &&& session->Ok_0.key() == key
                    &&& session->Ok_0.rtt() is None
                },
                Ok(refused) => {
                    &&& session is Err
                    &&& Some(session->Err_0@) == attach_rejection(self.vendor_id(), refused)
                },
                Err(error) => session == Err::<ProbeWebSession<K, D>, Rejection>(error),
            },
    {
        // Only FailedToOpenProbe is retagged.
        match reply {
            Err(error) => Err(error),
            Ok(AttachReply::Success(key)) => Ok(ProbeWebSession::new(key)),
            Ok(AttachReply::ProbeNotFound) => Err(
                error("probe-not-found", "probe not found".to_owned()),
            ),
            Ok(AttachReply::ProbeInUse) => Err(error("probe-in-use", "probe is in use".to_owned())),
            Ok(AttachReply::FailedToOpenProbe(message)) => {
                let kind: &'static str = open_failure_kind(self.vendor_id, message.as_str());
                Err(error(kind, message))
            },
            Ok(AttachReply::TargetAttachFailed { message, connect_under_reset }) => {
                let mut rejection: Rejection = error("attach-failed", message);
                rejection.connect_under_reset = Some(connect_under_reset);
                Err(rejection)
            },
        }
    }
}

/// A socket is given out for closing once: closing again, explicitly or when the client is
/// dropped, closes nothing and changes nothing.
pub proof fn law_closed_once<S>(
    client: ProbeWebClient<S>,
    first: Option<SocketClose<S>>,
    between: ProbeWebClient<S>,
    second: Option<SocketClose<S>>,
    after: ProbeWebClient<S>,
)
    requires
        client.closes(first, between),
        between.closes(second, after),
    ensures
        second is None,
        after == between,
        client.socket() is Some ==> first is Some && first->0.socket == client.socket()->0
            && first->0.code == NORMAL_CLOSURE,
{
}

/// There is nothing to close on an in-browser connection.
pub proof fn law_local_client_closes_nothing<S>(
    client: ProbeWebClient<S>,
    to_close: Option<SocketClose<S>>,
    after: ProbeWebClient<S>,
)
    requires
        client.well_formed(),
        client.local(),
        client.closes(to_close, after),
    ensures
        to_close is None,
        after == client,
{
}

/// A refused attach is answered with one of five kinds.
pub proof fn law_attach_kinds<K>(vendor_id: u16, reply: AttachReply<K>)
    requires
        !(reply is Success),
    ensures
        attach_rejection(vendor_id, reply) is Some,
        ({
            let kind = attach_rejection(vendor_id, reply)->0.kind;
            ||| kind == "probe-not-found"@
            ||| kind == "probe-in-use"@
            ||| kind == "open-failed"@
            ||| kind == "stlink-interface"@
            ||| kind == "attach-failed"@
        }),
{
}

/// Only a failure to open the probe is retagged: every other answer is the same whatever
/// the probe's vendor, and never of the kind `stlink-interface`. A failure to open is
/// retagged exactly for an ST-Link whose message names the interface, and keeps its
/// message.
pub proof fn law_only_open_failures_are_retagged<K>(
    vendor_id: u16,
    other_vendor_id: u16,
    reply: AttachReply<K>,
)
    ensures
        !(reply is FailedToOpenProbe) ==> attach_rejection(vendor_id, reply) == attach_rejection(
            other_vendor_id,
            reply,
        ),
        attach_rejection(vendor_id, reply) is Some && attach_rejection(vendor_id, reply)->0.kind
            == "stlink-interface"@ <==> {
            &&& reply is FailedToOpenProbe
            &&& vendor_id == STLINK_VID
            &&& names_interface_failure(reply->FailedToOpenProbe_0@)
        },
        reply is FailedToOpenProbe ==> attach_rejection(vendor_id, reply)->0.message
            == reply->FailedToOpenProbe_0@,
{
    reveal_strlit("stlink-interface");
    reveal_strlit("open-failed");
    reveal_strlit("probe-not-found");
    reveal_strlit("probe-in-use");
    reveal_strlit("attach-failed");
    assert("stlink-interface"@.len() == 16);
    assert("probe-not-found"@.len() == 15);
}

/// Whether the attach was made under reset is told on attach failures, and on them alone.
pub proof fn law_reset_is_told_on_attach_failures<K>(vendor_id: u16, reply: AttachReply<K>)
    requires
        !(reply is Success),
    ensures
        match reply {
            AttachReply::TargetAttachFailed { connect_under_reset, .. } => attach_rejection(
                vendor_id,
                reply,
            )->0.connect_under_reset == Some(connect_under_reset),
            _ => attach_rejection(vendor_id, reply)->0.connect_under_reset is None,
        },
{
}

} // verus!
