//! Connecting, closing and attaching.
use vstd::prelude::*;

use crate::client::{AttachReply, Capabilities, PendingAttach, ProbeWebClient, SocketClose};
use crate::laws::failures::{lemma_named_iff_read, reads};
use crate::ops::{AttachRequest, ClientOp};
use crate::rejection::Rejection;
use crate::session::ProbeWebSession;

verus! {

/// A connection over a WebSocket is not local, and holds the socket that was opened; one to a
/// worker is local and holds none. Both report what the server did. A failure to connect is
/// handed on as it came.
pub proof fn law_connecting<S>(
    socket_opened: Result<(Capabilities, S), Rejection>,
    worker_opened: Result<Capabilities, Rejection>,
    client: Result<ProbeWebClient<S>, Rejection>,
)
    ensures
        call_ensures(ProbeWebClient::<S>::connect_web_socket, (socket_opened,), client) ==> {
            &&& client is Ok <==> socket_opened is Ok
            &&& client is Ok ==> {
                &&& !client->Ok_0.local()
                &&& client->Ok_0.caps() == socket_opened->Ok_0.0
                &&& client->Ok_0.socket() == Some(socket_opened->Ok_0.1)
            }
            &&& client is Err ==> client->Err_0 == socket_opened->Err_0
        },
        call_ensures(ProbeWebClient::<S>::connect_worker, (worker_opened,), client) ==> {
            &&& client is Ok <==> worker_opened is Ok
            &&& client is Ok ==> {
                &&& client->Ok_0.local()
                &&& client->Ok_0.caps() == worker_opened->Ok_0
                &&& client->Ok_0.socket() is None
            }
            &&& client is Err ==> client->Err_0 == worker_opened->Err_0
        },
{
}

/// What a client says of its connection is what was known when it was opened.
pub proof fn law_connection_is_reported<S>(
    client: ProbeWebClient<S>,
    caps: &Capabilities,
    local: bool,
)
    ensures
        call_ensures(ProbeWebClient::<S>::capabilities, (&client,), caps) ==> {
            &&& caps.unsupported_endpoints == client.caps().unsupported_endpoints
            &&& caps.unsupported_topics == client.caps().unsupported_topics
        },
        call_ensures(ProbeWebClient::<S>::is_local, (&client,), local) ==> local == client.local(),
{
}

/// Closing gives out the socket that the client holds, to be closed with the code of a normal
/// closure, and nothing where it holds none. The client then holds none; nothing else of it
/// changes.
pub proof fn law_closing<S>(client: &mut ProbeWebClient<S>, to_close: Option<SocketClose<S>>)
    requires
        call_ensures(ProbeWebClient::<S>::close, (client,), to_close),
    ensures
        to_close is Some <==> old(client).socket() is Some,
        to_close is Some ==> {
            &&& to_close->0.socket == old(client).socket()->0
            &&& to_close->0.code == 1000
        },
        final(client).socket() is None,
        final(client).local() == old(client).local(),
        final(client).caps() == old(client).caps(),
{
}

/// A request on the connection names the chip, the description or the request that the caller
/// gave.
pub proof fn law_client_requests<S, W>(
    client: ProbeWebClient<S>,
    name: String,
    yaml: String,
    request: W,
    op: ClientOp<W>,
)
    ensures
        call_ensures(ProbeWebClient::<S>::list_probes::<W>, (&client,), op) ==> op is ListProbes,
        call_ensures(ProbeWebClient::<S>::list_chip_families::<W>, (&client,), op)
            ==> op is ListChipFamilies,
        call_ensures(ProbeWebClient::<S>::chip_info::<W>, (&client, name), op) ==> {
            &&& op is ChipInfo
            &&& op->ChipInfo_name == name
        },
        call_ensures(ProbeWebClient::<S>::load_chip_family::<W>, (&client, yaml), op) ==> {
            &&& op is LoadChipFamily
            &&& op->LoadChipFamily_yaml == yaml
        },
        call_ensures(ProbeWebClient::<S>::info::<W>, (&client, request), op) ==> {
            &&& op is Info
            &&& op->Info_request == request
        },
{
}

/// An attach sends the request as it was given, and remembers the vendor of its probe.
pub proof fn law_attach_request<S, W>(
    client: ProbeWebClient<S>,
    request: AttachRequest<W>,
    started: (PendingAttach, ClientOp<W>),
)
    requires
        call_ensures(ProbeWebClient::<S>::attach::<W>, (&client, request), started),
    ensures
        started.0.vendor_id() == request.vendor_id,
        started.1 is AttachProbe,
        started.1->AttachProbe_request == request.body,
{
}

/// An attach succeeds exactly where the server says so, with the session that it named and
/// without an RTT client. A failure of the connection is handed on as it came.
pub proof fn law_attached<K: Copy, D>(
    pending: PendingAttach,
    reply: Result<AttachReply<K>, Rejection>,
    session: Result<ProbeWebSession<K, D>, Rejection>,
)
    requires
        call_ensures(PendingAttach::finish::<K, D>, (pending, reply), session),
    ensures
        session is Ok <==> reply is Ok && reply->Ok_0 is Success,
        session is Ok ==> {
            &&& session->Ok_0.key() == reply->Ok_0->Success_0
            &&& session->Ok_0.rtt() is None
        },
        reply is Err ==> session->Err_0 == reply->Err_0,
{
}

/// What a refused attach is told, reply by reply. A probe that is missing or in use and a
/// target that could not be attached to have kinds of their own, whatever the probe's vendor
/// and whatever the server's message says; a target failure keeps that message, and alone
/// tells whether the attach was made under reset.
pub proof fn law_refused_attach<K: Copy, D>(
    pending: PendingAttach,
    refused: AttachReply<K>,
    session: Result<ProbeWebSession<K, D>, Rejection>,
)
    requires
        call_ensures(PendingAttach::finish::<K, D>, (pending, Ok(refused)), session),
    ensures
        refused is ProbeNotFound ==> {
            &&& session is Err
            &&& session->Err_0.kind@ == "probe-not-found"@
            &&& session->Err_0.message@ == "probe not found"@
            &&& session->Err_0.connect_under_reset is None
        },
        refused is ProbeInUse ==> {
            &&& session is Err
            &&& session->Err_0.kind@ == "probe-in-use"@
            &&& session->Err_0.message@ == "probe is in use"@
            &&& session->Err_0.connect_under_reset is None
        },
        refused is TargetAttachFailed ==> {
            &&& session is Err
            &&& session->Err_0.kind@ == "attach-failed"@
            &&& session->Err_0.message@ == refused->TargetAttachFailed_message@
            &&& session->Err_0.connect_under_reset == Some(
                refused->TargetAttachFailed_connect_under_reset,
            )
        },
{
}

/// A probe that could not be opened is told with the server's message. Its kind is
/// `open-failed`, except for an ST-Link whose message reads, in any letter case, like an
/// interface that is missing or was not claimed.
pub proof fn law_unopened_probe<K: Copy, D>(
    pending: PendingAttach,
    message: String,
    session: Result<ProbeWebSession<K, D>, Rejection>,
)
    requires
        call_ensures(
            PendingAttach::finish::<K, D>,
            (pending, Ok(AttachReply::FailedToOpenProbe(message))),
            session,
        ),
    ensures
        session is Err,
        session->Err_0.message@ == message@,
        session->Err_0.connect_under_reset is None,
        ({
            let of_interface = {
                ||| reads(message@, "endpoint not found"@)
                ||| reads(message@, "endpointnotfound"@)
                ||| reads(message@, "interface not found"@)
                ||| reads(message@, "claiminterface"@)
                ||| reads(message@, "could not be claimed"@)
            };
            session->Err_0.kind@ == if pending.vendor_id() == 0x0483 && of_interface {
                "stlink-interface"@
            } else {
                "open-failed"@
            }
        }),
{
    lemma_named_iff_read(message@);
}

} // verus!
