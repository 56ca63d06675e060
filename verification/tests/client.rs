use probe_web_core::client::{
    AttachReply, Capabilities, ProbeWebClient, SocketClose, NORMAL_CLOSURE,
};
use probe_web_core::ops::{AttachRequest, ClientOp, SessionCall, SessionOp};
use probe_web_core::rejection::{deliver, error, Rejection};
use probe_web_core::session::ProbeWebSession;

fn caps() -> Capabilities {
    Capabilities {
        unsupported_endpoints: vec!["flash/verify".to_string()],
        unsupported_topics: vec!["cancel".to_string(), "log".to_string()],
    }
}

fn remote() -> ProbeWebClient<u32> {
    match ProbeWebClient::connect_web_socket(Ok((caps(), 7))) {
        Ok(client) => client,
        Err(e) => panic!("{:?}", e),
    }
}

fn local() -> ProbeWebClient<u32> {
    match ProbeWebClient::connect_worker(Ok(caps())) {
        Ok(client) => client,
        Err(e) => panic!("{:?}", e),
    }
}

fn attach(
    vendor_id: u16,
    reply: Result<AttachReply<u64>, Rejection>,
) -> Result<ProbeWebSession<u64, ()>, Rejection> {
    let (pending, op) = remote().attach(AttachRequest {
        vendor_id,
        body: "body",
    });
    assert_eq!(op, ClientOp::AttachProbe { request: "body" });
    pending.finish(reply)
}

fn refused(vendor_id: u16, reply: AttachReply<u64>) -> Rejection {
    match attach(vendor_id, Ok(reply)) {
        Ok(_) => panic!("attached"),
        Err(rejection) => rejection,
    }
}

#[test]
fn web_socket_client_is_remote() {
    let client = remote();
    assert!(!client.is_local());
    assert_eq!(*client.capabilities(), caps());
}

#[test]
fn worker_client_is_local() {
    let client = local();
    assert!(client.is_local());
    assert_eq!(*client.capabilities(), caps());
}

#[test]
fn failed_connection_is_handed_on() {
    let failure = || error("websocket", "refused".to_string());
    match ProbeWebClient::<u32>::connect_web_socket(Err(failure())) {
        Ok(_) => panic!("connected"),
        Err(e) => assert_eq!(e, failure()),
    }
    match ProbeWebClient::<u32>::connect_worker(Err(failure())) {
        Ok(_) => panic!("connected"),
        Err(e) => assert_eq!(e, failure()),
    }
}

#[test]
fn socket_is_closed_once() {
    let mut client = remote();
    assert_eq!(NORMAL_CLOSURE, 1000);
    assert_eq!(
        client.close(),
        Some(SocketClose {
            socket: 7,
            code: 1000
        })
    );
    assert_eq!(client.close(), None);
    assert!(!client.is_local());
    assert_eq!(*client.capabilities(), caps());
}

#[test]
fn local_client_closes_nothing() {
    let mut client = local();
    assert_eq!(client.close(), None);
    assert!(client.is_local());
}

#[test]
fn client_requests() {
    let client = remote();
    assert_eq!(client.list_probes::<()>(), ClientOp::ListProbes);
    assert_eq!(client.list_chip_families::<()>(), ClientOp::ListChipFamilies);
    assert_eq!(
        client.chip_info::<()>("nRF52840".to_string()),
        ClientOp::ChipInfo {
            name: "nRF52840".to_string()
        }
    );
    assert_eq!(
        client.load_chip_family::<()>("name: X".to_string()),
        ClientOp::LoadChipFamily {
            yaml: "name: X".to_string()
        }
    );
    assert_eq!(client.info(5u8), ClientOp::Info { request: 5u8 });
}

#[test]
fn attached_session_has_no_rtt_client() {
    match attach(0x0483, Ok(AttachReply::Success(42))) {
        Ok(session) => {
            let call: SessionCall<u64, ()> = session.target_metadata();
            assert_eq!(
                call,
                SessionCall {
                    session: 42,
                    op: SessionOp::TargetMetadata
                }
            );
            assert!(session.rtt_channels::<()>().is_err());
        }
        Err(e) => panic!("{:?}", e),
    }
}

#[test]
fn missing_and_busy_probes_are_refused() {
    assert_eq!(
        refused(0x0483, AttachReply::ProbeNotFound),
        error("probe-not-found", "probe not found".to_string())
    );
    assert_eq!(
        refused(0x0d28, AttachReply::ProbeInUse),
        error("probe-in-use", "probe is in use".to_string())
    );
}

#[test]
fn only_stlink_interface_failures_are_retagged() {
    let reply = || AttachReply::FailedToOpenProbe("USB endpoint not found".to_string());
    assert_eq!(
        refused(0x0483, reply()),
        error("stlink-interface", "USB endpoint not found".to_string())
    );
    assert_eq!(
        refused(0x0d28, reply()),
        error("open-failed", "USB endpoint not found".to_string())
    );
    assert_eq!(
        refused(
            0x0483,
            AttachReply::FailedToOpenProbe("permission denied".to_string())
        ),
        error("open-failed", "permission denied".to_string())
    );
}

#[test]
fn attach_failure_tells_whether_it_was_under_reset() {
    for connect_under_reset in [false, true] {
        let rejection = refused(
            0x0483,
            AttachReply::TargetAttachFailed {
                message: "endpoint not found".to_string(),
                connect_under_reset,
            },
        );
        assert_eq!(rejection.kind, "attach-failed");
        assert_eq!(rejection.message, "endpoint not found");
        assert_eq!(rejection.connect_under_reset, Some(connect_under_reset));
    }
    assert_eq!(
        refused(0x0483, AttachReply::ProbeInUse).connect_under_reset,
        None
    );
}

#[test]
fn failed_connection_keeps_its_kind_on_attach() {
    let crashed = || error("worker-crashed", "endpoint not found".to_string());
    match attach(0x0483, Err(crashed())) {
        Ok(_) => panic!("attached"),
        Err(e) => assert_eq!(e, crashed()),
    }
}

#[test]
fn plain_error_has_kind_and_message() {
    let e = error("state", "no".to_string());
    assert_eq!(e.kind, "state");
    assert_eq!(e.message, "no");
    assert_eq!(e.connect_under_reset, None);
}

#[test]
fn events_are_delivered_to_listeners_where_they_convert() {
    assert_eq!(deliver::<u8, ()>(true, Ok(1)), Some(1));
    assert_eq!(deliver::<u8, ()>(false, Ok(1)), None);
    assert_eq!(deliver::<u8, ()>(true, Err(())), None);
    assert_eq!(deliver::<u8, ()>(false, Err(())), None);
}
