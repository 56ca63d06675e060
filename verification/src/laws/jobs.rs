//! Operations that take several requests, from their start to their end.
use vstd::prelude::*;

use crate::job::{Job, Phase, Reply, Step};
use crate::ops::SessionCall;
use crate::rejection::Rejection;
use crate::session::ProbeWebSession;

verus! {

/// Flashing, verifying and loading debug information start with the upload of the bytes that
/// the caller gave, under the name it gave, in the session that is asked.
pub proof fn law_started_with_the_upload<K: Copy, D, W>(
    session: ProbeWebSession<K, D>,
    bytes: Vec<u8>,
    name: String,
    format: W,
    options: W,
    started: (Job<K, W>, SessionCall<K, W>),
)
    requires
        ({
            ||| call_ensures(
                ProbeWebSession::<K, D>::flash::<W>,
                (&session, bytes, name, format, options),
                started,
            )
            ||| call_ensures(
                ProbeWebSession::<K, D>::verify::<W>,
                (&session, bytes, name, format),
                started,
            )
            ||| call_ensures(
                ProbeWebSession::<K, D>::load_debug_info::<W>,
                (&session, bytes, name),
                started,
            )
        }),
    ensures
        started.0.session == session.key(),
        started.1.session == session.key(),
        started.1.op is Upload,
        started.1.op->Upload_name == name,
        started.1.op->Upload_bytes == bytes,
{
}

/// What an operation remembers at its start is what the caller gave, and for flashing the RTT
/// client that the session has then.
pub proof fn law_started_operations<K: Copy, D, W>(
    session: ProbeWebSession<K, D>,
    bytes: Vec<u8>,
    name: String,
    format: W,
    options: W,
    core: u32,
    started: (Job<K, W>, SessionCall<K, W>),
)
    ensures
        call_ensures(
            ProbeWebSession::<K, D>::flash::<W>,
            (&session, bytes, name, format, options),
            started,
        ) ==> {
            &&& started.0.phase is FlashUpload
            &&& started.0.phase->FlashUpload_format == format
            &&& started.0.phase->FlashUpload_options == options
            &&& started.0.phase->FlashUpload_rtt_client is Some <==> session.rtt() is Some
            &&& session.rtt() is Some ==> started.0.phase->FlashUpload_rtt_client->0
                == session.rtt()->0.key
        },
        call_ensures(
            ProbeWebSession::<K, D>::verify::<W>,
            (&session, bytes, name, format),
            started,
        ) ==> {
            &&& started.0.phase is VerifyUpload
            &&& started.0.phase->VerifyUpload_format == format
        },
        call_ensures(
            ProbeWebSession::<K, D>::load_debug_info::<W>,
            (&session, bytes, name),
            started,
        ) ==> started.0.phase is DebugInfoUpload,
        call_ensures(
            ProbeWebSession::<K, D>::load_svd::<W>,
            (&session, core, bytes, name),
            started,
        ) ==> {
            &&& started.0.session == session.key()
            &&& started.0.phase is SvdClear
            &&& started.0.phase->SvdClear_core == core
            &&& started.0.phase->SvdClear_svd == bytes
            &&& started.0.phase->SvdClear_name == name
            &&& started.1.session == session.key()
            &&& started.1.op is ClearSvd
            &&& started.1.op->ClearSvd_core == core
        },
{
}

/// A job takes a failure at any time, and else the one reply that its request can have. What
/// it takes it can go on with.
pub proof fn law_accepted_replies<K: Copy, W>(job: Job<K, W>, reply: Reply<W>, accepted: bool)
    requires
        call_ensures(Job::<K, W>::accepts, (&job, &reply), accepted),
    ensures
        accepted <==> match reply {
            Reply::Failed { .. } => true,
            Reply::Uploaded { .. } => match job.phase {
                Phase::FlashUpload { .. } => true,
                Phase::VerifyUpload { .. } => true,
                Phase::DebugInfoUpload => true,
                Phase::SvdUpload { .. } => true,
                _ => false,
            },
            Reply::LoaderBuilt { .. } => match job.phase {
                Phase::FlashBuild { .. } => true,
                Phase::VerifyBuild => true,
                _ => false,
            },
            Reply::Compared { .. } => match job.phase {
                Phase::VerifyCompare => true,
                _ => false,
            },
            Reply::Done => match job.phase {
                Phase::FlashProgram { .. } => true,
                Phase::DebugInfoLoad => true,
                Phase::SvdClear { .. } => true,
                Phase::SvdLoad => true,
                _ => false,
            },
        },
        accepted ==> call_requires(Job::<K, W>::advance, (job, reply)),
{
}

/// A failed request ends the operation with that failure, wherever it stands.
pub proof fn law_failed_request<K: Copy, W>(job: Job<K, W>, error: Rejection, step: Step<K, W>)
    requires
        call_ensures(Job::<K, W>::advance, (job, Reply::Failed { error }), step),
    ensures
        step is Reject,
        step->Reject_error == error,
{
}

/// Flashing, step by step from its start: the upload goes into a flash loader of the given
/// format, for the session's own target and with the session's RTT client; that loader is
/// programmed with the given options; and the caller gets the boot information that came
/// with that loader. Every request goes to the session.
pub proof fn law_flashing<K: Copy, D, W>(
    session: ProbeWebSession<K, D>,
    image: Vec<u8>,
    name: String,
    format: W,
    options: W,
    started: (Job<K, W>, SessionCall<K, W>),
    upload: W,
    built: Step<K, W>,
    loader: W,
    boot_info: W,
    programmed: Step<K, W>,
    ended: Step<K, W>,
)
    requires
        call_ensures(
            ProbeWebSession::<K, D>::flash::<W>,
            (&session, image, name, format, options),
            started,
        ),
        call_ensures(Job::<K, W>::advance, (started.0, Reply::Uploaded { upload }), built),
        call_ensures(
            Job::<K, W>::advance,
            (built->job, Reply::LoaderBuilt { loader, boot_info }),
            programmed,
        ),
        call_ensures(Job::<K, W>::advance, (programmed->job, Reply::Done), ended),
    ensures
        built is Send,
        built->call.session == session.key(),
        built->call.op is BuildFlashLoader,
        built->call.op->BuildFlashLoader_upload == upload,
        built->call.op->BuildFlashLoader_format == format,
        built->call.op->BuildFlashLoader_image_target is None,
        !built->call.op->BuildFlashLoader_read_flasher_rtt,
        built->call.op->BuildFlashLoader_rtt_client is Some <==> session.rtt() is Some,
        session.rtt() is Some ==> built->call.op->BuildFlashLoader_rtt_client->0
            == session.rtt()->0.key,
        programmed is Send,
        programmed->call.session == session.key(),
        programmed->call.op is Flash,
        programmed->call.op->Flash_options == options,
        programmed->call.op->Flash_loader == loader,
        ended is Resolve,
        ended->Resolve_value == Some(boot_info),
{
}

/// Verifying, step by step from its start: the upload goes into a flash loader of the given
/// format, without an RTT client; that loader is compared; and the caller gets the result.
/// Every request goes to the session.
pub proof fn law_verifying<K: Copy, D, W>(
    session: ProbeWebSession<K, D>,
    image: Vec<u8>,
    name: String,
    format: W,
    started: (Job<K, W>, SessionCall<K, W>),
    upload: W,
    built: Step<K, W>,
    loader: W,
    boot_info: W,
    compared: Step<K, W>,
    result: W,
    ended: Step<K, W>,
)
    requires
        call_ensures(
            ProbeWebSession::<K, D>::verify::<W>,
            (&session, image, name, format),
            started,
        ),
        call_ensures(Job::<K, W>::advance, (started.0, Reply::Uploaded { upload }), built),
        call_ensures(
            Job::<K, W>::advance,
            (built->job, Reply::LoaderBuilt { loader, boot_info }),
            compared,
        ),
        call_ensures(Job::<K, W>::advance, (compared->job, Reply::Compared { result }), ended),
    ensures
        built is Send,
        built->call.session == session.key(),
        built->call.op is BuildFlashLoader,
        built->call.op->BuildFlashLoader_upload == upload,
        built->call.op->BuildFlashLoader_format == format,
        built->call.op->BuildFlashLoader_image_target is None,
        !built->call.op->BuildFlashLoader_read_flasher_rtt,
        built->call.op->BuildFlashLoader_rtt_client is None,
        compared is Send,
        compared->call.session == session.key(),
        compared->call.op is Verify,
        compared->call.op->Verify_loader == loader,
        ended is Resolve,
        ended->Resolve_value == Some(result),
{
}

/// Loading debug information, step by step from its start: what is loaded is the upload.
pub proof fn law_loading_debug_info<K: Copy, D, W>(
    session: ProbeWebSession<K, D>,
    elf: Vec<u8>,
    name: String,
    started: (Job<K, W>, SessionCall<K, W>),
    upload: W,
    loaded: Step<K, W>,
    ended: Step<K, W>,
)
    requires
        call_ensures(
            ProbeWebSession::<K, D>::load_debug_info::<W>,
            (&session, elf, name),
            started,
        ),
        call_ensures(Job::<K, W>::advance, (started.0, Reply::Uploaded { upload }), loaded),
        call_ensures(Job::<K, W>::advance, (loaded->job, Reply::Done), ended),
    ensures
        loaded is Send,
        loaded->call.session == session.key(),
        loaded->call.op is LoadDebugInfo,
        loaded->call.op->LoadDebugInfo_upload == upload,
        ended is Resolve,
        ended->Resolve_value is None,
{
}

/// Replacing an SVD, step by step from its start: once the former one is cleared, the bytes
/// given are uploaded under the name given, and that upload is loaded for the same core.
pub proof fn law_loading_svd<K: Copy, D, W>(
    session: ProbeWebSession<K, D>,
    core: u32,
    svd: Vec<u8>,
    name: String,
    started: (Job<K, W>, SessionCall<K, W>),
    put: Step<K, W>,
    upload: W,
    loaded: Step<K, W>,
    ended: Step<K, W>,
)
    requires
        call_ensures(
            ProbeWebSession::<K, D>::load_svd::<W>,
            (&session, core, svd, name),
            started,
        ),
        call_ensures(Job::<K, W>::advance, (started.0, Reply::Done), put),
        call_ensures(Job::<K, W>::advance, (put->job, Reply::Uploaded { upload }), loaded),
        call_ensures(Job::<K, W>::advance, (loaded->job, Reply::Done), ended),
    ensures
        put is Send,
        put->call.session == session.key(),
        put->call.op is Upload,
        put->call.op->Upload_name == name,
        put->call.op->Upload_bytes == svd,
        loaded is Send,
        loaded->call.session == session.key(),
        loaded->call.op is LoadSvd,
        loaded->call.op->LoadSvd_core == core,
        loaded->call.op->LoadSvd_upload == upload,
        ended is Resolve,
        ended->Resolve_value is None,
{
}

} // verus!
