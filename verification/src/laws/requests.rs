//! Requests within a session: each is made in the session that is asked, and asks for exactly
//! what the caller named.
use vstd::prelude::*;

use crate::core_handle::ProbeWebCore;
use crate::ops::{SessionCall, SessionOp};
use crate::session::ProbeWebSession;

verus! {

/// A request made in a session goes to that session and is the one that was meant, whichever
/// it is.
pub proof fn law_session_and_request_are_kept<K: Copy, D, W>(
    session: ProbeWebSession<K, D>,
    op: SessionOp<K, W>,
)
    ensures
        session.call(op).session == session.key(),
        session.call(op).op == op,
{
}

/// A stack trace, its scopes and its variables are those of the core, frame and reference
/// that are asked about, with the limit and filter given.
pub proof fn law_stack_requests<K: Copy, D, W>(
    session: ProbeWebSession<K, D>,
    core: u32,
    limit: u32,
    frame_id: u32,
    reference: u32,
    filter: Option<String>,
    call: SessionCall<K, W>,
)
    ensures
        call_ensures(
            ProbeWebSession::<K, D>::rich_stack_trace::<W>,
            (&session, core, limit),
            call,
        ) ==> {
            &&& call.session == session.key()
            &&& call.op is RichStackTrace
            &&& call.op->RichStackTrace_core == Some(core)
            &&& call.op->RichStackTrace_limit == limit
        },
        call_ensures(ProbeWebSession::<K, D>::scopes::<W>, (&session, core, frame_id), call) ==> {
            &&& call.session == session.key()
            &&& call.op is Scopes
            &&& call.op->Scopes_core == core
            &&& call.op->Scopes_frame_id == frame_id
        },
        call_ensures(
            ProbeWebSession::<K, D>::variables::<W>,
            (&session, core, reference, filter),
            call,
        ) ==> {
            &&& call.session == session.key()
            &&& call.op is Variables
            &&& call.op->Variables_core == core
            &&& call.op->Variables_reference == reference
            &&& call.op->Variables_filter == filter
        },
        call_ensures(
            ProbeWebSession::<K, D>::clear_core_debug_state::<W>,
            (&session, core),
            call,
        ) ==> {
            &&& call.session == session.key()
            &&& call.op is ClearCoreDebugState
            &&& call.op->ClearCoreDebugState_core == core
        },
{
}

/// An expression is evaluated on the core and in the stack frame that the caller gave, and in
/// none where it gave none.
pub proof fn law_evaluate_request<K: Copy, D, W>(
    session: ProbeWebSession<K, D>,
    core: u32,
    frame_id: Option<u32>,
    expression: String,
    call: SessionCall<K, W>,
)
    ensures
        call_ensures(
            ProbeWebSession::<K, D>::evaluate::<W>,
            (&session, core, frame_id, expression),
            call,
        ) ==> {
            &&& call.session == session.key()
            &&& call.op is Evaluate
            &&& call.op->Evaluate_core == core
            &&& call.op->Evaluate_frame_id == frame_id
            &&& call.op->Evaluate_expression == expression
        },
{
}

/// A variable is set under the parent and the name that the caller gave, to that value.
pub proof fn law_set_variable_request<K: Copy, D, W>(
    session: ProbeWebSession<K, D>,
    core: u32,
    parent_key: i64,
    name: String,
    value: String,
    call: SessionCall<K, W>,
)
    ensures
        call_ensures(
            ProbeWebSession::<K, D>::set_variable::<W>,
            (&session, core, parent_key, name, value),
            call,
        ) ==> {
            &&& call.session == session.key()
            &&& call.op is SetVariable
            &&& call.op->SetVariable_core == core
            &&& call.op->SetVariable_parent_key == parent_key
            &&& call.op->SetVariable_name == name
            &&& call.op->SetVariable_value == value
        },
{
}

/// A step is made on the core and in the mode that the caller gave.
pub proof fn law_step_request<K: Copy, D, W>(
    session: ProbeWebSession<K, D>,
    core: u32,
    mode: W,
    call: SessionCall<K, W>,
)
    ensures
        call_ensures(ProbeWebSession::<K, D>::step::<W>, (&session, core, mode), call) ==> {
            &&& call.session == session.key()
            &&& call.op is Step
            &&& call.op->Step_core == core
            &&& call.op->Step_mode == mode
        },
{
}

/// Source lines and addresses are resolved as they were given, all of them and in order.
pub proof fn law_source_requests<K: Copy, D, W>(
    session: ProbeWebSession<K, D>,
    locations: Vec<W>,
    addresses: Vec<u64>,
    call: SessionCall<K, W>,
)
    ensures
        call_ensures(
            ProbeWebSession::<K, D>::resolve_source_breakpoints::<W>,
            (&session, locations),
            call,
        ) ==> {
            &&& call.session == session.key()
            &&& call.op is ResolveSourceBreakpoints
            &&& call.op->ResolveSourceBreakpoints_locations == locations
        },
        call_ensures(
            ProbeWebSession::<K, D>::resolve_source_locations::<W>,
            (&session, addresses),
            call,
        ) ==> {
            &&& call.session == session.key()
            &&& call.op is ResolveSourceLocations
            &&& call.op->ResolveSourceLocations_addresses == addresses
        },
{
}

/// Disassembly starts from the reference and offsets that the caller gave, each in its place.
pub proof fn law_disassemble_request<K: Copy, D, W>(
    session: ProbeWebSession<K, D>,
    core: u32,
    memory_reference: u64,
    byte_offset: i64,
    instruction_offset: i64,
    instruction_count: i64,
    call: SessionCall<K, W>,
)
    ensures
        call_ensures(
            ProbeWebSession::<K, D>::disassemble::<W>,
            (&session, core, memory_reference, byte_offset, instruction_offset, instruction_count),
            call,
        ) ==> {
            &&& call.session == session.key()
            &&& call.op is Disassemble
            &&& call.op->Disassemble_core == core
            &&& call.op->Disassemble_memory_reference == memory_reference
            &&& call.op->Disassemble_byte_offset == byte_offset
            &&& call.op->Disassemble_instruction_offset == instruction_offset
            &&& call.op->Disassemble_instruction_count == instruction_count
        },
{
}

/// A request to several cores names the cores that the caller did, or all of them where it
/// named none; the timeout is kept in milliseconds.
pub proof fn law_cores_requests<K: Copy, D, W>(
    session: ProbeWebSession<K, D>,
    cores: Option<Vec<u32>>,
    timeout_ms: u32,
    call: SessionCall<K, W>,
)
    ensures
        call_ensures(
            ProbeWebSession::<K, D>::halt_cores::<W>,
            (&session, cores, timeout_ms),
            call,
        ) ==> {
            &&& call.session == session.key()
            &&& call.op is HaltCores
            &&& call.op->HaltCores_cores == cores
            &&& call.op->HaltCores_timeout_millis == timeout_ms
        },
        call_ensures(ProbeWebSession::<K, D>::resume_cores::<W>, (&session, cores), call) ==> {
            &&& call.session == session.key()
            &&& call.op is ResumeCores
            &&& call.op->ResumeCores_cores == cores
        },
        call_ensures(ProbeWebSession::<K, D>::cores_status::<W>, (&session, cores), call) ==> {
            &&& call.session == session.key()
            &&& call.op is CoresStatus
            &&& call.op->CoresStatus_cores == cores
        },
{
}

/// The target is asked about, erased, booted and left alone as the caller said: booting uses
/// its boot information and core, and erasing does not read the RTT output of the flash
/// algorithm.
pub proof fn law_target_requests<K: Copy, D, W>(
    session: ProbeWebSession<K, D>,
    boot_info: W,
    core: u32,
    call: SessionCall<K, W>,
)
    ensures
        call_ensures(ProbeWebSession::<K, D>::target_metadata::<W>, (&session,), call) ==> {
            &&& call.session == session.key()
            &&& call.op is TargetMetadata
        },
        call_ensures(ProbeWebSession::<K, D>::erase_all::<W>, (&session,), call) ==> {
            &&& call.session == session.key()
            &&& call.op is EraseAll
            &&& call.op->EraseAll_read_flasher_rtt == false
        },
        call_ensures(ProbeWebSession::<K, D>::boot::<W>, (&session, boot_info, core), call) ==> {
            &&& call.session == session.key()
            &&& call.op is Boot
            &&& call.op->Boot_boot_info == boot_info
            &&& call.op->Boot_core == core
        },
        call_ensures(ProbeWebSession::<K, D>::cancel::<W>, (&session,), call) ==> {
            &&& call.session == session.key()
            &&& call.op is Cancel
        },
        call_ensures(ProbeWebSession::<K, D>::clear_svd::<W>, (&session, core), call) ==> {
            &&& call.session == session.key()
            &&& call.op is ClearSvd
            &&& call.op->ClearSvd_core == core
        },
{
}

/// A session keeps the handle that the server gave it, has no RTT client at first, and gives
/// out its cores under their own numbers.
pub proof fn law_session_and_core_handles<K: Copy, D>(
    key: K,
    session: ProbeWebSession<K, D>,
    index: u32,
    core: ProbeWebCore<K>,
)
    ensures
        call_ensures(ProbeWebSession::<K, D>::new, (key,), session) ==> {
            &&& session.key() == key
            &&& session.rtt() is None
        },
        call_ensures(ProbeWebSession::<K, D>::core_at, (&session, index), core) ==> {
            &&& core.session() == session.key()
            &&& core.index() == index
        },
{
}

/// Progress is heard of programming, comparing and erasing flash, and of no other request.
pub proof fn law_progress_is_of_flash_work<K, W>(op: SessionOp<K, W>, reports: bool)
    requires
        call_ensures(SessionOp::<K, W>::reports_progress, (&op,), reports),
    ensures
        op is Flash ==> reports,
        op is Verify ==> reports,
        op is EraseAll ==> reports,
        !(op is Flash) && !(op is Verify) && !(op is EraseAll) ==> !reports,
{
}

} // verus!
