//! Requests to one core: each goes to the session and core of the handle, and asks for exactly
//! what the caller named.
use std::ops::Range;

use vstd::prelude::*;

use crate::core_handle::{coredump_outcome, ProbeWebCore};
use crate::ops::{CoreCall, CoreOp};
use crate::rejection::Rejection;

verus! {

/// A request made to a core goes to that core, in its session, and is the one that was meant,
/// whichever it is.
pub proof fn law_core_and_request_are_kept<K: Copy, W>(handle: ProbeWebCore<K>, op: CoreOp<W>)
    ensures
        handle.call(op).session == handle.session(),
        handle.call(op).core == handle.index(),
        handle.call(op).op == op,
{
}

/// A handle stands for the core of the session that it was made for.
pub proof fn law_core_handle<K: Copy>(session: K, core: usize, handle: ProbeWebCore<K>)
    requires
        call_ensures(ProbeWebCore::<K>::new, (session, core), handle),
    ensures
        handle.session() == session,
        handle.index() == core,
{
}

/// Memory is read at the address and in the number of units that the caller gave, whatever
/// the width of a unit: no address is rounded.
pub proof fn law_memory_reads<K: Copy, W>(
    handle: ProbeWebCore<K>,
    address: u64,
    count: u32,
    call: CoreCall<K, W>,
)
    ensures
        call_ensures(ProbeWebCore::<K>::read_memory_8::<W>, (&handle, address, count), call) ==> {
            &&& call.session == handle.session()
            &&& call.core == handle.index()
            &&& call.op is ReadMemory8
            &&& call.op->ReadMemory8_address == address
            &&& call.op->ReadMemory8_count == count
        },
        call_ensures(ProbeWebCore::<K>::read_memory_16::<W>, (&handle, address, count), call) ==> {
            &&& call.session == handle.session()
            &&& call.core == handle.index()
            &&& call.op is ReadMemory16
            &&& call.op->ReadMemory16_address == address
            &&& call.op->ReadMemory16_count == count
        },
        call_ensures(ProbeWebCore::<K>::read_memory_32::<W>, (&handle, address, count), call) ==> {
            &&& call.session == handle.session()
            &&& call.core == handle.index()
            &&& call.op is ReadMemory32
            &&& call.op->ReadMemory32_address == address
            &&& call.op->ReadMemory32_count == count
        },
        call_ensures(ProbeWebCore::<K>::read_memory_64::<W>, (&handle, address, count), call) ==> {
            &&& call.session == handle.session()
            &&& call.core == handle.index()
            &&& call.op is ReadMemory64
            &&& call.op->ReadMemory64_address == address
            &&& call.op->ReadMemory64_count == count
        },
        call_ensures(ProbeWebCore::<K>::read_bytes::<W>, (&handle, address, count), call) ==> {
            &&& call.session == handle.session()
            &&& call.core == handle.index()
            &&& call.op is ReadBytes
            &&& call.op->ReadBytes_address == address
            &&& call.op->ReadBytes_count == count
        },
{
}

/// Memory is written at the address that the caller gave, with all of its data, in units of
/// the width that it is given in.
pub proof fn law_memory_writes<K: Copy, W>(
    handle: ProbeWebCore<K>,
    address: u64,
    data_8: Vec<u8>,
    data_16: Vec<u16>,
    data_32: Vec<u32>,
    data_64: Vec<u64>,
    call: CoreCall<K, W>,
)
    ensures
        call_ensures(ProbeWebCore::<K>::write_memory_8::<W>, (&handle, address, data_8), call) ==> {
            &&& call.session == handle.session()
            &&& call.core == handle.index()
            &&& call.op is WriteMemory8
            &&& call.op->WriteMemory8_address == address
            &&& call.op->WriteMemory8_data == data_8
        },
        call_ensures(
            ProbeWebCore::<K>::write_memory_16::<W>,
            (&handle, address, data_16),
            call,
        ) ==> {
            &&& call.session == handle.session()
            &&& call.core == handle.index()
            &&& call.op is WriteMemory16
            &&& call.op->WriteMemory16_address == address
            &&& call.op->WriteMemory16_data == data_16
        },
        call_ensures(
            ProbeWebCore::<K>::write_memory_32::<W>,
            (&handle, address, data_32),
            call,
        ) ==> {
            &&& call.session == handle.session()
            &&& call.core == handle.index()
            &&& call.op is WriteMemory32
            &&& call.op->WriteMemory32_address == address
            &&& call.op->WriteMemory32_data == data_32
        },
        call_ensures(
            ProbeWebCore::<K>::write_memory_64::<W>,
            (&handle, address, data_64),
            call,
        ) ==> {
            &&& call.session == handle.session()
            &&& call.core == handle.index()
            &&& call.op is WriteMemory64
            &&& call.op->WriteMemory64_address == address
            &&& call.op->WriteMemory64_data == data_64
        },
{
}

/// Running, halting and resetting are told apart, and a timeout is kept in milliseconds.
pub proof fn law_run_control_requests<K: Copy, W>(
    handle: ProbeWebCore<K>,
    timeout_ms: u32,
    call: CoreCall<K, W>,
)
    ensures
        call_ensures(ProbeWebCore::<K>::halt::<W>, (&handle, timeout_ms), call) ==> {
            &&& call.session == handle.session()
            &&& call.core == handle.index()
            &&& call.op is Halt
            &&& call.op->Halt_timeout_millis == timeout_ms
        },
        call_ensures(ProbeWebCore::<K>::reset_and_halt::<W>, (&handle, timeout_ms), call) ==> {
            &&& call.session == handle.session()
            &&& call.core == handle.index()
            &&& call.op is ResetAndHalt
            &&& call.op->ResetAndHalt_timeout_millis == timeout_ms
        },
        call_ensures(ProbeWebCore::<K>::run::<W>, (&handle,), call) ==> {
            &&& call.session == handle.session()
            &&& call.core == handle.index()
            &&& call.op is Run
        },
        call_ensures(ProbeWebCore::<K>::status::<W>, (&handle,), call) ==> {
            &&& call.session == handle.session()
            &&& call.core == handle.index()
            &&& call.op is Status
        },
        call_ensures(ProbeWebCore::<K>::reset::<W>, (&handle,), call) ==> {
            &&& call.session == handle.session()
            &&& call.core == handle.index()
            &&& call.op is Reset
        },
        call_ensures(ProbeWebCore::<K>::metadata::<W>, (&handle,), call) ==> {
            &&& call.session == handle.session()
            &&& call.core == handle.index()
            &&& call.op is Metadata
        },
        call_ensures(ProbeWebCore::<K>::handle_semihosting::<W>, (&handle,), call) ==> {
            &&& call.session == handle.session()
            &&& call.core == handle.index()
            &&& call.op is HandleSemihosting
        },
{
}

/// Breakpoints are set and cleared at the addresses that the caller gave, all of them and in
/// order, and the vector catch is the one that it named.
pub proof fn law_breakpoint_requests<K: Copy, W>(
    handle: ProbeWebCore<K>,
    addresses: Vec<u64>,
    condition: W,
    call: CoreCall<K, W>,
)
    ensures
        call_ensures(ProbeWebCore::<K>::set_hw_breakpoints::<W>, (&handle, addresses), call) ==> {
            &&& call.session == handle.session()
            &&& call.core == handle.index()
            &&& call.op is SetHwBreakpoints
            &&& call.op->SetHwBreakpoints_addresses == addresses
        },
        call_ensures(ProbeWebCore::<K>::clear_hw_breakpoints::<W>, (&handle, addresses), call) ==> {
            &&& call.session == handle.session()
            &&& call.core == handle.index()
            &&& call.op is ClearHwBreakpoints
            &&& call.op->ClearHwBreakpoints_addresses == addresses
        },
        call_ensures(ProbeWebCore::<K>::enable_vector_catch::<W>, (&handle, condition), call) ==> {
            &&& call.session == handle.session()
            &&& call.core == handle.index()
            &&& call.op is EnableVectorCatch
            &&& call.op->EnableVectorCatch_condition == condition
        },
{
}

/// A register is written with the value that the caller gave, under its own number; registers
/// are read in the order in which they are asked for, one for each number.
pub proof fn law_register_requests<K: Copy, W>(
    handle: ProbeWebCore<K>,
    id: u16,
    value: W,
    ids: Vec<u16>,
    call: CoreCall<K, W>,
)
    ensures
        call_ensures(ProbeWebCore::<K>::write_register::<W>, (&handle, id, value), call) ==> {
            &&& call.session == handle.session()
            &&& call.core == handle.index()
            &&& call.op is WriteRegister
            &&& call.op->WriteRegister_id.0 == id
            &&& call.op->WriteRegister_value == value
        },
        call_ensures(ProbeWebCore::<K>::read_registers::<W>, (&handle, ids), call) ==> {
            &&& call.session == handle.session()
            &&& call.core == handle.index()
            &&& call.op is ReadRegisters
            &&& call.op->ReadRegisters_ids@.len() == ids@.len()
            &&& forall|i: int|
                0 <= i < ids@.len() ==> (#[trigger] call.op->ReadRegisters_ids@[i]).0 == ids@[i]
        },
{
}

/// A dump covers the memory that the caller named: for each range its start and its end, in
/// order. A dump for a file asks for the same as one that is looked at.
pub proof fn law_dump_requests<K: Copy, W>(
    handle: ProbeWebCore<K>,
    ranges: Vec<(u64, u64)>,
    call: CoreCall<K, W>,
    memory: Seq<Range<u64>>,
)
    requires
        call_ensures(ProbeWebCore::<K>::dump_core::<W>, (&handle, ranges), call)
            || call_ensures(ProbeWebCore::<K>::dump_core_file::<W>, (&handle, ranges), call),
        memory == call.op->DumpCore_ranges@,
    ensures
        call.session == handle.session(),
        call.core == handle.index(),
        call.op is DumpCore,
        memory.len() == ranges@.len(),
        forall|i: int|
            0 <= i < ranges@.len() ==> (#[trigger] memory[i]).start == ranges@[i].0
                && memory[i].end == ranges@[i].1,
{
}

/// A coredump file is handed on byte by byte. A failure to encode one is a rejection of the
/// kind `coredump` with the encoder's message, and no other failure is told.
pub proof fn law_coredump_outcome(
    encoded: Result<Vec<u8>, String>,
    outcome: Result<Vec<u8>, Rejection>,
)
    requires
        call_ensures(coredump_outcome, (encoded,), outcome),
    ensures
        outcome is Ok <==> encoded is Ok,
        encoded is Ok ==> outcome->Ok_0 == encoded->Ok_0,
        encoded is Err ==> {
            &&& outcome->Err_0.kind@ == "coredump"@
            &&& outcome->Err_0.message@ == encoded->Err_0@
            &&& outcome->Err_0.connect_under_reset is None
        },
{
}

} // verus!
