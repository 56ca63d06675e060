//! One core of an attached target.
use std::ops::Range;

use vstd::prelude::*;

use crate::ops::{CoreCall, CoreOp, RegisterId};
use crate::rejection::{error, plain_rejection, Rejection};

verus! {

/// A core of the target of a session.
pub struct ProbeWebCore<K> {
    session: K,
    core: usize,
}

/// The registers with the numbers `ids`, in their order.
pub open spec fn register_ids(ids: Seq<u16>) -> Seq<RegisterId> {
    ids.map_values(|id: u16| RegisterId(id))
}

/// The memory from each start up to its end, in the order of `ranges`.
pub open spec fn memory_ranges(ranges: Seq<(u64, u64)>) -> Seq<Range<u64>> {
    ranges.map_values(|range: (u64, u64)| Range { start: range.0, end: range.1 })
}

fn to_memory_ranges(ranges: Vec<(u64, u64)>) -> (memory: Vec<Range<u64>>)
    ensures
        memory@ == memory_ranges(ranges@),
{
    let mut memory: Vec<Range<u64>> = Vec::new();
    for range in iter: ranges.into_iter()
        invariant
            iter.seq() == ranges@,
            memory@ == memory_ranges(ranges@.take(iter.index())),
    {
        let (start, end): (u64, u64) = range;
        memory.push(start..end);
        assert(ranges@.take(iter.index() + 1) == ranges@.take(iter.index()).push(range));
    }
    assert(ranges@.take(ranges@.len() as int) == ranges@);
    memory
}

impl<K: Copy> ProbeWebCore<K> {
    /// The server's handle of the session.
    pub closed spec fn session(self) -> K {
        self.session
    }

    /// The number of the core.
    pub closed spec fn index(self) -> usize {
        self.core
    }

    /// The request `op`, made to this core.
    pub open spec fn call<W>(self, op: CoreOp<W>) -> CoreCall<K, W> {
        CoreCall { session: self.session(), core: self.index(), op }
    }

    /// Core `core` of the session that the server calls `session`.
    pub fn new(session: K, core: usize) -> (handle: Self)
        ensures
            handle.session() == session,
            handle.index() == core,
    {
        ProbeWebCore { session, core }
    }

    fn request<W>(&self, op: CoreOp<W>) -> (call: CoreCall<K, W>)
        ensures
            call == self.call(op),
            call.session == self.session(),
            call.core == self.index(),
            call.op == op,
    {
        CoreCall { session: self.session, core: self.core, op }
    }

    /// Read the registers with the numbers `ids`; each result carries a value or an error.
    pub fn read_registers<W>(&self, ids: Vec<u16>) -> (call: CoreCall<K, W>)
        ensures
            call.session == self.session(),
            call.core == self.index(),
            call.op is ReadRegisters,
            call.op->ids@ == register_ids(ids@),
    {
        let mut registers: Vec<RegisterId> = Vec::new();
        for id in iter: ids.into_iter()
            invariant
                iter.seq() == ids@,
                registers@ == register_ids(ids@.take(iter.index())),
        {
            registers.push(RegisterId(id));
            assert(ids@.take(iter.index() + 1) == ids@.take(iter.index()).push(id));
        }
        assert(ids@.take(ids@.len() as int) == ids@);
        self.request(CoreOp::ReadRegisters { ids: registers })
    }

    /// Registers plus the memory in `ranges` (start and end of each), as for a coredump file.
    pub fn dump_core<W>(&self, ranges: Vec<(u64, u64)>) -> (call: CoreCall<K, W>)
        ensures
            call.session == self.session(),
            call.core == self.index(),
            call.op is DumpCore,
            call.op->ranges@ == memory_ranges(ranges@),
    {
        self.request(CoreOp::DumpCore { ranges: to_memory_ranges(ranges) })
    }

    /// The same dump as [`ProbeWebCore::dump_core`], for a coredump file that native
    /// `probe-rs` reads. What the encoder makes of the dump goes to [`coredump_outcome`].
    pub fn dump_core_file<W>(&self, ranges: Vec<(u64, u64)>) -> (call: CoreCall<K, W>)
        ensures
            call.session == self.session(),
            call.core == self.index(),
            call.op is DumpCore,
            call.op->ranges@ == memory_ranges(ranges@),
    {
        self.request(CoreOp::DumpCore { ranges: to_memory_ranges(ranges) })
    }

    pub fn halt<W>(&self, timeout_ms: u32) -> (call: CoreCall<K, W>)
        ensures
            call == self.call(CoreOp::<W>::Halt { timeout_millis: timeout_ms as u64 }),
    {
        self.request(CoreOp::Halt { timeout_millis: timeout_ms as u64 })
    }

    pub fn run<W>(&self) -> (call: CoreCall<K, W>)
        ensures
            call == self.call(CoreOp::<W>::Run),
    {
        self.request(CoreOp::Run)
    }

    pub fn status<W>(&self) -> (call: CoreCall<K, W>)
        ensures
            call == self.call(CoreOp::<W>::Status),
    {
        self.request(CoreOp::Status)
    }

    pub fn reset<W>(&self) -> (call: CoreCall<K, W>)
        ensures
            call == self.call(CoreOp::<W>::Reset),
    {
        self.request(CoreOp::Reset)
    }

    pub fn reset_and_halt<W>(&self, timeout_ms: u32) -> (call: CoreCall<K, W>)
        ensures
            call == self.call(CoreOp::<W>::ResetAndHalt { timeout_millis: timeout_ms as u64 }),
    {
        self.request(CoreOp::ResetAndHalt { timeout_millis: timeout_ms as u64 })
    }

    pub fn read_memory_8<W>(&self, address: u64, count: u32) -> (call: CoreCall<K, W>)
        ensures
            call == self.call(CoreOp::<W>::ReadMemory8 { address, count: count as usize }),
    {
        self.request(CoreOp::ReadMemory8 { address, count: count as usize })
    }

    pub fn write_memory_8<W>(&self, address: u64, data: Vec<u8>) -> (call: CoreCall<K, W>)
        ensures
            call == self.call(CoreOp::<W>::WriteMemory8 { address, data }),
    {
        self.request(CoreOp::WriteMemory8 { address, data })
    }

    pub fn read_memory_32<W>(&self, address: u64, count: u32) -> (call: CoreCall<K, W>)
        ensures
            call == self.call(CoreOp::<W>::ReadMemory32 { address, count: count as usize }),
    {
        self.request(CoreOp::ReadMemory32 { address, count: count as usize })
    }

    pub fn write_memory_32<W>(&self, address: u64, data: Vec<u32>) -> (call: CoreCall<K, W>)
        ensures
            call == self.call(CoreOp::<W>::WriteMemory32 { address, data }),
    {
        self.request(CoreOp::WriteMemory32 { address, data })
    }

    pub fn read_memory_16<W>(&self, address: u64, count: u32) -> (call: CoreCall<K, W>)
        ensures
            call == self.call(CoreOp::<W>::ReadMemory16 { address, count: count as usize }),
    {
        self.request(CoreOp::ReadMemory16 { address, count: count as usize })
    }

    pub fn write_memory_16<W>(&self, address: u64, data: Vec<u16>) -> (call: CoreCall<K, W>)
        ensures
            call == self.call(CoreOp::<W>::WriteMemory16 { address, data }),
    {
        self.request(CoreOp::WriteMemory16 { address, data })
    }

    pub fn read_memory_64<W>(&self, address: u64, count: u32) -> (call: CoreCall<K, W>)
        ensures
            call == self.call(CoreOp::<W>::ReadMemory64 { address, count: count as usize }),
    {
        self.request(CoreOp::ReadMemory64 { address, count: count as usize })
    }

    pub fn write_memory_64<W>(&self, address: u64, data: Vec<u64>) -> (call: CoreCall<K, W>)
        ensures
            call == self.call(CoreOp::<W>::WriteMemory64 { address, data }),
    {
        self.request(CoreOp::WriteMemory64 { address, data })
    }

    /// Reads up to `count` bytes; stops early (shorter result) at unreadable memory.
    pub fn read_bytes<W>(&self, address: u64, count: u32) -> (call: CoreCall<K, W>)
        ensures
            call == self.call(CoreOp::<W>::ReadBytes { address, count: count as usize }),
    {
        self.request(CoreOp::ReadBytes { address, count: count as usize })
    }

    pub fn write_register<W>(&self, id: u16, value: W) -> (call: CoreCall<K, W>)
        ensures
            call == self.call(CoreOp::<W>::WriteRegister { id: RegisterId(id), value }),
    {
        self.request(CoreOp::WriteRegister { id: RegisterId(id), value })
    }

    /// One result per address, e.g. a failure where no comparator is free.
    pub fn set_hw_breakpoints<W>(&self, addresses: Vec<u64>) -> (call: CoreCall<K, W>)
        ensures
            call == self.call(CoreOp::<W>::SetHwBreakpoints { addresses }),
    {
        self.request(CoreOp::SetHwBreakpoints { addresses })
    }

    pub fn clear_hw_breakpoints<W>(&self, addresses: Vec<u64>) -> (call: CoreCall<K, W>)
        ensures
            call == self.call(CoreOp::<W>::ClearHwBreakpoints { addresses }),
    {
        self.request(CoreOp::ClearHwBreakpoints { addresses })
    }

    pub fn enable_vector_catch<W>(&self, condition: W) -> (call: CoreCall<K, W>)
        ensures
            call == self.call(CoreOp::<W>::EnableVectorCatch { condition }),
    {
        self.request(CoreOp::EnableVectorCatch { condition })
    }

    pub fn metadata<W>(&self) -> (call: CoreCall<K, W>)
        ensures
            call == self.call(CoreOp::<W>::Metadata),
    {
        self.request(CoreOp::Metadata)
    }

    /// Service a semihosting request the core is halted on (console and file writes); the server
    /// resumes the core when it handled the call.
    pub fn handle_semihosting<W>(&self) -> (call: CoreCall<K, W>)
        ensures
            call == self.call(CoreOp::<W>::HandleSemihosting),
    {
        self.request(CoreOp::HandleSemihosting)
    }
}

/// Report how a dump was encoded: the bytes of the coredump file, or a rejection of kind
/// `coredump`.
pub fn coredump_outcome(encoded: Result<Vec<u8>, String>) -> (outcome: Result<Vec<u8>, Rejection>)
    ensures
        match encoded {
            Ok(file) => outcome == Ok::<Vec<u8>, Rejection>(file),
            Err(message) => outcome is Err && outcome->Err_0@ == plain_rejection(
                "coredump"@,
                message@,
            ),
        },
{
    match encoded {
        Ok(file) => Ok(file),
        Err(message) => Err(error("coredump", message)),
    }
}

} // verus!
